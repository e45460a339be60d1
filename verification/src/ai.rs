//! Request shapes of the AI collaborator's endpoints.  The collaborator
//! itself — prompt building, transport, best-effort response parsing — is
//! outside the core.

use vstd::prelude::*;

verus! {

/// Request payload for document analysis.
#[derive(Debug)]
pub struct AnalyzeDocumentDto {
    /// The document text to analyze.
    pub text: String,
}

/// Request payload for a risk assessment.
#[derive(Debug)]
pub struct AssessRiskDto {
    /// Title of the compliance item.
    pub title: String,
    /// Description of the compliance item, when any.
    pub description: Option<String>,
}

} // verus!
