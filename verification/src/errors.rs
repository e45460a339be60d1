//! Error taxonomy of the core, and its mapping to HTTP responses.
//!
//! Every failure is recovered at the request boundary into a structured
//! response whose status code is determined by the error's category and whose
//! client-visible text never exposes internal detail for server-side faults.

use vstd::prelude::*;

verus! {

/// Application-wide error type.
///
/// Variants that wrap collaborator failures (`Database`, `Io`, `Migrate`)
/// carry the collaborator's message for server-side logging only; the
/// client-visible label of such an error is a fixed generic string.
#[derive(Debug, Clone)]
pub enum AppError {
    /// Failure reported by the storage collaborator.
    Database(String),
    /// Absent or unverifiable credential, or wrong email/password.
    Auth(String),
    /// Malformed caller-correctable input.
    Validation(String),
    /// Resource absent, or present but owned by another tenant.
    NotFound(String),
    /// Internal fault (for example a hashing failure).
    Internal(String),
    /// Token could not be verified.
    Jwt(String),
    /// Failure of the AI collaborator.
    Ollama(String),
    /// Filesystem failure.
    Io(String),
    /// Storage migration failure.
    Migrate(String),
}

impl AppError {
    /// HTTP status code that the error's category maps to.
    pub open spec fn spec_status_code(&self) -> u16 {
        match self {
            AppError::Database(_) => 500,
            AppError::Auth(_) => 401,
            AppError::Validation(_) => 400,
            AppError::NotFound(_) => 404,
            AppError::Internal(_) => 500,
            AppError::Jwt(_) => 401,
            AppError::Ollama(_) => 500,
            AppError::Io(_) => 500,
            AppError::Migrate(_) => 500,
        }
    }

    /// Client-visible label of the error.
    ///
    /// For server-side faults this is a fixed generic string: the wrapped
    /// detail is never part of it.
    pub open spec fn spec_public_label(&self) -> Seq<char> {
        match self {
            AppError::Database(_) => "Database error occurred"@,
            AppError::Auth(_) => "Authentication failed"@,
            AppError::Validation(m) => m@,
            AppError::NotFound(m) => m@,
            AppError::Internal(_) => "Internal server error"@,
            AppError::Jwt(_) => "Invalid token"@,
            AppError::Ollama(_) => "AI service error"@,
            AppError::Io(_) => "Internal server error"@,
            AppError::Migrate(_) => "Database migration failed"@,
        }
    }

    /// True for the categories whose detail must never reach a client.
    pub open spec fn spec_is_internal(&self) -> bool {
        match self {
            AppError::Database(_) => true,
            AppError::Internal(_) => true,
            AppError::Ollama(_) => true,
            AppError::Io(_) => true,
            AppError::Migrate(_) => true,
            _ => false,
        }
    }

    /// Status code of the HTTP response for this error.
    pub fn status_code(&self) -> (code: u16)
        ensures
            code == self.spec_status_code(),
    {
        match self {
            AppError::Database(_) => 500,
            AppError::Auth(_) => 401,
            AppError::Validation(_) => 400,
            AppError::NotFound(_) => 404,
            AppError::Internal(_) => 500,
            AppError::Jwt(_) => 401,
            AppError::Ollama(_) => 500,
            AppError::Io(_) => 500,
            AppError::Migrate(_) => 500,
        }
    }

    /// Client-visible label of the HTTP response for this error.
    pub fn public_label(&self) -> (label: String)
        ensures
            label@ == self.spec_public_label(),
    {
        match self {
            AppError::Database(_) => "Database error occurred".to_owned(),
            AppError::Auth(_) => "Authentication failed".to_owned(),
            AppError::Validation(m) => m.clone(),
            AppError::NotFound(m) => m.clone(),
            AppError::Internal(_) => "Internal server error".to_owned(),
            AppError::Jwt(_) => "Invalid token".to_owned(),
            AppError::Ollama(_) => "AI service error".to_owned(),
            AppError::Io(_) => "Internal server error".to_owned(),
            AppError::Migrate(_) => "Database migration failed".to_owned(),
        }
    }
}

/// Law: server-side fault detail never reaches a client.  The public
/// label of an error in an internal category is one of four fixed
/// strings, whatever detail the variant wraps.
pub proof fn lemma_internal_label_is_fixed(e: &AppError)
    requires
        e.spec_is_internal(),
    ensures
        e.spec_public_label() == "Database error occurred"@
            || e.spec_public_label() == "Internal server error"@
            || e.spec_public_label() == "AI service error"@
            || e.spec_public_label() == "Database migration failed"@,
{
}

/// Result type used throughout the core.
pub type AppResult<T> = Result<T, AppError>;

} // verus!
