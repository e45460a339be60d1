//! Dashboard aggregation rows and their query parameters.  The counting
//! itself is the storage collaborator's work; this module holds the shapes
//! it fills in and the defaults for the activity listing.

use vstd::prelude::*;

verus! {

/// Compliance-item counts for one user.
#[derive(Debug, Clone, PartialEq, Eq, Structural)]
pub struct DashboardStatsQuery {
    /// All compliance items.
    pub total: i64,
    /// Items not yet started.
    pub pending: i64,
    /// Items being worked on.
    pub in_progress: i64,
    /// Items done.
    pub completed: i64,
    /// Items past their due date.
    pub expired: i64,
}

/// Document counts for one user.
#[derive(Debug, Clone, PartialEq, Eq, Structural)]
pub struct DocumentStatsQuery {
    /// All documents.
    pub total: i64,
    /// Documents with analysis results.
    pub analyzed: i64,
}

/// Query parameters of the recent-activity listing.
#[derive(Debug, Clone, PartialEq, Eq, Structural)]
pub struct ActivityQuery {
    /// Maximum number of items to return.
    pub limit: i64,
}

/// The activity listing's default page size.
pub fn default_limit() -> (r: i64)
    ensures
        r == 10,
{
    10
}

/// Clamp a requested activity page size: a limit outside 1 to 100 falls
/// back to the default of 10.
pub fn clamp_activity_limit(limit: i64) -> (r: i64)
    ensures
        (1 <= limit <= 100) ==> r == limit,
        !(1 <= limit <= 100) ==> r == 10,
{
    if limit > 0 && limit <= 100 {
        limit
    } else {
        10
    }
}

} // verus!
