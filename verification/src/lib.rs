//! Authentication and per-resource authorization core.
//!
//! The crate verifies the security-critical subsystem of a multi-tenant REST
//! backend: credential hashing, stateless signed session tokens, request-time
//! identity extraction, and the ownership-scoping discipline that every
//! protected resource operation must follow.  HTTP routing, persistence and
//! other plumbing are collaborators that sit outside this crate and call into
//! it.

pub mod account;
pub mod ai;
pub mod compliance;
pub mod config;
pub mod crypto;
pub mod dashboard;
pub mod documents;
pub mod errors;
pub mod extract;
pub mod files;
pub mod risk;
pub mod store;
pub mod text;
pub mod token;
pub mod users;
