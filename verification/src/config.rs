//! Process configuration: the explicit struct handed into the service
//! constructors.  Reading it from the environment is the caller's work;
//! the core never looks configuration up ambiently, and a missing signing
//! secret must be a fatal startup error for the caller, never a default.

use vstd::prelude::*;
use crate::errors::AppError;
use crate::errors::AppResult;
use crate::text::all_digits;
use crate::text::dec_val;
use crate::text::parse_u64;

verus! {

/// Application configuration.
#[derive(Debug, Clone)]
pub struct Config {
    /// Connection string of the storage collaborator.
    pub database_url: String,
    /// Port the server listens on.
    pub port: u16,
    /// Signing secret of the token service.
    pub jwt_secret: String,
    /// Token lifetime in seconds.
    pub jwt_expiration: i64,
    /// Directory uploads are stored under.
    pub upload_dir: String,
    /// Maximum accepted upload size in bytes.
    pub max_file_size: u64,
    /// Base URL of the AI collaborator.
    pub ollama_url: String,
}

/// Parse a configured port, defaulting to 8000 when the variable is
/// absent: a present value must be a decimal number of at most 65535.
pub fn parse_port(v: Option<&str>) -> (r: AppResult<u16>)
    ensures
        v is None ==> (r matches Ok(p) && p == 8000),
        v matches Some(s) ==> (match r {
            Ok(p) => s@.len() > 0 && all_digits(s@) && p == dec_val(s@),
            Err(e) => e is Validation
                && (s@.len() == 0 || !all_digits(s@) || dec_val(s@) > 65535),
        }),
{
    let s = match v {
        Some(s) => s,
        None => {
            return Ok(8000);
        },
    };
    match parse_u64(s) {
        Some(n) if n <= 65535 => Ok(n as u16),
        _ => Err(AppError::Validation("PORT must be a valid number".to_owned())),
    }
}

/// Parse a configured token lifetime in seconds, defaulting to 86400 (24
/// hours) when the variable is absent.
pub fn parse_expiration(v: Option<&str>) -> (r: AppResult<i64>)
    ensures
        v is None ==> (r matches Ok(n) && n == 86400),
        v matches Some(s) ==> (match r {
            Ok(n) => s@.len() > 0 && all_digits(s@) && n == dec_val(s@),
            Err(e) => e is Validation
                && (s@.len() == 0 || !all_digits(s@) || dec_val(s@) > i64::MAX),
        }),
{
    let s = match v {
        Some(s) => s,
        None => {
            return Ok(86400);
        },
    };
    match parse_u64(s) {
        Some(n) if n <= 0x7fff_ffff_ffff_ffff => Ok(n as i64),
        _ => Err(AppError::Validation("JWT_EXPIRATION must be a valid number".to_owned())),
    }
}

/// Parse a configured maximum upload size in bytes, defaulting to
/// 52428800 (50 MB) when the variable is absent.
pub fn parse_max_file_size(v: Option<&str>) -> (r: AppResult<u64>)
    ensures
        v is None ==> (r matches Ok(n) && n == 52428800),
        v matches Some(s) ==> (match r {
            Ok(n) => s@.len() > 0 && all_digits(s@) && n == dec_val(s@),
            Err(e) => e is Validation
                && (s@.len() == 0 || !all_digits(s@) || dec_val(s@) > u64::MAX),
        }),
{
    let s = match v {
        Some(s) => s,
        None => {
            return Ok(52428800);
        },
    };
    match parse_u64(s) {
        Some(n) => Ok(n),
        None => Err(AppError::Validation("MAX_FILE_SIZE must be a valid number".to_owned())),
    }
}

} // verus!
