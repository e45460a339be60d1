//! Upload validation: size and MIME-type checks for incoming files.

use vstd::prelude::*;
use crate::errors::AppError;
use crate::errors::AppResult;
use crate::text::str_eq;
use crate::text::u64_to_string;

verus! {

/// Metadata of a stored upload.
#[derive(Debug)]
pub struct UploadedFile {
    /// Original filename.
    pub original_name: String,
    /// Stored filename.
    pub stored_name: String,
    /// Full path of the stored file.
    pub file_path: String,
    /// File size in bytes.
    pub size: u64,
    /// MIME type.
    pub mime_type: String,
}

/// Check an upload's size against the configured maximum; the error
/// message names both sizes.
pub fn validate_file_size(size: u64, max_size: u64) -> (r: AppResult<()>)
    ensures
        r is Ok <==> size <= max_size,
        r matches Err(e) ==> e is Validation,
{
    if size > max_size {
        let mut message = String::new();
        message.append("File size ");
        message.append(u64_to_string(size).as_str());
        message.append(" bytes exceeds maximum ");
        message.append(u64_to_string(max_size).as_str());
        message.append(" bytes");
        return Err(AppError::Validation(message));
    }
    Ok(())
}

/// Whether `s` is one of the accepted document MIME types.
pub open spec fn allowed_mime(s: Seq<char>) -> bool {
    ||| s == "application/pdf"@
    ||| s == "application/vnd.openxmlformats-officedocument.wordprocessingml.document"@
    ||| s == "application/msword"@
    ||| s == "text/plain"@
    ||| s == "text/csv"@
    ||| s == "application/json"@
}

/// Check an upload's MIME type against the accepted list.
pub fn validate_mime_type(mime_type: &str) -> (r: AppResult<()>)
    ensures
        r is Ok <==> allowed_mime(mime_type@),
        r matches Err(e) ==> e is Validation,
{
    if str_eq(mime_type, "application/pdf")
        || str_eq(
            mime_type,
            "application/vnd.openxmlformats-officedocument.wordprocessingml.document",
        )
        || str_eq(mime_type, "application/msword")
        || str_eq(mime_type, "text/plain")
        || str_eq(mime_type, "text/csv")
        || str_eq(mime_type, "application/json") {
        Ok(())
    } else {
        Err(AppError::Validation(
            "File type not allowed. Allowed types: PDF, DOCX, DOC, TXT, CSV, JSON"
                .to_owned()))
    }
}

} // verus!
