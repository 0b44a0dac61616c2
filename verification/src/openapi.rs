//! Errors of the OpenAPI specification export, and the outcome the
//! export reports: rendering the document decides first, and only a
//! rendered document is ever written.

use vstd::prelude::*;

verus! {

/// Errors with OpenAPI generation.
#[derive(Debug, Clone, Copy, PartialEq, Eq, Structural)]
pub enum OpenApiError {
    /// Failed to export as JSON string.
    Json,
    /// Failed to write to file.
    FileWrite,
}

impl OpenApiError {
    /// A human-readable description of the error.
    pub fn to_string(&self) -> (r: String)
        ensures
            *self == OpenApiError::Json ==> r@ == "Failed to export as JSON string"@,
            *self == OpenApiError::FileWrite ==> r@ == "Failed to write to file"@,
    {
        match self {
            OpenApiError::Json => "Failed to export as JSON string".to_owned(),
            OpenApiError::FileWrite => "Failed to write to file".to_owned(),
        }
    }
}

/// The outcome of a specification export, from whether the document
/// rendered and whether the write succeeded; the write's outcome only
/// matters once rendering has succeeded, because a document that failed
/// to render is never written.
pub fn openapi_spec_outcome(rendered_ok: bool, written_ok: bool) -> (r: Result<(), OpenApiError>)
    ensures
        !rendered_ok ==> r == Err::<(), OpenApiError>(OpenApiError::Json),
        rendered_ok && !written_ok ==> r == Err::<(), OpenApiError>(OpenApiError::FileWrite),
        rendered_ok && written_ok ==> r == Ok::<(), OpenApiError>(()),
{
    if !rendered_ok {
        Err(OpenApiError::Json)
    } else if !written_ok {
        Err(OpenApiError::FileWrite)
    } else {
        Ok(())
    }
}

} // verus!
