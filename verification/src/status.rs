//! The error taxonomy of the gateway, as the HTTP status codes its
//! handlers answer with. The web layer maps each variant to the wire
//! code of the same name.

use vstd::prelude::*;

verus! {

/// HTTP status code returned by a handler when a request fails.
#[derive(Clone, Copy, Debug, PartialEq, Eq, Structural)]
pub enum StatusCode {
    /// A malformed request (for example an invalid id); the backend is
    /// never contacted.
    BadRequest,
    /// The backend reported that no record exists for the id.
    NotFound,
    /// A backend record violated the gateway's invariants, or a backend
    /// write failed.
    InternalServerError,
    /// A backend connection could not be established or reused.
    ServiceUnavailable,
    /// The route exists but its behaviour is not implemented.
    NotImplemented,
    /// The admission middleware rejected the request.
    TooManyRequests,
}

} // verus!
