//! The gateway's own RPC service: a readiness probe that peers call to
//! see whether this service is up. The transport wrapper lives outside
//! the library.

use vstd::prelude::*;

verus! {

/// A readiness request; it carries nothing.
#[derive(Clone, Copy, Debug, PartialEq, Eq, Structural)]
pub struct ReadyRequest {}

/// A readiness answer.
#[derive(Clone, Copy, Debug, PartialEq, Eq, Structural)]
pub struct ReadyResponse {
    /// Whether the service is ready.
    pub ready: bool,
}

/// The gateway's RPC service implementation.
#[derive(Debug, Default, Copy, Clone, PartialEq, Eq, Structural)]
pub struct ServerImpl {}

impl ServerImpl {
    /// Answer a readiness probe: a running gateway is always ready.
    pub fn is_ready(&self, _request: ReadyRequest) -> (r: ReadyResponse)
        ensures
            r.ready == true,
    {
        ReadyResponse { ready: true }
    }
}

} // verus!
