//! The health aggregator: a readiness probe goes to every backend
//! dependency, none is skipped after a failure, and the verdict is
//! unhealthy exactly when at least one probe failed.

use crate::status::StatusCode;
use vstd::prelude::*;

verus! {

/// A backend dependency of the gateway, one per resource family.
#[derive(Clone, Copy, Debug, PartialEq, Eq, Structural)]
pub enum Backend {
    /// The vertiport storage service.
    Vertiport,
    /// The vertipad storage service.
    Vertipad,
    /// The vehicle storage service.
    Vehicle,
}

/// The dependencies a health check must probe: every backend, each
/// exactly once, whatever earlier probes returned.
pub fn health_probe_plan() -> (r: Vec<Backend>)
    ensures
        r@ == seq![Backend::Vertiport, Backend::Vertipad, Backend::Vehicle],
{
    let mut r: Vec<Backend> = Vec::new();
    r.push(Backend::Vertiport);
    r.push(Backend::Vertipad);
    r.push(Backend::Vehicle);
    proof {
        assert(r@ =~= seq![Backend::Vertiport, Backend::Vertipad, Backend::Vehicle]);
    }
    r
}

/// The aggregate verdict over the three probe results: healthy
/// exactly when every dependency answered ready, service-unavailable
/// otherwise.
pub fn health_check(vertiport_ready: bool, vertipad_ready: bool, vehicle_ready: bool) -> (r:
    Result<(), StatusCode>)
    ensures
        r is Ok <==> (vertiport_ready && vertipad_ready && vehicle_ready),
        r is Err ==> r == Err::<(), StatusCode>(StatusCode::ServiceUnavailable),
{
    let mut ok = true;
    if !vertiport_ready {
        ok = false;
    }
    if !vertipad_ready {
        ok = false;
    }
    if !vehicle_ready {
        ok = false;
    }
    if ok {
        Ok(())
    } else {
        Err(StatusCode::ServiceUnavailable)
    }
}

} // verus!
