//! The backend connection cache: one lazily-established, explicitly
//! invalidatable connection holder per backend service, as a three-state
//! machine per backend: unconnected, connecting, connected.
//!
//! A caller polls the cache under its lock. A connected cache hands out
//! the cached handle; a cold one moves to connecting and directs exactly
//! one connect attempt, whose outcome the caller reports back; while a
//! connect is in flight, no further connect is directed, so callers
//! racing on a cold cache collapse to a single attempt. `invalidate`
//! returns the cache to unconnected, so the next caller performs a
//! fresh connect rather than reusing a dead handle.

use vstd::prelude::*;
use vstd::string::StringExecFns;

verus! {

#[derive(Debug)]
enum ConnState<T> {
    Unconnected,
    Connecting,
    Connected(T),
}

/// The connection cache for one backend service: its connection state
/// and the statically-configured address to connect to.
#[derive(Debug)]
pub struct GrpcClient<T> {
    state: ConnState<T>,
    address: String,
}

/// What a poll of the cache directs the caller to do.
#[derive(Debug)]
pub enum ConnectDecision {
    /// Use the cached handle; no connect attempt.
    Reuse,
    /// Another caller's connect attempt is in flight; make none.
    InFlight,
    /// Establish a connection to this address and report the outcome.
    Connect(String),
}

/// Whether the cache's state directs a caller to open a connection.
/// Only a fully unconnected cache does: a connected one is reused, and
/// one with a connect in flight waits for that attempt's outcome.
pub open spec fn directs_connect<T>(c: GrpcClient<T>) -> bool {
    c.unconnected()
}

impl<T> GrpcClient<T> {
    /// Whether the cache holds a live handle.
    pub closed spec fn connected(&self) -> bool {
        self.state is Connected
    }

    /// Whether a connect attempt is in flight.
    pub closed spec fn connecting(&self) -> bool {
        self.state is Connecting
    }

    /// Whether the cache is cold: no handle and no attempt in flight.
    pub closed spec fn unconnected(&self) -> bool {
        self.state is Unconnected
    }

    /// The cached handle, when one is live.
    pub closed spec fn handle(&self) -> Option<T> {
        match self.state {
            ConnState::Connected(c) => Some(c),
            _ => None,
        }
    }

    /// The address the cache connects to.
    pub closed spec fn address_spec(&self) -> Seq<char> {
        self.address@
    }

    /// A fresh cache: unconnected, remembering its backend's address.
    pub fn new(address: String) -> (r: Self)
        ensures
            r.unconnected(),
            r.address_spec() == address@,
    {
        GrpcClient { state: ConnState::Unconnected, address }
    }

    /// The connect-or-return-cached decision. A connected cache is
    /// reused untouched; a cold one moves to connecting and hands out
    /// its address, and after any poll the cache directs no further
    /// connect until the in-flight attempt is resolved.
    pub fn poll_connect(&mut self) -> (r: ConnectDecision)
        ensures
            !directs_connect(*final(self)),
            final(self).address_spec() == old(self).address_spec(),
            old(self).connected() ==> *final(self) == *old(self) && (r is Reuse),
            old(self).connecting() ==> *final(self) == *old(self) && (r is InFlight),
            old(self).unconnected() ==> {
                &&& final(self).connecting()
                &&& r matches ConnectDecision::Connect(a) && a@ == old(self).address_spec()
            },
    {
        match &self.state {
            ConnState::Connected(_) => ConnectDecision::Reuse,
            ConnState::Connecting => ConnectDecision::InFlight,
            ConnState::Unconnected => {
                self.state = ConnState::Connecting;
                ConnectDecision::Connect(self.address.clone())
            },
        }
    }

    /// Report the outcome of the connect attempt this cache directed:
    /// the cache becomes connected to the fresh handle, or returns to
    /// unconnected when the attempt failed.
    pub fn complete_connect(&mut self, outcome: Option<T>)
        requires
            old(self).connecting(),
        ensures
            final(self).address_spec() == old(self).address_spec(),
            outcome matches Some(c) ==> final(self).connected() && final(self).handle() == Some(
                c,
            ),
            outcome is None ==> final(self).unconnected(),
    {
        self.state = match outcome {
            Some(client) => ConnState::Connected(client),
            None => ConnState::Unconnected,
        };
    }

    /// The cached handle.
    pub fn client(&self) -> (r: Option<&T>)
        ensures
            r is Some <==> self.connected(),
            r matches Some(c) ==> self.handle() == Some(*c),
    {
        match &self.state {
            ConnState::Connected(c) => Some(c),
            _ => None,
        }
    }

    /// Drop the cached handle, so the next poll directs a fresh connect
    /// attempt; a caller that observed a transport failure uses this
    /// instead of reusing a dead handle indefinitely.
    pub fn invalidate(&mut self)
        ensures
            final(self).unconnected(),
            final(self).address_spec() == old(self).address_spec(),
    {
        self.state = ConnState::Unconnected;
    }
}

/// A connected cache directs no connect attempt: once one caller's
/// connect has been stored, every later caller reuses the cached
/// handle.
pub proof fn lemma_connected_reuses<T>(c: GrpcClient<T>)
    requires
        c.connected(),
    ensures
        !directs_connect(c),
{
}

/// While a connect attempt is in flight, no second attempt is directed:
/// callers racing on a cold cache collapse to a single connect.
pub proof fn lemma_single_flight<T>(c: GrpcClient<T>)
    requires
        c.connecting(),
    ensures
        !directs_connect(c),
{
}

/// An unconnected cache, in particular one just invalidated, directs a
/// fresh connect attempt rather than reusing anything.
pub proof fn lemma_invalidate_forces_reconnect<T>(c: GrpcClient<T>)
    requires
        c.unconnected(),
    ensures
        directs_connect(c),
{
}

/// The backend address in `http://host:port` form, from the configured
/// host and port.
pub fn get_grpc_endpoint(host: &str, port: &str) -> (r: String)
    ensures
        r@ == "http://"@ + host@ + ":"@ + port@,
{
    let mut r = "http://".to_owned();
    r.append(host);
    r.append(":");
    r.append(port);
    r
}

} // verus!
