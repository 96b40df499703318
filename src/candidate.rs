use vstd::prelude::*;

use crate::registrar_url::RegistrarUrl;

verus! {

/// One concrete transport address of a registrar: an IP address literal
/// (as text, e.g. `192.0.2.1` or `fe80::1234`) and a TCP port.
#[derive(Debug, Clone, PartialEq, Eq)]
pub struct Endpoint {
    pub address: String,
    pub port: u16,
}

impl View for Endpoint {
    type V = (Seq<char>, u16);

    open spec fn view(&self) -> (Seq<char>, u16) {
        (self.address@, self.port)
    }
}

impl Endpoint {
    pub fn new(address: String, port: u16) -> (r: Endpoint)
        ensures
            r == (Endpoint { address, port }),
            r@ == (address@, port),
    {
        Endpoint { address, port }
    }
}

/// Why a registrar could not be turned into a queued candidate.
#[derive(Debug, Clone, Copy, PartialEq, Eq, Structural)]
pub enum CandidateError {
    /// The text is not an absolute URL.
    InvalidUrl,
    /// The URL scheme is neither `https` nor `coaps`.
    SchemeError,
    /// The host has no resolvable address (or the URL names no host).
    ResolutionError,
    /// The discovery queue is at capacity.
    QueueFull,
    /// The consumer side of the discovery queue is gone.
    ChannelClosedError,
}

/// Where a candidate came from: a registrar URL, or a bare address and port.
#[derive(Debug, Clone, PartialEq, Eq)]
pub enum CandidateOrigin {
    Url(RegistrarUrl),
    Address(Endpoint),
}

/// The abstract value of a candidate: its origin and its endpoints in
/// resolution order.
pub struct CandidateView {
    pub origin: CandidateOrigin,
    pub endpoints: Seq<(Seq<char>, u16)>,
}

/// A discovered registrar ("join proxy"): where it came from and the
/// endpoints to try, in resolution order. It always has at least one
/// endpoint.
#[derive(Debug, PartialEq, Eq)]
pub struct JoinProxyInfo {
    origin: CandidateOrigin,
    addrs: Vec<Endpoint>,
}

pub open spec fn endpoint_views(v: Seq<Endpoint>) -> Seq<(Seq<char>, u16)> {
    v.map_values(|e: Endpoint| e@)
}

impl View for JoinProxyInfo {
    type V = CandidateView;

    closed spec fn view(&self) -> CandidateView {
        CandidateView { origin: self.origin, endpoints: endpoint_views(self.addrs@) }
    }
}

impl JoinProxyInfo {
    #[verifier::type_invariant]
    spec fn has_endpoints(self) -> bool {
        self.addrs@.len() > 0
    }

    /// Builds a candidate; there is none without an endpoint.
    pub fn new(origin: CandidateOrigin, addrs: Vec<Endpoint>) -> (r: Option<JoinProxyInfo>)
        ensures
            r is Some <==> addrs@.len() > 0,
            r matches Some(c) ==> c@.origin == origin && c@.endpoints == endpoint_views(addrs@),
    {
        if addrs.len() == 0 {
            None
        } else {
            Some(JoinProxyInfo { origin, addrs })
        }
    }

    pub fn origin(&self) -> (r: &CandidateOrigin)
        ensures
            *r == self@.origin,
    {
        &self.origin
    }

    /// Number of endpoints; never zero.
    pub fn endpoint_count(&self) -> (n: usize)
        ensures
            n == self@.endpoints.len(),
            n > 0,
    {
        proof {
            use_type_invariant(self);
        }
        self.addrs.len()
    }

    pub fn endpoint(&self, i: usize) -> (r: &Endpoint)
        requires
            i < self@.endpoints.len(),
        ensures
            r@ == self@.endpoints[i as int],
    {
        &self.addrs[i]
    }
}

} // verus!
