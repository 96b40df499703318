use vstd::prelude::*;

use crate::candidate::{endpoint_views, CandidateError, CandidateOrigin, Endpoint, JoinProxyInfo};
use crate::queue::{accepts, after_pop, pop_result, Dequeued, DiscoveryQueue, QueueView, Refused};
use crate::registrar_url::{
    default_port_spec, effective_port, lemma_default_ports, resolution_target, RegistrarUrl,
};
use crate::session::{fresh_session, outcome_of, session_wf, BootstrapSession, SessionOutcome};

verus! {

/// Relies on `dns_lookup::lookup_host`: the addresses a host name resolves
/// to, each in its textual form, or `None` when the lookup fails. The
/// answer depends on the network, so nothing is stated of it.
#[verifier::external_body]
fn lookup_host(host: &str) -> (r: Option<Vec<String>>) {
    match dns_lookup::lookup_host(host) {
        Ok(addrs) => Some(addrs.iter().map(|a| a.to_string()).collect()),
        Err(_) => None,
    }
}

/// The endpoints that pair each address of `hosts`, in order, with `port`.
pub open spec fn address_endpoints(hosts: Seq<String>, port: u16) -> Seq<(Seq<char>, u16)> {
    hosts.map_values(|h: String| (h@, port))
}

/// Abstract state of the bootstrap agent: the discovery queue and the
/// outcomes reported so far, oldest first.
pub struct BootstrapView {
    pub queue: QueueView,
    pub outcomes: Seq<SessionOutcome>,
}

/// Whether a queue in state `q` took a candidate with `origin` and
/// `endpoints` at its back, and nothing else changed.
pub open spec fn enqueued(
    old_q: QueueView,
    new_q: QueueView,
    origin: CandidateOrigin,
    endpoints: Seq<(Seq<char>, u16)>,
) -> bool {
    &&& new_q.capacity == old_q.capacity
    &&& new_q.closed == old_q.closed
    &&& new_q.items.len() == old_q.items.len() + 1
    &&& new_q.items.drop_last() == old_q.items
    &&& new_q.items.last()@.origin == origin
    &&& new_q.items.last()@.endpoints == endpoints
}

/// The error a queue in state `q` gives for a candidate it refuses.
pub open spec fn refusal(q: QueueView) -> CandidateError {
    if q.closed {
        CandidateError::ChannelClosedError
    } else {
        CandidateError::QueueFull
    }
}

/// Reporting a session's outcome appends it to the log and changes nothing else.
pub open spec fn after_report(st: BootstrapView, o: SessionOutcome) -> BootstrapView {
    BootstrapView { outcomes: st.outcomes.push(o), ..st }
}

/// Taking the next candidate from the queue.
pub open spec fn after_next(st: BootstrapView) -> BootstrapView {
    BootstrapView { queue: after_pop(st.queue), ..st }
}

/// What the consumer is told to do next.
#[derive(Debug)]
pub enum NextSession {
    /// Drive this fresh session for the oldest queued candidate.
    Start(BootstrapSession),
    /// Nothing queued yet; producers may still add candidates.
    Wait,
    /// Nothing queued and no producer left: stop.
    Finished,
}

/// The bootstrap agent's state: the discovery queue that producers fill
/// with registrar candidates and that one consumer drains, session by
/// session, and the log of reported outcomes.
#[derive(Debug)]
pub struct BootstrapState {
    registrars: DiscoveryQueue,
    outcomes: Vec<SessionOutcome>,
}

impl View for BootstrapState {
    type V = BootstrapView;

    closed spec fn view(&self) -> BootstrapView {
        BootstrapView { queue: self.registrars@, outcomes: self.outcomes@ }
    }
}

impl BootstrapState {
    /// An agent with the given queue and no reported outcome.
    pub fn empty(queue: DiscoveryQueue) -> (r: BootstrapState)
        ensures
            r@.queue == queue@,
            r@.outcomes.len() == 0,
    {
        BootstrapState { registrars: queue, outcomes: Vec::new() }
    }

    /// An open, empty discovery queue holding at most `capacity` candidates.
    pub fn channel(capacity: usize) -> (r: DiscoveryQueue)
        ensures
            r@.items.len() == 0,
            r@.capacity == capacity,
            !r@.closed,
    {
        DiscoveryQueue::new(capacity)
    }

    /// Pairs each address, in order, with `port`.
    pub fn addr2sockaddr(hosts: Vec<String>, port: u16) -> (r: Vec<Endpoint>)
        ensures
            endpoint_views(r@) == address_endpoints(hosts@, port),
    {
        let mut r: Vec<Endpoint> = Vec::new();
        let mut i: usize = 0;
        while i < hosts.len()
            invariant
                i <= hosts@.len(),
                r@.len() == i,
                forall|j: int| 0 <= j < i ==> #[trigger] r@[j]@ == (hosts@[j]@, port),
            decreases hosts@.len() - i,
        {
            r.push(Endpoint::new(hosts[i].clone(), port));
            i += 1;
        }
        assert(endpoint_views(r@) =~= address_endpoints(hosts@, port));
        r
    }

    /// Queues a candidate for `origin` from the result of resolving it:
    /// a failed or empty resolution is a `ResolutionError`, a refusing
    /// queue gives its error, and on any error nothing is queued.
    pub fn add_resolved_registrar(
        &mut self,
        origin: CandidateOrigin,
        resolved: Option<Vec<String>>,
        port: u16,
    ) -> (r: Result<(), CandidateError>)
        ensures
            final(self)@.outcomes == old(self)@.outcomes,
            r is Err ==> final(self)@ == old(self)@,
            match resolved {
                None => r == Err::<(), CandidateError>(CandidateError::ResolutionError),
                Some(hosts) => if hosts@.len() == 0 {
                    r == Err::<(), CandidateError>(CandidateError::ResolutionError)
                } else if !accepts(old(self)@.queue) {
                    r == Err::<(), CandidateError>(refusal(old(self)@.queue))
                } else {
                    r is Ok && enqueued(
                        old(self)@.queue,
                        final(self)@.queue,
                        origin,
                        address_endpoints(hosts@, port),
                    )
                },
            },
    {
        let hosts = match resolved {
            Some(h) => h,
            None => return Err(CandidateError::ResolutionError),
        };
        let ghost hosts_view = hosts@;
        let addrs = BootstrapState::addr2sockaddr(hosts, port);
        assert(addrs@.len() == endpoint_views(addrs@).len());
        let candidate = match JoinProxyInfo::new(origin, addrs) {
            Some(c) => c,
            None => return Err(CandidateError::ResolutionError),
        };
        let ghost c = candidate;
        match self.registrars.push(candidate) {
            Ok(()) => {
                proof {
                    assert(self.registrars@.items.drop_last() =~= old(self)@.queue.items);
                    assert(self.registrars@.items.last() == c);
                }
                Ok(())
            },
            Err(Refused::Full(_)) => Err(CandidateError::QueueFull),
            Err(Refused::Closed(_)) => Err(CandidateError::ChannelClosedError),
        }
    }

    /// Queues a candidate for a registrar URL. The scheme is checked first
    /// (an unsupported one is refused before any lookup), then the host is
    /// resolved and each address paired with the URL's port or the scheme's
    /// default.
    pub fn add_registrar_by_url(&mut self, url: RegistrarUrl) -> (r: Result<(), CandidateError>)
        ensures
            final(self)@.outcomes == old(self)@.outcomes,
            r is Err ==> final(self)@ == old(self)@,
            default_port_spec(url.scheme@) is None ==> r == Err::<(), CandidateError>(
                CandidateError::SchemeError,
            ),
            default_port_spec(url.scheme@) is Some && url.host is None ==> r == Err::<
                (),
                CandidateError,
            >(CandidateError::ResolutionError),
            default_port_spec(url.scheme@) is Some && url.host is Some ==> (r is Ok || r == Err::<
                (),
                CandidateError,
            >(CandidateError::ResolutionError) || r == Err::<(), CandidateError>(
                refusal(old(self)@.queue),
            )),
            r is Ok ==> exists|hosts: Seq<String>|
                {
                    &&& hosts.len() > 0
                    &&& enqueued(
                        old(self)@.queue,
                        final(self)@.queue,
                        CandidateOrigin::Url(url),
                        address_endpoints(hosts, effective_port(url@).unwrap()),
                    )
                },
            r == Err::<(), CandidateError>(refusal(old(self)@.queue)) ==> !accepts(
                old(self)@.queue,
            ),
    {
        let target = match resolution_target(&url) {
            Ok(t) => t,
            Err(e) => return Err(e),
        };
        let resolved = lookup_host(target.host.as_str());
        let port = target.port;
        let r = self.add_resolved_registrar(CandidateOrigin::Url(url), resolved, port);
        proof {
            if r is Ok {
                let hosts = resolved.unwrap()@;
                assert(hosts.len() > 0);
            }
        }
        r
    }

    /// Queues a single-endpoint candidate for an address already known;
    /// no resolution takes place.
    pub fn add_registrar_by_ip(&mut self, ip: String, port: u16) -> (r: Result<(), CandidateError>)
        ensures
            final(self)@.outcomes == old(self)@.outcomes,
            accepts(old(self)@.queue) ==> r is Ok && enqueued(
                old(self)@.queue,
                final(self)@.queue,
                CandidateOrigin::Address(Endpoint { address: ip, port }),
                seq![(ip@, port)],
            ),
            !accepts(old(self)@.queue) ==> r == Err::<(), CandidateError>(
                refusal(old(self)@.queue),
            ) && final(self)@ == old(self)@,
    {
        let origin = CandidateOrigin::Address(Endpoint::new(ip.clone(), port));
        let mut hosts: Vec<String> = Vec::new();
        hosts.push(ip);
        proof {
            assert(address_endpoints(hosts@, port) =~= seq![(ip@, port)]);
        }
        self.add_resolved_registrar(origin, Some(hosts), port)
    }

    /// Releases the producer side: the consumer finishes once the queue is
    /// drained.
    pub fn close(&mut self)
        ensures
            final(self)@ == (BootstrapView {
                queue: QueueView { closed: true, ..old(self)@.queue },
                ..old(self)@
            }),
    {
        self.registrars.close();
    }

    /// Takes the oldest queued candidate and opens a session for it.
    pub fn next_session(&mut self) -> (r: NextSession)
        ensures
            final(self)@ == after_next(old(self)@),
            match pop_result(old(self)@.queue) {
                Dequeued::Item(c) => r matches NextSession::Start(s) && s@ == fresh_session(c)
                    && session_wf(s@),
                Dequeued::Empty => r is Wait,
                Dequeued::Closed => r is Finished,
            },
    {
        match self.registrars.pop() {
            Dequeued::Item(c) => NextSession::Start(BootstrapSession::new(c)),
            Dequeued::Empty => NextSession::Wait,
            Dequeued::Closed => NextSession::Finished,
        }
    }

    /// Records the outcome of a finished session. No outcome stops the
    /// agent: the queue is left as it is.
    pub fn report(&mut self, session: &BootstrapSession)
        ensures
            final(self)@ == after_report(old(self)@, outcome_of(session@)),
    {
        let o = session.outcome();
        self.outcomes.push(o);
    }

    pub fn queue(&self) -> (r: &DiscoveryQueue)
        ensures
            r@ == self@.queue,
    {
        &self.registrars
    }

    /// The reported outcomes, oldest first.
    pub fn outcomes(&self) -> (r: &Vec<SessionOutcome>)
        ensures
            r@ == self@.outcomes,
    {
        &self.outcomes
    }
}

/// Default ports of queued URL registrars: a URL with scheme `https` (or
/// `coaps`) and no explicit port that is queued with the resolved `hosts`
/// gets one endpoint per address, in resolution order, each on port 443
/// (or 5684).
pub proof fn lemma_url_candidate_endpoints(url: RegistrarUrl, hosts: Seq<String>)
    requires
        url.port is None,
    ensures
        url.scheme@ == "https"@ ==> address_endpoints(hosts, effective_port(url@).unwrap())
            == address_endpoints(hosts, 443),
        url.scheme@ == "coaps"@ ==> address_endpoints(hosts, effective_port(url@).unwrap())
            == address_endpoints(hosts, 5684),
        forall|p: u16, i: int|
            0 <= i < hosts.len() ==> #[trigger] address_endpoints(hosts, p)[i] == (hosts[i]@, p),
        forall|p: u16| #[trigger] address_endpoints(hosts, p).len() == hosts.len(),
{
    lemma_default_ports(url@);
}

/// Exhaustion is not fatal: after the session for the oldest candidate is
/// taken and reported as having exhausted its endpoints, the consumer takes
/// the next queued candidate.
pub proof fn lemma_exhaustion_not_fatal(st: BootstrapView)
    requires
        st.queue.items.len() >= 2,
    ensures
        pop_result(st.queue) == Dequeued::Item(st.queue.items[0]),
        pop_result(
            after_report(after_next(st), SessionOutcome::ExhaustedAllEndpoints).queue,
        ) == Dequeued::Item(st.queue.items[1]),
        after_report(after_next(st), SessionOutcome::ExhaustedAllEndpoints).outcomes == st.outcomes.push(
            SessionOutcome::ExhaustedAllEndpoints,
        ),
{
}

} // verus!
