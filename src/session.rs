use vstd::prelude::*;

use crate::candidate::{Endpoint, JoinProxyInfo};
use crate::voucher::{
    request_result_view, Assertion, FieldsView, SignatureAlgorithm, VoucherError, VoucherFields,
    VoucherRequest, VoucherView,
};

verus! {

/// Why one attempt on one endpoint failed. Each of them moves the session
/// on to the next endpoint.
#[derive(Debug, Clone, Copy, PartialEq, Eq, Structural)]
pub enum JoinProxyInfoError {
    /// No transport connection (refused, unreachable, timed out).
    ConnectError,
    /// The transport connected but the security handshake failed.
    HandshakeError,
    /// The handshake succeeded but the peer presented no certificate.
    CertificateMissingError,
}

impl JoinProxyInfoError {
    /// A short human-readable description.
    pub fn description(&self) -> (r: String)
        ensures
            *self == JoinProxyInfoError::ConnectError ==> r@ == "Connection failed"@,
            *self == JoinProxyInfoError::HandshakeError ==> r@ == "TLS handshake failed"@,
            *self == JoinProxyInfoError::CertificateMissingError ==> r@ == "No Certificate Found"@,
    {
        match self {
            JoinProxyInfoError::ConnectError => String::from_str("Connection failed"),
            JoinProxyInfoError::HandshakeError => String::from_str("TLS handshake failed"),
            JoinProxyInfoError::CertificateMissingError => String::from_str("No Certificate Found"),
        }
    }
}

/// What one attempt on an endpoint came to.
#[derive(Debug, Clone, PartialEq, Eq)]
pub enum AttemptOutcome {
    /// A secure channel, with the first certificate the peer presented.
    Established(Vec<u8>),
    Failed(JoinProxyInfoError),
}

/// Why a session stopped without success.
#[derive(Debug, Clone, Copy, PartialEq, Eq, Structural)]
pub enum AbortReason {
    /// Bootstrap was abandoned from outside.
    Cancelled,
    /// The voucher request could not be built after connecting.
    Voucher(VoucherError),
}

/// Failover state of a session: not started, trying endpoint `i`,
/// connected through endpoint `i`, out of endpoints, or aborted.
#[derive(Debug, Clone, Copy, PartialEq, Eq, Structural)]
pub enum SessionState {
    Pending,
    Connecting(usize),
    Connected(usize),
    Exhausted,
    Aborted(AbortReason),
}

/// The outcome a session reports.
#[derive(Debug, Clone, Copy, PartialEq, Eq, Structural)]
pub enum SessionOutcome {
    InProgress,
    Succeeded,
    ExhaustedAllEndpoints,
    Aborted(AbortReason),
}

/// Abstract state of a bootstrap session.
pub struct SessionView {
    pub candidate: JoinProxyInfo,
    pub endpoint_count: nat,
    pub state: SessionState,
    /// Indices of the endpoints attempted so far, in attempt order.
    pub attempted: Seq<usize>,
    pub peer_certificate: Option<Seq<u8>>,
    pub voucher_request: Option<VoucherView>,
}

/// A session for `c` that has not started.
pub open spec fn fresh_session(c: JoinProxyInfo) -> SessionView {
    SessionView {
        candidate: c,
        endpoint_count: c@.endpoints.len(),
        state: SessionState::Pending,
        attempted: Seq::empty(),
        peer_certificate: None,
        voucher_request: None,
    }
}

/// The indices `0, 1, ..., k - 1`.
pub open spec fn first_indices(k: nat) -> Seq<usize> {
    Seq::new(k, |j: int| j as usize)
}

/// What holds of every session: endpoints are attempted in resolution
/// order, each at most once; a certificate is held only once connected,
/// and a voucher request only after that.
pub open spec fn session_wf(s: SessionView) -> bool {
    &&& 0 < s.endpoint_count <= usize::MAX
    &&& s.endpoint_count == s.candidate@.endpoints.len()
    &&& s.attempted == first_indices(s.attempted.len())
    &&& match s.state {
        SessionState::Pending => {
            &&& s.attempted.len() == 0
            &&& s.peer_certificate is None
            &&& s.voucher_request is None
        },
        SessionState::Connecting(i) => {
            &&& i < s.endpoint_count
            &&& s.attempted.len() == i
            &&& s.peer_certificate is None
            &&& s.voucher_request is None
        },
        SessionState::Connected(i) => {
            &&& i < s.endpoint_count
            &&& s.attempted.len() == i + 1
            &&& s.peer_certificate is Some
        },
        SessionState::Exhausted => {
            &&& s.attempted.len() == s.endpoint_count
            &&& s.peer_certificate is None
            &&& s.voucher_request is None
        },
        SessionState::Aborted(_) => {
            &&& s.attempted.len() <= s.endpoint_count
            &&& s.voucher_request is None
        },
    }
}

/// The outcome reported for a session in state `s`.
pub open spec fn outcome_of(s: SessionView) -> SessionOutcome {
    match s.state {
        SessionState::Connected(_) => if s.voucher_request is Some {
            SessionOutcome::Succeeded
        } else {
            SessionOutcome::InProgress
        },
        SessionState::Exhausted => SessionOutcome::ExhaustedAllEndpoints,
        SessionState::Aborted(r) => SessionOutcome::Aborted(r),
        _ => SessionOutcome::InProgress,
    }
}

/// Starting moves a pending session to its first endpoint.
pub open spec fn after_start(s: SessionView) -> SessionView {
    if s.state is Pending {
        SessionView { state: SessionState::Connecting(0), ..s }
    } else {
        s
    }
}

/// The failover step: the outcome of the attempt on endpoint `i` either
/// connects the session, moves it to endpoint `i + 1`, or exhausts it when
/// `i` was the last. Outside `Connecting` an outcome changes nothing.
pub open spec fn after_attempt(s: SessionView, o: AttemptOutcome) -> SessionView {
    match s.state {
        SessionState::Connecting(i) => match o {
            AttemptOutcome::Established(cert) => SessionView {
                state: SessionState::Connected(i),
                attempted: s.attempted.push(i),
                peer_certificate: Some(cert@),
                ..s
            },
            AttemptOutcome::Failed(_) => SessionView {
                state: if i + 1 < s.endpoint_count {
                    SessionState::Connecting((i + 1) as usize)
                } else {
                    SessionState::Exhausted
                },
                attempted: s.attempted.push(i),
                ..s
            },
        },
        _ => s,
    }
}

/// Cancelling aborts a session that has not reached a terminal outcome.
pub open spec fn after_cancel(s: SessionView) -> SessionView {
    if outcome_of(s) is InProgress {
        SessionView { state: SessionState::Aborted(AbortReason::Cancelled), ..s }
    } else {
        s
    }
}

/// A connected session takes the result of building its voucher request
/// once: it succeeds with the request, or aborts with the error.
pub open spec fn after_voucher(
    s: SessionView,
    r: Result<VoucherView, VoucherError>,
) -> SessionView {
    if s.state is Connected && s.voucher_request is None {
        match r {
            Ok(v) => SessionView { voucher_request: Some(v), ..s },
            Err(e) => SessionView { state: SessionState::Aborted(AbortReason::Voucher(e)), ..s },
        }
    } else {
        s
    }
}

/// The state after feeding the outcomes `outs` one by one.
pub open spec fn run_attempts(s: SessionView, outs: Seq<AttemptOutcome>) -> SessionView
    decreases outs.len(),
{
    if outs.len() == 0 {
        s
    } else {
        run_attempts(after_attempt(s, outs[0]), outs.drop_first())
    }
}

pub open spec fn opt_bytes_view(c: Option<Vec<u8>>) -> Option<Seq<u8>> {
    match c {
        Some(b) => Some(b@),
        None => None,
    }
}

pub open spec fn opt_request_view(v: Option<VoucherRequest>) -> Option<VoucherView> {
    match v {
        Some(r) => Some(r@),
        None => None,
    }
}

/// One attempt to onboard through one candidate: its failover over the
/// candidate's endpoints, the captured peer certificate and the voucher
/// request built after connecting.
#[derive(Debug)]
pub struct BootstrapSession {
    candidate: JoinProxyInfo,
    state: SessionState,
    attempted: Vec<usize>,
    peer_certificate: Option<Vec<u8>>,
    voucher_request: Option<VoucherRequest>,
}

impl View for BootstrapSession {
    type V = SessionView;

    closed spec fn view(&self) -> SessionView {
        SessionView {
            candidate: self.candidate,
            endpoint_count: self.candidate@.endpoints.len(),
            state: self.state,
            attempted: self.attempted@,
            peer_certificate: opt_bytes_view(self.peer_certificate),
            voucher_request: opt_request_view(self.voucher_request),
        }
    }
}

impl BootstrapSession {
    /// A pending session for `candidate`.
    pub fn new(candidate: JoinProxyInfo) -> (r: BootstrapSession)
        ensures
            r@ == fresh_session(candidate),
            session_wf(r@),
    {
        let n = candidate.endpoint_count();
        let r = BootstrapSession {
            candidate,
            state: SessionState::Pending,
            attempted: Vec::new(),
            peer_certificate: None,
            voucher_request: None,
        };
        assert(r@.attempted =~= first_indices(0));
        r
    }

    pub fn start(&mut self)
        requires
            session_wf(old(self)@),
        ensures
            final(self)@ == after_start(old(self)@),
            session_wf(final(self)@),
    {
        if let SessionState::Pending = self.state {
            self.state = SessionState::Connecting(0);
        }
    }

    /// The endpoint to attempt next, while the session is connecting.
    pub fn current_endpoint(&self) -> (r: Option<&Endpoint>)
        requires
            session_wf(self@),
        ensures
            match self@.state {
                SessionState::Connecting(i) => r matches Some(e) && e@ == self@.candidate@.endpoints[i as int],
                _ => r is None,
            },
    {
        match self.state {
            SessionState::Connecting(i) => Some(self.candidate.endpoint(i)),
            _ => None,
        }
    }

    /// Feeds the outcome of the attempt on the current endpoint.
    pub fn record_attempt(&mut self, outcome: AttemptOutcome)
        requires
            session_wf(old(self)@),
        ensures
            final(self)@ == after_attempt(old(self)@, outcome),
            session_wf(final(self)@),
    {
        if let SessionState::Connecting(i) = self.state {
            self.attempted.push(i);
            proof {
                assert(self.attempted@ =~= first_indices((i + 1) as nat));
            }
            match outcome {
                AttemptOutcome::Established(cert) => {
                    self.peer_certificate = Some(cert);
                    self.state = SessionState::Connected(i);
                },
                AttemptOutcome::Failed(_) => {
                    let n = self.candidate.endpoint_count();
                    if i + 1 < n {
                        self.state = SessionState::Connecting(i + 1);
                    } else {
                        self.state = SessionState::Exhausted;
                    }
                },
            }
        }
    }

    /// Abandons the session unless it already reached a terminal outcome.
    pub fn cancel(&mut self)
        requires
            session_wf(old(self)@),
        ensures
            final(self)@ == after_cancel(old(self)@),
            session_wf(final(self)@),
    {
        let terminal = match self.state {
            SessionState::Connected(_) => self.voucher_request.is_some(),
            SessionState::Exhausted => true,
            SessionState::Aborted(_) => true,
            _ => false,
        };
        if !terminal {
            self.state = SessionState::Aborted(AbortReason::Cancelled);
        }
    }

    /// The proximity voucher-request fields to sign for this session: only
    /// once connected, and only while no request is attached yet.
    pub fn voucher_fields(
        &self,
        created_on: u64,
        serial_number: Vec<u8>,
        signature_algorithm: SignatureAlgorithm,
    ) -> (r: Option<VoucherFields>)
        ensures
            self@.state is Connected && self@.voucher_request is None ==> (r matches Some(f) && f@
                == (FieldsView {
                assertion: Assertion::Proximity,
                created_on,
                serial_number: serial_number@,
                signature_algorithm,
            })),
            !(self@.state is Connected && self@.voucher_request is None) ==> r is None,
    {
        match self.state {
            SessionState::Connected(_) => if self.voucher_request.is_none() {
                Some(
                    VoucherFields::new(
                        Assertion::Proximity,
                        created_on,
                        serial_number,
                        signature_algorithm,
                    ),
                )
            } else {
                None
            },
            _ => None,
        }
    }

    /// Hands a connected session the result of building its voucher request.
    pub fn attach_voucher(&mut self, request: Result<VoucherRequest, VoucherError>)
        requires
            session_wf(old(self)@),
        ensures
            final(self)@ == after_voucher(old(self)@, request_result_view(request)),
            session_wf(final(self)@),
    {
        if let SessionState::Connected(_) = self.state {
            if self.voucher_request.is_none() {
                match request {
                    Ok(v) => {
                        self.voucher_request = Some(v);
                    },
                    Err(e) => {
                        self.state = SessionState::Aborted(AbortReason::Voucher(e));
                    },
                }
            }
        }
    }

    pub fn outcome(&self) -> (r: SessionOutcome)
        ensures
            r == outcome_of(self@),
    {
        match self.state {
            SessionState::Connected(_) => if self.voucher_request.is_some() {
                SessionOutcome::Succeeded
            } else {
                SessionOutcome::InProgress
            },
            SessionState::Exhausted => SessionOutcome::ExhaustedAllEndpoints,
            SessionState::Aborted(r) => SessionOutcome::Aborted(r),
            _ => SessionOutcome::InProgress,
        }
    }

    pub fn state(&self) -> (r: SessionState)
        ensures
            r == self@.state,
    {
        self.state
    }

    pub fn candidate(&self) -> (r: &JoinProxyInfo)
        ensures
            *r == self@.candidate,
    {
        &self.candidate
    }

    /// Indices of the endpoints attempted so far, in attempt order.
    pub fn attempted(&self) -> (r: &Vec<usize>)
        ensures
            r@ == self@.attempted,
    {
        &self.attempted
    }

    pub fn peer_certificate(&self) -> (r: Option<&Vec<u8>>)
        ensures
            match r {
                Some(c) => self@.peer_certificate == Some(c@),
                None => self@.peer_certificate is None,
            },
    {
        match &self.peer_certificate {
            Some(c) => Some(c),
            None => None,
        }
    }

    pub fn voucher_request(&self) -> (r: Option<&VoucherRequest>)
        ensures
            match r {
                Some(v) => self@.voucher_request == Some(v@),
                None => self@.voucher_request is None,
            },
    {
        match &self.voucher_request {
            Some(v) => Some(v),
            None => None,
        }
    }
}

proof fn lemma_run_until_success(s: SessionView, outs: Seq<AttemptOutcome>, i: usize, k: usize)
    requires
        session_wf(s),
        s.state == SessionState::Connecting(i),
        i <= k,
        k < s.endpoint_count,
        outs.len() == k + 1 - i,
        forall|j: int| 0 <= j < outs.len() - 1 ==> #[trigger] outs[j] is Failed,
        outs[outs.len() - 1] is Established,
    ensures
        run_attempts(s, outs).state == SessionState::Connected(k),
        run_attempts(s, outs).attempted == first_indices((k + 1) as nat),
        run_attempts(s, outs).peer_certificate == Some(outs[outs.len() - 1]->Established_0@),
        run_attempts(s, outs).voucher_request == s.voucher_request,
        session_wf(run_attempts(s, outs)),
    decreases outs.len(),
{
    let s1 = after_attempt(s, outs[0]);
    assert(s1.attempted =~= first_indices((i + 1) as nat));
    if outs.len() == 1 {
        assert(outs.drop_first().len() == 0);
        assert(run_attempts(s1, outs.drop_first()) == s1);
    } else {
        assert(outs[0] is Failed);
        let rest = outs.drop_first();
        assert forall|j: int| 0 <= j < rest.len() - 1 implies #[trigger] rest[j] is Failed by {
            assert(outs[j + 1] is Failed);
        }
        assert(session_wf(s1));
        lemma_run_until_success(s1, rest, (i + 1) as usize, k);
    }
}

proof fn lemma_run_until_exhausted(s: SessionView, outs: Seq<AttemptOutcome>, i: usize)
    requires
        session_wf(s),
        s.state == SessionState::Connecting(i),
        outs.len() == s.endpoint_count - i,
        forall|j: int| 0 <= j < outs.len() ==> #[trigger] outs[j] is Failed,
    ensures
        run_attempts(s, outs).state == SessionState::Exhausted,
        run_attempts(s, outs).attempted == first_indices(s.endpoint_count),
        run_attempts(s, outs).peer_certificate is None,
        session_wf(run_attempts(s, outs)),
    decreases outs.len(),
{
    assert(i < s.endpoint_count);
    let s1 = after_attempt(s, outs[0]);
    assert(outs[0] is Failed);
    assert(s1.attempted =~= first_indices((i + 1) as nat));
    let rest = outs.drop_first();
    if outs.len() == 1 {
        assert(rest.len() == 0);
        assert(run_attempts(s1, rest) == s1);
    } else {
        assert(session_wf(s1));
        assert forall|j: int| 0 <= j < rest.len() implies #[trigger] rest[j] is Failed by {
            assert(outs[j + 1] is Failed);
        }
        lemma_run_until_exhausted(s1, rest, (i + 1) as usize);
    }
}

/// Failover order: once started, when the attempts on the first `k`
/// endpoints fail and the attempt on endpoint `k` establishes a channel,
/// exactly the endpoints `0, 1, ..., k` have been tried, in that order, and
/// the session is connected through endpoint `k` with its certificate.
pub proof fn lemma_failover_order(s: SessionView, outs: Seq<AttemptOutcome>, k: usize)
    requires
        session_wf(s),
        s.state == SessionState::Connecting(0),
        k < s.endpoint_count,
        outs.len() == k + 1,
        forall|j: int| 0 <= j < k ==> #[trigger] outs[j] is Failed,
        outs[k as int] is Established,
    ensures
        run_attempts(s, outs).state == SessionState::Connected(k),
        run_attempts(s, outs).attempted == first_indices((k + 1) as nat),
        run_attempts(s, outs).peer_certificate == Some(outs[k as int]->Established_0@),
        outcome_of(run_attempts(s, outs)) == SessionOutcome::InProgress,
{
    lemma_run_until_success(s, outs, 0, k);
}

/// Exhaustion: once started, when the attempts on all endpoints fail, each
/// endpoint has been tried exactly once, in order, and the session reports
/// that it exhausted its endpoints; no later outcome changes that.
pub proof fn lemma_exhaustion(s: SessionView, outs: Seq<AttemptOutcome>, later: AttemptOutcome)
    requires
        session_wf(s),
        s.state == SessionState::Connecting(0),
        outs.len() == s.endpoint_count,
        forall|j: int| 0 <= j < outs.len() ==> #[trigger] outs[j] is Failed,
    ensures
        run_attempts(s, outs).state == SessionState::Exhausted,
        run_attempts(s, outs).attempted == first_indices(s.endpoint_count),
        outcome_of(run_attempts(s, outs)) == SessionOutcome::ExhaustedAllEndpoints,
        after_attempt(run_attempts(s, outs), later) == run_attempts(s, outs),
{
    lemma_run_until_exhausted(s, outs, 0);
}

/// Turns the certificate chain a handshake presented into the attempt's
/// outcome: the first certificate is kept, and an empty chain is a failure.
pub fn handshake_outcome(chain: Vec<Vec<u8>>) -> (r: AttemptOutcome)
    ensures
        chain@.len() == 0 ==> r == AttemptOutcome::Failed(JoinProxyInfoError::CertificateMissingError),
        chain@.len() > 0 ==> r == AttemptOutcome::Established(chain@[0]),
{
    if chain.len() == 0 {
        AttemptOutcome::Failed(JoinProxyInfoError::CertificateMissingError)
    } else {
        let mut chain = chain;
        AttemptOutcome::Established(chain.swap_remove(0))
    }
}

} // verus!
