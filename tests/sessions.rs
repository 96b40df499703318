use brski_bootstrap::bootstrap::{BootstrapState, NextSession};
use brski_bootstrap::candidate::{CandidateOrigin, Endpoint, JoinProxyInfo};
use brski_bootstrap::queue::{Dequeued, DiscoveryQueue, Refused};
use brski_bootstrap::session::{
    handshake_outcome, AbortReason, JoinProxyInfoError, AttemptOutcome, BootstrapSession,
    SessionOutcome, SessionState,
};
use brski_bootstrap::voucher::{
    Assertion, SignatureAlgorithm, VoucherError, VoucherFields, VoucherRequest,
};

fn ep(a: &str, port: u16) -> Endpoint {
    Endpoint::new(a.to_string(), port)
}

fn candidate(addrs: &[&str]) -> JoinProxyInfo {
    let eps: Vec<Endpoint> = addrs.iter().map(|a| ep(a, 443)).collect();
    JoinProxyInfo::new(CandidateOrigin::Address(eps[0].clone()), eps).unwrap()
}

fn sample_fields() -> VoucherFields {
    VoucherFields::new(
        Assertion::Proximity,
        1599086034,
        b"00-D0-E5-F2-00-02".to_vec(),
        SignatureAlgorithm::ES256,
    )
}

#[test]
fn candidate_needs_an_endpoint() {
    assert!(JoinProxyInfo::new(CandidateOrigin::Address(ep("192.0.2.1", 443)), vec![]).is_none());
    assert_eq!(1, candidate(&["192.0.2.1"]).endpoint_count());
}

#[test]
fn failover_tries_endpoints_in_order_until_success() {
    let mut s = BootstrapSession::new(candidate(&["192.0.2.1", "192.0.2.2", "192.0.2.3"]));
    assert_eq!(SessionState::Pending, s.state());
    assert!(s.current_endpoint().is_none());
    s.start();
    let mut tried = Vec::new();
    let outcomes = vec![
        AttemptOutcome::Failed(JoinProxyInfoError::ConnectError),
        AttemptOutcome::Failed(JoinProxyInfoError::HandshakeError),
        AttemptOutcome::Established(vec![0x30, 0x82, 0x01]),
    ];
    for o in outcomes {
        tried.push(s.current_endpoint().unwrap().address.clone());
        s.record_attempt(o);
    }
    assert_eq!(vec!["192.0.2.1", "192.0.2.2", "192.0.2.3"], tried);
    assert_eq!(SessionState::Connected(2), s.state());
    assert_eq!(&vec![0usize, 1, 2], s.attempted());
    assert_eq!(Some(&vec![0x30, 0x82, 0x01]), s.peer_certificate());
    assert!(s.current_endpoint().is_none());
    assert_eq!(SessionOutcome::InProgress, s.outcome());
}

#[test]
fn all_endpoints_failing_exhausts_the_session() {
    let mut s = BootstrapSession::new(candidate(&["192.0.2.1", "192.0.2.2"]));
    s.start();
    s.record_attempt(AttemptOutcome::Failed(JoinProxyInfoError::CertificateMissingError));
    assert_eq!(SessionState::Connecting(1), s.state());
    s.record_attempt(AttemptOutcome::Failed(JoinProxyInfoError::ConnectError));
    assert_eq!(SessionState::Exhausted, s.state());
    assert_eq!(SessionOutcome::ExhaustedAllEndpoints, s.outcome());
    s.record_attempt(AttemptOutcome::Established(vec![1]));
    assert_eq!(SessionState::Exhausted, s.state());
    assert_eq!(&vec![0usize, 1], s.attempted());
    assert!(s.peer_certificate().is_none());
}

#[test]
fn single_address_handshake_failure_exhausts_without_fallback() {
    let mut state = BootstrapState::empty(BootstrapState::channel(4));
    state.add_registrar_by_ip("fe80::1234".to_string(), 8443).unwrap();
    let mut s = match state.next_session() {
        NextSession::Start(s) => s,
        other => panic!("{:?}", other),
    };
    assert_eq!(1, s.candidate().endpoint_count());
    s.start();
    assert_eq!(&ep("fe80::1234", 8443), s.current_endpoint().unwrap());
    s.record_attempt(AttemptOutcome::Failed(JoinProxyInfoError::HandshakeError));
    assert_eq!(SessionState::Exhausted, s.state());
    assert_eq!(SessionOutcome::ExhaustedAllEndpoints, s.outcome());
    assert_eq!(&vec![0usize], s.attempted());
}

#[test]
fn exhaustion_does_not_stop_the_consumer() {
    let mut state = BootstrapState::empty(BootstrapState::channel(4));
    state.add_registrar_by_ip("192.0.2.1".to_string(), 443).unwrap();
    state.add_registrar_by_ip("192.0.2.2".to_string(), 443).unwrap();
    let mut first = match state.next_session() {
        NextSession::Start(s) => s,
        other => panic!("{:?}", other),
    };
    first.start();
    first.record_attempt(AttemptOutcome::Failed(JoinProxyInfoError::ConnectError));
    state.report(&first);
    assert_eq!(&vec![SessionOutcome::ExhaustedAllEndpoints], state.outcomes());
    let second = match state.next_session() {
        NextSession::Start(s) => s,
        other => panic!("{:?}", other),
    };
    assert_eq!("192.0.2.2", second.candidate().endpoint(0).address);
    state.close();
    assert!(matches!(state.next_session(), NextSession::Finished));
}

#[test]
fn queue_is_first_in_first_out() {
    let mut q = DiscoveryQueue::new(2);
    q.push(candidate(&["192.0.2.10"])).unwrap();
    q.push(candidate(&["192.0.2.20"])).unwrap();
    match q.push(candidate(&["192.0.2.30"])) {
        Err(Refused::Full(c)) => assert_eq!("192.0.2.30", c.endpoint(0).address),
        other => panic!("{:?}", other),
    }
    match q.pop() {
        Dequeued::Item(c) => assert_eq!("192.0.2.10", c.endpoint(0).address),
        other => panic!("{:?}", other),
    }
    match q.pop() {
        Dequeued::Item(c) => assert_eq!("192.0.2.20", c.endpoint(0).address),
        other => panic!("{:?}", other),
    }
    assert!(matches!(q.pop(), Dequeued::Empty));
    q.close();
    assert!(q.is_closed());
    assert!(matches!(q.push(candidate(&["192.0.2.40"])), Err(Refused::Closed(_))));
    assert!(matches!(q.pop(), Dequeued::Closed));
}

#[test]
fn handshake_keeps_only_the_first_certificate() {
    assert_eq!(
        AttemptOutcome::Established(vec![1, 2]),
        handshake_outcome(vec![vec![1, 2], vec![3], vec![4]])
    );
    assert_eq!(
        AttemptOutcome::Failed(JoinProxyInfoError::CertificateMissingError),
        handshake_outcome(vec![])
    );
}

#[test]
fn cancel_aborts_an_unfinished_session() {
    let mut s = BootstrapSession::new(candidate(&["192.0.2.1", "192.0.2.2"]));
    s.start();
    s.record_attempt(AttemptOutcome::Failed(JoinProxyInfoError::ConnectError));
    s.cancel();
    assert_eq!(SessionState::Aborted(AbortReason::Cancelled), s.state());
    assert!(s.current_endpoint().is_none());
    s.record_attempt(AttemptOutcome::Established(vec![9]));
    assert_eq!(SessionOutcome::Aborted(AbortReason::Cancelled), s.outcome());

    let mut done = BootstrapSession::new(candidate(&["192.0.2.1"]));
    done.start();
    done.record_attempt(AttemptOutcome::Failed(JoinProxyInfoError::ConnectError));
    done.cancel();
    assert_eq!(SessionOutcome::ExhaustedAllEndpoints, done.outcome());
}

#[test]
fn voucher_request_keeps_its_fields() {
    let r = VoucherRequest::seal(sample_fields(), Ok((vec![7; 64], vec![0xd2, 0x84, 0x43]))).unwrap();
    assert_eq!(Assertion::Proximity, r.fields().assertion);
    assert_eq!(1599086034, r.fields().created_on);
    assert_eq!(b"00-D0-E5-F2-00-02".to_vec(), r.fields().serial_number);
    assert_eq!(SignatureAlgorithm::ES256, r.fields().signature_algorithm);
    assert_eq!(&vec![7u8; 64], r.signature());
    assert_eq!(&vec![0xd2, 0x84, 0x43], r.encoded_form());

    let again = VoucherRequest::seal(sample_fields(), Ok((vec![8; 64], vec![0xd2, 0x84, 0x43]))).unwrap();
    assert_eq!(r.fields(), again.fields());
}

#[test]
fn voucher_request_errors() {
    assert_eq!(
        Err(VoucherError::SigningError),
        VoucherRequest::seal(sample_fields(), Err(VoucherError::SigningError))
    );
    assert_eq!(
        Err(VoucherError::SerializationError),
        VoucherRequest::seal(sample_fields(), Err(VoucherError::SerializationError))
    );
    assert_eq!(
        Err(VoucherError::SigningError),
        VoucherRequest::seal(sample_fields(), Ok((vec![], vec![1])))
    );
    assert_eq!(
        Err(VoucherError::SerializationError),
        VoucherRequest::seal(sample_fields(), Ok((vec![1], vec![])))
    );
}

#[test]
fn voucher_is_built_once_after_connecting() {
    let mut s = BootstrapSession::new(candidate(&["192.0.2.1"]));
    assert!(s.voucher_fields(1599086034, b"00-D0-E5-F2-00-02".to_vec(), SignatureAlgorithm::ES256).is_none());
    s.start();
    s.record_attempt(AttemptOutcome::Established(vec![0x30]));
    let f = s
        .voucher_fields(1599086034, b"00-D0-E5-F2-00-02".to_vec(), SignatureAlgorithm::ES256)
        .unwrap();
    assert_eq!(sample_fields(), f);
    s.attach_voucher(VoucherRequest::seal(f, Ok((vec![1; 8], vec![2; 8]))));
    assert_eq!(SessionOutcome::Succeeded, s.outcome());
    assert!(s.voucher_request().is_some());
    assert!(s.voucher_fields(1, vec![1], SignatureAlgorithm::ES256).is_none());
    s.attach_voucher(Err(VoucherError::SigningError));
    assert_eq!(SessionOutcome::Succeeded, s.outcome());
}

#[test]
fn voucher_failure_aborts_the_session() {
    let mut s = BootstrapSession::new(candidate(&["192.0.2.1"]));
    s.start();
    s.record_attempt(AttemptOutcome::Established(vec![0x30]));
    s.attach_voucher(Err(VoucherError::SigningError));
    assert_eq!(SessionOutcome::Aborted(AbortReason::Voucher(VoucherError::SigningError)), s.outcome());
    assert!(s.voucher_request().is_none());
}

#[test]
fn attempt_errors_describe_themselves() {
    assert_eq!("Connection failed", JoinProxyInfoError::ConnectError.description());
    assert_eq!("TLS handshake failed", JoinProxyInfoError::HandshakeError.description());
    assert_eq!("No Certificate Found", JoinProxyInfoError::CertificateMissingError.description());
}
