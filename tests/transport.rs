use brski_bootstrap::candidate::Endpoint;
use brski_bootstrap::transport::{voucher_request_uri, REQUEST_VOUCHER_PATH};

#[test]
fn authority_of_ipv4_endpoint() {
    assert_eq!("192.0.2.1:443", Endpoint::new("192.0.2.1".to_string(), 443).authority());
    assert_eq!("10.0.0.9:0", Endpoint::new("10.0.0.9".to_string(), 0).authority());
    assert_eq!("10.0.0.9:65535", Endpoint::new("10.0.0.9".to_string(), 65535).authority());
}

#[test]
fn authority_of_ipv6_endpoint_is_bracketed() {
    assert_eq!("[fe80::1234]:8443", Endpoint::new("fe80::1234".to_string(), 8443).authority());
}

#[test]
fn request_uri_for_endpoints() {
    assert_eq!("/.well-known/brski/requestvoucher", REQUEST_VOUCHER_PATH);
    assert_eq!(
        Some("https://[fe80::1234]:8443/.well-known/brski/requestvoucher".to_string()),
        voucher_request_uri(&Endpoint::new("fe80::1234".to_string(), 8443))
    );
    assert_eq!(
        Some("https://192.0.2.1:5684/.well-known/brski/requestvoucher".to_string()),
        voucher_request_uri(&Endpoint::new("192.0.2.1".to_string(), 5684))
    );
}

#[test]
fn request_uri_refuses_a_malformed_address() {
    assert_eq!(None, voucher_request_uri(&Endpoint::new("bad host/x".to_string(), 443)));
}
