use openssl::nid::Nid;
use openssl::ssl::NameType;
use openssl::ssl::SslVerifyMode;
use openssl::x509::X509;
use tls_cert_checker::fetch::Reply;
use tls_cert_checker::tls::certificate_reply;
use tls_cert_checker::tls::encoded_reply;
use tls_cert_checker::tls::has_nul;
use tls_cert_checker::tls::Tls;

// A leaf for example.com, valid from 2020-01-01 to 2030-01-01 (UTC), with
// four alternative names.
const LEAF_WITH_NAMES: [u8; 338] = [
    0x30, 0x82, 0x01, 0x4e, 0x30, 0x82, 0x01, 0x18, 0xa0, 0x03, 0x02, 0x01, 0x02, 0x02, 0x02, 0x10,
    0x01, 0x30, 0x0d, 0x06, 0x09, 0x2a, 0x86, 0x48, 0x86, 0xf7, 0x0d, 0x01, 0x01, 0x0b, 0x05, 0x00,
    0x30, 0x42, 0x31, 0x0b, 0x30, 0x09, 0x06, 0x03, 0x55, 0x04, 0x06, 0x13, 0x02, 0x55, 0x53, 0x31,
    0x16, 0x30, 0x14, 0x06, 0x03, 0x55, 0x04, 0x0a, 0x0c, 0x0d, 0x45, 0x78, 0x61, 0x6d, 0x70, 0x6c,
    0x65, 0x20, 0x54, 0x72, 0x75, 0x73, 0x74, 0x31, 0x1b, 0x30, 0x19, 0x06, 0x03, 0x55, 0x04, 0x03,
    0x0c, 0x12, 0x45, 0x78, 0x61, 0x6d, 0x70, 0x6c, 0x65, 0x20, 0x49, 0x73, 0x73, 0x75, 0x69, 0x6e,
    0x67, 0x20, 0x43, 0x41, 0x30, 0x1e, 0x17, 0x0d, 0x32, 0x30, 0x30, 0x31, 0x30, 0x31, 0x30, 0x30,
    0x30, 0x30, 0x30, 0x30, 0x5a, 0x17, 0x0d, 0x33, 0x30, 0x30, 0x31, 0x30, 0x31, 0x30, 0x30, 0x30,
    0x30, 0x30, 0x30, 0x5a, 0x30, 0x16, 0x31, 0x14, 0x30, 0x12, 0x06, 0x03, 0x55, 0x04, 0x03, 0x0c,
    0x0b, 0x65, 0x78, 0x61, 0x6d, 0x70, 0x6c, 0x65, 0x2e, 0x63, 0x6f, 0x6d, 0x30, 0x3c, 0x30, 0x0d,
    0x06, 0x09, 0x2a, 0x86, 0x48, 0x86, 0xf7, 0x0d, 0x01, 0x01, 0x01, 0x05, 0x00, 0x03, 0x2b, 0x00,
    0x30, 0x28, 0x02, 0x21, 0x00, 0xc3, 0x5a, 0x5a, 0x5a, 0x5a, 0x5a, 0x5a, 0x5a, 0x5a, 0x5a, 0x5a,
    0x5a, 0x5a, 0x5a, 0x5a, 0x5a, 0x5a, 0x5a, 0x5a, 0x5a, 0x5a, 0x5a, 0x5a, 0x5a, 0x5a, 0x5a, 0x5a,
    0x5a, 0x5a, 0x5a, 0x5a, 0x5b, 0x02, 0x03, 0x01, 0x00, 0x01, 0xa3, 0x44, 0x30, 0x42, 0x30, 0x40,
    0x06, 0x03, 0x55, 0x1d, 0x11, 0x04, 0x39, 0x30, 0x37, 0x82, 0x0b, 0x65, 0x78, 0x61, 0x6d, 0x70,
    0x6c, 0x65, 0x2e, 0x63, 0x6f, 0x6d, 0x82, 0x0f, 0x77, 0x77, 0x77, 0x2e, 0x65, 0x78, 0x61, 0x6d,
    0x70, 0x6c, 0x65, 0x2e, 0x63, 0x6f, 0x6d, 0x87, 0x04, 0xc0, 0x00, 0x02, 0x01, 0x81, 0x11, 0x61,
    0x64, 0x6d, 0x69, 0x6e, 0x40, 0x65, 0x78, 0x61, 0x6d, 0x70, 0x6c, 0x65, 0x2e, 0x63, 0x6f, 0x6d,
    0x30, 0x0d, 0x06, 0x09, 0x2a, 0x86, 0x48, 0x86, 0xf7, 0x0d, 0x01, 0x01, 0x0b, 0x05, 0x00, 0x03,
    0x21, 0x00, 0x5c, 0x5c, 0x5c, 0x5c, 0x5c, 0x5c, 0x5c, 0x5c, 0x5c, 0x5c, 0x5c, 0x5c, 0x5c, 0x5c,
    0x5c, 0x5c, 0x5c, 0x5c, 0x5c, 0x5c, 0x5c, 0x5c, 0x5c, 0x5c, 0x5c, 0x5c, 0x5c, 0x5c, 0x5c, 0x5c,
    0x5c, 0x5c,
];

fn text(s: &str) -> String {
    s.to_string()
}

fn ready(verify_peer: bool) -> Tls {
    let mut tls = Tls::new();
    assert_eq!(tls.build_context(verify_peer), Reply::completed());
    assert_eq!(tls.create_session(), Reply::completed());
    tls
}

#[test]
fn session_needs_a_configuration() {
    let mut tls = Tls::new();
    assert_eq!(tls.create_session(), Reply::failed(text("no TLS configuration to create a session from")));
}

#[test]
fn handshake_needs_a_session() {
    let mut tls = Tls::new();
    assert_eq!(tls.session_for("example.com").unwrap_err(), "no TLS session to negotiate with");
    assert_eq!(tls.build_context(false), Reply::completed());
    assert_eq!(tls.session_for("example.com").unwrap_err(), "no TLS session to negotiate with");
}

#[test]
fn configuration_and_session_are_built_in_turn() {
    let mut tls = ready(false);
    assert!(tls.session_for("example.com").is_ok());
}

#[test]
fn session_is_handed_out_once() {
    let mut tls = ready(false);
    assert!(tls.session_for("example.com").is_ok());
    assert_eq!(tls.session_for("example.com").unwrap_err(), "no TLS session to negotiate with");
}

#[test]
fn new_configuration_lets_go_of_the_old_session() {
    let mut tls = ready(false);
    assert_eq!(tls.build_context(false), Reply::completed());
    assert_eq!(tls.session_for("example.com").unwrap_err(), "no TLS session to negotiate with");
}

#[test]
fn session_verifies_nothing_when_told_so() {
    let session = ready(false).session_for("example.com").unwrap();
    assert_eq!(session.verify_mode(), SslVerifyMode::NONE);
}

#[test]
fn session_verifies_the_peer_when_told_so() {
    let session = ready(true).session_for("example.com").unwrap();
    assert_eq!(session.verify_mode(), SslVerifyMode::PEER);
}

#[test]
fn session_names_the_server() {
    let session = ready(false).session_for("www.example.com").unwrap();
    assert_eq!(session.servername(NameType::HOST_NAME), Some("www.example.com"));
}

#[test]
fn server_name_with_nul_is_refused() {
    let mut tls = ready(false);
    assert_eq!(tls.session_for("example\0.com").unwrap_err(), "server name holds a NUL character");
    assert_eq!(tls.session_for("example.com").unwrap_err(), "no TLS session to negotiate with");
}

#[test]
fn kept_configuration_reports_success() {
    let context = openssl::ssl::SslContext::builder(openssl::ssl::SslMethod::tls()).unwrap().build();
    let mut tls = Tls::new();
    assert_eq!(tls.keep_context(Ok(context)), Reply::completed());
    assert_eq!(tls.create_session(), Reply::completed());
}

#[test]
fn failed_configuration_reports_its_text() {
    let mut tls = ready(false);
    assert_eq!(tls.keep_context(Err(text("no memory"))), Reply::failed(text("no memory")));
    assert_eq!(tls.create_session(), Reply::failed(text("no TLS configuration to create a session from")));
}

#[test]
fn failed_session_reports_its_text() {
    let mut tls = ready(false);
    assert_eq!(tls.keep_session(Err(text("no memory"))), Reply::failed(text("no memory")));
    assert_eq!(tls.session_for("example.com").unwrap_err(), "no TLS session to negotiate with");
}

#[test]
fn nul_is_found_wherever_it_stands() {
    assert!(!has_nul(""));
    assert!(!has_nul("example.com"));
    assert!(!has_nul("b\u{fc}cher.example"));
    assert!(has_nul("\0"));
    assert!(has_nul("\0example.com"));
    assert!(has_nul("example\0.com"));
    assert!(has_nul("example.com\0"));
}

#[test]
fn encoded_certificate_is_replied_as_bytes() {
    assert_eq!(encoded_reply(Ok(vec![0x30, 0x03, 0x02, 0x01, 0x00])), Reply::certificate(vec![0x30, 0x03, 0x02, 0x01, 0x00]));
}

#[test]
fn failed_encoding_is_replied_as_failure() {
    assert_eq!(encoded_reply(Err(text("encoding failed"))), Reply::failed(text("encoding failed")));
}

#[test]
fn session_without_peer_certificate_replies_none() {
    assert_eq!(certificate_reply(None), Reply::completed());
}

#[test]
fn peer_certificate_is_replied_as_its_der_bytes() {
    let certificate = X509::from_der(&LEAF_WITH_NAMES).unwrap();
    let common_name = certificate.subject_name().entries_by_nid(Nid::COMMONNAME).next().unwrap();
    assert_eq!(common_name.data().as_slice(), b"example.com");
    assert_eq!(certificate_reply(Some(certificate)), Reply::certificate(LEAF_WITH_NAMES.to_vec()));
}
