use tls_cert_checker::CertCheckerError;
use tls_cert_checker::CertInfo;
use tls_cert_checker::ErrorKind;

fn text(s: &str) -> String {
    s.to_string()
}

#[test]
fn connection_error_is_written_with_its_label() {
    let e = CertCheckerError::ConnectionError(text("connection refused"));
    assert_eq!(e.to_string(), "Connection Error: connection refused");
}

#[test]
fn every_error_is_written_with_its_label() {
    assert_eq!(CertCheckerError::ContextError(text("a")).to_string(), "Context Error: a");
    assert_eq!(CertCheckerError::AddressParsingError(text("b")).to_string(), "Address Parsing Error: b");
    assert_eq!(CertCheckerError::ConnectionError(text("c")).to_string(), "Connection Error: c");
    assert_eq!(CertCheckerError::TlsHandshakeError(text("d")).to_string(), "TLS Handshake Error: d");
    assert_eq!(CertCheckerError::CertParsingError(text("e")).to_string(), "Certificate Parsing Error: e");
}

#[test]
fn error_with_empty_diagnostic_keeps_colon_and_space() {
    assert_eq!(CertCheckerError::ContextError(String::new()).to_string(), "Context Error: ");
}

#[test]
fn every_error_knows_its_kind_and_diagnostic() {
    let e = CertCheckerError::ContextError(text("a"));
    assert_eq!((e.kind(), e.message()), (ErrorKind::Context, "a"));
    let e = CertCheckerError::AddressParsingError(text("b"));
    assert_eq!((e.kind(), e.message()), (ErrorKind::AddressParsing, "b"));
    let e = CertCheckerError::ConnectionError(text("c"));
    assert_eq!((e.kind(), e.message()), (ErrorKind::Connection, "c"));
    let e = CertCheckerError::TlsHandshakeError(text("d"));
    assert_eq!((e.kind(), e.message()), (ErrorKind::TlsHandshake, "d"));
    let e = CertCheckerError::CertParsingError(text("e"));
    assert_eq!((e.kind(), e.message()), (ErrorKind::CertParsing, "e"));
}

#[test]
fn error_of_a_kind_is_the_variant_of_that_kind() {
    assert!(matches!(CertCheckerError::new(ErrorKind::Context, text("m")), CertCheckerError::ContextError(m) if m == "m"));
    assert!(matches!(
        CertCheckerError::new(ErrorKind::AddressParsing, text("m")),
        CertCheckerError::AddressParsingError(m) if m == "m"
    ));
    assert!(matches!(
        CertCheckerError::new(ErrorKind::Connection, text("m")),
        CertCheckerError::ConnectionError(m) if m == "m"
    ));
    assert!(matches!(
        CertCheckerError::new(ErrorKind::TlsHandshake, text("m")),
        CertCheckerError::TlsHandshakeError(m) if m == "m"
    ));
    assert!(matches!(
        CertCheckerError::new(ErrorKind::CertParsing, text("m")),
        CertCheckerError::CertParsingError(m) if m == "m"
    ));
}

#[test]
fn default_record_is_empty() {
    let record = CertInfo::default();
    assert_eq!(record.hostname, "");
    assert_eq!(record.issuer, "");
    assert_eq!(record.subject, "");
    assert_eq!(record.valid_not_before, "");
    assert_eq!(record.valid_not_after, "");
}

#[test]
fn cloned_record_has_the_same_fields() {
    let record = CertInfo {
        hostname: text("example.com"),
        issuer: text("CN=Some CA"),
        subject: text("CN=example.com"),
        valid_not_before: text("Wed, 01 Jan 2020 00:00:00 +0000"),
        valid_not_after: text("Tue, 01 Jan 2030 00:00:00 +0000"),
    };
    let copy = record.clone();
    assert_eq!(copy.hostname, record.hostname);
    assert_eq!(copy.issuer, record.issuer);
    assert_eq!(copy.subject, record.subject);
    assert_eq!(copy.valid_not_before, record.valid_not_before);
    assert_eq!(copy.valid_not_after, record.valid_not_after);
}
