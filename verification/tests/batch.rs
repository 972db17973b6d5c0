use tls_cert_checker::batch::fetch_all;
use tls_cert_checker::batch::Failure;
use tls_cert_checker::batch::Report;
use tls_cert_checker::fetch::Action;
use tls_cert_checker::fetch::Reply;
use tls_cert_checker::get_cert_info;
use tls_cert_checker::CertCheckerError;
use tls_cert_checker::CertInfo;
use tls_cert_checker::ErrorKind;

// A leaf for example.com, valid from 2020-01-01 to 2030-01-01 (UTC), with
// four alternative names.
const LEAF_WITH_NAMES: [u8; 338] = [
    0x30, 0x82, 0x01, 0x4e, 0x30, 0x82, 0x01, 0x18, 0xa0, 0x03, 0x02, 0x01, 0x02, 0x02, 0x02, 0x10,
    0x01, 0x30, 0x0d, 0x06, 0x09, 0x2a, 0x86, 0x48, 0x86, 0xf7, 0x0d, 0x01, 0x01, 0x0b, 0x05, 0x00,
    0x30, 0x42, 0x31, 0x0b, 0x30, 0x09, 0x06, 0x03, 0x55, 0x04, 0x06, 0x13, 0x02, 0x55, 0x53, 0x31,
    0x16, 0x30, 0x14, 0x06, 0x03, 0x55, 0x04, 0x0a, 0x0c, 0x0d, 0x45, 0x78, 0x61, 0x6d, 0x70, 0x6c,
    0x65, 0x20, 0x54, 0x72, 0x75, 0x73, 0x74, 0x31, 0x1b, 0x30, 0x19, 0x06, 0x03, 0x55, 0x04, 0x03,
    0x0c, 0x12, 0x45, 0x78, 0x61, 0x6d, 0x70, 0x6c, 0x65, 0x20, 0x49, 0x73, 0x73, 0x75, 0x69, 0x6e,
    0x67, 0x20, 0x43, 0x41, 0x30, 0x1e, 0x17, 0x0d, 0x32, 0x30, 0x30, 0x31, 0x30, 0x31, 0x30, 0x30,
    0x30, 0x30, 0x30, 0x30, 0x5a, 0x17, 0x0d, 0x33, 0x30, 0x30, 0x31, 0x30, 0x31, 0x30, 0x30, 0x30,
    0x30, 0x30, 0x30, 0x5a, 0x30, 0x16, 0x31, 0x14, 0x30, 0x12, 0x06, 0x03, 0x55, 0x04, 0x03, 0x0c,
    0x0b, 0x65, 0x78, 0x61, 0x6d, 0x70, 0x6c, 0x65, 0x2e, 0x63, 0x6f, 0x6d, 0x30, 0x3c, 0x30, 0x0d,
    0x06, 0x09, 0x2a, 0x86, 0x48, 0x86, 0xf7, 0x0d, 0x01, 0x01, 0x01, 0x05, 0x00, 0x03, 0x2b, 0x00,
    0x30, 0x28, 0x02, 0x21, 0x00, 0xc3, 0x5a, 0x5a, 0x5a, 0x5a, 0x5a, 0x5a, 0x5a, 0x5a, 0x5a, 0x5a,
    0x5a, 0x5a, 0x5a, 0x5a, 0x5a, 0x5a, 0x5a, 0x5a, 0x5a, 0x5a, 0x5a, 0x5a, 0x5a, 0x5a, 0x5a, 0x5a,
    0x5a, 0x5a, 0x5a, 0x5a, 0x5b, 0x02, 0x03, 0x01, 0x00, 0x01, 0xa3, 0x44, 0x30, 0x42, 0x30, 0x40,
    0x06, 0x03, 0x55, 0x1d, 0x11, 0x04, 0x39, 0x30, 0x37, 0x82, 0x0b, 0x65, 0x78, 0x61, 0x6d, 0x70,
    0x6c, 0x65, 0x2e, 0x63, 0x6f, 0x6d, 0x82, 0x0f, 0x77, 0x77, 0x77, 0x2e, 0x65, 0x78, 0x61, 0x6d,
    0x70, 0x6c, 0x65, 0x2e, 0x63, 0x6f, 0x6d, 0x87, 0x04, 0xc0, 0x00, 0x02, 0x01, 0x81, 0x11, 0x61,
    0x64, 0x6d, 0x69, 0x6e, 0x40, 0x65, 0x78, 0x61, 0x6d, 0x70, 0x6c, 0x65, 0x2e, 0x63, 0x6f, 0x6d,
    0x30, 0x0d, 0x06, 0x09, 0x2a, 0x86, 0x48, 0x86, 0xf7, 0x0d, 0x01, 0x01, 0x0b, 0x05, 0x00, 0x03,
    0x21, 0x00, 0x5c, 0x5c, 0x5c, 0x5c, 0x5c, 0x5c, 0x5c, 0x5c, 0x5c, 0x5c, 0x5c, 0x5c, 0x5c, 0x5c,
    0x5c, 0x5c, 0x5c, 0x5c, 0x5c, 0x5c, 0x5c, 0x5c, 0x5c, 0x5c, 0x5c, 0x5c, 0x5c, 0x5c, 0x5c, 0x5c,
    0x5c, 0x5c,
];

fn text(s: &str) -> String {
    s.to_string()
}

fn record_for(hostname: &str) -> CertInfo {
    CertInfo {
        hostname: text(hostname),
        issuer: text("CN=Some CA"),
        subject: text("CN=some.example"),
        valid_not_before: text("Wed, 01 Jan 2020 00:00:00 +0000"),
        valid_not_after: text("Tue, 01 Jan 2030 00:00:00 +0000"),
    }
}

/// A network on which example.com presents a certificate and no other name
/// resolves.
fn network(action: Action) -> Reply {
    match action {
        Action::Resolve { host, .. } if host != "example.com" => {
            Reply::failed(text("failed to lookup address information: Name or service not known"))
        }
        Action::Resolve { .. } => Reply::resolved(1),
        Action::ExtractCertificate => Reply::certificate(LEAF_WITH_NAMES.to_vec()),
        _ => Reply::completed(),
    }
}

fn fetch_on_network(hostnames: &[&str]) -> Report {
    let hostnames: Vec<String> = hostnames.iter().map(|h| text(h)).collect();
    fetch_all(&hostnames, &network)
}

#[test]
fn new_report_is_empty() {
    let report = Report::new();
    assert!(report.records.is_empty());
    assert!(report.failures.is_empty());
}

#[test]
fn record_is_added_to_the_records() {
    let mut report = Report::new();
    report.record(text("a.example"), Ok(record_for("a.example")));
    assert_eq!(report.records.len(), 1);
    assert_eq!(report.records[0].hostname, "a.example");
    assert!(report.failures.is_empty());
}

#[test]
fn error_is_added_to_the_failures_with_its_host() {
    let mut report = Report::new();
    report.record(text("b.example"), Err(CertCheckerError::ConnectionError(text("refused"))));
    assert!(report.records.is_empty());
    assert_eq!(report.failures.len(), 1);
    assert_eq!(report.failures[0].hostname, "b.example");
    assert_eq!(report.failures[0].error.kind(), ErrorKind::Connection);
    assert_eq!(report.failures[0].error.message(), "refused");
}

#[test]
fn report_keeps_the_order_of_the_attempts() {
    let mut report = Report::new();
    report.record(text("a.example"), Ok(record_for("a.example")));
    report.record(text("b.example"), Err(CertCheckerError::ConnectionError(text("refused"))));
    report.record(text("c.example"), Ok(record_for("c.example")));
    report.record(text("d.example"), Err(CertCheckerError::TlsHandshakeError(text("alert"))));
    let records: Vec<&str> = report.records.iter().map(|r| r.hostname.as_str()).collect();
    let failures: Vec<&str> = report.failures.iter().map(|f| f.hostname.as_str()).collect();
    assert_eq!(records, vec!["a.example", "c.example"]);
    assert_eq!(failures, vec!["b.example", "d.example"]);
    assert_eq!(report.records.len() + report.failures.len(), 4);
}

#[test]
fn failure_is_written_with_host_and_error() {
    let failure = Failure {
        hostname: text("b.example"),
        error: CertCheckerError::ConnectionError(text("connection refused")),
    };
    assert_eq!(failure.to_string(), "hostname: b.example, Connection Error: connection refused");
}

#[test]
fn one_failing_host_does_not_stop_the_batch() {
    let report = fetch_on_network(&["example.com", "nonexistent.invalid"]);
    assert_eq!(report.records.len(), 1);
    assert_eq!(report.records[0].hostname, "example.com");
    assert_eq!(report.records[0].subject, "CN=example.com");
    assert_eq!(report.failures.len(), 1);
    assert_eq!(report.failures[0].hostname, "nonexistent.invalid");
    assert_eq!(report.failures[0].error.kind(), ErrorKind::AddressParsing);
    assert_eq!(
        report.failures[0].to_string(),
        "hostname: nonexistent.invalid, Address Parsing Error: failed to lookup address information: Name or service not known"
    );
}

#[test]
fn batch_gives_the_same_in_either_order() {
    let report = fetch_on_network(&["nonexistent.invalid", "example.com"]);
    assert_eq!(report.records.len(), 1);
    assert_eq!(report.records[0].hostname, "example.com");
    assert_eq!(report.records[0].subject, "CN=example.com");
    assert_eq!(report.failures.len(), 1);
    assert_eq!(report.failures[0].hostname, "nonexistent.invalid");
    assert_eq!(report.failures[0].error.kind(), ErrorKind::AddressParsing);
}

#[test]
fn batch_notes_what_each_fetch_returns() {
    let hostnames = ["example.com", "nonexistent.invalid", "example.com"];
    let report = fetch_on_network(&hostnames);
    let mut by_hand = Report::new();
    for hostname in hostnames {
        by_hand.record(text(hostname), get_cert_info(text(hostname), network));
    }
    assert_eq!(report.records.len(), by_hand.records.len());
    assert_eq!(report.failures.len(), by_hand.failures.len());
    assert_eq!(report.records.len(), 2);
    assert_eq!(report.records[1].hostname, by_hand.records[1].hostname);
    assert_eq!(report.failures[0].to_string(), by_hand.failures[0].to_string());
}

#[test]
fn batch_asks_for_a_new_context_for_every_host() {
    let contexts = std::cell::RefCell::new(0);
    let hostnames = vec![text("example.com"), text("nonexistent.invalid"), text("example.com")];
    let report = fetch_all(&hostnames, &|action: Action| {
        if matches!(action, Action::BuildContext { .. }) {
            *contexts.borrow_mut() += 1;
        }
        network(action)
    });
    assert_eq!(contexts.into_inner(), 3);
    assert_eq!(report.records.len() + report.failures.len(), 3);
}

#[test]
fn empty_batch_gives_an_empty_report() {
    let report = fetch_all(&Vec::new(), &network);
    assert!(report.records.is_empty());
    assert!(report.failures.is_empty());
}

#[test]
fn batch_of_failures_has_no_records() {
    let report = fetch_on_network(&["one.invalid", "two.invalid", "three.invalid"]);
    assert!(report.records.is_empty());
    let failed: Vec<&str> = report.failures.iter().map(|f| f.hostname.as_str()).collect();
    assert_eq!(failed, vec!["one.invalid", "two.invalid", "three.invalid"]);
}
