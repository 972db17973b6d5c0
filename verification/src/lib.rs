//! Inspection of the TLS certificate that a host presents.
//!
//! A fetch resolves the host name, connects to port 443, negotiates TLS
//! without verifying anything, takes the peer's leaf certificate and reports
//! its issuer, its subject and its validity. The certificate is inspected,
//! never judged: an expired or self-signed one is reported like any other.
//!
//! The crate holds the decisions of a fetch and leaves the network to its
//! caller. [`get_cert_info`] says which step is to be carried out next and
//! judges what came back; the caller resolves, connects and negotiates:
//!
//! ```text
//! let record = get_cert_info("example.com".to_string(), |action| match action {
//!     Action::Resolve { host, port } => /* look the name up */,
//!     Action::Connect { candidate, timeout_ms } => /* open the socket */,
//!     ...
//! })?;
//! ```
//!
//! - [`fetch`]: the stages of a fetch, the requests and the replies.
//! - [`certificate`]: decoding of the leaf certificate into the record.
//! - [`tls`]: the OpenSSL configuration and session that a fetch needs.
//! - [`hostnames`]: host names from the lines of an input list.
//! - [`batch`]: fetching a list of hosts, and the report of it.
//! - [`guarantees`]: what holds of every fetch.

pub mod batch;
pub mod certificate;
pub mod error;
pub mod fetch;
pub mod guarantees;
pub mod hostnames;
pub mod record;
pub mod tls;

pub use error::CertCheckerError;
pub use error::ErrorKind;
pub use fetch::get_cert_info;
pub use record::CertInfo;
