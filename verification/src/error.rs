//! The ways in which a fetch can fail.

use vstd::prelude::*;

verus! {

/// Why a fetch produced no record. Each variant names the stage that failed
/// and carries the diagnostic of the underlying failure.
#[derive(Debug)]
#[non_exhaustive]
pub enum CertCheckerError {
    /// The TLS client configuration or session could not be set up.
    ContextError(String),
    /// The host name did not resolve to a socket address.
    AddressParsingError(String),
    /// The TCP connection was refused or timed out.
    ConnectionError(String),
    /// The TLS negotiation failed on an open connection.
    TlsHandshakeError(String),
    /// The peer certificate was absent, malformed, or a field of it could not
    /// be written out.
    CertParsingError(String),
}

/// The stage that a [`CertCheckerError`] blames.
#[derive(Debug, Clone, Copy, PartialEq, Eq, Structural)]
pub enum ErrorKind {
    Context,
    AddressParsing,
    Connection,
    TlsHandshake,
    CertParsing,
}

/// A [`CertCheckerError`] as its kind and the text of its diagnostic.
pub struct FailureView {
    pub kind: ErrorKind,
    pub message: Seq<char>,
}

impl ErrorKind {
    /// The words that introduce an error of this kind when it is written out.
    pub open spec fn label(self) -> Seq<char> {
        match self {
            ErrorKind::Context => "Context Error"@,
            ErrorKind::AddressParsing => "Address Parsing Error"@,
            ErrorKind::Connection => "Connection Error"@,
            ErrorKind::TlsHandshake => "TLS Handshake Error"@,
            ErrorKind::CertParsing => "Certificate Parsing Error"@,
        }
    }
}

impl FailureView {
    /// The error written out: the label of its kind, a colon and a space,
    /// then the diagnostic.
    pub open spec fn text(self) -> Seq<char> {
        self.kind.label() + ": "@ + self.message
    }
}

impl View for CertCheckerError {
    type V = FailureView;

    open spec fn view(&self) -> FailureView {
        match self {
            CertCheckerError::ContextError(m) => FailureView {
                kind: ErrorKind::Context,
                message: m@,
            },
            CertCheckerError::AddressParsingError(m) => FailureView {
                kind: ErrorKind::AddressParsing,
                message: m@,
            },
            CertCheckerError::ConnectionError(m) => FailureView {
                kind: ErrorKind::Connection,
                message: m@,
            },
            CertCheckerError::TlsHandshakeError(m) => FailureView {
                kind: ErrorKind::TlsHandshake,
                message: m@,
            },
            CertCheckerError::CertParsingError(m) => FailureView {
                kind: ErrorKind::CertParsing,
                message: m@,
            },
        }
    }
}

impl CertCheckerError {
    /// An error of the given kind with the given diagnostic.
    pub fn new(kind: ErrorKind, message: String) -> (e: CertCheckerError)
        ensures
            e@ == (FailureView { kind, message: message@ }),
    {
        match kind {
            ErrorKind::Context => CertCheckerError::ContextError(message),
            ErrorKind::AddressParsing => CertCheckerError::AddressParsingError(message),
            ErrorKind::Connection => CertCheckerError::ConnectionError(message),
            ErrorKind::TlsHandshake => CertCheckerError::TlsHandshakeError(message),
            ErrorKind::CertParsing => CertCheckerError::CertParsingError(message),
        }
    }

    /// The stage that failed.
    pub fn kind(&self) -> (kind: ErrorKind)
        ensures
            kind == self@.kind,
    {
        match self {
            CertCheckerError::ContextError(_) => ErrorKind::Context,
            CertCheckerError::AddressParsingError(_) => ErrorKind::AddressParsing,
            CertCheckerError::ConnectionError(_) => ErrorKind::Connection,
            CertCheckerError::TlsHandshakeError(_) => ErrorKind::TlsHandshake,
            CertCheckerError::CertParsingError(_) => ErrorKind::CertParsing,
        }
    }

    /// The diagnostic of the underlying failure.
    pub fn message(&self) -> (message: &str)
        ensures
            message@ == self@.message,
    {
        match self {
            CertCheckerError::ContextError(m) => m.as_str(),
            CertCheckerError::AddressParsingError(m) => m.as_str(),
            CertCheckerError::ConnectionError(m) => m.as_str(),
            CertCheckerError::TlsHandshakeError(m) => m.as_str(),
            CertCheckerError::CertParsingError(m) => m.as_str(),
        }
    }

    /// The error written out for a reader, such as
    /// `Connection Error: connection refused`.
    pub fn to_string(&self) -> (text: String)
        ensures
            text@ == self@.text(),
    {
        let label = match self {
            CertCheckerError::ContextError(_) => "Context Error",
            CertCheckerError::AddressParsingError(_) => "Address Parsing Error",
            CertCheckerError::ConnectionError(_) => "Connection Error",
            CertCheckerError::TlsHandshakeError(_) => "TLS Handshake Error",
            CertCheckerError::CertParsingError(_) => "Certificate Parsing Error",
        };
        let mut text = String::from_str(label);
        text.append(": ");
        text.append(self.message());
        text
    }
}

} // verus!
