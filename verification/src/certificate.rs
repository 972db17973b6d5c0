//! Decoding of a leaf certificate from its DER bytes.
//!
//! The X.509 parser does the decoding; this module holds what it read as
//! plain text and builds the record and the log lines from it.

use crate::error::CertCheckerError;
use crate::error::ErrorKind;
use crate::error::FailureView;
use crate::record::CertInfo;
use crate::record::CertInfoView;
use vstd::prelude::*;
use x509_parser::certificate::X509Certificate;
use x509_parser::extensions::GeneralName;
use x509_parser::prelude::FromDer;

verus! {

/// One entry of a certificate's subject-alternative-name extension.
#[derive(Debug, Clone, PartialEq, Eq)]
pub enum AlternativeName {
    /// A DNS name, as the certificate spells it.
    Dns(String),
    /// A name of any other form, written out by the parser.
    Other(String),
}

/// The text held by an [`AlternativeName`].
pub enum AlternativeNameView {
    Dns(Seq<char>),
    Other(Seq<char>),
}

impl View for AlternativeName {
    type V = AlternativeNameView;

    open spec fn view(&self) -> AlternativeNameView {
        match self {
            AlternativeName::Dns(name) => AlternativeNameView::Dns(name@),
            AlternativeName::Other(text) => AlternativeNameView::Other(text@),
        }
    }
}

impl DeepView for AlternativeName {
    type V = AlternativeNameView;

    open spec fn deep_view(&self) -> AlternativeNameView {
        self@
    }
}

impl AlternativeNameView {
    /// The log line for the name: a DNS name after `-- `, any other form
    /// after `>> `.
    pub open spec fn line(self) -> Seq<char> {
        match self {
            AlternativeNameView::Dns(name) => "-- "@ + name,
            AlternativeNameView::Other(text) => ">> "@ + text,
        }
    }
}

/// The log lines that announce a decoded certificate: the host name after
/// `>>> `, then one line for each alternative name, in order.
pub open spec fn announcement_of(hostname: Seq<char>, names: Seq<AlternativeNameView>) -> Seq<
    Seq<char>,
> {
    seq![">>> "@ + hostname] + names.map_values(|name: AlternativeNameView| name.line())
}

/// What the parser read from a certificate.
///
/// A validity bound is `Err` when the instant has no RFC 2822 form; the text
/// then says why.
#[derive(Debug, PartialEq, Eq)]
pub struct CertificateFields {
    /// Distinguished name of the issuer.
    pub issuer: String,
    /// Distinguished name of the subject.
    pub subject: String,
    /// Start of the validity period as RFC 2822 text.
    pub not_before: Result<String, String>,
    /// End of the validity period as RFC 2822 text.
    pub not_after: Result<String, String>,
    /// The entries of the subject-alternative-name extension, in the order of
    /// the certificate; empty when the certificate has no usable extension.
    pub alternative_names: Vec<AlternativeName>,
}

/// The text held by a [`CertificateFields`].
pub struct CertificateFieldsView {
    pub issuer: Seq<char>,
    pub subject: Seq<char>,
    pub not_before: Result<Seq<char>, Seq<char>>,
    pub not_after: Result<Seq<char>, Seq<char>>,
    pub alternative_names: Seq<AlternativeNameView>,
}

/// The text on either side of a `Result` of strings.
pub open spec fn text_of(r: Result<String, String>) -> Result<Seq<char>, Seq<char>> {
    match r {
        Ok(s) => Ok(s@),
        Err(s) => Err(s@),
    }
}

impl View for CertificateFields {
    type V = CertificateFieldsView;

    open spec fn view(&self) -> CertificateFieldsView {
        CertificateFieldsView {
            issuer: self.issuer@,
            subject: self.subject@,
            not_before: text_of(self.not_before),
            not_after: text_of(self.not_after),
            alternative_names: self.alternative_names.deep_view(),
        }
    }
}

/// What the X.509 parser makes of the given bytes: the fields of the
/// certificate that they encode, or the parser's complaint.
pub uninterp spec fn x509_fields(der: Seq<u8>) -> Result<CertificateFieldsView, Seq<char>>;

/// The fields or the complaint of a parse, as text.
pub open spec fn parsed_view(r: Result<CertificateFields, String>) -> Result<
    CertificateFieldsView,
    Seq<char>,
> {
    match r {
        Ok(fields) => Ok(fields@),
        Err(complaint) => Err(complaint@),
    }
}

/// Runs `X509Certificate::from_der` of the `x509-parser` crate on the bytes
/// and copies out what the crate reads from the certificate: the issuer and
/// the subject as the crate writes a distinguished name, both validity bounds
/// through `ASN1Time::to_rfc2822`, and the general names of the
/// subject-alternative-name extension, a DNS name as it stands and any other
/// form as the crate writes it. An extension that is absent, duplicated or
/// invalid gives no names. Bytes after the certificate are ignored. When the
/// parser rejects the bytes the result is its error, written out.
///
/// Assumed, not proved: the result depends on the bytes alone.
#[verifier::external_body]
fn parse_certificate(der: &[u8]) -> (r: Result<CertificateFields, String>)
    ensures
        parsed_view(r) == x509_fields(der@),
{
    let (_, cert) = X509Certificate::from_der(der).map_err(|e| e.to_string())?;
    let extension = cert.subject_alternative_name().ok().flatten();
    Ok(CertificateFields {
        issuer: cert.issuer().to_string(),
        subject: cert.subject().to_string(),
        not_before: cert.validity().not_before.to_rfc2822(),
        not_after: cert.validity().not_after.to_rfc2822(),
        alternative_names: extension.map_or(Vec::new(), |san| {
            san.value.general_names.iter().map(|name| match name {
                GeneralName::DNSName(dns) => AlternativeName::Dns(dns.to_string()),
                other => AlternativeName::Other(other.to_string()),
            }).collect()
        }),
    })
}

/// The error that reports a certificate which could not be decoded.
pub open spec fn cert_parsing(message: Seq<char>) -> FailureView {
    FailureView { kind: ErrorKind::CertParsing, message }
}

/// The record for `hostname` from the fields of its certificate: a validity
/// bound without RFC 2822 form is a parsing error, the start being looked at
/// first.
pub open spec fn record_of(hostname: Seq<char>, fields: CertificateFieldsView) -> Result<
    CertInfoView,
    FailureView,
> {
    match (fields.not_before, fields.not_after) {
        (Err(why), _) => Err(cert_parsing(why)),
        (Ok(_), Err(why)) => Err(cert_parsing(why)),
        (Ok(start), Ok(end)) => Ok(
            CertInfoView {
                hostname,
                issuer: fields.issuer,
                subject: fields.subject,
                valid_not_before: start,
                valid_not_after: end,
            },
        ),
    }
}

/// What a parse amounts to for the fetch: the fields, or a parsing error
/// that carries the parser's complaint.
pub open spec fn fields_of(parsed: Result<CertificateFieldsView, Seq<char>>) -> Result<
    CertificateFieldsView,
    FailureView,
> {
    match parsed {
        Ok(fields) => Ok(fields),
        Err(complaint) => Err(cert_parsing(complaint)),
    }
}

/// The record for `hostname` from the DER bytes of its certificate, or the
/// parsing error that says why there is none.
pub open spec fn decoded_record(hostname: Seq<char>, der: Seq<u8>) -> Result<
    CertInfoView,
    FailureView,
> {
    match fields_of(x509_fields(der)) {
        Ok(fields) => record_of(hostname, fields),
        Err(e) => Err(e),
    }
}

/// The fields of a read, or its error, as text.
pub open spec fn read_view(r: Result<CertificateFields, CertCheckerError>) -> Result<
    CertificateFieldsView,
    FailureView,
> {
    match r {
        Ok(fields) => Ok(fields@),
        Err(e) => Err(e@),
    }
}

/// The record or the error of a fetch, as text.
pub open spec fn outcome_view(r: Result<CertInfo, CertCheckerError>) -> Result<
    CertInfoView,
    FailureView,
> {
    match r {
        Ok(record) => Ok(record@),
        Err(e) => Err(e@),
    }
}

/// Judges a parse: the fields pass through, and a complaint of the parser
/// becomes a parsing error with the same text.
pub fn accept_parse(parsed: Result<CertificateFields, String>) -> (r: Result<
    CertificateFields,
    CertCheckerError,
>)
    ensures
        read_view(r) == fields_of(parsed_view(parsed)),
{
    match parsed {
        Ok(fields) => Ok(fields),
        Err(complaint) => Err(CertCheckerError::CertParsingError(complaint)),
    }
}

/// Decodes a DER-encoded certificate into its fields.
pub fn read_certificate(der: &[u8]) -> (r: Result<CertificateFields, CertCheckerError>)
    ensures
        read_view(r) == fields_of(x509_fields(der@)),
{
    accept_parse(parse_certificate(der))
}

/// Builds the record for `hostname` from the fields of its certificate.
///
/// The host name is kept as given. The record exists only when both validity
/// bounds have RFC 2822 text; otherwise the error carries the reason, that of
/// the start if both lack it.
pub fn build_record(hostname: String, fields: CertificateFields) -> (r: Result<
    CertInfo,
    CertCheckerError,
>)
    ensures
        outcome_view(r) == record_of(hostname@, fields@),
{
    let valid_not_before = match fields.not_before {
        Ok(text) => text,
        Err(why) => {
            return Err(CertCheckerError::CertParsingError(why));
        },
    };
    let valid_not_after = match fields.not_after {
        Ok(text) => text,
        Err(why) => {
            return Err(CertCheckerError::CertParsingError(why));
        },
    };
    Ok(
        CertInfo {
            hostname,
            issuer: fields.issuer,
            subject: fields.subject,
            valid_not_before,
            valid_not_after,
        },
    )
}

/// Decodes the DER-encoded certificate that `hostname` presented into its
/// record.
///
/// The record holds what the parser read. Bytes that the parser rejects and
/// a validity bound without RFC 2822 form are parsing errors.
pub fn decode_certificate(hostname: String, der: &[u8]) -> (r: Result<CertInfo, CertCheckerError>)
    ensures
        outcome_view(r) == decoded_record(hostname@, der@),
{
    match read_certificate(der) {
        Ok(fields) => build_record(hostname, fields),
        Err(e) => Err(e),
    }
}

impl AlternativeName {
    /// The log line for the name.
    pub fn line(&self) -> (line: String)
        ensures
            line@ == self@.line(),
    {
        match self {
            AlternativeName::Dns(name) => {
                let mut line = String::from_str("-- ");
                line.append(name.as_str());
                line
            },
            AlternativeName::Other(text) => {
                let mut line = String::from_str(">> ");
                line.append(text.as_str());
                line
            },
        }
    }
}

/// Writes the log lines that announce the certificate of `hostname`.
pub fn announcement(hostname: &str, names: &Vec<AlternativeName>) -> (lines: Vec<String>)
    ensures
        lines.deep_view() == announcement_of(hostname@, names.deep_view()),
{
    let mut head = String::from_str(">>> ");
    head.append(hostname);
    let mut lines: Vec<String> = Vec::new();
    lines.push(head);
    let mut i: usize = 0;
    while i < names.len()
        invariant
            i <= names.len(),
            lines.len() == i + 1,
            lines[0]@ == ">>> "@ + hostname@,
            forall|j: int| 0 <= j < i ==> (#[trigger] lines[j + 1])@ == names[j]@.line(),
        decreases names.len() - i,
    {
        lines.push(names[i].line());
        i += 1;
    }
    proof {
        let got = lines.deep_view();
        let want = announcement_of(hostname@, names.deep_view());
        assert forall|k: int| 0 <= k < got.len() implies got[k] == want[k] by {
            if k > 0 {
                assert(lines[(k - 1) + 1]@ == names[k - 1]@.line());
            }
        }
    }
    lines
}

} // verus!
