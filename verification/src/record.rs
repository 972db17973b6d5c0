//! The record that a successful fetch returns.

use vstd::prelude::*;

verus! {

/// Identity and validity of the certificate that one host presented.
#[derive(Debug, Clone)]
pub struct CertInfo {
    /// The name that was used to reach the host, as the caller wrote it.
    pub hostname: String,
    /// Distinguished name of the issuer.
    pub issuer: String,
    /// Distinguished name of the subject.
    pub subject: String,
    /// Start of the validity period, as RFC 2822 text.
    pub valid_not_before: String,
    /// End of the validity period, as RFC 2822 text.
    pub valid_not_after: String,
}

/// The text of each field of a [`CertInfo`].
pub struct CertInfoView {
    pub hostname: Seq<char>,
    pub issuer: Seq<char>,
    pub subject: Seq<char>,
    pub valid_not_before: Seq<char>,
    pub valid_not_after: Seq<char>,
}

impl View for CertInfo {
    type V = CertInfoView;

    open spec fn view(&self) -> CertInfoView {
        CertInfoView {
            hostname: self.hostname@,
            issuer: self.issuer@,
            subject: self.subject@,
            valid_not_before: self.valid_not_before@,
            valid_not_after: self.valid_not_after@,
        }
    }
}

impl DeepView for CertInfo {
    type V = CertInfoView;

    open spec fn deep_view(&self) -> CertInfoView {
        self@
    }
}

impl CertInfoView {
    /// The record in which every field is empty.
    pub open spec fn empty() -> CertInfoView {
        CertInfoView {
            hostname: Seq::empty(),
            issuer: Seq::empty(),
            subject: Seq::empty(),
            valid_not_before: Seq::empty(),
            valid_not_after: Seq::empty(),
        }
    }
}

impl Default for CertInfo {
    fn default() -> (r: CertInfo)
        ensures
            r@ == CertInfoView::empty(),
    {
        CertInfo {
            hostname: String::new(),
            issuer: String::new(),
            subject: String::new(),
            valid_not_before: String::new(),
            valid_not_after: String::new(),
        }
    }
}

} // verus!
