//! The course of one certificate fetch.
//!
//! A fetch is a fixed sequence of stages. This module decides, stage by
//! stage, what is to be done next and what a failure means; the caller does
//! the work on the network and reports back. Nothing here touches a socket.

use crate::certificate::announcement;
use crate::certificate::announcement_of;
use crate::certificate::build_record;
use crate::certificate::cert_parsing;
use crate::certificate::fields_of;
use crate::certificate::outcome_view;
use crate::certificate::read_certificate;
use crate::certificate::record_of;
use crate::certificate::x509_fields;
use crate::error::CertCheckerError;
use crate::error::ErrorKind;
use crate::error::FailureView;
use crate::record::CertInfo;
use crate::record::CertInfoView;
use vstd::prelude::*;

verus! {

/// The port that every fetch connects to.
pub const DEFAULT_PORT: u16 = 443;

/// How long a connection attempt may take, in milliseconds.
pub const TIMEOUT_MILLISECONDS: u64 = 5000;

/// The stages of a fetch, in the order in which they are gone through.
#[derive(Debug, Clone, Copy, PartialEq, Eq, Structural)]
pub enum Stage {
    /// Setting up the TLS client configuration.
    Context,
    /// Resolving the host name.
    Resolution,
    /// Creating the TLS session from the configuration.
    Session,
    /// Opening the TCP connection.
    Connection,
    /// Negotiating TLS on the open connection.
    Handshake,
    /// Taking the peer's leaf certificate from the session.
    Extraction,
    /// Logging what the certificate holds.
    Announcement,
    /// Closing the TLS session.
    Shutdown,
}

impl Stage {
    /// The place of the stage in the course of a fetch, from 0.
    pub open spec fn index(self) -> nat {
        match self {
            Stage::Context => 0,
            Stage::Resolution => 1,
            Stage::Session => 2,
            Stage::Connection => 3,
            Stage::Handshake => 4,
            Stage::Extraction => 5,
            Stage::Announcement => 6,
            Stage::Shutdown => 7,
        }
    }

    /// The kind of error that a failure of this stage is reported as; `None`
    /// for the two closing stages, whose failure is no error of the fetch.
    pub open spec fn blame_spec(self) -> Option<ErrorKind> {
        match self {
            Stage::Context => Some(ErrorKind::Context),
            Stage::Resolution => Some(ErrorKind::AddressParsing),
            Stage::Session => Some(ErrorKind::Context),
            Stage::Connection => Some(ErrorKind::Connection),
            Stage::Handshake => Some(ErrorKind::TlsHandshake),
            Stage::Extraction => Some(ErrorKind::CertParsing),
            Stage::Announcement => None,
            Stage::Shutdown => None,
        }
    }

    /// The kind of error that a failure of this stage is reported as.
    #[verifier::when_used_as_spec(blame_spec)]
    pub fn blame(self) -> (kind: Option<ErrorKind>)
        ensures
            kind == self.blame_spec(),
    {
        match self {
            Stage::Context => Some(ErrorKind::Context),
            Stage::Resolution => Some(ErrorKind::AddressParsing),
            Stage::Session => Some(ErrorKind::Context),
            Stage::Connection => Some(ErrorKind::Connection),
            Stage::Handshake => Some(ErrorKind::TlsHandshake),
            Stage::Extraction => Some(ErrorKind::CertParsing),
            Stage::Announcement => None,
            Stage::Shutdown => None,
        }
    }
}

/// What the caller is asked to do.
#[derive(Debug, PartialEq, Eq)]
pub enum Action {
    /// Build the TLS client configuration. With `verify_peer` false the
    /// configuration must accept any certificate chain and any host name.
    BuildContext { verify_peer: bool },
    /// Resolve `host` and `port` to socket addresses.
    Resolve { host: String, port: u16 },
    /// Create the TLS session from the configuration.
    CreateSession,
    /// Open a TCP connection to the resolved address number `candidate`,
    /// giving up after `timeout_ms` milliseconds.
    Connect { candidate: usize, timeout_ms: u64 },
    /// Perform the TLS client handshake on the open connection, naming
    /// `server_name` in the server-name indication.
    Handshake { server_name: String },
    /// Take the peer's leaf certificate from the session, DER-encoded.
    ExtractCertificate,
    /// Log the lines, in order.
    Announce { lines: Vec<String> },
    /// Close the TLS session in an orderly way.
    Shutdown,
}

/// An [`Action`] with its texts as sequences.
pub enum ActionView {
    BuildContext { verify_peer: bool },
    Resolve { host: Seq<char>, port: u16 },
    CreateSession,
    Connect { candidate: usize, timeout_ms: u64 },
    Handshake { server_name: Seq<char> },
    ExtractCertificate,
    Announce { lines: Seq<Seq<char>> },
    Shutdown,
}

impl View for Action {
    type V = ActionView;

    open spec fn view(&self) -> ActionView {
        match self {
            Action::BuildContext { verify_peer } => ActionView::BuildContext {
                verify_peer: *verify_peer,
            },
            Action::Resolve { host, port } => ActionView::Resolve { host: host@, port: *port },
            Action::CreateSession => ActionView::CreateSession,
            Action::Connect { candidate, timeout_ms } => ActionView::Connect {
                candidate: *candidate,
                timeout_ms: *timeout_ms,
            },
            Action::Handshake { server_name } => ActionView::Handshake {
                server_name: server_name@,
            },
            Action::ExtractCertificate => ActionView::ExtractCertificate,
            Action::Announce { lines } => ActionView::Announce { lines: lines.deep_view() },
            Action::Shutdown => ActionView::Shutdown,
        }
    }
}

/// What the caller saw when it carried out an [`Action`].
///
/// Every reply can answer every action: a stage reads the fields that
/// concern it and ignores the others.
#[derive(Debug, PartialEq, Eq)]
pub struct Reply {
    /// The diagnostic of the failure, if the action failed.
    pub failure: Option<String>,
    /// How many socket addresses a resolution gave.
    pub addresses: usize,
    /// The DER bytes of the peer's leaf certificate, if the session holds one.
    pub certificate: Option<Vec<u8>>,
}

/// A [`Reply`] with its text and bytes as sequences.
pub struct ReplyView {
    pub failure: Option<Seq<char>>,
    pub addresses: nat,
    pub certificate: Option<Seq<u8>>,
}

impl View for Reply {
    type V = ReplyView;

    open spec fn view(&self) -> ReplyView {
        ReplyView {
            failure: match self.failure {
                Some(message) => Some(message@),
                None => None,
            },
            addresses: self.addresses as nat,
            certificate: match self.certificate {
                Some(der) => Some(der@),
                None => None,
            },
        }
    }
}

impl ReplyView {
    /// The reply that reports success and nothing else.
    pub open spec fn completed() -> ReplyView {
        ReplyView { failure: None, addresses: 0, certificate: None }
    }

    /// The reply that reports a failure with this diagnostic.
    pub open spec fn failed(message: Seq<char>) -> ReplyView {
        ReplyView { failure: Some(message), addresses: 0, certificate: None }
    }

    /// The reply that reports a resolution to this many addresses.
    pub open spec fn resolved(addresses: nat) -> ReplyView {
        ReplyView { failure: None, addresses, certificate: None }
    }

    /// The reply that holds a peer certificate with these DER bytes.
    pub open spec fn certificate(der: Seq<u8>) -> ReplyView {
        ReplyView { failure: None, addresses: 0, certificate: Some(der) }
    }
}

impl Reply {
    /// The action was carried out and gave nothing to report.
    pub fn completed() -> (reply: Reply)
        ensures
            reply@ == ReplyView::completed(),
    {
        Reply { failure: None, addresses: 0, certificate: None }
    }

    /// The action failed; `message` says why.
    pub fn failed(message: String) -> (reply: Reply)
        ensures
            reply@ == ReplyView::failed(message@),
    {
        Reply { failure: Some(message), addresses: 0, certificate: None }
    }

    /// The host name resolved to `addresses` socket addresses.
    pub fn resolved(addresses: usize) -> (reply: Reply)
        ensures
            reply@ == ReplyView::resolved(addresses as nat),
    {
        Reply { failure: None, addresses, certificate: None }
    }

    /// The session holds a peer certificate with these DER bytes.
    pub fn certificate(der: Vec<u8>) -> (reply: Reply)
        ensures
            reply@ == ReplyView::certificate(der@),
    {
        Reply { failure: None, addresses: 0, certificate: Some(der) }
    }
}

/// A fetch under way: the stage whose reply is awaited, and the record as
/// far as it is filled in.
#[derive(Debug)]
pub struct Fetch {
    stage: Stage,
    record: CertInfo,
}

/// A [`Fetch`] with its record as text.
pub struct FetchView {
    pub stage: Stage,
    pub record: CertInfoView,
}

impl View for Fetch {
    type V = FetchView;

    closed spec fn view(&self) -> FetchView {
        FetchView { stage: self.stage, record: self.record@ }
    }
}

/// Where a fetch stands after a reply.
#[derive(Debug)]
pub enum Step {
    /// The caller is to carry out the action and hand the reply to
    /// [`Fetch::advance`].
    Perform(Fetch, Action),
    /// The fetch is over, with this result.
    Finished(Result<CertInfo, CertCheckerError>),
}

/// A [`Step`] over views.
pub enum StepView {
    Perform(FetchView, ActionView),
    Finished(Result<CertInfoView, FailureView>),
}

impl View for Step {
    type V = StepView;

    open spec fn view(&self) -> StepView {
        match self {
            Step::Perform(fetch, action) => StepView::Perform(fetch@, action@),
            Step::Finished(result) => StepView::Finished(outcome_view(*result)),
        }
    }
}

/// The diagnostic of a resolution that gave no address.
pub open spec fn no_address() -> Seq<char> {
    "host name resolved to no address"@
}

/// The diagnostic of a session that holds no peer certificate.
pub open spec fn no_certificate() -> Seq<char> {
    "Could not convert to DER format"@
}

/// The first step of a fetch for `hostname`: an empty record that names the
/// host, and the request for a TLS configuration that verifies nothing.
pub open spec fn begin_spec(hostname: Seq<char>) -> StepView {
    StepView::Perform(
        FetchView {
            stage: Stage::Context,
            record: CertInfoView {
                hostname,
                issuer: Seq::empty(),
                subject: Seq::empty(),
                valid_not_before: Seq::empty(),
                valid_not_after: Seq::empty(),
            },
        },
        ActionView::BuildContext { verify_peer: false },
    )
}

/// The step that follows a stage which has no failure to report.
pub open spec fn proceed(fetch: FetchView, reply: ReplyView) -> StepView {
    let hostname = fetch.record.hostname;
    match fetch.stage {
        Stage::Context => StepView::Perform(
            FetchView { stage: Stage::Resolution, record: fetch.record },
            ActionView::Resolve { host: hostname, port: DEFAULT_PORT },
        ),
        Stage::Resolution => if reply.addresses == 0 {
            StepView::Finished(
                Err(FailureView { kind: ErrorKind::AddressParsing, message: no_address() }),
            )
        } else {
            StepView::Perform(
                FetchView { stage: Stage::Session, record: fetch.record },
                ActionView::CreateSession,
            )
        },
        Stage::Session => StepView::Perform(
            FetchView { stage: Stage::Connection, record: fetch.record },
            ActionView::Connect { candidate: 0, timeout_ms: TIMEOUT_MILLISECONDS },
        ),
        Stage::Connection => StepView::Perform(
            FetchView { stage: Stage::Handshake, record: fetch.record },
            ActionView::Handshake { server_name: hostname },
        ),
        Stage::Handshake => StepView::Perform(
            FetchView { stage: Stage::Extraction, record: fetch.record },
            ActionView::ExtractCertificate,
        ),
        Stage::Extraction => match reply.certificate {
            None => StepView::Finished(Err(cert_parsing(no_certificate()))),
            Some(der) => decoded(hostname, der),
        },
        Stage::Announcement => StepView::Perform(
            FetchView { stage: Stage::Shutdown, record: fetch.record },
            ActionView::Shutdown,
        ),
        Stage::Shutdown => StepView::Finished(Ok(fetch.record)),
    }
}

/// The step that follows the extraction of a certificate with these bytes:
/// the record is built and its announcement requested, or the fetch ends
/// with a parsing error.
pub open spec fn decoded(hostname: Seq<char>, der: Seq<u8>) -> StepView {
    match fields_of(x509_fields(der)) {
        Err(e) => StepView::Finished(Err(e)),
        Ok(fields) => match record_of(hostname, fields) {
            Err(e) => StepView::Finished(Err(e)),
            Ok(record) => StepView::Perform(
                FetchView { stage: Stage::Announcement, record },
                ActionView::Announce {
                    lines: announcement_of(hostname, fields.alternative_names),
                },
            ),
        },
    }
}

/// The step that follows `reply` in a fetch that awaited it.
///
/// A reported failure ends the fetch with the error that the stage is blamed
/// with, carrying the diagnostic; in the two closing stages it is passed
/// over. Otherwise the fetch goes on as [`proceed`] says.
pub open spec fn advance_spec(fetch: FetchView, reply: ReplyView) -> StepView {
    match (fetch.stage.blame_spec(), reply.failure) {
        (Some(kind), Some(message)) => StepView::Finished(Err(FailureView { kind, message })),
        _ => proceed(fetch, reply),
    }
}

/// Starts a fetch for `hostname`.
pub fn begin(hostname: String) -> (step: Step)
    ensures
        step@ == begin_spec(hostname@),
{
    let record = CertInfo {
        hostname,
        issuer: String::new(),
        subject: String::new(),
        valid_not_before: String::new(),
        valid_not_after: String::new(),
    };
    Step::Perform(
        Fetch { stage: Stage::Context, record },
        Action::BuildContext { verify_peer: false },
    )
}

impl Fetch {
    /// The stage whose reply the fetch awaits.
    pub fn stage(&self) -> (stage: Stage)
        ensures
            stage == self@.stage,
    {
        self.stage
    }

    /// Takes the reply to the action that was requested last and says how
    /// the fetch goes on.
    pub fn advance(self, reply: Reply) -> (step: Step)
        ensures
            step@ == advance_spec(self@, reply@),
    {
        let Fetch { stage, record } = self;
        let Reply { failure, addresses, certificate } = reply;
        if let Some(kind) = stage.blame() {
            if let Some(message) = failure {
                return Step::Finished(Err(CertCheckerError::new(kind, message)));
            }
        }
        match stage {
            Stage::Context => {
                let host = record.hostname.clone();
                Step::Perform(
                    Fetch { stage: Stage::Resolution, record },
                    Action::Resolve { host, port: DEFAULT_PORT },
                )
            },
            Stage::Resolution => {
                if addresses == 0 {
                    let message = String::from_str("host name resolved to no address");
                    Step::Finished(Err(CertCheckerError::AddressParsingError(message)))
                } else {
                    Step::Perform(Fetch { stage: Stage::Session, record }, Action::CreateSession)
                }
            },
            Stage::Session => Step::Perform(
                Fetch { stage: Stage::Connection, record },
                Action::Connect { candidate: 0, timeout_ms: TIMEOUT_MILLISECONDS },
            ),
            Stage::Connection => {
                let server_name = record.hostname.clone();
                Step::Perform(
                    Fetch { stage: Stage::Handshake, record },
                    Action::Handshake { server_name },
                )
            },
            Stage::Handshake => Step::Perform(
                Fetch { stage: Stage::Extraction, record },
                Action::ExtractCertificate,
            ),
            Stage::Extraction => match certificate {
                None => {
                    let message = String::from_str("Could not convert to DER format");
                    Step::Finished(Err(CertCheckerError::CertParsingError(message)))
                },
                Some(der) => match read_certificate(der.as_slice()) {
                    Err(e) => Step::Finished(Err(e)),
                    Ok(fields) => {
                        let lines = announcement(
                            record.hostname.as_str(),
                            &fields.alternative_names,
                        );
                        match build_record(record.hostname, fields) {
                            Err(e) => Step::Finished(Err(e)),
                            Ok(record) => Step::Perform(
                                Fetch { stage: Stage::Announcement, record },
                                Action::Announce { lines },
                            ),
                        }
                    },
                },
            },
            Stage::Announcement => Step::Perform(
                Fetch { stage: Stage::Shutdown, record },
                Action::Shutdown,
            ),
            Stage::Shutdown => Step::Finished(Ok(record)),
        }
    }
}

/// Where the fetch for `hostname` stands once it has taken these replies,
/// one after the other, from its start. Replies that come after the end of
/// the fetch change nothing.
pub open spec fn after(hostname: Seq<char>, replies: Seq<ReplyView>) -> StepView
    decreases replies.len(),
{
    if replies.len() == 0 {
        begin_spec(hostname)
    } else {
        match after(hostname, replies.drop_last()) {
            StepView::Perform(fetch, _) => advance_spec(fetch, replies.last()),
            StepView::Finished(result) => StepView::Finished(result),
        }
    }
}

/// The replies of an exchange, in order.
pub open spec fn replies_of(exchange: Seq<(Action, Reply)>) -> Seq<ReplyView> {
    exchange.map_values(|turn: (Action, Reply)| turn.1@)
}

/// Whether `exchange` is a conversation that the fetch for `hostname` can
/// have had with `perform`: each action is the one that the fetch requested
/// at that point, and each reply is one that `perform` can give to it.
pub open spec fn conducted<F: Fn(Action) -> Reply>(
    perform: F,
    hostname: Seq<char>,
    exchange: Seq<(Action, Reply)>,
) -> bool {
    forall|i: int|
        0 <= i < exchange.len() ==> {
            &&& after(hostname, replies_of(exchange.take(i))) matches StepView::Perform(_, request)
                && request == (#[trigger] exchange[i]).0@
            &&& call_ensures(perform, (exchange[i].0,), exchange[i].1)
        }
}

/// Whether `outcome` is a result that the fetch of `hostname` can have when
/// `perform` does the work: the result that some conversation of the two
/// leads to.
pub open spec fn fetched<F: Fn(Action) -> Reply>(
    perform: F,
    hostname: Seq<char>,
    outcome: Result<CertInfoView, FailureView>,
) -> bool {
    exists|exchange: Seq<(Action, Reply)>|
        #[trigger] conducted(perform, hostname, exchange) && after(hostname, replies_of(exchange))
            == StepView::Finished(outcome)
}

/// How many replies a fetch at this step can still take.
pub open spec fn remaining(step: StepView) -> nat {
    match step {
        StepView::Perform(fetch, _) => (8 - fetch.stage.index()) as nat,
        StepView::Finished(_) => 0,
    }
}

/// Every reply moves a fetch on by one stage or ends it, and the record
/// names the host from the start to the end.
pub proof fn lemma_course(hostname: Seq<char>, replies: Seq<ReplyView>)
    ensures
        match after(hostname, replies) {
            StepView::Perform(fetch, _) => fetch.stage.index() == replies.len()
                && fetch.record.hostname == hostname,
            StepView::Finished(Ok(record)) => record.hostname == hostname && replies.len() >= 8,
            StepView::Finished(Err(_)) => replies.len() >= 1,
        },
    decreases replies.len(),
{
    if replies.len() > 0 {
        lemma_course(hostname, replies.drop_last());
    }
}

/// Fetches the certificate record of `hostname`, with `perform` doing the
/// work on the network.
///
/// The fetch starts with [`begin`] and hands each requested action to
/// `perform`, whose reply decides the next step, until the fetch is over.
/// Each action is performed once, in the order of the stages, and none after
/// a failure.
///
/// The result is the one that the replies of `perform` lead to. A record
/// names the host as it was given.
pub fn get_cert_info<F: Fn(Action) -> Reply>(hostname: String, perform: F) -> (r: Result<
    CertInfo,
    CertCheckerError,
>)
    requires
        forall|action: Action| call_requires(perform, (action,)),
    ensures
        fetched(perform, hostname@, outcome_view(r)),
        r matches Ok(record) ==> record.hostname@ == hostname@,
{
    let ghost host = hostname@;
    let ghost mut exchange: Seq<(Action, Reply)> = Seq::empty();
    let mut step = begin(hostname);
    loop
        invariant
            host == hostname@,
            forall|action: Action| call_requires(perform, (action,)),
            conducted(perform, host, exchange),
            step@ == after(host, replies_of(exchange)),
        decreases remaining(step@),
    {
        match step {
            Step::Finished(result) => {
                proof {
                    lemma_course(host, replies_of(exchange));
                }
                return result;
            },
            Step::Perform(fetch, action) => {
                let ghost asked = action;
                let reply = perform(action);
                let ghost answer = reply;
                step = fetch.advance(reply);
                proof {
                    let longer = exchange.push((asked, answer));
                    assert(replies_of(longer).drop_last() =~= replies_of(exchange));
                    assert forall|i: int| 0 <= i < longer.len() implies {
                        &&& after(host, replies_of(longer.take(i))) matches StepView::Perform(
                            _,
                            request,
                        ) && request == (#[trigger] longer[i]).0@
                        &&& call_ensures(perform, (longer[i].0,), longer[i].1)
                    } by {
                        if i < exchange.len() {
                            assert(longer.take(i) =~= exchange.take(i));
                        } else {
                            assert(longer.take(i) =~= exchange);
                        }
                    }
                    exchange = longer;
                }
            },
        }
    }
}

} // verus!
