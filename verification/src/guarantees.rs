//! What holds of every fetch, whatever the network does.
//!
//! The first statements speak of [`after`]: the step that a fetch has
//! reached when it has taken a sequence of replies. [`get_cert_info`]
//! returns the result of such a sequence, so each statement holds of each of
//! its results. The later ones speak of the conversation itself: of what a
//! fetch comes to when the network behaves in a given way.
//!
//! [`get_cert_info`]: crate::fetch::get_cert_info

use crate::certificate::decoded_record;
use crate::certificate::fields_of;
use crate::certificate::record_of;
use crate::certificate::x509_fields;
use crate::certificate::CertificateFieldsView;
use crate::error::ErrorKind;
use crate::error::FailureView;
use crate::fetch::advance_spec;
use crate::fetch::after;
use crate::fetch::conducted;
use crate::fetch::lemma_course;
use crate::fetch::replies_of;
use crate::fetch::Action;
use crate::fetch::ActionView;
use crate::fetch::Reply;
use crate::fetch::ReplyView;
use crate::fetch::Stage;
use crate::fetch::StepView;
use crate::record::CertInfoView;
use vstd::prelude::*;

verus! {

/// Whether `action` is what a fetch requests when it enters `stage`.
pub open spec fn requested_at(stage: Stage, action: ActionView) -> bool {
    match stage {
        Stage::Context => action is BuildContext,
        Stage::Resolution => action is Resolve,
        Stage::Session => action is CreateSession,
        Stage::Connection => action is Connect,
        Stage::Handshake => action is Handshake,
        Stage::Extraction => action is ExtractCertificate,
        Stage::Announcement => action is Announce,
        Stage::Shutdown => action is Shutdown,
    }
}

/// Whether the fetch for `hostname` has a request pending after the first
/// `k` of the replies, and the request opens or uses a connection.
pub open spec fn touches_network(hostname: Seq<char>, replies: Seq<ReplyView>, k: int) -> bool {
    after(hostname, replies.take(k)) matches StepView::Perform(_, action) && (action is Connect
        || action is Handshake || action is ExtractCertificate || action is Shutdown)
}

/// One more reply is taken by the step that the replies before it led to.
pub proof fn lemma_next_reply(hostname: Seq<char>, replies: Seq<ReplyView>, k: int)
    requires
        0 <= k < replies.len(),
    ensures
        after(hostname, replies.take(k + 1)) == match after(hostname, replies.take(k)) {
            StepView::Perform(fetch, _) => advance_spec(fetch, replies[k]),
            StepView::Finished(result) => StepView::Finished(result),
        },
{
    assert(replies.take(k + 1).drop_last() =~= replies.take(k));
}

/// A fetch that is over stays over: further replies do not change its
/// result.
pub proof fn lemma_finished_stays(hostname: Seq<char>, replies: Seq<ReplyView>, k: int)
    requires
        0 <= k <= replies.len(),
        after(hostname, replies.take(k)) is Finished,
    ensures
        after(hostname, replies) == after(hostname, replies.take(k)),
    decreases replies.len() - k,
{
    if k < replies.len() {
        lemma_next_reply(hostname, replies, k);
        lemma_finished_stays(hostname, replies, k + 1);
    } else {
        assert(replies.take(k) =~= replies);
    }
}

/// The request that is pending after `k` replies is the one of stage number
/// `k`: the stages are gone through in order, one reply each.
pub proof fn lemma_requests_in_order(hostname: Seq<char>, replies: Seq<ReplyView>)
    ensures
        after(hostname, replies) matches StepView::Perform(fetch, action) ==> fetch.stage.index()
            == replies.len() && requested_at(fetch.stage, action),
    decreases replies.len(),
{
    if replies.len() > 0 {
        lemma_requests_in_order(hostname, replies.drop_last());
    }
}

/// A fetch that failed was, until the reply that ended it, at the stage
/// which its error blames: there is a reply number `k` before which the
/// fetch awaited a stage blamed with the kind of the error, and with which
/// it ended.
pub proof fn lemma_error_blames_stage(hostname: Seq<char>, replies: Seq<ReplyView>) -> (k: int)
    requires
        after(hostname, replies) matches StepView::Finished(Err(_)),
    ensures
        0 <= k < replies.len(),
        after(hostname, replies.take(k)) matches StepView::Perform(fetch, _)
            && fetch.stage.blame_spec() == Some(after(hostname, replies)->Finished_0->Err_0.kind),
        after(hostname, replies.take(k + 1)) == after(hostname, replies),
    decreases replies.len(),
{
    let shorter = replies.drop_last();
    assert(replies.take(replies.len() as int) =~= replies);
    assert(replies.take(replies.len() - 1) =~= shorter);
    if after(hostname, shorter) is Finished {
        let k = lemma_error_blames_stage(hostname, shorter);
        assert(shorter.take(k) =~= replies.take(k));
        assert(shorter.take(k + 1) =~= replies.take(k + 1));
        k
    } else {
        replies.len() - 1
    }
}

/// A record names the host as it was given to the fetch.
pub proof fn lemma_record_names_host(hostname: Seq<char>, replies: Seq<ReplyView>)
    ensures
        after(hostname, replies) matches StepView::Finished(Ok(record)) ==> record.hostname
            == hostname,
{
    lemma_course(hostname, replies);
}

/// A failed connection attempt ends the fetch with a connection error that
/// carries the diagnostic, and with nothing else.
pub proof fn lemma_refused_connection(
    hostname: Seq<char>,
    replies: Seq<ReplyView>,
    reply: ReplyView,
)
    requires
        after(hostname, replies) matches StepView::Perform(_, action) && action is Connect,
        reply.failure is Some,
    ensures
        after(hostname, replies.push(reply)) == StepView::Finished(
            Err(FailureView { kind: ErrorKind::Connection, message: reply.failure->0 }),
        ),
{
    lemma_requests_in_order(hostname, replies);
    assert(replies.push(reply).drop_last() =~= replies);
}

/// A failed handshake ends the fetch with a handshake error that carries the
/// diagnostic. The fetch is then over: it requests nothing more.
pub proof fn lemma_failed_handshake(
    hostname: Seq<char>,
    replies: Seq<ReplyView>,
    reply: ReplyView,
)
    requires
        after(hostname, replies) matches StepView::Perform(_, action) && action is Handshake,
        reply.failure is Some,
    ensures
        after(hostname, replies.push(reply)) == StepView::Finished(
            Err(FailureView { kind: ErrorKind::TlsHandshake, message: reply.failure->0 }),
        ),
{
    lemma_requests_in_order(hostname, replies);
    assert(replies.push(reply).drop_last() =~= replies);
}

/// A handshake error comes only of a fetch whose connection was made: the
/// reply to the connection attempt reported no failure, and the reply to the
/// handshake is the one whose diagnostic the error carries.
pub proof fn lemma_handshake_error_follows_connection(
    hostname: Seq<char>,
    replies: Seq<ReplyView>,
)
    requires
        after(hostname, replies) matches StepView::Finished(Err(e)) && e.kind
            == ErrorKind::TlsHandshake,
    ensures
        replies.len() > Stage::Handshake.index(),
        replies[Stage::Connection.index() as int].failure is None,
        replies[Stage::Handshake.index() as int].failure == Some(
            after(hostname, replies)->Finished_0->Err_0.message,
        ),
{
    let k = lemma_error_blames_stage(hostname, replies);
    lemma_requests_in_order(hostname, replies.take(k));
    assert(k == Stage::Handshake.index());
    lemma_next_reply(hostname, replies, 4);
    lemma_next_reply(hostname, replies, 3);
    lemma_requests_in_order(hostname, replies.take(3));
}

/// A fetch that ends with an address error has never asked for a
/// connection, nor for anything that needs one.
pub proof fn lemma_no_connection_without_address(
    hostname: Seq<char>,
    replies: Seq<ReplyView>,
    k: int,
)
    requires
        after(hostname, replies) matches StepView::Finished(Err(e)) && e.kind
            == ErrorKind::AddressParsing,
        0 <= k <= replies.len(),
    ensures
        !touches_network(hostname, replies, k),
{
    let end = lemma_error_blames_stage(hostname, replies);
    lemma_requests_in_order(hostname, replies.take(end));
    assert(end == 1);
    lemma_requests_in_order(hostname, replies.take(k));
    if k > 1 {
        assert(replies.take(k).take(2) =~= replies.take(2));
        lemma_finished_stays(hostname, replies.take(k), 2);
    }
}

/// A fetch asks for a connection at most once: a request to connect is
/// pending only when exactly the replies of the three stages before it have
/// been taken. A failed attempt is not tried again.
pub proof fn lemma_one_connection_attempt(hostname: Seq<char>, replies: Seq<ReplyView>, k: int)
    requires
        0 <= k <= replies.len(),
        after(hostname, replies.take(k)) matches StepView::Perform(_, action) && action is Connect,
    ensures
        k == Stage::Connection.index(),
{
    lemma_requests_in_order(hostname, replies.take(k));
}

/// What a fetch asks for is fixed by the stage and the host name: a TLS
/// configuration that verifies nothing, the resolution of the host name with
/// port 443, the first of the resolved addresses with a timeout of 5000
/// milliseconds, and the host name as given for the server-name indication.
pub proof fn lemma_requests_are_fixed(hostname: Seq<char>, replies: Seq<ReplyView>)
    ensures
        after(hostname, replies) matches StepView::Perform(fetch, action) ==> match fetch.stage {
            Stage::Context => action == (ActionView::BuildContext { verify_peer: false }),
            Stage::Resolution => action == (ActionView::Resolve { host: hostname, port: 443 }),
            Stage::Session => action == ActionView::CreateSession,
            Stage::Connection => action == (ActionView::Connect { candidate: 0, timeout_ms: 5000 }),
            Stage::Handshake => action == (ActionView::Handshake { server_name: hostname }),
            Stage::Extraction => action == ActionView::ExtractCertificate,
            Stage::Announcement => action is Announce,
            Stage::Shutdown => action == ActionView::Shutdown,
        },
{
    if replies.len() > 0 {
        lemma_course(hostname, replies.drop_last());
    }
}

/// A failure to close the session is no error of the fetch: whatever the
/// reply to the shutdown request, the fetch ends with the record.
pub proof fn lemma_shutdown_cannot_fail(
    hostname: Seq<char>,
    replies: Seq<ReplyView>,
    reply: ReplyView,
)
    requires
        after(hostname, replies) matches StepView::Perform(_, action) && action is Shutdown,
    ensures
        after(hostname, replies) matches StepView::Perform(fetch, _) && after(
            hostname,
            replies.push(reply),
        ) == StepView::Finished(Ok(fetch.record)),
{
    lemma_requests_in_order(hostname, replies);
    assert(replies.push(reply).drop_last() =~= replies);
}

/// While a fetch that will give a record is under way it has not ended:
/// after fewer than eight replies it awaits the next stage.
pub proof fn lemma_record_comes_last(hostname: Seq<char>, replies: Seq<ReplyView>, k: int)
    requires
        after(hostname, replies) matches StepView::Finished(Ok(_)),
        0 <= k < 8,
    ensures
        k < replies.len(),
        after(hostname, replies.take(k)) matches StepView::Perform(fetch, _) && fetch.stage.index()
            == k,
{
    lemma_course(hostname, replies);
    lemma_course(hostname, replies.take(k));
    if after(hostname, replies.take(k)) is Finished {
        lemma_finished_stays(hostname, replies, k);
    }
}

/// A record is the fruit of a fetch in which every stage did its work: the
/// fetch took a reply for each of the eight stages, no stage up to the
/// extraction reported a failure, the resolution gave an address, and the
/// record is the one built from the fields that the parser read from the
/// extracted certificate.
pub proof fn lemma_record_needs_every_stage(
    hostname: Seq<char>,
    replies: Seq<ReplyView>,
) -> (fields: CertificateFieldsView)
    requires
        after(hostname, replies) matches StepView::Finished(Ok(_)),
    ensures
        replies.len() >= 8,
        forall|k: int| 0 <= k <= Stage::Extraction.index() ==> replies[k].failure is None,
        replies[Stage::Resolution.index() as int].addresses > 0,
        replies[Stage::Extraction.index() as int].certificate matches Some(der) && x509_fields(der)
            == Ok::<CertificateFieldsView, Seq<char>>(fields),
        record_of(hostname, fields) == Ok::<CertInfoView, FailureView>(
            after(hostname, replies)->Finished_0->Ok_0,
        ),
{
    lemma_record_comes_last(hostname, replies, 0);
    lemma_record_comes_last(hostname, replies, 1);
    lemma_record_comes_last(hostname, replies, 2);
    lemma_record_comes_last(hostname, replies, 3);
    lemma_record_comes_last(hostname, replies, 4);
    lemma_record_comes_last(hostname, replies, 5);
    lemma_record_comes_last(hostname, replies, 6);
    lemma_record_comes_last(hostname, replies, 7);
    lemma_next_reply(hostname, replies, 0);
    lemma_next_reply(hostname, replies, 1);
    lemma_next_reply(hostname, replies, 2);
    lemma_next_reply(hostname, replies, 3);
    lemma_next_reply(hostname, replies, 4);
    lemma_next_reply(hostname, replies, 5);
    lemma_next_reply(hostname, replies, 6);
    lemma_next_reply(hostname, replies, 7);
    lemma_finished_stays(hostname, replies, 8);
    let der = replies[5].certificate->0;
    fields_of(x509_fields(der))->Ok_0
}

/// Two fetches of one host that are shown the same certificate give the
/// same record, whatever else differs between them: how many addresses the
/// name resolved to, or how the shutdown went.
pub proof fn lemma_same_certificate_same_record(
    hostname: Seq<char>,
    first: Seq<ReplyView>,
    second: Seq<ReplyView>,
)
    requires
        after(hostname, first) matches StepView::Finished(Ok(_)),
        after(hostname, second) matches StepView::Finished(Ok(_)),
        first[Stage::Extraction.index() as int].certificate
            == second[Stage::Extraction.index() as int].certificate,
    ensures
        after(hostname, first) == after(hostname, second),
{
    lemma_record_needs_every_stage(hostname, first);
    lemma_record_needs_every_stage(hostname, second);
}

/// Whether `perform` never fails the action of `stage`, and never resolves a
/// name to no address.
pub open spec fn carries_out<F: Fn(Action) -> Reply>(perform: F, stage: Stage) -> bool {
    forall|action: Action, reply: Reply|
        #[trigger] call_ensures(perform, (action,), reply) && requested_at(stage, action@)
            ==> reply@.failure is None && (stage == Stage::Resolution ==> reply@.addresses > 0)
}

/// Whether `perform` always fails the action of `stage`.
pub open spec fn fails<F: Fn(Action) -> Reply>(perform: F, stage: Stage) -> bool {
    forall|action: Action, reply: Reply|
        #[trigger] call_ensures(perform, (action,), reply) && requested_at(stage, action@)
            ==> reply@.failure is Some
}

/// A fetch on a network that carries out the first `i` stages has, after `i`
/// turns of a finished conversation, come to stage number `i` and not to its
/// end.
proof fn lemma_comes_to_stage<F: Fn(Action) -> Reply>(
    perform: F,
    hostname: Seq<char>,
    exchange: Seq<(Action, Reply)>,
    i: int,
)
    requires
        conducted(perform, hostname, exchange),
        after(hostname, replies_of(exchange)) is Finished,
        0 <= i <= Stage::Extraction.index(),
        forall|earlier: Stage| earlier.index() < i ==> carries_out(perform, earlier),
    ensures
        i < exchange.len(),
        after(hostname, replies_of(exchange.take(i))) matches StepView::Perform(fetch, action)
            && fetch.stage.index() == i && action == exchange[i].0@,
    decreases i,
{
    if i == 0 {
        assert(replies_of(exchange.take(0)) =~= Seq::<ReplyView>::empty());
        if exchange.len() == 0 {
            assert(replies_of(exchange) =~= Seq::<ReplyView>::empty());
        }
    } else {
        lemma_comes_to_stage(perform, hostname, exchange, i - 1);
        let before = after(hostname, replies_of(exchange.take(i - 1)));
        let stage = before->Perform_0.stage;
        lemma_requests_in_order(hostname, replies_of(exchange.take(i - 1)));
        assert(carries_out(perform, stage));
        assert(call_ensures(perform, (exchange[i - 1].0,), exchange[i - 1].1));
        assert(replies_of(exchange.take(i)).drop_last() =~= replies_of(exchange.take(i - 1)));
        assert(replies_of(exchange.take(i)).last() == exchange[i - 1].1@);
        if exchange.len() == i {
            assert(exchange.take(i) =~= exchange);
        }
    }
}

/// On a network that carries out every stage before `stage` and fails
/// `stage`, a fetch ends with the error that the stage is blamed with, and
/// with the diagnostic of the failure. The failed action is the last that
/// the fetch asks for: no stage after it is entered.
///
/// So a host that does not resolve gives an address error before a
/// connection is asked for, a host that refuses the connection gives a
/// connection error and no handshake error, and a peer that does not speak
/// TLS gives a handshake error.
pub proof fn lemma_failing_stage_ends_fetch<F: Fn(Action) -> Reply>(
    perform: F,
    hostname: Seq<char>,
    exchange: Seq<(Action, Reply)>,
    stage: Stage,
)
    requires
        conducted(perform, hostname, exchange),
        after(hostname, replies_of(exchange)) is Finished,
        stage.blame_spec() is Some,
        forall|earlier: Stage| earlier.index() < stage.index() ==> carries_out(perform, earlier),
        fails(perform, stage),
    ensures
        exchange.len() == stage.index() + 1,
        requested_at(stage, exchange.last().0@),
        exchange.last().1@.failure is Some,
        after(hostname, replies_of(exchange)) == StepView::Finished(
            Err(
                FailureView {
                    kind: stage.blame_spec()->0,
                    message: exchange.last().1@.failure->0,
                },
            ),
        ),
{
    let k = stage.index() as int;
    lemma_comes_to_stage(perform, hostname, exchange, k);
    lemma_requests_in_order(hostname, replies_of(exchange.take(k)));
    assert(call_ensures(perform, (exchange[k].0,), exchange[k].1));
    assert(replies_of(exchange.take(k + 1)).drop_last() =~= replies_of(exchange.take(k)));
    assert(replies_of(exchange.take(k + 1)).last() == exchange[k].1@);
    if exchange.len() > k + 1 {
        assert(call_ensures(perform, (exchange[k + 1].0,), exchange[k + 1].1));
    } else {
        assert(exchange.take(k + 1) =~= exchange);
    }
}

/// Whether `perform` answers every request for the peer certificate with
/// these DER bytes.
pub open spec fn presents<F: Fn(Action) -> Reply>(perform: F, der: Seq<u8>) -> bool {
    forall|action: Action, reply: Reply|
        #[trigger] call_ensures(perform, (action,), reply) && action@ is ExtractCertificate
            ==> reply@.failure is None && reply@.certificate == Some(der)
}

/// On a network that carries out every stage up to the extraction and
/// presents a certificate, the certificate decides the fetch: the result is
/// the record decoded from its bytes, or the parsing error that says why
/// there is none. Nothing that comes of the announcement or of the shutdown
/// changes it.
pub proof fn lemma_presented_certificate_decides<F: Fn(Action) -> Reply>(
    perform: F,
    hostname: Seq<char>,
    exchange: Seq<(Action, Reply)>,
    der: Seq<u8>,
)
    requires
        conducted(perform, hostname, exchange),
        after(hostname, replies_of(exchange)) is Finished,
        forall|stage: Stage|
            stage.index() < Stage::Extraction.index() ==> carries_out(perform, stage),
        presents(perform, der),
    ensures
        after(hostname, replies_of(exchange)) == StepView::Finished(decoded_record(hostname, der)),
        exchange.len() == if decoded_record(hostname, der) is Ok {
            8nat
        } else {
            6nat
        },
{
    let replies = replies_of(exchange);
    lemma_comes_to_stage(perform, hostname, exchange, 5);
    assert(call_ensures(perform, (exchange[5].0,), exchange[5].1));
    assert forall|k: int| 0 <= k <= exchange.len() implies #[trigger] replies.take(k)
        == replies_of(exchange.take(k)) by {
        assert(replies.take(k) =~= replies_of(exchange.take(k)));
    }
    lemma_requests_in_order(hostname, replies.take(5));
    lemma_course(hostname, replies.take(5));
    assert(replies[5] == exchange[5].1@);
    lemma_next_reply(hostname, replies, 5);
    if exchange.len() == 6 {
        assert(replies.take(6) =~= replies);
    } else if decoded_record(hostname, der) is Err {
        assert(call_ensures(perform, (exchange[6].0,), exchange[6].1));
    } else {
        lemma_next_reply(hostname, replies, 6);
        if exchange.len() == 7 {
            assert(replies.take(7) =~= replies);
        }
        lemma_next_reply(hostname, replies, 7);
        if exchange.len() > 8 {
            assert(call_ensures(perform, (exchange[8].0,), exchange[8].1));
        } else {
            assert(replies.take(8) =~= replies);
        }
    }
}

/// A fetch can be repeated: as long as the network carries out every stage
/// up to the extraction and the host presents the same certificate, every
/// fetch of the host ends alike.
pub proof fn lemma_fetch_is_repeatable<F: Fn(Action) -> Reply>(
    perform: F,
    hostname: Seq<char>,
    first: Seq<(Action, Reply)>,
    second: Seq<(Action, Reply)>,
    der: Seq<u8>,
)
    requires
        conducted(perform, hostname, first),
        conducted(perform, hostname, second),
        after(hostname, replies_of(first)) is Finished,
        after(hostname, replies_of(second)) is Finished,
        forall|stage: Stage|
            stage.index() < Stage::Extraction.index() ==> carries_out(perform, stage),
        presents(perform, der),
    ensures
        after(hostname, replies_of(first)) == after(hostname, replies_of(second)),
{
    lemma_presented_certificate_decides(perform, hostname, first, der);
    lemma_presented_certificate_decides(perform, hostname, second, der);
}

/// The alternative names of a certificate have no part in the record, nor in
/// whether there is one.
pub proof fn lemma_names_leave_record_alone(
    hostname: Seq<char>,
    fields: CertificateFieldsView,
    other: CertificateFieldsView,
)
    requires
        other.issuer == fields.issuer,
        other.subject == fields.subject,
        other.not_before == fields.not_before,
        other.not_after == fields.not_after,
    ensures
        record_of(hostname, other) == record_of(hostname, fields),
{
}

} // verus!
