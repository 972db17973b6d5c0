//! The results of a batch of fetches.
//!
//! Hosts are fetched one by one. A host that fails is noted with its error
//! and the batch goes on; the records of the others are kept for output.

use crate::certificate::outcome_view;
use crate::error::CertCheckerError;
use crate::error::FailureView;
use crate::fetch::after;
use crate::fetch::conducted;
use crate::fetch::fetched;
use crate::fetch::get_cert_info;
use crate::fetch::lemma_course;
use crate::fetch::replies_of;
use crate::fetch::Action;
use crate::fetch::Reply;
use crate::fetch::StepView;
use crate::record::CertInfo;
use crate::record::CertInfoView;
use vstd::prelude::*;
use vstd::seq_lib::lemma_multiset_commutative;

verus! {

/// A host whose fetch failed, with the error.
#[derive(Debug)]
pub struct Failure {
    /// The host name that was fetched.
    pub hostname: String,
    /// Why no record came of it.
    pub error: CertCheckerError,
}

/// A [`Failure`] as text.
pub struct FailedHost {
    pub hostname: Seq<char>,
    pub error: FailureView,
}

impl FailedHost {
    /// The log line for the failure: the host name and the error written
    /// out.
    pub open spec fn text(self) -> Seq<char> {
        "hostname: "@ + self.hostname + ", "@ + self.error.text()
    }
}

impl View for Failure {
    type V = FailedHost;

    open spec fn view(&self) -> FailedHost {
        FailedHost { hostname: self.hostname@, error: self.error@ }
    }
}

impl DeepView for Failure {
    type V = FailedHost;

    open spec fn deep_view(&self) -> FailedHost {
        self@
    }
}

impl Failure {
    /// The log line for the failure, such as
    /// `hostname: example.org, Connection Error: connection refused`.
    pub fn to_string(&self) -> (text: String)
        ensures
            text@ == self@.text(),
    {
        let mut text = String::from_str("hostname: ");
        text.append(self.hostname.as_str());
        text.append(", ");
        let error = self.error.to_string();
        text.append(error.as_str());
        text
    }
}

/// One fetch of a batch: the host name and what came of it.
pub type Attempt = (Seq<char>, Result<CertInfoView, FailureView>);

/// The records of the attempts that succeeded, in order.
pub open spec fn records_of(attempts: Seq<Attempt>) -> Seq<CertInfoView>
    decreases attempts.len(),
{
    if attempts.len() == 0 {
        Seq::empty()
    } else {
        let before = records_of(attempts.drop_last());
        match attempts.last().1 {
            Ok(record) => before.push(record),
            Err(_) => before,
        }
    }
}

/// The attempts that failed, each with its host name, in order.
pub open spec fn failures_of(attempts: Seq<Attempt>) -> Seq<FailedHost>
    decreases attempts.len(),
{
    if attempts.len() == 0 {
        Seq::empty()
    } else {
        let before = failures_of(attempts.drop_last());
        match attempts.last().1 {
            Ok(_) => before,
            Err(error) => before.push(FailedHost { hostname: attempts.last().0, error }),
        }
    }
}

/// What a batch has produced so far.
#[derive(Debug)]
pub struct Report {
    /// The records of the hosts that were fetched, in the order of the
    /// attempts.
    pub records: Vec<CertInfo>,
    /// The hosts that failed, in the order of the attempts.
    pub failures: Vec<Failure>,
}

/// A [`Report`] as text.
pub struct ReportView {
    pub records: Seq<CertInfoView>,
    pub failures: Seq<FailedHost>,
}

impl ReportView {
    /// The report of a batch in which these attempts were made, in order.
    pub open spec fn of(attempts: Seq<Attempt>) -> ReportView {
        ReportView { records: records_of(attempts), failures: failures_of(attempts) }
    }

    /// The report with one more attempt noted.
    pub open spec fn with(
        self,
        hostname: Seq<char>,
        outcome: Result<CertInfoView, FailureView>,
    ) -> ReportView {
        match outcome {
            Ok(record) => ReportView {
                records: self.records.push(record),
                failures: self.failures,
            },
            Err(error) => ReportView {
                records: self.records,
                failures: self.failures.push(FailedHost { hostname, error }),
            },
        }
    }
}

impl View for Report {
    type V = ReportView;

    open spec fn view(&self) -> ReportView {
        ReportView { records: self.records.deep_view(), failures: self.failures.deep_view() }
    }
}

impl Report {
    /// The report of a batch in which nothing has been fetched yet.
    pub fn new() -> (report: Report)
        ensures
            report@ == ReportView::of(Seq::empty()),
    {
        let report = Report { records: Vec::new(), failures: Vec::new() };
        assert(report.records.deep_view() =~= Seq::empty());
        assert(report.failures.deep_view() =~= Seq::empty());
        report
    }

    /// Notes what came of the fetch of `hostname`: a record is added to the
    /// records, an error to the failures together with the host name. What
    /// was noted before stays as it is.
    pub fn record(&mut self, hostname: String, outcome: Result<CertInfo, CertCheckerError>)
        ensures
            final(self)@ == old(self)@.with(hostname@, outcome_view(outcome)),
    {
        let ghost records = self.records.deep_view();
        let ghost failures = self.failures.deep_view();
        match outcome {
            Ok(record) => {
                self.records.push(record);
                assert(self.records.deep_view() =~= records.push(record@));
            },
            Err(error) => {
                let failure = Failure { hostname, error };
                self.failures.push(failure);
                assert(self.failures.deep_view() =~= failures.push(failure@));
            },
        }
    }
}

/// Whether `attempts` are fetches of the host names, in order, each with a
/// result that `perform` can have led to.
pub open spec fn attempted<F: Fn(Action) -> Reply>(
    perform: F,
    hostnames: Seq<Seq<char>>,
    attempts: Seq<Attempt>,
) -> bool {
    &&& attempts.len() == hostnames.len()
    &&& forall|i: int|
        0 <= i < attempts.len() ==> (#[trigger] attempts[i]).0 == hostnames[i] && fetched(
            perform,
            hostnames[i],
            attempts[i].1,
        )
}

/// Fetches the certificate of every host, one after the other, with
/// `perform` doing the work on the network.
///
/// Every host is fetched once, in the order given, whatever came of the
/// hosts before it. The report holds a record for each host whose fetch
/// succeeded and a failure, under the host's name, for each other.
pub fn fetch_all<F: Fn(Action) -> Reply>(hostnames: &Vec<String>, perform: &F) -> (report: Report)
    requires
        forall|action: Action| call_requires(perform, (action,)),
    ensures
        exists|attempts: Seq<Attempt>|
            #[trigger] attempted(perform, hostnames.deep_view(), attempts) && report@
                == ReportView::of(attempts),
        report.records.len() + report.failures.len() == hostnames.len(),
{
    let mut report = Report::new();
    let ghost mut attempts: Seq<Attempt> = Seq::empty();
    let mut i: usize = 0;
    while i < hostnames.len()
        invariant
            i <= hostnames.len(),
            forall|action: Action| call_requires(perform, (action,)),
            attempted(perform, hostnames.deep_view().take(i as int), attempts),
            report@ == ReportView::of(attempts),
        decreases hostnames.len() - i,
    {
        let outcome = get_cert_info(hostnames[i].clone(), perform);
        let ghost before = attempts;
        proof {
            attempts = before.push((hostnames[i as int]@, outcome_view(outcome)));
            lemma_report_grows(before, hostnames[i as int]@, outcome_view(outcome));
            assert(hostnames.deep_view().take(i + 1) =~= hostnames.deep_view().take(i as int).push(
                hostnames[i as int]@,
            ));
        }
        report.record(hostnames[i].clone(), outcome);
        i += 1;
    }
    proof {
        assert(hostnames.deep_view().take(hostnames.len() as int) =~= hostnames.deep_view());
        lemma_every_attempt_is_noted(attempts);
    }
    report
}

/// Noting one more attempt in the report of a batch gives the report of the
/// longer batch.
pub proof fn lemma_report_grows(
    attempts: Seq<Attempt>,
    hostname: Seq<char>,
    outcome: Result<CertInfoView, FailureView>,
)
    ensures
        ReportView::of(attempts.push((hostname, outcome))) == ReportView::of(attempts).with(
            hostname,
            outcome,
        ),
{
    assert(attempts.push((hostname, outcome)).drop_last() =~= attempts);
}

/// Every attempt is noted once: as a record or as a failure.
pub proof fn lemma_every_attempt_is_noted(attempts: Seq<Attempt>)
    ensures
        records_of(attempts).len() + failures_of(attempts).len() == attempts.len(),
    decreases attempts.len(),
{
    if attempts.len() > 0 {
        lemma_every_attempt_is_noted(attempts.drop_last());
    }
}

/// Each failure of a report stands for an attempt that failed, under the
/// host name of that attempt and with its error.
pub proof fn lemma_failure_has_its_host(attempts: Seq<Attempt>, i: int)
    requires
        0 <= i < failures_of(attempts).len(),
    ensures
        exists|j: int|
            0 <= j < attempts.len() && #[trigger] attempts[j] == (
                failures_of(attempts)[i].hostname,
                Err::<CertInfoView, FailureView>(failures_of(attempts)[i].error),
            ),
    decreases attempts.len(),
{
    let shorter = attempts.drop_last();
    if i < failures_of(shorter).len() {
        lemma_failure_has_its_host(shorter, i);
        let j = choose|j: int|
            0 <= j < shorter.len() && #[trigger] shorter[j] == (
                failures_of(shorter)[i].hostname,
                Err::<CertInfoView, FailureView>(failures_of(shorter)[i].error),
            );
    } else {
    }
}

/// Each record of a report is the record of an attempt that succeeded.
pub proof fn lemma_record_has_its_attempt(attempts: Seq<Attempt>, i: int)
    requires
        0 <= i < records_of(attempts).len(),
    ensures
        exists|j: int|
            0 <= j < attempts.len() && (#[trigger] attempts[j]).1 == Ok::<
                CertInfoView,
                FailureView,
            >(records_of(attempts)[i]),
    decreases attempts.len(),
{
    let shorter = attempts.drop_last();
    if i < records_of(shorter).len() {
        lemma_record_has_its_attempt(shorter, i);
        let j = choose|j: int|
            0 <= j < shorter.len() && (#[trigger] shorter[j]).1 == Ok::<CertInfoView, FailureView>(
                records_of(shorter)[i],
            );
    } else {
    }
}

/// Each record of a batch names the host of the fetch that it came of, which
/// is one of the hosts of the batch.
pub proof fn lemma_batch_record_names_its_host<F: Fn(Action) -> Reply>(
    perform: F,
    hostnames: Seq<Seq<char>>,
    attempts: Seq<Attempt>,
    i: int,
)
    requires
        attempted(perform, hostnames, attempts),
        0 <= i < records_of(attempts).len(),
    ensures
        exists|j: int|
            0 <= j < hostnames.len() && (#[trigger] attempts[j]).1 == Ok::<
                CertInfoView,
                FailureView,
            >(records_of(attempts)[i]) && hostnames[j] == records_of(attempts)[i].hostname,
{
    lemma_record_has_its_attempt(attempts, i);
    let record = records_of(attempts)[i];
    let j = choose|j: int|
        0 <= j < attempts.len() && (#[trigger] attempts[j]).1 == Ok::<CertInfoView, FailureView>(
            record,
        );
    let exchange = choose|exchange: Seq<(Action, Reply)>|
        #[trigger] conducted(perform, hostnames[j], exchange) && after(
            hostnames[j],
            replies_of(exchange),
        ) == StepView::Finished(attempts[j].1);
    lemma_course(hostnames[j], replies_of(exchange));
}

/// Each failure of a batch stands under the name of the host whose fetch
/// failed, which is one of the hosts of the batch.
pub proof fn lemma_batch_failure_names_its_host<F: Fn(Action) -> Reply>(
    perform: F,
    hostnames: Seq<Seq<char>>,
    attempts: Seq<Attempt>,
    i: int,
)
    requires
        attempted(perform, hostnames, attempts),
        0 <= i < failures_of(attempts).len(),
    ensures
        exists|j: int|
            0 <= j < hostnames.len() && #[trigger] hostnames[j] == failures_of(
                attempts,
            )[i].hostname && fetched(
                perform,
                hostnames[j],
                Err::<CertInfoView, FailureView>(failures_of(attempts)[i].error),
            ),
{
    lemma_failure_has_its_host(attempts, i);
    let failure = failures_of(attempts)[i];
    let j = choose|j: int|
        0 <= j < attempts.len() && #[trigger] attempts[j] == (
            failure.hostname,
            Err::<CertInfoView, FailureView>(failure.error),
        );
}

/// The report of two batches made one after the other holds what the two
/// reports hold, the first batch's before the second's.
pub proof fn lemma_report_of_joined(first: Seq<Attempt>, second: Seq<Attempt>)
    ensures
        records_of(first + second) == records_of(first) + records_of(second),
        failures_of(first + second) == failures_of(first) + failures_of(second),
    decreases second.len(),
{
    if second.len() == 0 {
    } else {
        lemma_report_of_joined(first, second.drop_last());
        assert((first + second).drop_last() =~= first + second.drop_last());
        match second.last().1 {
            Ok(record) => {
                assert(records_of(first) + records_of(second.drop_last()).push(record) =~= (
                records_of(first) + records_of(second.drop_last())).push(record));
            },
            Err(error) => {
                let failed = FailedHost { hostname: second.last().0, error };
                assert(failures_of(first) + failures_of(second.drop_last()).push(failed) =~= (
                failures_of(first) + failures_of(second.drop_last())).push(failed));
            },
        }
    }
}

/// The order in which hosts are fetched decides the order of a report and
/// nothing else: two batches fetched in either order give the same records
/// and the same failures, each as often.
pub proof fn lemma_order_is_immaterial(first: Seq<Attempt>, second: Seq<Attempt>)
    ensures
        records_of(first + second).to_multiset() == records_of(second + first).to_multiset(),
        failures_of(first + second).to_multiset() == failures_of(second + first).to_multiset(),
{
    lemma_report_of_joined(first, second);
    lemma_report_of_joined(second, first);
    lemma_multiset_commutative(records_of(first), records_of(second));
    lemma_multiset_commutative(records_of(second), records_of(first));
    lemma_multiset_commutative(failures_of(first), failures_of(second));
    lemma_multiset_commutative(failures_of(second), failures_of(first));
    assert(records_of(first).to_multiset().add(records_of(second).to_multiset()) =~= records_of(
        second,
    ).to_multiset().add(records_of(first).to_multiset()));
    assert(failures_of(first).to_multiset().add(failures_of(second).to_multiset()) =~= failures_of(
        second,
    ).to_multiset().add(failures_of(first).to_multiset()));
}

} // verus!
