//! Severity-ranked diagnostic statuses, probe reports, and the orchestration
//! of probe outcomes into the final report list.

use vstd::prelude::*;
use vstd::string::*;

pub mod database;
pub mod maintenance;
pub mod network;
pub mod performance;
pub mod plugins;
pub mod security;
pub mod system;

verus! {

/// Severity of a diagnostic finding, totally ordered: `Ok < Warning < Error`.
#[derive(Debug, PartialEq, Eq, Clone, Copy, Structural)]
pub enum Status {
    Okay,
    Warning,
    Error,
}

impl Status {
    /// Numeric rank of the severity, the order the statuses merge under.
    pub open spec fn rank(self) -> int {
        match self {
            Status::Okay => 0,
            Status::Warning => 1,
            Status::Error => 2,
        }
    }

    /// The merge of two statuses: the more severe of the two.
    pub open spec fn spec_merge(self, other: Status) -> Status {
        if other.rank() >= self.rank() {
            other
        } else {
            self
        }
    }

    /// Merges another status into this one; the result is the maximum
    /// severity, so a status never moves downward as sub-checks accumulate.
    pub fn merge(self, other: Status) -> (merged: Status)
        ensures
            merged == self.spec_merge(other),
            merged.rank() >= self.rank(),
            merged.rank() >= other.rank(),
    {
        match (self, other) {
            (Status::Error, _) => Status::Error,
            (_, Status::Error) => Status::Error,
            (Status::Warning, _) => Status::Warning,
            (_, Status::Warning) => Status::Warning,
            _ => Status::Okay,
        }
    }
}

/// The merged severity of a whole sequence of sub-check outcomes,
/// starting from `Ok`.
pub open spec fn merge_all(outcomes: Seq<Status>) -> Status
    decreases outcomes.len(),
{
    if outcomes.len() == 0 {
        Status::Okay
    } else {
        merge_all(outcomes.drop_last()).spec_merge(outcomes.last())
    }
}

/// Law: the merged status of a sequence of sub-check outcomes is an upper
/// bound of every outcome in it, and is itself `Ok` or one of the outcomes:
/// the final status equals the maximum under `Ok < Warning < Error`.
pub proof fn lemma_merge_all_is_max(outcomes: Seq<Status>)
    ensures
        forall|i: int| 0 <= i < outcomes.len() ==> outcomes[i].rank() <= merge_all(outcomes).rank(),
        merge_all(outcomes) == Status::Okay || exists|i: int|
            0 <= i < outcomes.len() && merge_all(outcomes) == outcomes[i],
    decreases outcomes.len(),
{
    if outcomes.len() > 0 {
        lemma_merge_all_is_max(outcomes.drop_last());
        assert(forall|i: int|
            0 <= i < outcomes.len() - 1 ==> outcomes[i] == outcomes.drop_last()[i]);
        if merge_all(outcomes) == outcomes.last() {
            assert(merge_all(outcomes) == outcomes[outcomes.len() - 1]);
        }
    }
}

/// Law: merging is monotonic over time: as more sub-check outcomes are
/// appended, the merged status never decreases.
pub proof fn lemma_merge_all_monotonic(outcomes: Seq<Status>, prefix_len: int)
    requires
        0 <= prefix_len <= outcomes.len(),
    ensures
        merge_all(outcomes.take(prefix_len)).rank() <= merge_all(outcomes).rank(),
    decreases outcomes.len() - prefix_len,
{
    if prefix_len < outcomes.len() {
        lemma_merge_all_monotonic(outcomes, prefix_len + 1);
        assert(outcomes.take(prefix_len + 1).drop_last() =~= outcomes.take(prefix_len));
    } else {
        assert(outcomes.take(prefix_len) =~= outcomes);
    }
}

/// Law: a probe that merges three sub-check contributions in turn, starting
/// from `Ok`, ends at exactly the merged severity of the whole sequence.
pub proof fn lemma_merge_chain_is_merge_all(first: Status, second: Status, third: Status)
    ensures
        Status::Okay.spec_merge(first).spec_merge(second).spec_merge(third) == merge_all(
            seq![first, second, third],
        ),
{
    reveal_with_fuel(merge_all, 4);
    assert(seq![first, second, third].drop_last() =~= seq![first, second]);
    assert(seq![first, second].drop_last() =~= seq![first]);
    assert(seq![first].drop_last() =~= Seq::<Status>::empty());
}

/// The outcome record of one probe: module identifier, merged severity,
/// summary message, and the ordered detail lines.
#[derive(Debug, PartialEq, Eq)]
pub struct DiagnosisReport {
    pub module: String,
    pub status: Status,
    pub message: String,
    pub details: Vec<String>,
}

/// The mathematical value of a report: its strings as character sequences.
#[verifier::ext_equal]
pub ghost struct ReportView {
    pub module: Seq<char>,
    pub status: Status,
    pub message: Seq<char>,
    pub details: Seq<Seq<char>>,
}

impl View for DiagnosisReport {
    type V = ReportView;

    open spec fn view(&self) -> ReportView {
        ReportView {
            module: self.module@,
            status: self.status,
            message: self.message@,
            details: self.details@.map_values(|d: String| d@),
        }
    }
}

/// The synthetic report that stands in for a probe whose run failed
/// outright with the given error text.
pub open spec fn synthetic_report(error_text: Seq<char>) -> ReportView {
    ReportView {
        module: "Unknown"@,
        status: Status::Error,
        message: "Module execution failed: "@ + error_text,
        details: Seq::empty(),
    }
}

/// Orchestration step: converts the ordered list of probe outcomes into the
/// ordered list of reports. A probe that produced a report keeps it; a probe
/// that failed outright contributes exactly one synthetic `Error` report.
/// One report per attempted probe, in probe order.
pub fn collect_reports(outcomes: Vec<Result<DiagnosisReport, String>>) -> (reports: Vec<
    DiagnosisReport,
>)
    ensures
        reports@.len() == outcomes@.len(),
        forall|i: int|
            0 <= i < outcomes@.len() ==> reports@[i]@ == (match outcomes@[i] {
                Ok(report) => report@,
                Err(e) => synthetic_report(e@),
            }),
{
    let mut reports: Vec<DiagnosisReport> = Vec::new();
    let ghost outcome_views = outcomes@;
    let mut remaining = outcomes;
    let total: usize = remaining.len();
    let mut taken: usize = 0;
    while remaining.len() > 0
        invariant
            outcome_views.len() == total,
            taken <= total,
            taken + remaining.len() == outcome_views.len(),
            remaining@ =~= outcome_views.skip(taken as int),
            reports@.len() == taken,
            forall|i: int|
                0 <= i < taken ==> reports@[i]@ == (match outcome_views[i] {
                    Ok(report) => report@,
                    Err(e) => synthetic_report(e@),
                }),
        decreases remaining.len(),
    {
        let outcome = remaining.remove(0);
        proof {
            assert(outcome == outcome_views[taken as int]);
        }
        match outcome {
            Ok(report) => reports.push(report),
            Err(e) => {
                let mut message = "Module execution failed: ".to_owned();
                message.append(e.as_str());
                let report = DiagnosisReport {
                    module: "Unknown".to_owned(),
                    status: Status::Error,
                    message,
                    details: Vec::new(),
                };
                proof {
                    assert(report@ =~= synthetic_report(e@));
                }
                reports.push(report);
            },
        }
        taken = taken + 1;
    }
    reports
}

} // verus!
