//! The fleet: what the results of all repositories add up to.
use crate::git::sync::{Operation, RunResult, RunResultView};
use crate::utils::output::{final_summary_text, lowercase_of, RepoStatusPrinter};
use vstd::prelude::*;

verus! {

/// The views of a list of results.
pub open spec fn results_view(v: Seq<RunResult>) -> Seq<RunResultView> {
    Seq::new(v.len(), |i: int| v[i]@)
}

/// How many of `results` are failures.
pub open spec fn count_failures(results: Seq<RunResultView>) -> nat
    decreases results.len(),
{
    if results.len() == 0 {
        0
    } else {
        count_failures(results.drop_last()) + if results.last().outcome is Failure {
            1nat
        } else {
            0nat
        }
    }
}

/// The name of an operation, as the closing line uses it.
pub open spec fn operation_name(operation: Operation) -> Seq<char> {
    match operation {
        Operation::Clone => "Clone"@,
        Operation::Sync => "Sync"@,
    }
}

/// The summary of a run over the whole fleet.
#[derive(Clone, Copy, PartialEq, Eq, Structural, Debug)]
pub struct FleetSummary {
    /// What the run did.
    pub operation: Operation,
    /// The number of repositories.
    pub total: usize,
    /// The number of repositories that failed.
    pub failed_count: usize,
}

impl FleetSummary {
    /// Whether this is the summary of the run that gave `results`: every
    /// repository counts, and those that failed are counted apart.
    pub open spec fn sums_up(self, results: Seq<RunResultView>) -> bool {
        self.total == results.len() && self.failed_count == count_failures(results)
    }

    /// The status with which the process ends: zero where no repository
    /// failed, one otherwise.
    pub open spec fn exit_status(self) -> int {
        if self.failed_count == 0 {
            0
        } else {
            1
        }
    }
}

/// No more repositories fail than there are.
pub proof fn lemma_count_failures_bound(results: Seq<RunResultView>)
    ensures
        count_failures(results) <= results.len(),
    decreases results.len(),
{
    if results.len() > 0 {
        lemma_count_failures_bound(results.drop_last());
    }
}

/// The failures of two batches add up: no repository's result bears on the
/// count of another's.
pub proof fn lemma_count_failures_concat(a: Seq<RunResultView>, b: Seq<RunResultView>)
    ensures
        count_failures(a + b) == count_failures(a) + count_failures(b),
    decreases b.len(),
{
    if b.len() > 0 {
        assert((a + b).drop_last() =~= a + b.drop_last());
        lemma_count_failures_concat(a, b.drop_last());
    }
}

/// Nothing failed exactly where no result is a failure.
pub proof fn lemma_no_failure_means_all_succeeded(results: Seq<RunResultView>)
    ensures
        count_failures(results) == 0 <==> forall|i: int|
            0 <= i < results.len() ==> !((#[trigger] results[i]).outcome is Failure),
    decreases results.len(),
{
    if results.len() > 0 {
        let rest = results.drop_last();
        lemma_no_failure_means_all_succeeded(rest);
        if count_failures(results) == 0 {
            assert forall|i: int| 0 <= i < results.len() implies !((#[trigger] results[i]).outcome
                is Failure) by {
                if i < rest.len() {
                    assert(rest[i] == results[i]);
                }
            }
        } else if count_failures(rest) != 0 {
            let i = choose|i: int| 0 <= i < rest.len() && (#[trigger] rest[i]).outcome is Failure;
        }
    }
}

/// A run over a fleet of which some repositories fail ends with a summary
/// that counts every repository and, apart, every failure, and with a status
/// other than zero exactly where a repository failed.
pub proof fn lemma_fleet_summary(summary: FleetSummary, results: Seq<RunResultView>)
    requires
        summary.sums_up(results),
    ensures
        summary.total == results.len(),
        summary.failed_count == count_failures(results),
        summary.failed_count <= summary.total,
        summary.exit_status() != 0 <==> summary.failed_count > 0,
        summary.exit_status() != 0 <==> exists|i: int|
            0 <= i < results.len() && (#[trigger] results[i]).outcome is Failure,
{
    lemma_count_failures_bound(results);
    lemma_no_failure_means_all_succeeded(results);
}

/// The summary of the run that did `operation` and gave `results`, one for
/// each repository of the fleet: every repository counts, and those that
/// failed are counted apart.
pub fn summarize(operation: Operation, results: &Vec<RunResult>) -> (s: FleetSummary)
    ensures
        s.operation == operation,
        s.sums_up(results_view(results@)),
{
    let mut failed: usize = 0;
    let mut i: usize = 0;
    while i < results.len()
        invariant
            i <= results.len(),
            failed <= i,
            failed == count_failures(results_view(results@).take(i as int)),
        decreases results.len() - i,
    {
        assert(results_view(results@).take(i + 1).drop_last() =~= results_view(results@).take(
            i as int,
        ));
        if results[i].is_failure() {
            failed += 1;
        }
        i += 1;
    }
    assert(results_view(results@).take(results.len() as int) =~= results_view(results@));
    FleetSummary { operation, total: results.len(), failed_count: failed }
}

impl Operation {
    /// The name of the operation, as the closing line uses it.
    pub fn name(&self) -> (r: &'static str)
        ensures
            r@ == operation_name(*self),
    {
        match self {
            Operation::Clone => "Clone",
            Operation::Sync => "Sync",
        }
    }
}

impl FleetSummary {
    /// Whether no repository failed.
    pub fn is_success(&self) -> (r: bool)
        ensures
            r == (self.failed_count == 0),
    {
        self.failed_count == 0
    }

    /// The status with which the process ends: zero where no repository
    /// failed, one otherwise.
    pub fn exit_code(&self) -> (code: i32)
        ensures
            code == self.exit_status(),
    {
        if self.failed_count == 0 {
            0
        } else {
            1
        }
    }

    /// The closing line of the run, which is shown whatever the verbosity.
    pub fn final_line(&self, printer: &RepoStatusPrinter) -> (r: String)
        ensures
            r@ == final_summary_text(
                lowercase_of(operation_name(self.operation)),
                self.failed_count as nat,
                self.total as nat,
            ),
    {
        printer.final_summary(self.operation.name(), self.failed_count, self.total)
    }
}

} // verus!
