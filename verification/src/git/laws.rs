//! What holds of every reconciliation, proved from the reconciler's
//! transition function.
use crate::git::branches::BranchPairView;
use crate::git::command::{CommandOutputView, VcsCommandView};
use crate::git::reconcile::{
    branches_of, has_tracked_branch, lemma_dispatch_wf, lemma_finish_branch_wf,
    lemma_next_tracked, lemma_step_wf, lemma_tracked_locals_have_upstream, next_tracked,
    tracked_locals, AbortCause, BranchOutcomeView, Phase, ReconcileFailureView,
    ReconciliationOutcome, ReconcilerView,
};
use vstd::prelude::*;

verus! {

/// Whether `out` reports a clean working tree: the status command succeeded
/// and printed nothing.
pub open spec fn is_clean(out: CommandOutputView) -> bool {
    out.success && out.stdout.len() == 0
}

/// Whether `command` is a merge.
pub open spec fn is_merge(command: Option<VcsCommandView>) -> bool {
    command matches Some(c) && c is MergeFfOnly
}

/// Whether `command` asks for the working tree's status.
pub open spec fn is_status(command: Option<VcsCommandView>) -> bool {
    command matches Some(c) && c is StatusPorcelain
}

/// A reconciliation begins in a well-formed state.
pub proof fn lemma_initial_wf(path: Seq<char>)
    ensures
        ReconcilerView::initial(path).wf(),
{
    let s = ReconcilerView::initial(path);
    assert(branches_of(s.outcomes) =~= tracked_locals(s.pairs.take(0)));
}

/// Whatever outputs come in, the machine stays well-formed.
pub proof fn lemma_run_wf(s: ReconcilerView, outs: Seq<CommandOutputView>)
    requires
        s.wf(),
    ensures
        s.run(outs).wf(),
    decreases outs.len(),
{
    if outs.len() > 0 {
        lemma_run_wf(s, outs.drop_last());
        lemma_step_wf(s.run(outs.drop_last()), outs.last());
    }
}

/// Once a reconciliation has ended, nothing changes and no command is
/// handed out, whatever comes in.
pub proof fn lemma_finished_is_final(s: ReconcilerView, outs: Seq<CommandOutputView>)
    requires
        s.is_finished(),
    ensures
        s.run(outs) == s,
        outs.len() > 0 ==> s.command_after(outs) is None,
    decreases outs.len(),
{
    if outs.len() > 0 {
        lemma_finished_is_final(s, outs.drop_last());
    }
}

/// A run can be cut in two: the state after `a + b` is the state that `b`
/// leads to from the state after `a`.
pub proof fn lemma_run_split(s: ReconcilerView, a: Seq<CommandOutputView>, b: Seq<CommandOutputView>)
    ensures
        s.run(a + b) == s.run(a).run(b),
    decreases b.len(),
{
    if b.len() > 0 {
        assert((a + b).drop_last() =~= a + b.drop_last());
        lemma_run_split(s, a, b.drop_last());
    }
}

/// How many of the steps that come before the branches are taken are still
/// to be done.
pub open spec fn steps_before_branches(s: ReconcilerView) -> nat {
    match s.phase {
        Phase::CurrentBranch => 3,
        Phase::Fetch => 2,
        Phase::BranchList => 1,
        _ => 0,
    }
}

/// How many outputs the branches from `next` on can still ask for, at most:
/// two for each, a status and a merge.
pub open spec fn branch_steps_left(s: ReconcilerView) -> nat {
    match s.phase {
        Phase::Status => (2 * (s.pairs.len() - s.next)) as nat,
        Phase::Merge => (2 * (s.pairs.len() - s.next) - 1) as nat,
        Phase::RefUpdate => (2 * (s.pairs.len() - s.next) - 1) as nat,
        _ => 0,
    }
}

/// Every output brings a reconciliation nearer to its end: it completes one
/// of the steps before the branches, or it leaves fewer steps for the
/// branches.
pub proof fn lemma_step_makes_progress(s: ReconcilerView, out: CommandOutputView)
    requires
        s.wf(),
        !s.is_finished(),
    ensures
        steps_before_branches(s.step(out).0) < steps_before_branches(s) || (steps_before_branches(
            s.step(out).0,
        ) == steps_before_branches(s) && branch_steps_left(s.step(out).0) < branch_steps_left(s)),
{
    lemma_step_wf(s, out);
    if s.on_branch() {
        let mid = ReconcilerView { next: s.next + 1, ..s };
        lemma_next_tracked(mid.pairs, mid.next);
    }
}

/// Once the branches are known, a reconciliation ends after at most two
/// outputs for each branch that is left.
pub proof fn lemma_reconciliation_ends(s: ReconcilerView, outs: Seq<CommandOutputView>)
    requires
        s.wf(),
        steps_before_branches(s) == 0,
        outs.len() >= branch_steps_left(s),
    ensures
        s.run(outs).is_finished(),
    decreases outs.len(),
{
    if s.is_finished() {
        lemma_finished_is_final(s, outs);
    } else {
        let first = seq![outs[0]];
        let rest = outs.subrange(1, outs.len() as int);
        assert(first + rest =~= outs);
        assert(s.run(first.drop_last()) == s);
        lemma_run_split(s, first, rest);
        lemma_step_wf(s, outs[0]);
        lemma_step_makes_progress(s, outs[0]);
        lemma_reconciliation_ends(s.step(outs[0]).0, rest);
    }
}

/// Every command of a reconciliation is about the reconciler's own working
/// copy, and the reconciler never moves to another.
pub proof fn lemma_commands_stay_in_working_copy(s: ReconcilerView, out: CommandOutputView)
    ensures
        s.step(out).0.path == s.path,
        s.step(out).1 matches Some(c) ==> c.path() == s.path,
{
}

/// The outputs of a whole run never lead outside the working copy.
pub proof fn lemma_run_stays_in_working_copy(s: ReconcilerView, outs: Seq<CommandOutputView>)
    ensures
        s.run(outs).path == s.path,
        outs.len() > 0 ==> (s.command_after(outs) matches Some(c) ==> c.path() == s.path),
    decreases outs.len(),
{
    if outs.len() > 0 {
        lemma_run_stays_in_working_copy(s, outs.drop_last());
        lemma_commands_stay_in_working_copy(s.run(outs.drop_last()), outs.last());
    }
}

/// The order of the first steps is fixed: the checked-out branch is read,
/// then the remotes are fetched, then the branches are listed.
pub proof fn lemma_first_steps_in_order(
    path: Seq<char>,
    current: CommandOutputView,
    fetch: CommandOutputView,
)
    requires
        current.success,
        fetch.success,
    ensures
        ReconcilerView::first_command(path) == (VcsCommandView::CurrentBranch { path }),
        ReconcilerView::initial(path).step(current).1 == Some(
            VcsCommandView::FetchAllPrune { path },
        ),
        ReconcilerView::initial(path).step(current).0.step(fetch).1 == Some(
            VcsCommandView::BranchUpstreamList { path },
        ),
{
}

/// No branch is touched before the fetch has succeeded and the branches are
/// listed: a command about a branch is handed out only in answer to the
/// listing or to the output of an earlier command about a branch.
pub proof fn lemma_branches_wait_for_the_listing(s: ReconcilerView, out: CommandOutputView)
    requires
        s.step(out).1 matches Some(c) && (c is StatusPorcelain || c is MergeFfOnly
            || c is FetchRefToRef),
    ensures
        s.phase is BranchList && out.success || s.on_branch(),
{
}

/// A clean checked-out branch is fast-forwarded: the clean status is answered
/// by one merge from the branch's upstream, a successful merge is recorded as
/// `FastForwarded`, and what follows the merge is no second merge.
pub proof fn lemma_clean_current_branch_is_fast_forwarded(
    s: ReconcilerView,
    status: CommandOutputView,
    merge: CommandOutputView,
)
    requires
        s.wf(),
        s.phase is Status,
        is_clean(status),
        merge.success,
    ensures
        s.pairs[s.next].local == s.current,
        s.step(status).1 == Some(
            VcsCommandView::MergeFfOnly { path: s.path, upstream: s.pairs[s.next].upstream->0 },
        ),
        s.step(status).0.outcomes == s.outcomes,
        s.step(status).0.step(merge).0.outcomes == s.outcomes.push(
            BranchOutcomeView {
                branch: s.current,
                outcome: ReconciliationOutcome::FastForwarded,
                detail: Seq::empty(),
            },
        ),
        !is_merge(s.step(status).0.step(merge).1),
{
    let mid = s.step(status).0;
    lemma_step_wf(s, status);
    lemma_finish_branch_wf(mid, ReconciliationOutcome::FastForwarded, Seq::empty());
}

/// A merge that git refuses is recorded as a failure of that branch alone:
/// the reconciliation goes on to the next branch.
pub proof fn lemma_refused_merge_fails_the_branch_only(s: ReconcilerView, merge: CommandOutputView)
    requires
        s.wf(),
        s.phase is Merge,
        !merge.success,
    ensures
        s.step(merge).0.outcomes == s.outcomes.push(
            BranchOutcomeView {
                branch: s.current,
                outcome: ReconciliationOutcome::Failed,
                detail: merge.stderr_text(),
            },
        ),
        !(s.step(merge).0.phase is Aborted),
        s.step(merge).0.failure is None,
{
    lemma_finish_branch_wf(s, ReconciliationOutcome::Failed, merge.stderr_text());
}

/// A merge is handed out only in answer to a clean status of the checked-out
/// branch, and it merges that branch's upstream.
pub proof fn lemma_merge_needs_clean_status(s: ReconcilerView, out: CommandOutputView)
    requires
        s.wf(),
        is_merge(s.step(out).1),
    ensures
        s.phase is Status,
        is_clean(out),
        s.pairs[s.next].local == s.current,
        s.step(out).1 == Some(
            VcsCommandView::MergeFfOnly { path: s.path, upstream: s.pairs[s.next].upstream->0 },
        ),
{
}

/// A dirty checked-out branch is skipped: the status is answered by no merge,
/// the branch is recorded as `SkippedDirty`, and the reconciliation moves
/// past it.
pub proof fn lemma_dirty_current_branch_is_skipped(s: ReconcilerView, status: CommandOutputView)
    requires
        s.wf(),
        s.phase is Status,
        status.success,
        status.stdout.len() > 0,
    ensures
        !is_merge(s.step(status).1),
        s.step(status).0.outcomes == s.outcomes.push(
            BranchOutcomeView {
                branch: s.current,
                outcome: ReconciliationOutcome::SkippedDirty,
                detail: Seq::empty(),
            },
        ),
        s.step(status).0.next > s.next,
{
    lemma_finish_branch_wf(s, ReconciliationOutcome::SkippedDirty, Seq::empty());
    let mid = ReconcilerView {
        outcomes: s.outcomes.push(
            BranchOutcomeView {
                branch: s.pairs[s.next].local,
                outcome: ReconciliationOutcome::SkippedDirty,
                detail: Seq::empty(),
            },
        ),
        next: s.next + 1,
        ..s
    };
    lemma_next_tracked(mid.pairs, mid.next);
}

/// Where no status of a run reports a clean tree, the run hands out no merge
/// and fast-forwards nothing.
pub proof fn lemma_no_merge_without_clean_status(path: Seq<char>, outs: Seq<CommandOutputView>)
    requires
        forall|i: int|
            0 <= i < outs.len() && (#[trigger] ReconcilerView::initial(path).run(
                outs.take(i),
            )).phase is Status ==> !is_clean(outs[i]),
    ensures
        forall|i: int|
            0 < i <= outs.len() ==> !is_merge(
                #[trigger] ReconcilerView::initial(path).command_after(outs.take(i)),
            ),
{
    let s = ReconcilerView::initial(path);
    lemma_initial_wf(path);
    assert forall|i: int| 0 < i <= outs.len() implies !is_merge(
        #[trigger] s.command_after(outs.take(i)),
    ) by {
        let before = outs.take(i).drop_last();
        assert(before =~= outs.take(i - 1));
        lemma_run_wf(s, before);
        if is_merge(s.command_after(outs.take(i))) {
            lemma_merge_needs_clean_status(s.run(before), outs[i - 1]);
        }
    }
}

/// The working tree's status is asked for the checked-out branch only: a
/// status command means that the branch now taken is the checked-out one.
pub proof fn lemma_status_is_for_current_branch(s: ReconcilerView, out: CommandOutputView)
    requires
        s.wf(),
        is_status(s.step(out).1),
    ensures
        s.step(out).0.phase is Status,
        s.step(out).0.pairs[s.step(out).0.next].local == s.step(out).0.current,
{
    lemma_step_wf(s, out);
}

/// A branch that is not checked out is updated without a look at the working
/// tree: taking it hands out the update of its ref at once, and the outcome
/// follows from that update alone.
pub proof fn lemma_other_branch_is_updated_directly(
    s: ReconcilerView,
    k: int,
    update: CommandOutputView,
)
    requires
        s.ready(),
        s.next <= k < s.pairs.len(),
        forall|j: int| s.next <= j < k ==> s.pairs[j].upstream is None,
        s.pairs[k].upstream is Some,
        s.pairs[k].local != s.current,
    ensures
        s.dispatch().1 == Some(
            VcsCommandView::FetchRefToRef {
                path: s.path,
                upstream: s.pairs[k].upstream->0,
                local: s.pairs[k].local,
            },
        ),
        s.dispatch().0.outcomes == s.outcomes,
        s.dispatch().0.step(update).0.outcomes == s.outcomes.push(
            BranchOutcomeView {
                branch: s.pairs[k].local,
                outcome: if update.success {
                    ReconciliationOutcome::UpdatedNonCurrent
                } else {
                    ReconciliationOutcome::Failed
                },
                detail: if update.success {
                    Seq::empty()
                } else {
                    update.stderr_text()
                },
            },
        ),
{
    lemma_next_tracked(s.pairs, s.next);
    lemma_dispatch_wf(s);
    let mid = s.dispatch().0;
    if update.success {
        lemma_finish_branch_wf(mid, ReconciliationOutcome::UpdatedNonCurrent, Seq::empty());
    } else {
        lemma_finish_branch_wf(mid, ReconciliationOutcome::Failed, update.stderr_text());
    }
}

/// No branch but the checked-out one is ever skipped as dirty or
/// fast-forwarded, and the checked-out branch is never updated in place.
pub proof fn lemma_outcome_kinds(path: Seq<char>, outs: Seq<CommandOutputView>, i: int)
    requires
        0 <= i < ReconcilerView::initial(path).run(outs).outcomes.len(),
    ensures
        ({
            let end = ReconcilerView::initial(path).run(outs);
            let o = end.outcomes[i];
            &&& o.outcome is SkippedDirty ==> o.branch == end.current
            &&& o.outcome is FastForwarded ==> o.branch == end.current
            &&& o.outcome is UpdatedNonCurrent ==> o.branch != end.current
        }),
{
    lemma_initial_wf(path);
    lemma_run_wf(ReconcilerView::initial(path), outs);
}

/// The outcomes of a finished reconciliation speak of the branches with an
/// upstream, each once and in the order of the listing, and of no other
/// branch: a branch without upstream has no outcome at all.
pub proof fn lemma_outcomes_cover_tracked_branches(path: Seq<char>, outs: Seq<CommandOutputView>)
    requires
        ReconcilerView::initial(path).run(outs).phase is Done,
    ensures
        branches_of(ReconcilerView::initial(path).run(outs).outcomes) == tracked_locals(
            ReconcilerView::initial(path).run(outs).pairs,
        ),
        forall|i: int|
            0 <= i < ReconcilerView::initial(path).run(outs).outcomes.len() ==> has_tracked_branch(
                ReconcilerView::initial(path).run(outs).pairs,
                (#[trigger] ReconcilerView::initial(path).run(outs).outcomes[i]).branch,
            ),
{
    lemma_initial_wf(path);
    lemma_run_wf(ReconcilerView::initial(path), outs);
    let end = ReconcilerView::initial(path).run(outs);
    assert(end.pairs.take(end.pairs.len() as int) =~= end.pairs);
    assert forall|i: int| 0 <= i < end.outcomes.len() implies has_tracked_branch(
        end.pairs,
        (#[trigger] end.outcomes[i]).branch,
    ) by {
        lemma_tracked_locals_have_upstream(end.pairs, i);
    }
}

/// A failed fetch ends the reconciliation at once, with the fetch as cause,
/// what git wrote to standard error as message, and no outcome for any
/// branch.
pub proof fn lemma_fetch_failure_aborts(s: ReconcilerView, fetch: CommandOutputView)
    requires
        s.wf(),
        s.phase is Fetch,
        !fetch.success,
    ensures
        s.step(fetch).1 is None,
        s.step(fetch).0.phase is Aborted,
        s.step(fetch).0.failure == Some(
            ReconcileFailureView {
                cause: AbortCause::Fetch,
                path: s.path,
                message: fetch.stderr_text(),
            },
        ),
        s.step(fetch).0.outcomes.len() == 0,
{
}

/// Where the fetch of a run fails, the run ends without any branch outcome,
/// whatever else comes in: the second command of every reconciliation is
/// the fetch.
pub proof fn lemma_run_with_failed_fetch(path: Seq<char>, outs: Seq<CommandOutputView>)
    requires
        outs.len() >= 2,
        outs[0].success,
        !outs[1].success,
    ensures
        ReconcilerView::initial(path).command_after(outs.take(1)) == Some(
            VcsCommandView::FetchAllPrune { path },
        ),
        ReconcilerView::initial(path).run(outs).phase is Aborted,
        ReconcilerView::initial(path).run(outs).failure == Some(
            ReconcileFailureView { cause: AbortCause::Fetch, path, message: outs[1].stderr_text() },
        ),
        ReconcilerView::initial(path).run(outs).outcomes.len() == 0,
{
    let s = ReconcilerView::initial(path);
    lemma_initial_wf(path);
    let first = outs.take(1);
    let two = outs.take(2);
    assert(two.drop_last() =~= first);
    assert(s.run(two) == s.run(first).step(outs[1]).0);
    let rest = outs.subrange(2, outs.len() as int);
    assert(two + rest =~= outs);
    lemma_run_split(s, two, rest);
    lemma_finished_is_final(s.run(two), rest);
}

} // verus!
