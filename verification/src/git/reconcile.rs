//! Branch reconciliation: bringing each local branch of one working copy up to
//! date with its upstream.
//!
//! The reconciler is a state machine. It never runs anything itself: it hands
//! out the command to run next and takes that command's output back. The
//! order is fixed: read the checked-out branch, fetch every remote, list the
//! branches, then take the branches with an upstream one by one. A failure
//! before the branches are known ends the reconciliation; a failure on one
//! branch is recorded for that branch and the next branch is taken.
use crate::git::branches::{
    first_unreadable_line, pairs_of_listing, pairs_view, parse_branch_list, BranchPairView,
    BranchUpstreamPair,
};
use crate::git::command::{
    command_view, CommandOutput, CommandOutputView, VcsCommand, VcsCommandView,
};
use crate::utils::text::{same_text, trim, trimmed};
use vstd::prelude::*;

verus! {

/// How the reconciliation of one branch ended.
#[derive(Clone, Copy, PartialEq, Eq, Structural, Debug)]
pub enum ReconciliationOutcome {
    /// The checked-out branch was clean and was fast-forwarded.
    FastForwarded,
    /// The checked-out branch has uncommitted changes and was left alone.
    SkippedDirty,
    /// A branch that is not checked out was set to its upstream.
    UpdatedNonCurrent,
    /// The command for this branch failed.
    Failed,
}

/// The outcome for one branch; `detail` is what the failed command wrote to
/// standard error, and empty for the other outcomes.
#[derive(Debug, Clone, PartialEq, Eq)]
pub struct BranchOutcome {
    pub branch: String,
    pub outcome: ReconciliationOutcome,
    pub detail: String,
}

/// What a `BranchOutcome` holds, as plain values.
pub struct BranchOutcomeView {
    pub branch: Seq<char>,
    pub outcome: ReconciliationOutcome,
    pub detail: Seq<char>,
}

impl View for BranchOutcome {
    type V = BranchOutcomeView;

    open spec fn view(&self) -> BranchOutcomeView {
        BranchOutcomeView { branch: self.branch@, outcome: self.outcome, detail: self.detail@ }
    }
}

/// The views of a list of outcomes.
pub open spec fn outcomes_view(v: Seq<BranchOutcome>) -> Seq<BranchOutcomeView> {
    Seq::new(v.len(), |i: int| v[i]@)
}

/// The step at which a reconciliation was given up.
#[derive(Clone, Copy, PartialEq, Eq, Structural, Debug)]
pub enum AbortCause {
    /// The checked-out branch could not be read.
    CurrentBranch,
    /// Fetching the remotes failed.
    Fetch,
    /// The branches could not be listed, or the listing could not be read.
    BranchList,
}

/// Why a reconciliation was given up: the step that failed, the working copy,
/// and what git wrote to standard error or what was wrong with its output.
#[derive(Debug, Clone, PartialEq, Eq)]
pub struct ReconcileFailure {
    pub cause: AbortCause,
    pub path: String,
    pub message: String,
}

/// What a `ReconcileFailure` holds, as plain values.
pub struct ReconcileFailureView {
    pub cause: AbortCause,
    pub path: Seq<char>,
    pub message: Seq<char>,
}

impl View for ReconcileFailure {
    type V = ReconcileFailureView;

    open spec fn view(&self) -> ReconcileFailureView {
        ReconcileFailureView { cause: self.cause, path: self.path@, message: self.message@ }
    }
}

/// The view of a failure that may be absent.
pub open spec fn failure_view(failure: Option<ReconcileFailure>) -> Option<ReconcileFailureView> {
    match failure {
        Some(f) => Some(f@),
        None => None,
    }
}

/// What the reconciler waits for.
#[derive(Clone, Copy, PartialEq, Eq, Structural, Debug)]
pub enum Phase {
    /// The name of the checked-out branch.
    CurrentBranch,
    /// The end of the fetch.
    Fetch,
    /// The listing of branches and upstreams.
    BranchList,
    /// The working tree's status, asked for the checked-out branch.
    Status,
    /// The end of the fast-forward merge of the checked-out branch.
    Merge,
    /// The end of the update of a branch that is not checked out.
    RefUpdate,
    /// Nothing: every branch has been taken.
    Done,
    /// Nothing: the reconciliation was given up.
    Aborted,
}

/// The message of a listing with a line that names no branch.
pub open spec fn unreadable_listing_message(line: Seq<char>) -> Seq<char> {
    "unreadable line in branch listing: "@ + line
}

/// The first branch with an upstream at or after `from`, or the number of
/// pairs where there is none.
pub open spec fn next_tracked(pairs: Seq<BranchPairView>, from: int) -> int
    decreases pairs.len() - from,
{
    if from < 0 || from >= pairs.len() {
        pairs.len() as int
    } else if pairs[from].upstream is Some {
        from
    } else {
        next_tracked(pairs, from + 1)
    }
}

/// The names of the branches that have an upstream, in order.
pub open spec fn tracked_locals(pairs: Seq<BranchPairView>) -> Seq<Seq<char>>
    decreases pairs.len(),
{
    if pairs.len() == 0 {
        Seq::empty()
    } else if pairs.last().upstream is Some {
        tracked_locals(pairs.drop_last()).push(pairs.last().local)
    } else {
        tracked_locals(pairs.drop_last())
    }
}

/// The branches that a list of outcomes speaks of, in order.
pub open spec fn branches_of(outcomes: Seq<BranchOutcomeView>) -> Seq<Seq<char>> {
    Seq::new(outcomes.len(), |i: int| outcomes[i].branch)
}

/// How many of `outcomes` are of the kind `kind`.
pub open spec fn count_outcomes(outcomes: Seq<BranchOutcomeView>, kind: ReconciliationOutcome) -> nat
    decreases outcomes.len(),
{
    if outcomes.len() == 0 {
        0
    } else {
        count_outcomes(outcomes.drop_last(), kind) + if outcomes.last().outcome == kind {
            1nat
        } else {
            0nat
        }
    }
}

/// How many of `outcomes` are of the kind `kind`.
pub fn count_of_kind(outcomes: &Vec<BranchOutcome>, kind: ReconciliationOutcome) -> (n: usize)
    ensures
        n == count_outcomes(outcomes_view(outcomes@), kind),
{
    let mut n: usize = 0;
    let mut i: usize = 0;
    while i < outcomes.len()
        invariant
            i <= outcomes.len(),
            n <= i,
            n == count_outcomes(outcomes_view(outcomes@).take(i as int), kind),
        decreases outcomes.len() - i,
    {
        assert(outcomes_view(outcomes@).take(i + 1).drop_last() =~= outcomes_view(outcomes@).take(
            i as int,
        ));
        if outcomes[i].outcome == kind {
            n += 1;
        }
        i += 1;
    }
    assert(outcomes_view(outcomes@).take(outcomes.len() as int) =~= outcomes_view(outcomes@));
    n
}

/// The state of a reconciler, as plain values.
pub struct ReconcilerView {
    /// The working copy.
    pub path: Seq<char>,
    /// What the reconciler waits for.
    pub phase: Phase,
    /// The checked-out branch, once it is known.
    pub current: Seq<char>,
    /// The branches, once they are listed.
    pub pairs: Seq<BranchPairView>,
    /// The branch that is being taken; every branch before it is done.
    pub next: int,
    /// The outcomes so far.
    pub outcomes: Seq<BranchOutcomeView>,
    /// Why the reconciliation was given up, if it was.
    pub failure: Option<ReconcileFailureView>,
}

impl ReconcilerView {
    /// The state in which the reconciliation of `path` begins: waiting for
    /// the answer to `first_command`.
    pub open spec fn initial(path: Seq<char>) -> ReconcilerView {
        ReconcilerView {
            path,
            phase: Phase::CurrentBranch,
            current: Seq::empty(),
            pairs: Seq::empty(),
            next: 0,
            outcomes: Seq::empty(),
            failure: None,
        }
    }

    /// The command with which the reconciliation of `path` begins.
    pub open spec fn first_command(path: Seq<char>) -> VcsCommandView {
        VcsCommandView::CurrentBranch { path }
    }

    /// Whether the reconciliation has ended, one way or the other.
    pub open spec fn is_finished(self) -> bool {
        self.phase is Done || self.phase is Aborted
    }

    /// Whether the reconciler waits for the output of a command about the
    /// branch at `next`.
    pub open spec fn on_branch(self) -> bool {
        self.phase is Status || self.phase is Merge || self.phase is RefUpdate
    }

    /// The invariant of the machine.
    pub open spec fn wf(self) -> bool {
        &&& 0 <= self.next <= self.pairs.len()
        &&& self.failure is Some <==> self.phase is Aborted
        &&& (self.phase is CurrentBranch || self.phase is Fetch || self.phase is BranchList
            || self.phase is Aborted) ==> self.pairs.len() == 0 && self.outcomes.len() == 0
        &&& self.on_branch() ==> self.next < self.pairs.len() && self.pairs[self.next].upstream
            is Some
        &&& (self.phase is Status || self.phase is Merge) ==> self.pairs[self.next].local
            == self.current
        &&& self.phase is RefUpdate ==> self.pairs[self.next].local != self.current
        &&& self.phase is Done ==> self.next == self.pairs.len()
        &&& branches_of(self.outcomes) == tracked_locals(self.pairs.take(self.next))
        &&& forall|i: int|
            0 <= i < self.outcomes.len() ==> self.kind_fits(#[trigger] self.outcomes[i])
    }

    /// Whether the kind of `o` fits its branch: only the checked-out branch
    /// is fast-forwarded or skipped as dirty, and only another branch is
    /// updated in place.
    pub open spec fn kind_fits(self, o: BranchOutcomeView) -> bool {
        match o.outcome {
            ReconciliationOutcome::FastForwarded => o.branch == self.current,
            ReconciliationOutcome::SkippedDirty => o.branch == self.current,
            ReconciliationOutcome::UpdatedNonCurrent => o.branch != self.current,
            ReconciliationOutcome::Failed => true,
        }
    }

    /// The reconciliation given up at `cause`.
    pub open spec fn aborted(self, cause: AbortCause, message: Seq<char>) -> (
        ReconcilerView,
        Option<VcsCommandView>,
    ) {
        (
            ReconcilerView {
                phase: Phase::Aborted,
                failure: Some(ReconcileFailureView { cause, path: self.path, message }),
                ..self
            },
            None,
        )
    }

    /// Takes the first branch with an upstream at or after `next`: the
    /// checked-out branch has its working tree's status asked, any other
    /// branch is set to its upstream at once. Without such a branch the
    /// reconciliation is done.
    pub open spec fn dispatch(self) -> (ReconcilerView, Option<VcsCommandView>) {
        let k = next_tracked(self.pairs, self.next);
        if k >= self.pairs.len() {
            (ReconcilerView { phase: Phase::Done, next: self.pairs.len() as int, ..self }, None)
        } else if self.pairs[k].local == self.current {
            (
                ReconcilerView { phase: Phase::Status, next: k, ..self },
                Some(VcsCommandView::StatusPorcelain { path: self.path }),
            )
        } else {
            (
                ReconcilerView { phase: Phase::RefUpdate, next: k, ..self },
                Some(
                    VcsCommandView::FetchRefToRef {
                        path: self.path,
                        upstream: self.pairs[k].upstream->0,
                        local: self.pairs[k].local,
                    },
                ),
            )
        }
    }

    /// Records `outcome` for the branch at `next` and takes the next branch.
    pub open spec fn finish_branch(self, outcome: ReconciliationOutcome, detail: Seq<char>) -> (
        ReconcilerView,
        Option<VcsCommandView>,
    ) {
        ReconcilerView {
            outcomes: self.outcomes.push(
                BranchOutcomeView { branch: self.pairs[self.next].local, outcome, detail },
            ),
            next: self.next + 1,
            ..self
        }.dispatch()
    }

    /// The transition: the state after `out`, the output of the command that
    /// was handed out last, and the command to run next, if any.
    ///
    /// Before the branches are known a failed command ends the reconciliation,
    /// and so does a listing with a line that names no branch. The checked-out
    /// branch is what the first command printed, without surrounding
    /// whitespace.
    ///
    /// For the checked-out branch the status decides: a status that succeeded
    /// and printed nothing is answered by the merge; one that printed
    /// anything means a dirty tree, and the branch is skipped; one that
    /// failed fails the branch, without a merge. The merge and the update of
    /// another branch end their branch as they end themselves.
    ///
    /// A reconciliation that has ended stays as it is.
    pub open spec fn step(self, out: CommandOutputView) -> (ReconcilerView, Option<VcsCommandView>) {
        match self.phase {
            Phase::CurrentBranch => {
                if out.success {
                    (
                        ReconcilerView {
                            phase: Phase::Fetch,
                            current: trimmed(out.stdout_text()),
                            ..self
                        },
                        Some(VcsCommandView::FetchAllPrune { path: self.path }),
                    )
                } else {
                    self.aborted(AbortCause::CurrentBranch, out.stderr_text())
                }
            },
            Phase::Fetch => {
                if out.success {
                    (
                        ReconcilerView { phase: Phase::BranchList, ..self },
                        Some(VcsCommandView::BranchUpstreamList { path: self.path }),
                    )
                } else {
                    self.aborted(AbortCause::Fetch, out.stderr_text())
                }
            },
            Phase::BranchList => {
                if !out.success {
                    self.aborted(AbortCause::BranchList, out.stderr_text())
                } else {
                    match pairs_of_listing(out.stdout_text()) {
                        Some(pairs) => ReconcilerView { pairs, next: 0, ..self }.dispatch(),
                        None => self.aborted(
                            AbortCause::BranchList,
                            unreadable_listing_message(first_unreadable_line(out.stdout_text())),
                        ),
                    }
                }
            },
            Phase::Status => {
                if !out.success {
                    self.finish_branch(ReconciliationOutcome::Failed, out.stderr_text())
                } else if out.stdout.len() == 0 {
                    (
                        ReconcilerView { phase: Phase::Merge, ..self },
                        Some(
                            VcsCommandView::MergeFfOnly {
                                path: self.path,
                                upstream: self.pairs[self.next].upstream->0,
                            },
                        ),
                    )
                } else {
                    self.finish_branch(ReconciliationOutcome::SkippedDirty, Seq::empty())
                }
            },
            Phase::Merge => {
                if out.success {
                    self.finish_branch(ReconciliationOutcome::FastForwarded, Seq::empty())
                } else {
                    self.finish_branch(ReconciliationOutcome::Failed, out.stderr_text())
                }
            },
            Phase::RefUpdate => {
                if out.success {
                    self.finish_branch(ReconciliationOutcome::UpdatedNonCurrent, Seq::empty())
                } else {
                    self.finish_branch(ReconciliationOutcome::Failed, out.stderr_text())
                }
            },
            Phase::Done => (self, None),
            Phase::Aborted => (self, None),
        }
    }

    /// The state after the outputs `outs`, fed in order.
    pub open spec fn run(self, outs: Seq<CommandOutputView>) -> ReconcilerView
        decreases outs.len(),
    {
        if outs.len() == 0 {
            self
        } else {
            self.run(outs.drop_last()).step(outs.last()).0
        }
    }

    /// The command that answers the last of the outputs `outs`, which are
    /// not empty.
    pub open spec fn command_after(self, outs: Seq<CommandOutputView>) -> Option<VcsCommandView> {
        self.run(outs.drop_last()).step(outs.last()).1
    }
}

impl ReconcilerView {
    /// Whether the next branch can be taken: every branch before `next` is
    /// done, and nothing has failed for the repository.
    pub open spec fn ready(self) -> bool {
        &&& 0 <= self.next <= self.pairs.len()
        &&& self.failure is None
        &&& branches_of(self.outcomes) == tracked_locals(self.pairs.take(self.next))
        &&& forall|i: int|
            0 <= i < self.outcomes.len() ==> self.kind_fits(#[trigger] self.outcomes[i])
    }
}

/// A branch adds its name to the tracked names where it has an upstream.
pub proof fn lemma_tracked_locals_step(pairs: Seq<BranchPairView>, i: int)
    requires
        0 <= i < pairs.len(),
    ensures
        tracked_locals(pairs.take(i + 1)) == if pairs[i].upstream is Some {
            tracked_locals(pairs.take(i)).push(pairs[i].local)
        } else {
            tracked_locals(pairs.take(i))
        },
{
    assert(pairs.take(i + 1).drop_last() =~= pairs.take(i));
}

/// `next_tracked` stands on a branch with an upstream or at the end, and
/// passes only branches without one.
pub proof fn lemma_next_tracked(pairs: Seq<BranchPairView>, from: int)
    requires
        0 <= from <= pairs.len(),
    ensures
        from <= next_tracked(pairs, from) <= pairs.len(),
        next_tracked(pairs, from) < pairs.len() ==> pairs[next_tracked(pairs, from)].upstream
            is Some,
        forall|j: int| from <= j < next_tracked(pairs, from) ==> pairs[j].upstream is None,
        tracked_locals(pairs.take(next_tracked(pairs, from))) == tracked_locals(pairs.take(from)),
    decreases pairs.len() - from,
{
    if from < pairs.len() && pairs[from].upstream is None {
        lemma_next_tracked(pairs, from + 1);
        lemma_tracked_locals_step(pairs, from);
    }
}

/// Whether `pairs` holds a branch `name` that has an upstream.
pub open spec fn has_tracked_branch(pairs: Seq<BranchPairView>, name: Seq<char>) -> bool {
    exists|j: int|
        0 <= j < pairs.len() && (#[trigger] pairs[j]).upstream is Some && pairs[j].local == name
}

/// Every tracked name is the name of a branch with an upstream.
pub proof fn lemma_tracked_locals_have_upstream(pairs: Seq<BranchPairView>, i: int)
    requires
        0 <= i < tracked_locals(pairs).len(),
    ensures
        has_tracked_branch(pairs, tracked_locals(pairs)[i]),
    decreases pairs.len(),
{
    let rest = pairs.drop_last();
    if pairs.last().upstream is Some && i == tracked_locals(rest).len() {
        assert(pairs[pairs.len() - 1].local == tracked_locals(pairs)[i]);
    } else {
        lemma_tracked_locals_have_upstream(rest, i);
        let j = choose|j: int|
            0 <= j < rest.len() && (#[trigger] rest[j]).upstream is Some && rest[j].local
                == tracked_locals(rest)[i];
        assert(pairs[j] == rest[j]);
    }
}

/// Taking the next branch keeps the machine well-formed.
pub proof fn lemma_dispatch_wf(s: ReconcilerView)
    requires
        s.ready(),
    ensures
        s.dispatch().0.wf(),
        s.dispatch().0.outcomes == s.outcomes,
{
    lemma_next_tracked(s.pairs, s.next);
    let t = s.dispatch().0;
    assert forall|i: int| 0 <= i < t.outcomes.len() implies t.kind_fits(
        #[trigger] t.outcomes[i],
    ) by {
        assert(s.kind_fits(s.outcomes[i]));
    }
}

/// Once an outcome that fits the branch at `next` is recorded, the next
/// branch can be taken.
pub proof fn lemma_recorded_is_ready(
    s: ReconcilerView,
    outcome: ReconciliationOutcome,
    detail: Seq<char>,
)
    requires
        s.wf(),
        s.on_branch(),
        s.kind_fits(BranchOutcomeView { branch: s.pairs[s.next].local, outcome, detail }),
    ensures
        (ReconcilerView {
            outcomes: s.outcomes.push(
                BranchOutcomeView { branch: s.pairs[s.next].local, outcome, detail },
            ),
            next: s.next + 1,
            ..s
        }).ready(),
{
    let o = BranchOutcomeView { branch: s.pairs[s.next].local, outcome, detail };
    let mid = ReconcilerView { outcomes: s.outcomes.push(o), next: s.next + 1, ..s };
    lemma_tracked_locals_step(s.pairs, s.next);
    assert(branches_of(mid.outcomes) =~= branches_of(s.outcomes).push(o.branch));
    assert forall|i: int| 0 <= i < mid.outcomes.len() implies mid.kind_fits(
        #[trigger] mid.outcomes[i],
    ) by {
        if i < s.outcomes.len() {
            assert(s.kind_fits(s.outcomes[i]));
        }
    }
}

/// Recording an outcome that fits the branch at `next` and taking the next
/// branch keeps the machine well-formed.
pub proof fn lemma_finish_branch_wf(
    s: ReconcilerView,
    outcome: ReconciliationOutcome,
    detail: Seq<char>,
)
    requires
        s.wf(),
        s.on_branch(),
        s.kind_fits(BranchOutcomeView { branch: s.pairs[s.next].local, outcome, detail }),
    ensures
        s.finish_branch(outcome, detail).0.wf(),
        s.finish_branch(outcome, detail).0.outcomes == s.outcomes.push(
            BranchOutcomeView { branch: s.pairs[s.next].local, outcome, detail },
        ),
{
    lemma_recorded_is_ready(s, outcome, detail);
    lemma_dispatch_wf(
        ReconcilerView {
            outcomes: s.outcomes.push(
                BranchOutcomeView { branch: s.pairs[s.next].local, outcome, detail },
            ),
            next: s.next + 1,
            ..s
        },
    );
}

/// A transition hands out no command exactly where it ends the
/// reconciliation.
pub proof fn lemma_command_until_finished(s: ReconcilerView, out: CommandOutputView)
    ensures
        s.step(out).1 is None <==> s.step(out).0.is_finished(),
{
}

/// Every transition keeps the machine well-formed.
pub proof fn lemma_step_wf(s: ReconcilerView, out: CommandOutputView)
    requires
        s.wf(),
    ensures
        s.step(out).0.wf(),
{
    match s.phase {
        Phase::CurrentBranch => {},
        Phase::Fetch => {},
        Phase::BranchList => {
            if out.success {
                match pairs_of_listing(out.stdout_text()) {
                    Some(pairs) => {
                        let mid = ReconcilerView { pairs, next: 0, ..s };
                        lemma_dispatch_wf(mid);
                    },
                    None => {},
                }
            }
        },
        Phase::Status => {
            if !out.success {
                lemma_finish_branch_wf(s, ReconciliationOutcome::Failed, out.stderr_text());
            } else if out.stdout.len() > 0 {
                lemma_finish_branch_wf(s, ReconciliationOutcome::SkippedDirty, Seq::empty());
            }
        },
        Phase::Merge => {
            if out.success {
                lemma_finish_branch_wf(s, ReconciliationOutcome::FastForwarded, Seq::empty());
            } else {
                lemma_finish_branch_wf(s, ReconciliationOutcome::Failed, out.stderr_text());
            }
        },
        Phase::RefUpdate => {
            if out.success {
                lemma_finish_branch_wf(s, ReconciliationOutcome::UpdatedNonCurrent, Seq::empty());
            } else {
                lemma_finish_branch_wf(s, ReconciliationOutcome::Failed, out.stderr_text());
            }
        },
        Phase::Done => {},
        Phase::Aborted => {},
    }
}

/// The reconciler of one working copy.
#[derive(Debug)]
pub struct Reconciler {
    path: String,
    phase: Phase,
    current: String,
    pairs: Vec<BranchUpstreamPair>,
    next: usize,
    outcomes: Vec<BranchOutcome>,
    failure: Option<ReconcileFailure>,
}

/// The state that the parts of a reconciler make up.
spec fn state_of(
    path: String,
    phase: Phase,
    current: String,
    pairs: Vec<BranchUpstreamPair>,
    next: usize,
    outcomes: Vec<BranchOutcome>,
    failure: Option<ReconcileFailure>,
) -> ReconcilerView {
    ReconcilerView {
        path: path@,
        phase,
        current: current@,
        pairs: pairs_view(pairs@),
        next: next as int,
        outcomes: outcomes_view(outcomes@),
        failure: failure_view(failure),
    }
}

impl View for Reconciler {
    type V = ReconcilerView;

    closed spec fn view(&self) -> ReconcilerView {
        state_of(
            self.path,
            self.phase,
            self.current,
            self.pairs,
            self.next,
            self.outcomes,
            self.failure,
        )
    }
}

impl Reconciler {
    #[verifier::type_invariant]
    spec fn inv(self) -> bool {
        self@.wf()
    }

    /// Puts a reconciler together from its parts.
    fn assemble(
        path: String,
        phase: Phase,
        current: String,
        pairs: Vec<BranchUpstreamPair>,
        next: usize,
        outcomes: Vec<BranchOutcome>,
        failure: Option<ReconcileFailure>,
    ) -> (r: Self)
        requires
            state_of(path, phase, current, pairs, next, outcomes, failure).wf(),
        ensures
            r@ == state_of(path, phase, current, pairs, next, outcomes, failure),
    {
        Reconciler { path, phase, current, pairs, next, outcomes, failure }
    }

    /// A reconciler for the working copy at `path`, with the command to run
    /// first.
    pub fn new(path: &str) -> (r: (Self, VcsCommand))
        ensures
            r.0@ == ReconcilerView::initial(path@),
            r.1@ == ReconcilerView::first_command(path@),
            r.0@.wf(),
    {
        let pairs: Vec<BranchUpstreamPair> = Vec::new();
        let outcomes: Vec<BranchOutcome> = Vec::new();
        proof {
            assert(pairs_view(pairs@) =~= Seq::empty());
            assert(outcomes_view(outcomes@) =~= Seq::empty());
            assert(branches_of(outcomes_view(outcomes@)) =~= Seq::empty());
        }
        let machine = Self::assemble(
            String::from_str(path),
            Phase::CurrentBranch,
            String::new(),
            pairs,
            0,
            outcomes,
            None,
        );
        (machine, VcsCommand::CurrentBranch { path: String::from_str(path) })
    }

    /// Gives the reconciliation up at `cause`.
    fn abort(
        path: String,
        current: String,
        pairs: Vec<BranchUpstreamPair>,
        outcomes: Vec<BranchOutcome>,
        cause: AbortCause,
        message: String,
    ) -> (r: (Self, Option<VcsCommand>))
        requires
            pairs@.len() == 0,
            outcomes@.len() == 0,
        ensures
            (r.0@, command_view(r.1)) == state_of(
                path,
                Phase::Aborted,
                current,
                pairs,
                0,
                outcomes,
                None,
            ).aborted(cause, message@),
            r.0@.wf(),
    {
        proof {
            assert(pairs_view(pairs@).take(0) =~= Seq::empty());
            assert(branches_of(outcomes_view(outcomes@)) =~= Seq::empty());
        }
        let failure = Some(ReconcileFailure { cause, path: path.clone(), message });
        (Self::assemble(path, Phase::Aborted, current, pairs, 0, outcomes, failure), None)
    }

    /// Takes the first branch with an upstream at or after `from`.
    fn dispatch(
        path: String,
        current: String,
        pairs: Vec<BranchUpstreamPair>,
        from: usize,
        outcomes: Vec<BranchOutcome>,
    ) -> (r: (Self, Option<VcsCommand>))
        requires
            state_of(path, Phase::Done, current, pairs, from, outcomes, None).ready(),
        ensures
            (r.0@, command_view(r.1)) == state_of(
                path,
                Phase::Done,
                current,
                pairs,
                from,
                outcomes,
                None,
            ).dispatch(),
            r.0@.wf(),
    {
        proof {
            lemma_dispatch_wf(state_of(path, Phase::Done, current, pairs, from, outcomes, None));
        }
        let mut k: usize = from;
        while k < pairs.len() && pairs[k].upstream.is_none()
            invariant
                from <= k <= pairs.len(),
                next_tracked(pairs_view(pairs@), from as int) == next_tracked(
                    pairs_view(pairs@),
                    k as int,
                ),
            decreases pairs.len() - k,
        {
            k += 1;
        }
        if k >= pairs.len() {
            (Self::assemble(path, Phase::Done, current, pairs, k, outcomes, None), None)
        } else if same_text(pairs[k].local.as_str(), current.as_str()) {
            let command = VcsCommand::StatusPorcelain { path: path.clone() };
            (Self::assemble(path, Phase::Status, current, pairs, k, outcomes, None), Some(command))
        } else {
            let upstream = match &pairs[k].upstream {
                Some(u) => u.clone(),
                None => String::new(),
            };
            let command = VcsCommand::FetchRefToRef {
                path: path.clone(),
                upstream,
                local: pairs[k].local.clone(),
            };
            (
                Self::assemble(path, Phase::RefUpdate, current, pairs, k, outcomes, None),
                Some(command),
            )
        }
    }

    /// Records `outcome` for the branch at `next` and takes the next branch.
    fn finish_branch(
        path: String,
        phase: Phase,
        current: String,
        pairs: Vec<BranchUpstreamPair>,
        next: usize,
        outcomes: Vec<BranchOutcome>,
        outcome: ReconciliationOutcome,
        detail: String,
    ) -> (r: (Self, Option<VcsCommand>))
        requires
            ({
                let pre = state_of(path, phase, current, pairs, next, outcomes, None);
                &&& pre.wf()
                &&& pre.on_branch()
                &&& pre.kind_fits(
                    BranchOutcomeView {
                        branch: pre.pairs[pre.next].local,
                        outcome,
                        detail: detail@,
                    },
                )
            }),
        ensures
            (r.0@, command_view(r.1)) == state_of(
                path,
                phase,
                current,
                pairs,
                next,
                outcomes,
                None,
            ).finish_branch(outcome, detail@),
            r.0@.wf(),
    {
        let ghost pre = state_of(path, phase, current, pairs, next, outcomes, None);
        let ghost entry = BranchOutcomeView {
            branch: pre.pairs[pre.next].local,
            outcome,
            detail: detail@,
        };
        assert(next < pairs.len());
        let mut outcomes = outcomes;
        let branch = pairs[next].local.clone();
        outcomes.push(BranchOutcome { branch, outcome, detail });
        proof {
            assert(outcomes_view(outcomes@) =~= pre.outcomes.push(entry));
            lemma_recorded_is_ready(pre, outcome, detail@);
        }
        Self::dispatch(path, current, pairs, next + 1, outcomes)
    }

    /// Takes `output`, the output of the command that was handed out last,
    /// and hands out the command to run next. `None` says that the
    /// reconciliation has ended; from then on nothing changes any more.
    pub fn advance(self, output: &CommandOutput) -> (r: (Self, Option<VcsCommand>))
        ensures
            (r.0@, command_view(r.1)) == self@.step(output@),
            r.0@.wf(),
    {
        proof {
            use_type_invariant(&self);
            lemma_step_wf(self@, output@);
        }
        let Reconciler { path, phase, current, pairs, next, outcomes, failure } = self;
        match phase {
            Phase::CurrentBranch => {
                if output.success {
                    let text = output.stdout_text();
                    let branch = String::from_str(trim(text.as_str()));
                    let command = VcsCommand::FetchAllPrune { path: path.clone() };
                    (
                        Self::assemble(path, Phase::Fetch, branch, pairs, next, outcomes, failure),
                        Some(command),
                    )
                } else {
                    Self::abort(
                        path,
                        current,
                        pairs,
                        outcomes,
                        AbortCause::CurrentBranch,
                        output.stderr_text(),
                    )
                }
            },
            Phase::Fetch => {
                if output.success {
                    let command = VcsCommand::BranchUpstreamList { path: path.clone() };
                    (
                        Self::assemble(
                            path,
                            Phase::BranchList,
                            current,
                            pairs,
                            next,
                            outcomes,
                            failure,
                        ),
                        Some(command),
                    )
                } else {
                    Self::abort(
                        path,
                        current,
                        pairs,
                        outcomes,
                        AbortCause::Fetch,
                        output.stderr_text(),
                    )
                }
            },
            Phase::BranchList => {
                let message = if output.success {
                    let text = output.stdout_text();
                    match parse_branch_list(text.as_str()) {
                        Ok(listed) => {
                            return Self::dispatch(path, current, listed, 0, outcomes);
                        },
                        Err(line) => String::from_str("unreadable line in branch listing: ").concat(
                            line.as_str(),
                        ),
                    }
                } else {
                    output.stderr_text()
                };
                Self::abort(path, current, pairs, outcomes, AbortCause::BranchList, message)
            },
            Phase::Status => {
                if !output.success {
                    Self::finish_branch(
                        path,
                        phase,
                        current,
                        pairs,
                        next,
                        outcomes,
                        ReconciliationOutcome::Failed,
                        output.stderr_text(),
                    )
                } else if output.stdout.len() == 0 {
                    let upstream = match &pairs[next].upstream {
                        Some(u) => u.clone(),
                        None => String::new(),
                    };
                    let command = VcsCommand::MergeFfOnly { path: path.clone(), upstream };
                    (
                        Self::assemble(path, Phase::Merge, current, pairs, next, outcomes, failure),
                        Some(command),
                    )
                } else {
                    Self::finish_branch(
                        path,
                        phase,
                        current,
                        pairs,
                        next,
                        outcomes,
                        ReconciliationOutcome::SkippedDirty,
                        String::new(),
                    )
                }
            },
            Phase::Merge | Phase::RefUpdate => {
                let (outcome, detail) = if !output.success {
                    (ReconciliationOutcome::Failed, output.stderr_text())
                } else if phase == Phase::Merge {
                    (ReconciliationOutcome::FastForwarded, String::new())
                } else {
                    (ReconciliationOutcome::UpdatedNonCurrent, String::new())
                };
                Self::finish_branch(path, phase, current, pairs, next, outcomes, outcome, detail)
            },
            Phase::Done | Phase::Aborted => (
                Self::assemble(path, phase, current, pairs, next, outcomes, failure),
                None,
            ),
        }
    }

    /// Whether the reconciliation has ended.
    pub fn is_finished(&self) -> (r: bool)
        ensures
            r == self@.is_finished(),
    {
        match self.phase {
            Phase::Done => true,
            Phase::Aborted => true,
            _ => false,
        }
    }

    /// The outcomes so far, in the order of the listing, or the reason why
    /// the reconciliation was given up.
    pub fn into_result(self) -> (r: Result<Vec<BranchOutcome>, ReconcileFailure>)
        ensures
            self@.wf(),
            match r {
                Ok(outcomes) => self@.failure is None && outcomes_view(outcomes@)
                    == self@.outcomes,
                Err(failure) => self@.failure == Some(failure@) && self@.outcomes.len() == 0,
            },
    {
        proof {
            use_type_invariant(&self);
        }
        match self.failure {
            Some(failure) => Err(failure),
            None => Ok(self.outcomes),
        }
    }
}

} // verus!
