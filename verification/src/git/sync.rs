//! One repository of the fleet: clone it where it is missing, otherwise pull
//! it and reconcile its branches.
//!
//! Like the reconciler, a task runs nothing: it hands out the command to run
//! next and takes its output back, until it has a result.
use crate::git::command::{
    command_view, CommandOutput, CommandOutputView, VcsCommand, VcsCommandView,
};
use crate::git::laws::{
    lemma_commands_stay_in_working_copy, lemma_fetch_failure_aborts, lemma_initial_wf,
};
use crate::git::reconcile::{
    count_of_kind, count_outcomes, lemma_command_until_finished, lemma_step_wf, outcomes_view,
    BranchOutcome, BranchOutcomeView, Reconciler, ReconcilerView, ReconciliationOutcome,
};
use crate::error::{RepoSyncError, RepoSyncErrorView};
use crate::repository::NormalizedRepository;
use crate::utils::output::{
    cloned_text, line_view, skip_merge_text, skipped_text, synced_text, verbose_text,
    RepoStatusPrinter,
};
use vstd::prelude::*;

verus! {

/// What is done to a repository.
#[derive(Clone, Copy, PartialEq, Eq, Structural, Debug)]
pub enum Operation {
    /// Make the working copy.
    Clone,
    /// Bring the working copy up to date.
    Sync,
}

/// Whether a repository was handled without failure.
#[derive(Clone, Copy, PartialEq, Eq, Structural, Debug)]
pub enum RunOutcome {
    Success,
    Failure,
}

/// The result for one repository.
#[derive(Debug, Clone, PartialEq, Eq)]
pub struct RunResult {
    /// The repository's name.
    pub name: String,
    /// What was done to it.
    pub operation: Operation,
    /// Whether that failed.
    pub outcome: RunOutcome,
    /// Whether the repository was passed over because its working copy was
    /// there already.
    pub skipped: bool,
    /// For a failure, what the failed command wrote to standard error; for a
    /// repository passed over, the reason.
    pub detail: String,
    /// The outcome of each reconciled branch. A failed branch is a warning:
    /// it does not make the repository fail.
    pub branches: Vec<BranchOutcome>,
}

/// What a `RunResult` holds, as plain values.
pub struct RunResultView {
    pub name: Seq<char>,
    pub operation: Operation,
    pub outcome: RunOutcome,
    pub skipped: bool,
    pub detail: Seq<char>,
    pub branches: Seq<BranchOutcomeView>,
}

impl View for RunResult {
    type V = RunResultView;

    open spec fn view(&self) -> RunResultView {
        RunResultView {
            name: self.name@,
            operation: self.operation,
            outcome: self.outcome,
            skipped: self.skipped,
            detail: self.detail@,
            branches: outcomes_view(self.branches@),
        }
    }
}

/// The view of a result that may be absent.
pub open spec fn result_view(result: Option<RunResult>) -> Option<RunResultView> {
    match result {
        Some(r) => Some(r@),
        None => None,
    }
}

/// The reason given for a repository that is passed over.
pub open spec fn already_exists() -> Seq<char> {
    "already exists"@
}

/// The detail of a repository whose time ran out.
pub open spec fn timed_out() -> Seq<char> {
    "timed out"@
}

/// The reason given for a merge that is passed over.
pub open spec fn dirty_branch() -> Seq<char> {
    "dirty branch"@
}

impl RunResultView {
    /// The result of a clone that ended with `out`.
    pub open spec fn of_clone(name: Seq<char>, out: CommandOutputView) -> RunResultView {
        RunResultView {
            name,
            operation: Operation::Clone,
            outcome: if out.success {
                RunOutcome::Success
            } else {
                RunOutcome::Failure
            },
            skipped: false,
            detail: if out.success {
                Seq::empty()
            } else {
                out.stderr_text()
            },
            branches: Seq::empty(),
        }
    }

    /// The result for a working copy that a clone found in its place.
    pub open spec fn of_skip(name: Seq<char>) -> RunResultView {
        RunResultView {
            name,
            operation: Operation::Clone,
            outcome: RunOutcome::Success,
            skipped: true,
            detail: already_exists(),
            branches: Seq::empty(),
        }
    }

    /// The result for a reference that names no repository, for which
    /// nothing is run: a failure under the reference itself, with the
    /// description of `error` as detail.
    pub open spec fn of_rejected(
        operation: Operation,
        reference: Seq<char>,
        error: RepoSyncErrorView,
    ) -> RunResultView {
        RunResultView {
            name: reference,
            operation,
            outcome: RunOutcome::Failure,
            skipped: false,
            detail: error.text(),
            branches: Seq::empty(),
        }
    }

    /// The result of a pull that failed with `out`.
    pub open spec fn of_failed_pull(name: Seq<char>, out: CommandOutputView) -> RunResultView {
        RunResultView {
            name,
            operation: Operation::Sync,
            outcome: RunOutcome::Failure,
            skipped: false,
            detail: out.stderr_text(),
            branches: Seq::empty(),
        }
    }

    /// The result of a sync whose reconciliation ended in `end`: a failure
    /// where the reconciliation was given up, a success otherwise, whatever
    /// became of the single branches.
    pub open spec fn of_reconciliation(name: Seq<char>, end: ReconcilerView) -> RunResultView {
        match end.failure {
            Some(failure) => RunResultView {
                name,
                operation: Operation::Sync,
                outcome: RunOutcome::Failure,
                skipped: false,
                detail: failure.message,
                branches: Seq::empty(),
            },
            None => RunResultView {
                name,
                operation: Operation::Sync,
                outcome: RunOutcome::Success,
                skipped: false,
                detail: Seq::empty(),
                branches: end.outcomes,
            },
        }
    }

    /// The number of warnings: the branches that could not be updated.
    pub open spec fn warnings(self) -> nat {
        count_outcomes(self.branches, ReconciliationOutcome::Failed)
    }

    /// The line that reports a failed repository.
    pub open spec fn error_text(self) -> Seq<char> {
        match self.operation {
            Operation::Clone => "Error cloning "@ + self.name + ": "@ + self.detail,
            Operation::Sync => "Error syncing "@ + self.name + ": "@ + self.detail,
        }
    }

    /// The line that reports the repository: the error for a failure,
    /// whatever the verbosity; for the others a line that only a verbose run
    /// shows.
    pub open spec fn headline(self, verbose: bool) -> Option<Seq<char>> {
        if self.outcome is Failure {
            Some(self.error_text())
        } else if self.skipped {
            verbose_text(verbose, skipped_text(self.name, self.detail))
        } else {
            match self.operation {
                Operation::Clone => verbose_text(verbose, cloned_text(self.name)),
                Operation::Sync => verbose_text(verbose, synced_text(self.name)),
            }
        }
    }
}

/// The line that warns of a branch that could not be updated.
pub open spec fn branch_warning_text(o: BranchOutcomeView) -> Seq<char> {
    "Warning: branch "@ + o.branch + " was not updated: "@ + o.detail
}

/// The line that reports the branch outcome `o`, if it is worth one: a
/// warning for a failure, whatever the verbosity, and for a dirty branch a
/// line that only a verbose run shows.
pub open spec fn branch_line_text(o: BranchOutcomeView, verbose: bool) -> Option<Seq<char>> {
    match o.outcome {
        ReconciliationOutcome::Failed => Some(branch_warning_text(o)),
        ReconciliationOutcome::SkippedDirty => verbose_text(
            verbose,
            skip_merge_text(o.branch, dirty_branch()),
        ),
        ReconciliationOutcome::FastForwarded => None,
        ReconciliationOutcome::UpdatedNonCurrent => None,
    }
}

impl BranchOutcome {
    /// The line that reports this outcome, if it is worth one (see
    /// `branch_line_text`).
    pub fn line(&self, printer: &RepoStatusPrinter) -> (r: Option<String>)
        ensures
            line_view(r) == branch_line_text(self@, printer.verbose()),
    {
        match self.outcome {
            ReconciliationOutcome::Failed => {
                let mut line = String::from_str("Warning: branch ");
                line.append(self.branch.as_str());
                line.append(" was not updated: ");
                line.append(self.detail.as_str());
                Some(line)
            },
            ReconciliationOutcome::SkippedDirty => printer.skip_merge(
                self.branch.as_str(),
                "dirty branch",
            ),
            ReconciliationOutcome::FastForwarded => None,
            ReconciliationOutcome::UpdatedNonCurrent => None,
        }
    }
}

impl RunResult {
    /// The result for `reference`, which names no repository, as `error`
    /// says (see `RunResultView::of_rejected`).
    pub fn rejected(operation: Operation, reference: &str, error: &RepoSyncError) -> (r: Self)
        ensures
            r@ == RunResultView::of_rejected(operation, reference@, error@),
    {
        let branches: Vec<BranchOutcome> = Vec::new();
        assert(outcomes_view(branches@) =~= Seq::empty());
        RunResult {
            name: String::from_str(reference),
            operation,
            outcome: RunOutcome::Failure,
            skipped: false,
            detail: error.describe(),
            branches,
        }
    }

    /// Whether the repository failed.
    pub fn is_failure(&self) -> (r: bool)
        ensures
            r == (self@.outcome is Failure),
    {
        match self.outcome {
            RunOutcome::Failure => true,
            RunOutcome::Success => false,
        }
    }

    /// The number of warnings: the branches that could not be updated. They
    /// leave the repository's outcome as it is.
    pub fn warnings(&self) -> (n: usize)
        ensures
            n == self@.warnings(),
    {
        count_of_kind(&self.branches, ReconciliationOutcome::Failed)
    }

    /// The line that reports the repository (see `RunResultView::headline`).
    pub fn headline(&self, printer: &RepoStatusPrinter) -> (r: Option<String>)
        ensures
            line_view(r) == self@.headline(printer.verbose()),
    {
        if self.is_failure() {
            let mut line = match self.operation {
                Operation::Clone => String::from_str("Error cloning "),
                Operation::Sync => String::from_str("Error syncing "),
            };
            line.append(self.name.as_str());
            line.append(": ");
            line.append(self.detail.as_str());
            Some(line)
        } else if self.skipped {
            printer.skipped(self.name.as_str(), self.detail.as_str())
        } else {
            match self.operation {
                Operation::Clone => printer.cloned(self.name.as_str()),
                Operation::Sync => printer.synced(self.name.as_str()),
            }
        }
    }
}

/// What a task waits for.
#[derive(Clone, Copy, PartialEq, Eq, Structural, Debug)]
pub enum TaskPhase {
    /// The end of the clone.
    Cloning,
    /// The end of the pull.
    Pulling,
    /// The output of a command of the reconciler.
    Reconciling,
    /// Nothing: the result is there.
    Finished,
}

/// The state of a task, as plain values.
pub struct RepoTaskView {
    /// The repository's name.
    pub name: Seq<char>,
    /// The working copy.
    pub path: Seq<char>,
    /// What the task waits for.
    pub phase: TaskPhase,
    /// The reconciler, while the branches are reconciled.
    pub reconciler: Option<ReconcilerView>,
    /// The result, once the task has finished.
    pub result: Option<RunResultView>,
}

impl RepoTaskView {
    /// The invariant of a task.
    pub open spec fn wf(self) -> bool {
        &&& self.result is Some <==> self.phase is Finished
        &&& self.reconciler is Some <==> self.phase is Reconciling
        &&& self.reconciler matches Some(r) ==> r.wf() && !r.is_finished() && r.path == self.path
        &&& self.result matches Some(r) ==> r.name == self.name
    }

    /// A finished task.
    pub open spec fn finished(self, result: RunResultView) -> (RepoTaskView, Option<VcsCommandView>) {
        (
            RepoTaskView {
                phase: TaskPhase::Finished,
                reconciler: None,
                result: Some(result),
                ..self
            },
            None,
        )
    }

    /// How a task begins. A missing working copy is cloned, whatever the
    /// operation. One that exists is pulled by a sync, and passed over by a
    /// clone, which then has its result at once.
    pub open spec fn begin(
        operation: Operation,
        name: Seq<char>,
        url: Seq<char>,
        path: Seq<char>,
        exists: bool,
    ) -> (RepoTaskView, Option<VcsCommandView>) {
        let task = RepoTaskView {
            name,
            path,
            phase: TaskPhase::Cloning,
            reconciler: None,
            result: None,
        };
        if !exists {
            (task, Some(VcsCommandView::Clone { url, path }))
        } else {
            match operation {
                Operation::Clone => task.finished(RunResultView::of_skip(name)),
                Operation::Sync => (
                    RepoTaskView { phase: TaskPhase::Pulling, ..task },
                    Some(VcsCommandView::Pull { path }),
                ),
            }
        }
    }

    /// The transition: the state after `out`, the output of the command that
    /// was handed out last, and the command to run next, if any. A failed
    /// pull ends the task without any reconciliation. A reconciliation that
    /// ends gives the task its result.
    pub open spec fn step(self, out: CommandOutputView) -> (RepoTaskView, Option<VcsCommandView>) {
        match self.phase {
            TaskPhase::Cloning => self.finished(RunResultView::of_clone(self.name, out)),
            TaskPhase::Pulling => {
                if out.success {
                    (
                        RepoTaskView {
                            phase: TaskPhase::Reconciling,
                            reconciler: Some(ReconcilerView::initial(self.path)),
                            ..self
                        },
                        Some(ReconcilerView::first_command(self.path)),
                    )
                } else {
                    self.finished(RunResultView::of_failed_pull(self.name, out))
                }
            },
            TaskPhase::Reconciling => {
                let (after, command) = self.reconciler->0.step(out);
                if command is Some {
                    (RepoTaskView { reconciler: Some(after), ..self }, command)
                } else {
                    self.finished(RunResultView::of_reconciliation(self.name, after))
                }
            },
            TaskPhase::Finished => (self, None),
        }
    }

    /// The task once its time has run out. A task that has its result keeps
    /// it. Any other task fails: it was cloning, or it was syncing, and then
    /// the result keeps the outcomes of the branches that were done in time.
    pub open spec fn expired(self) -> RepoTaskView {
        if self.phase is Finished {
            self
        } else {
            RepoTaskView {
                phase: TaskPhase::Finished,
                reconciler: None,
                result: Some(
                    RunResultView {
                        name: self.name,
                        operation: if self.phase is Cloning {
                            Operation::Clone
                        } else {
                            Operation::Sync
                        },
                        outcome: RunOutcome::Failure,
                        skipped: false,
                        detail: timed_out(),
                        branches: match self.reconciler {
                            Some(r) => r.outcomes,
                            None => Seq::empty(),
                        },
                    },
                ),
                ..self
            }
        }
    }

    /// The state after the outputs `outs`, fed in order.
    pub open spec fn run(self, outs: Seq<CommandOutputView>) -> RepoTaskView
        decreases outs.len(),
    {
        if outs.len() == 0 {
            self
        } else {
            self.run(outs.drop_last()).step(outs.last()).0
        }
    }
}

/// A task begins in a well-formed state.
pub proof fn lemma_begin_wf(
    operation: Operation,
    name: Seq<char>,
    url: Seq<char>,
    path: Seq<char>,
    exists: bool,
)
    ensures
        RepoTaskView::begin(operation, name, url, path, exists).0.wf(),
{
}

/// Every transition keeps a task well-formed.
pub proof fn lemma_task_step_wf(t: RepoTaskView, out: CommandOutputView)
    requires
        t.wf(),
    ensures
        t.step(out).0.wf(),
{
    if t.phase is Pulling {
        lemma_initial_wf(t.path);
    }
    if t.phase is Reconciling {
        let r = t.reconciler->0;
        lemma_step_wf(r, out);
        lemma_command_until_finished(r, out);
        lemma_commands_stay_in_working_copy(r, out);
    }
}

/// Whatever outputs come in, a task stays well-formed.
pub proof fn lemma_task_run_wf(t: RepoTaskView, outs: Seq<CommandOutputView>)
    requires
        t.wf(),
    ensures
        t.run(outs).wf(),
    decreases outs.len(),
{
    if outs.len() > 0 {
        lemma_task_run_wf(t, outs.drop_last());
        lemma_task_step_wf(t.run(outs.drop_last()), outs.last());
    }
}

/// Every command of a task is about the task's own working copy.
pub proof fn lemma_task_stays_in_working_copy(t: RepoTaskView, out: CommandOutputView)
    requires
        t.wf(),
    ensures
        t.step(out).0.path == t.path,
        t.step(out).1 matches Some(c) ==> c.path() == t.path,
{
    if t.phase is Reconciling {
        lemma_commands_stay_in_working_copy(t.reconciler->0, out);
    }
}

/// A clone or a pull that fails makes its repository fail, with what git
/// wrote to standard error as detail. After a failed pull no branch is
/// reconciled: the task hands out no further command.
pub proof fn lemma_failed_clone_or_pull_fails_repository(t: RepoTaskView, out: CommandOutputView)
    requires
        t.phase is Cloning || t.phase is Pulling,
        !out.success,
    ensures
        t.step(out).1 is None,
        t.step(out).0.phase is Finished,
        t.step(out).0.result matches Some(r) && r.outcome is Failure && r.detail
            == out.stderr_text() && r.branches.len() == 0 && r.name == t.name,
{
}

/// A clone that succeeds makes its repository succeed.
pub proof fn lemma_clone_success(t: RepoTaskView, out: CommandOutputView)
    requires
        t.phase is Cloning,
        out.success,
    ensures
        t.step(out).1 is None,
        t.step(out).0.result matches Some(r) && r.outcome is Success && r.operation is Clone,
{
}

/// A failed fetch makes the repository fail, without an outcome for any
/// branch.
pub proof fn lemma_fetch_failure_fails_repository(t: RepoTaskView, fetch: CommandOutputView)
    requires
        t.wf(),
        t.phase is Reconciling,
        t.reconciler->0.phase is Fetch,
        !fetch.success,
    ensures
        t.step(fetch).1 is None,
        t.step(fetch).0.result == Some(
            RunResultView {
                name: t.name,
                operation: Operation::Sync,
                outcome: RunOutcome::Failure,
                skipped: false,
                detail: fetch.stderr_text(),
                branches: Seq::empty(),
            },
        ),
{
    lemma_fetch_failure_aborts(t.reconciler->0, fetch);
}

/// The failure of single branches does not make the repository fail: a
/// reconciliation that takes every branch ends in success, whatever the
/// outcomes, and the result carries them all.
pub proof fn lemma_branch_failures_are_warnings(t: RepoTaskView, out: CommandOutputView)
    requires
        t.wf(),
        t.phase is Reconciling,
        t.reconciler->0.step(out).0.phase is Done,
    ensures
        t.step(out).0.result matches Some(r) && r.outcome is Success && r.branches
            == t.reconciler->0.step(out).0.outcomes,
{
    let r = t.reconciler->0;
    lemma_step_wf(r, out);
    lemma_command_until_finished(r, out);
}

/// A repository fails for one of three reasons only: its clone failed, its
/// pull failed, or its reconciliation was given up.
pub proof fn lemma_failure_has_a_cause(t: RepoTaskView, out: CommandOutputView)
    requires
        t.wf(),
        !(t.phase is Finished),
        t.step(out).0.result matches Some(r) && r.outcome is Failure,
    ensures
        ({
            ||| t.phase is Cloning && !out.success
            ||| t.phase is Pulling && !out.success
            ||| t.phase is Reconciling && t.reconciler->0.step(out).0.phase is Aborted
        }),
{
    if t.phase is Reconciling {
        let r = t.reconciler->0;
        lemma_step_wf(r, out);
        lemma_command_until_finished(r, out);
    }
}

/// A task whose time runs out before it has its result fails; one that has
/// its result keeps it.
pub proof fn lemma_expired_task_fails(t: RepoTaskView)
    requires
        t.wf(),
    ensures
        t.expired().wf(),
        t.expired().phase is Finished,
        t.phase is Finished ==> t.expired() == t,
        !(t.phase is Finished) ==> t.expired().result->0.outcome is Failure,
{
}

/// The view of a reconciler that may be absent.
pub open spec fn reconciler_view(reconciler: Option<Reconciler>) -> Option<ReconcilerView> {
    match reconciler {
        Some(r) => Some(r@),
        None => None,
    }
}

/// The task for one repository.
#[derive(Debug)]
pub struct RepoTask {
    name: String,
    path: String,
    phase: TaskPhase,
    reconciler: Option<Reconciler>,
    result: Option<RunResult>,
}

impl View for RepoTask {
    type V = RepoTaskView;

    closed spec fn view(&self) -> RepoTaskView {
        RepoTaskView {
            name: self.name@,
            path: self.path@,
            phase: self.phase,
            reconciler: reconciler_view(self.reconciler),
            result: result_view(self.result),
        }
    }
}

impl RepoTask {
    #[verifier::type_invariant]
    spec fn inv(self) -> bool {
        self@.wf()
    }

    /// A task that waits for the output of its first command.
    fn waiting(name: String, path: String, phase: TaskPhase) -> (r: Self)
        requires
            phase is Cloning || phase is Pulling,
        ensures
            r@ == (RepoTaskView { name: name@, path: path@, phase, reconciler: None, result: None }),
    {
        RepoTask { name, path, phase, reconciler: None, result: None }
    }

    /// A task that has its result.
    fn finished(
        name: String,
        path: String,
        operation: Operation,
        outcome: RunOutcome,
        skipped: bool,
        detail: String,
        branches: Vec<BranchOutcome>,
    ) -> (r: (Self, Option<VcsCommand>))
        ensures
            r.0@ == (RepoTaskView {
                name: name@,
                path: path@,
                phase: TaskPhase::Finished,
                reconciler: None,
                result: Some(
                    RunResultView {
                        name: name@,
                        operation,
                        outcome,
                        skipped,
                        detail: detail@,
                        branches: outcomes_view(branches@),
                    },
                ),
            }),
            r.1 is None,
            r.0@.wf(),
    {
        let result = RunResult { name: name.clone(), operation, outcome, skipped, detail, branches };
        (
            RepoTask {
                name,
                path,
                phase: TaskPhase::Finished,
                reconciler: None,
                result: Some(result),
            },
            None,
        )
    }

    /// An empty list of branch outcomes.
    fn no_branches() -> (r: Vec<BranchOutcome>)
        ensures
            outcomes_view(r@) == Seq::<BranchOutcomeView>::empty(),
    {
        let r: Vec<BranchOutcome> = Vec::new();
        assert(outcomes_view(r@) =~= Seq::empty());
        r
    }

    /// The task that does `operation` to `repo`, whose working copy is at
    /// `path` and is there already or not, as `exists` says; with the command
    /// to run first, if there is anything to run.
    pub fn new(operation: Operation, repo: &NormalizedRepository, path: &str, exists: bool) -> (r: (
        Self,
        Option<VcsCommand>,
    ))
        ensures
            (r.0@, command_view(r.1)) == RepoTaskView::begin(
                operation,
                repo@.name,
                repo@.url,
                path@,
                exists,
            ),
            r.0@.wf(),
    {
        let name = String::from_str(repo.name());
        let place = String::from_str(path);
        if !exists {
            let command = VcsCommand::Clone {
                url: String::from_str(repo.url()),
                path: String::from_str(path),
            };
            return (Self::waiting(name, place, TaskPhase::Cloning), Some(command));
        }
        match operation {
            Operation::Clone => Self::finished(
                name,
                place,
                Operation::Clone,
                RunOutcome::Success,
                true,
                String::from_str("already exists"),
                Self::no_branches(),
            ),
            Operation::Sync => (
                Self::waiting(name, place, TaskPhase::Pulling),
                Some(VcsCommand::Pull { path: String::from_str(path) }),
            ),
        }
    }

    /// Takes `output`, the output of the command that was handed out last,
    /// and hands out the command to run next. `None` says that the task has
    /// its result; from then on nothing changes any more.
    pub fn advance(self, output: &CommandOutput) -> (r: (Self, Option<VcsCommand>))
        ensures
            (r.0@, command_view(r.1)) == self@.step(output@),
            r.0@.wf(),
    {
        proof {
            use_type_invariant(&self);
        }
        let RepoTask { name, path, phase, reconciler, result } = self;
        match phase {
            TaskPhase::Cloning => {
                let (outcome, detail) = if output.success {
                    (RunOutcome::Success, String::new())
                } else {
                    (RunOutcome::Failure, output.stderr_text())
                };
                Self::finished(
                    name,
                    path,
                    Operation::Clone,
                    outcome,
                    false,
                    detail,
                    Self::no_branches(),
                )
            },
            TaskPhase::Pulling => {
                if output.success {
                    let (machine, command) = Reconciler::new(path.as_str());
                    (
                        RepoTask {
                            name,
                            path,
                            phase: TaskPhase::Reconciling,
                            reconciler: Some(machine),
                            result,
                        },
                        Some(command),
                    )
                } else {
                    Self::finished(
                        name,
                        path,
                        Operation::Sync,
                        RunOutcome::Failure,
                        false,
                        output.stderr_text(),
                        Self::no_branches(),
                    )
                }
            },
            TaskPhase::Reconciling => {
                let machine = match reconciler {
                    Some(machine) => machine,
                    None => {
                        return (RepoTask { name, path, phase, reconciler: None, result }, None);
                    },
                };
                proof {
                    lemma_command_until_finished(machine@, output@);
                    lemma_commands_stay_in_working_copy(machine@, output@);
                }
                let (machine, command) = machine.advance(output);
                match command {
                    Some(c) => (
                        RepoTask {
                            name,
                            path,
                            phase: TaskPhase::Reconciling,
                            reconciler: Some(machine),
                            result,
                        },
                        Some(c),
                    ),
                    None => match machine.into_result() {
                        Ok(branches) => Self::finished(
                            name,
                            path,
                            Operation::Sync,
                            RunOutcome::Success,
                            false,
                            String::new(),
                            branches,
                        ),
                        Err(failure) => Self::finished(
                            name,
                            path,
                            Operation::Sync,
                            RunOutcome::Failure,
                            false,
                            failure.message,
                            Self::no_branches(),
                        ),
                    },
                }
            },
            TaskPhase::Finished => (RepoTask { name, path, phase, reconciler, result }, None),
        }
    }

    /// Ends the task because its time has run out (see
    /// `RepoTaskView::expired`).
    pub fn expire(self) -> (r: Self)
        ensures
            r@ == self@.expired(),
            r@.wf(),
    {
        proof {
            use_type_invariant(&self);
        }
        let RepoTask { name, path, phase, reconciler, result } = self;
        let operation = match phase {
            TaskPhase::Finished => {
                return RepoTask { name, path, phase, reconciler, result };
            },
            TaskPhase::Cloning => Operation::Clone,
            _ => Operation::Sync,
        };
        let branches = match reconciler {
            Some(machine) => match machine.into_result() {
                Ok(outcomes) => outcomes,
                Err(_) => Self::no_branches(),
            },
            None => Self::no_branches(),
        };
        Self::finished(
            name,
            path,
            operation,
            RunOutcome::Failure,
            false,
            String::from_str("timed out"),
            branches,
        ).0
    }

    /// Whether the task has its result.
    pub fn is_finished(&self) -> (r: bool)
        ensures
            r == (self@.phase is Finished),
            r == (self@.result is Some),
    {
        proof {
            use_type_invariant(self);
        }
        match self.phase {
            TaskPhase::Finished => true,
            _ => false,
        }
    }

    /// The result, once the task has finished.
    pub fn into_result(self) -> (r: Option<RunResult>)
        ensures
            result_view(r) == self@.result,
    {
        self.result
    }
}

} // verus!
