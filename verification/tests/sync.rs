use repo_sync::config::Config;
use repo_sync::fleet::{summarize, FleetSummary};
use repo_sync::git::command::{CommandOutput, VcsCommand};
use repo_sync::git::reconcile::{BranchOutcome, ReconciliationOutcome};
use repo_sync::git::sync::{Operation, RepoTask, RunOutcome, RunResult};
use repo_sync::repository::NormalizedRepository;
use repo_sync::utils::output::RepoStatusPrinter;

fn ok(stdout: &str) -> CommandOutput {
    CommandOutput { success: true, stdout: stdout.as_bytes().to_vec(), stderr: vec![] }
}

fn failed(stderr: &str) -> CommandOutput {
    CommandOutput { success: false, stdout: vec![], stderr: stderr.as_bytes().to_vec() }
}

fn repo() -> NormalizedRepository {
    NormalizedRepository::from_reference("github.com/user/repo.git").unwrap()
}

/// Runs a task against the outputs of `script`, one for each command, and
/// returns the commands and the result.
fn run_task(
    operation: Operation,
    exists: bool,
    script: Vec<CommandOutput>,
) -> (Vec<VcsCommand>, RunResult) {
    let (mut task, mut next) = RepoTask::new(operation, &repo(), "/out/repo", exists);
    let mut asked = vec![];
    let mut script = script.into_iter();
    while let Some(command) = next {
        assert!(!task.is_finished());
        asked.push(command);
        let output = script.next().expect("the task asked for more than the script holds");
        let (after, following) = task.advance(&output);
        task = after;
        next = following;
    }
    assert!(task.is_finished());
    assert!(script.next().is_none(), "the task left outputs unused");
    (asked, task.into_result().unwrap())
}

fn result(operation: Operation, outcome: RunOutcome, detail: &str) -> RunResult {
    RunResult {
        name: "repo".to_string(),
        operation,
        outcome,
        skipped: false,
        detail: detail.to_string(),
        branches: vec![],
    }
}

fn working_copy() -> String {
    "/out/repo".to_string()
}

#[test]
fn missing_working_copy_is_cloned() {
    for operation in [Operation::Clone, Operation::Sync] {
        let (asked, got) = run_task(operation, false, vec![ok("")]);
        assert_eq!(
            asked,
            vec![VcsCommand::Clone {
                url: "https://github.com/user/repo.git".to_string(),
                path: working_copy()
            }]
        );
        assert_eq!(got, result(Operation::Clone, RunOutcome::Success, ""));
    }
}

#[test]
fn failed_clone_fails_the_repository() {
    let (asked, got) = run_task(Operation::Sync, false, vec![failed("fatal: not found")]);
    assert_eq!(asked.len(), 1);
    assert_eq!(got, result(Operation::Clone, RunOutcome::Failure, "fatal: not found"));
    assert!(got.is_failure());
}

#[test]
fn clone_passes_over_an_existing_working_copy() {
    let (asked, got) = run_task(Operation::Clone, true, vec![]);
    assert_eq!(asked, vec![]);
    assert_eq!(
        got,
        RunResult {
            name: "repo".to_string(),
            operation: Operation::Clone,
            outcome: RunOutcome::Success,
            skipped: true,
            detail: "already exists".to_string(),
            branches: vec![],
        }
    );
    assert!(!got.is_failure());
}

#[test]
fn sync_pulls_then_reconciles() {
    let script = vec![
        ok(""),
        ok("main\n"),
        ok(""),
        ok("main:origin/main\ndev:origin/dev\nscratch:\n"),
        ok(""),
        ok(""),
        ok(""),
    ];
    let (asked, got) = run_task(Operation::Sync, true, script);
    assert_eq!(
        asked,
        vec![
            VcsCommand::Pull { path: working_copy() },
            VcsCommand::CurrentBranch { path: working_copy() },
            VcsCommand::FetchAllPrune { path: working_copy() },
            VcsCommand::BranchUpstreamList { path: working_copy() },
            VcsCommand::StatusPorcelain { path: working_copy() },
            VcsCommand::MergeFfOnly { path: working_copy(), upstream: "origin/main".to_string() },
            VcsCommand::FetchRefToRef {
                path: working_copy(),
                upstream: "origin/dev".to_string(),
                local: "dev".to_string()
            },
        ]
    );
    assert_eq!(got.outcome, RunOutcome::Success);
    assert_eq!(got.operation, Operation::Sync);
    assert_eq!(got.warnings(), 0);
    assert_eq!(
        got.branches,
        vec![
            BranchOutcome {
                branch: "main".to_string(),
                outcome: ReconciliationOutcome::FastForwarded,
                detail: String::new()
            },
            BranchOutcome {
                branch: "dev".to_string(),
                outcome: ReconciliationOutcome::UpdatedNonCurrent,
                detail: String::new()
            },
        ]
    );
}

#[test]
fn failed_pull_skips_the_reconciliation() {
    let (asked, got) = run_task(Operation::Sync, true, vec![failed("fatal: no remote")]);
    assert_eq!(asked, vec![VcsCommand::Pull { path: working_copy() }]);
    assert_eq!(got, result(Operation::Sync, RunOutcome::Failure, "fatal: no remote"));
}

#[test]
fn failed_fetch_fails_the_repository_without_branch_outcomes() {
    let (asked, got) =
        run_task(Operation::Sync, true, vec![ok(""), ok("main\n"), failed("fatal: offline")]);
    assert_eq!(asked.len(), 3);
    assert_eq!(got, result(Operation::Sync, RunOutcome::Failure, "fatal: offline"));
    assert_eq!(got.branches.len(), 0);
}

#[test]
fn failed_branches_are_warnings_only() {
    let script = vec![
        ok(""),
        ok("main\n"),
        ok(""),
        ok("main:origin/main\ndev:origin/dev\n"),
        ok(""),
        failed("fatal: Not possible to fast-forward, aborting."),
        failed("! [rejected] origin/dev -> dev (non-fast-forward)"),
    ];
    let (_, got) = run_task(Operation::Sync, true, script);
    assert_eq!(got.outcome, RunOutcome::Success);
    assert!(!got.is_failure());
    assert_eq!(got.branches.len(), 2);
    assert!(got.branches.iter().all(|b| b.outcome == ReconciliationOutcome::Failed));
    assert_eq!(got.branches[0].detail, "fatal: Not possible to fast-forward, aborting.");
    assert_eq!(got.warnings(), 2);
}

#[test]
fn a_finished_task_stays_as_it_is() {
    let (task, next) = RepoTask::new(Operation::Sync, &repo(), "/out/repo", true);
    assert_eq!(next, Some(VcsCommand::Pull { path: working_copy() }));
    let (task, next) = task.advance(&failed("no"));
    assert_eq!(next, None);
    let (task, next) = task.advance(&ok("main"));
    assert_eq!(next, None);
    assert_eq!(task.into_result(), Some(result(Operation::Sync, RunOutcome::Failure, "no")));
    let (unfinished, _) = RepoTask::new(Operation::Sync, &repo(), "/out/repo", true);
    assert!(!unfinished.is_finished());
    assert_eq!(unfinished.into_result(), None);
}

#[test]
fn a_task_whose_time_runs_out_fails() {
    let (cloning, _) = RepoTask::new(Operation::Clone, &repo(), "/out/repo", false);
    assert_eq!(
        cloning.expire().into_result(),
        Some(result(Operation::Clone, RunOutcome::Failure, "timed out"))
    );
    let (pulling, _) = RepoTask::new(Operation::Sync, &repo(), "/out/repo", true);
    assert_eq!(
        pulling.expire().into_result(),
        Some(result(Operation::Sync, RunOutcome::Failure, "timed out"))
    );
}

#[test]
fn a_task_whose_time_runs_out_keeps_the_branches_done() {
    let (mut task, _) = RepoTask::new(Operation::Sync, &repo(), "/out/repo", true);
    for output in [ok(""), ok("main\n"), ok(""), ok("dev:origin/dev\nmain:origin/main\n"), ok("")] {
        let (after, next) = task.advance(&output);
        assert!(next.is_some());
        task = after;
    }
    let got = task.expire().into_result().unwrap();
    assert_eq!(got.outcome, RunOutcome::Failure);
    assert_eq!(got.detail, "timed out");
    assert_eq!(
        got.branches,
        vec![BranchOutcome {
            branch: "dev".to_string(),
            outcome: ReconciliationOutcome::UpdatedNonCurrent,
            detail: String::new()
        }]
    );
}

#[test]
fn a_finished_task_does_not_expire() {
    let (task, _) = RepoTask::new(Operation::Sync, &repo(), "/out/repo", false);
    let (task, _) = task.advance(&ok(""));
    assert_eq!(
        task.expire().into_result(),
        Some(result(Operation::Clone, RunOutcome::Success, ""))
    );
}

#[test]
fn interleaved_tasks_keep_to_their_own_working_copies() {
    let names = ["one", "two", "three"];
    let mut tasks = vec![];
    for name in names {
        let repository = NormalizedRepository::from_reference(&format!("host/{}", name)).unwrap();
        let path = format!("/out/{}", name);
        let (task, next) = RepoTask::new(Operation::Sync, &repository, &path, true);
        tasks.push((path, Some(task), next, Vec::<VcsCommand>::new()));
    }
    let mut busy = true;
    while busy {
        busy = false;
        for (path, task, next, asked) in tasks.iter_mut() {
            if let Some(command) = next.take() {
                busy = true;
                assert_eq!(command.path(), path.as_str());
                let output = match &command {
                    VcsCommand::CurrentBranch { .. } => ok("main\n"),
                    VcsCommand::BranchUpstreamList { .. } => ok("main:origin/main\ndev:origin/dev\n"),
                    _ => ok(""),
                };
                asked.push(command);
                let (after, following) = task.take().unwrap().advance(&output);
                *task = Some(after);
                *next = following;
            }
        }
    }
    for (path, task, _, asked) in tasks {
        assert_eq!(asked.len(), 7);
        assert!(asked.iter().all(|c| c.path() == path));
        assert!(matches!(asked[0], VcsCommand::Pull { .. }));
        assert!(matches!(asked[4], VcsCommand::StatusPorcelain { .. }));
        assert!(matches!(asked[5], VcsCommand::MergeFfOnly { .. }));
        assert!(matches!(asked[6], VcsCommand::FetchRefToRef { .. }));
        let got = task.unwrap().into_result().unwrap();
        assert_eq!(got.outcome, RunOutcome::Success);
        assert_eq!(got.branches.len(), 2);
    }
}

#[test]
fn a_rejected_reference_fails_under_its_own_name() {
    let error = NormalizedRepository::from_reference("github.com").unwrap_err();
    let got = RunResult::rejected(Operation::Sync, "github.com", &error);
    assert_eq!(
        got,
        RunResult {
            name: "github.com".to_string(),
            operation: Operation::Sync,
            outcome: RunOutcome::Failure,
            skipped: false,
            detail: "Invalid repository URL: Malformed URL: must have format 'domain.com/repo': github.com"
                .to_string(),
            branches: vec![],
        }
    );
    assert!(got.is_failure());
}

#[test]
fn headlines() {
    let quiet_config = Config::new("f", "/out");
    let loud_config = Config::new("f", "/out").with_verbose(true);
    let quiet = RepoStatusPrinter::new(&quiet_config);
    let loud = RepoStatusPrinter::new(&loud_config);

    let cloned = result(Operation::Clone, RunOutcome::Success, "");
    assert_eq!(cloned.headline(&loud), Some("Cloned repo successfully".to_string()));
    assert_eq!(cloned.headline(&quiet), None);

    let synced = result(Operation::Sync, RunOutcome::Success, "");
    assert_eq!(synced.headline(&loud), Some("Synced repo successfully".to_string()));
    assert_eq!(synced.headline(&quiet), None);

    let (_, skipped) = run_task(Operation::Clone, true, vec![]);
    assert_eq!(skipped.headline(&loud), Some("Skipping repo, already exists".to_string()));
    assert_eq!(skipped.headline(&quiet), None);

    let clone_failed = result(Operation::Clone, RunOutcome::Failure, "fatal: not found");
    let sync_failed = result(Operation::Sync, RunOutcome::Failure, "fatal: offline");
    for printer in [&quiet, &loud] {
        assert_eq!(
            clone_failed.headline(printer),
            Some("Error cloning repo: fatal: not found".to_string())
        );
        assert_eq!(
            sync_failed.headline(printer),
            Some("Error syncing repo: fatal: offline".to_string())
        );
    }
}

#[test]
fn branch_lines() {
    let quiet_config = Config::new("f", "/out");
    let loud_config = Config::new("f", "/out").with_verbose(true);
    let quiet = RepoStatusPrinter::new(&quiet_config);
    let loud = RepoStatusPrinter::new(&loud_config);
    let of = |outcome, detail: &str| BranchOutcome {
        branch: "main".to_string(),
        outcome,
        detail: detail.to_string(),
    };
    let dirty = of(ReconciliationOutcome::SkippedDirty, "");
    assert_eq!(dirty.line(&loud), Some("Skipping merge on main (dirty branch)".to_string()));
    assert_eq!(dirty.line(&quiet), None);
    let broken = of(ReconciliationOutcome::Failed, "diverged");
    for printer in [&quiet, &loud] {
        assert_eq!(
            broken.line(printer),
            Some("Warning: branch main was not updated: diverged".to_string())
        );
        assert_eq!(of(ReconciliationOutcome::FastForwarded, "").line(printer), None);
        assert_eq!(of(ReconciliationOutcome::UpdatedNonCurrent, "").line(printer), None);
    }
}

#[test]
fn fleet_summary_counts_every_repository() {
    let names = ["a", "b", "c", "d", "e"];
    let mut results = vec![];
    for (i, name) in names.iter().enumerate() {
        let reference = format!("host/{}", name);
        let repository = NormalizedRepository::from_reference(&reference).unwrap();
        let exists = i % 2 == 0;
        let (mut task, mut next) =
            RepoTask::new(Operation::Sync, &repository, &format!("/out/{}", name), exists);
        let mut first = true;
        while let Some(_) = next {
            let output = if first && (i == 1 || i == 2) { failed("boom") } else { ok("") };
            first = false;
            let (after, following) = task.advance(&output);
            task = after;
            next = following;
        }
        results.push(task.into_result().unwrap());
    }
    let summary = summarize(Operation::Sync, &results);
    assert_eq!(summary, FleetSummary { operation: Operation::Sync, total: 5, failed_count: 2 });
    assert_eq!(summary.exit_code(), 1);
    assert!(!summary.is_success());
    assert_eq!(
        results.iter().map(|r| r.name.as_str()).collect::<Vec<_>>(),
        vec!["a", "b", "c", "d", "e"]
    );
    let config = Config::new("f", "/out");
    let printer = RepoStatusPrinter::new(&config);
    assert_eq!(summary.final_line(&printer), "Warning: Failed to sync 2 out of 5 repositories");
}

#[test]
fn fleet_summary_without_failures() {
    let results = vec![
        result(Operation::Clone, RunOutcome::Success, ""),
        result(Operation::Clone, RunOutcome::Success, ""),
    ];
    let summary = summarize(Operation::Clone, &results);
    assert_eq!(summary, FleetSummary { operation: Operation::Clone, total: 2, failed_count: 0 });
    assert_eq!(summary.exit_code(), 0);
    assert!(summary.is_success());
    let config = Config::new("f", "/out");
    let printer = RepoStatusPrinter::new(&config);
    assert_eq!(summary.final_line(&printer), "Successfully cloned all 2 repositories");
    let empty = summarize(Operation::Sync, &vec![]);
    assert_eq!(empty, FleetSummary { operation: Operation::Sync, total: 0, failed_count: 0 });
    assert_eq!(empty.exit_code(), 0);
    assert_eq!(Operation::Clone.name(), "Clone");
    assert_eq!(Operation::Sync.name(), "Sync");
}

#[test]
fn fleet_summary_when_everything_fails() {
    let results = vec![
        result(Operation::Clone, RunOutcome::Failure, "x"),
        result(Operation::Sync, RunOutcome::Failure, "y"),
        result(Operation::Sync, RunOutcome::Failure, "z"),
    ];
    let summary = summarize(Operation::Sync, &results);
    assert_eq!(summary.total, 3);
    assert_eq!(summary.failed_count, 3);
    assert_eq!(summary.exit_code(), 1);
}
