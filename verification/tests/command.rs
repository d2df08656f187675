use repo_sync::git::command::{CommandOutput, VcsCommand};

fn all_commands() -> Vec<VcsCommand> {
    vec![
        VcsCommand::Clone { url: "https://h/r.git".to_string(), path: "/out/r".to_string() },
        VcsCommand::Pull { path: "/out/r".to_string() },
        VcsCommand::CurrentBranch { path: "/out/r".to_string() },
        VcsCommand::FetchAllPrune { path: "/out/r".to_string() },
        VcsCommand::BranchUpstreamList { path: "/out/r".to_string() },
        VcsCommand::StatusPorcelain { path: "/out/r".to_string() },
        VcsCommand::MergeFfOnly { path: "/out/r".to_string(), upstream: "origin/main".to_string() },
        VcsCommand::FetchRefToRef {
            path: "/out/r".to_string(),
            upstream: "origin/dev".to_string(),
            local: "dev".to_string(),
        },
    ]
}

#[test]
fn command_arguments_when_verbose() {
    let expected: Vec<Vec<&str>> = vec![
        vec!["clone", "https://h/r.git", "/out/r"],
        vec!["-C", "/out/r", "pull"],
        vec!["-C", "/out/r", "rev-parse", "--abbrev-ref", "HEAD"],
        vec!["-C", "/out/r", "fetch", "--all", "-Pp"],
        vec![
            "-C",
            "/out/r",
            "for-each-ref",
            "--format=%(refname:short):%(upstream:short)",
            "refs/heads",
        ],
        vec!["-C", "/out/r", "status", "--porcelain"],
        vec!["-C", "/out/r", "merge", "--ff-only", "origin/main"],
        vec!["-C", "/out/r", "fetch", ".", "origin/dev:dev"],
    ];
    let commands = all_commands();
    assert_eq!(commands.len(), expected.len());
    for (command, args) in commands.iter().zip(expected) {
        assert_eq!(command.args(true), args);
    }
}

#[test]
fn command_arguments_when_quiet() {
    for command in all_commands() {
        let loud = command.args(true);
        let quiet = command.args(false);
        assert_eq!(quiet.len(), loud.len() + 1);
        match command {
            VcsCommand::MergeFfOnly { .. } => {
                assert_eq!(quiet[0], "--quiet");
                assert_eq!(quiet[1..], loud[..]);
            }
            _ => {
                assert_eq!(quiet[loud.len()], "--quiet");
                assert_eq!(quiet[..loud.len()], loud[..]);
            }
        }
    }
}

#[test]
fn command_names_its_working_copy() {
    for command in all_commands() {
        assert_eq!(command.path(), "/out/r");
    }
}

#[test]
fn output_text_is_read_as_utf8_with_replacements() {
    let output = CommandOutput {
        success: true,
        stdout: vec![b'm', b'a', 0xc3, 0xa9, b'\n'],
        stderr: vec![b'o', 0xff, b'k'],
    };
    assert_eq!(output.stdout_text(), "ma\u{e9}\n");
    assert_eq!(output.stderr_text(), "o\u{fffd}k");
    let empty = CommandOutput { success: false, stdout: vec![], stderr: vec![] };
    assert_eq!(empty.stdout_text(), "");
}
