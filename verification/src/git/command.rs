//! The commands that the library asks its caller to run, and what comes back.
use crate::utils::text::texts_of;
use vstd::prelude::*;

verus! {

/// One git invocation. Each variant but `Clone` works inside the working
/// copy at `path`; `Clone` makes that working copy.
#[derive(Debug, Clone, PartialEq, Eq)]
pub enum VcsCommand {
    /// Clone `url` into `path`.
    Clone { url: String, path: String },
    /// Pull the checked-out branch.
    Pull { path: String },
    /// Print the name of the checked-out branch.
    CurrentBranch { path: String },
    /// Fetch every remote and prune what is gone upstream.
    FetchAllPrune { path: String },
    /// List each local branch with its upstream, one `local:upstream` a line.
    BranchUpstreamList { path: String },
    /// Print the working tree's status, one entry a line.
    StatusPorcelain { path: String },
    /// Fast-forward the checked-out branch to `upstream`, or fail.
    MergeFfOnly { path: String, upstream: String },
    /// Set the branch `local` to `upstream` without checking it out.
    FetchRefToRef { path: String, upstream: String, local: String },
}

/// What a `VcsCommand` holds, as plain values.
pub enum VcsCommandView {
    Clone { url: Seq<char>, path: Seq<char> },
    Pull { path: Seq<char> },
    CurrentBranch { path: Seq<char> },
    FetchAllPrune { path: Seq<char> },
    BranchUpstreamList { path: Seq<char> },
    StatusPorcelain { path: Seq<char> },
    MergeFfOnly { path: Seq<char>, upstream: Seq<char> },
    FetchRefToRef { path: Seq<char>, upstream: Seq<char>, local: Seq<char> },
}

impl VcsCommandView {
    /// The working copy that the command is about.
    pub open spec fn path(self) -> Seq<char> {
        match self {
            VcsCommandView::Clone { path, .. } => path,
            VcsCommandView::Pull { path } => path,
            VcsCommandView::CurrentBranch { path } => path,
            VcsCommandView::FetchAllPrune { path } => path,
            VcsCommandView::BranchUpstreamList { path } => path,
            VcsCommandView::StatusPorcelain { path } => path,
            VcsCommandView::MergeFfOnly { path, .. } => path,
            VcsCommandView::FetchRefToRef { path, .. } => path,
        }
    }

    /// The arguments that git is started with, before any `--quiet`.
    pub open spec fn base_args(self) -> Seq<Seq<char>> {
        match self {
            VcsCommandView::Clone { url, path } => seq!["clone"@, url, path],
            VcsCommandView::Pull { path } => seq!["-C"@, path, "pull"@],
            VcsCommandView::CurrentBranch { path } => seq![
                "-C"@,
                path,
                "rev-parse"@,
                "--abbrev-ref"@,
                "HEAD"@,
            ],
            VcsCommandView::FetchAllPrune { path } => seq!["-C"@, path, "fetch"@, "--all"@, "-Pp"@],
            VcsCommandView::BranchUpstreamList { path } => seq![
                "-C"@,
                path,
                "for-each-ref"@,
                "--format=%(refname:short):%(upstream:short)"@,
                "refs/heads"@,
            ],
            VcsCommandView::StatusPorcelain { path } => seq![
                "-C"@,
                path,
                "status"@,
                "--porcelain"@,
            ],
            VcsCommandView::MergeFfOnly { path, upstream } => seq![
                "-C"@,
                path,
                "merge"@,
                "--ff-only"@,
                upstream,
            ],
            VcsCommandView::FetchRefToRef { path, upstream, local } => seq![
                "-C"@,
                path,
                "fetch"@,
                "."@,
                upstream + ":"@ + local,
            ],
        }
    }

    /// The arguments that git is started with. A quiet run adds `--quiet`:
    /// in front of everything for a merge, at the end for the others.
    pub open spec fn args(self, verbose: bool) -> Seq<Seq<char>> {
        if verbose {
            self.base_args()
        } else if self is MergeFfOnly {
            seq!["--quiet"@] + self.base_args()
        } else {
            self.base_args().push("--quiet"@)
        }
    }
}

impl View for VcsCommand {
    type V = VcsCommandView;

    open spec fn view(&self) -> VcsCommandView {
        match self {
            VcsCommand::Clone { url, path } => VcsCommandView::Clone { url: url@, path: path@ },
            VcsCommand::Pull { path } => VcsCommandView::Pull { path: path@ },
            VcsCommand::CurrentBranch { path } => VcsCommandView::CurrentBranch { path: path@ },
            VcsCommand::FetchAllPrune { path } => VcsCommandView::FetchAllPrune { path: path@ },
            VcsCommand::BranchUpstreamList { path } => VcsCommandView::BranchUpstreamList {
                path: path@,
            },
            VcsCommand::StatusPorcelain { path } => VcsCommandView::StatusPorcelain { path: path@ },
            VcsCommand::MergeFfOnly { path, upstream } => VcsCommandView::MergeFfOnly {
                path: path@,
                upstream: upstream@,
            },
            VcsCommand::FetchRefToRef { path, upstream, local } => VcsCommandView::FetchRefToRef {
                path: path@,
                upstream: upstream@,
                local: local@,
            },
        }
    }
}

/// The view of a command that may be absent.
pub open spec fn command_view(command: Option<VcsCommand>) -> Option<VcsCommandView> {
    match command {
        Some(c) => Some(c@),
        None => None,
    }
}

/// Puts each of `items` into a list of its own strings.
fn owned_args(items: &Vec<&str>) -> (r: Vec<String>)
    ensures
        r@.len() == items@.len(),
        forall|i: int| 0 <= i < items@.len() ==> r@[i]@ == items@[i]@,
{
    let mut r: Vec<String> = Vec::new();
    let mut i: usize = 0;
    while i < items.len()
        invariant
            i <= items.len(),
            r@.len() == i,
            forall|j: int| 0 <= j < i ==> r@[j]@ == items@[j]@,
        decreases items.len() - i,
    {
        r.push(String::from_str(items[i]));
        i += 1;
    }
    r
}

impl VcsCommand {
    /// The working copy that the command is about.
    pub fn path(&self) -> (r: &str)
        ensures
            r@ == self@.path(),
    {
        match self {
            VcsCommand::Clone { path, .. } => path.as_str(),
            VcsCommand::Pull { path } => path.as_str(),
            VcsCommand::CurrentBranch { path } => path.as_str(),
            VcsCommand::FetchAllPrune { path } => path.as_str(),
            VcsCommand::BranchUpstreamList { path } => path.as_str(),
            VcsCommand::StatusPorcelain { path } => path.as_str(),
            VcsCommand::MergeFfOnly { path, .. } => path.as_str(),
            VcsCommand::FetchRefToRef { path, .. } => path.as_str(),
        }
    }

    /// The arguments to start git with for this command.
    pub fn args(&self, verbose: bool) -> (r: Vec<String>)
        ensures
            texts_of(r@) == self@.args(verbose),
    {
        let mut items: Vec<&str> = Vec::new();
        let refspec: String;
        match self {
            VcsCommand::Clone { url, path } => {
                items.push("clone");
                items.push(url.as_str());
                items.push(path.as_str());
            },
            VcsCommand::Pull { path } => {
                items.push("-C");
                items.push(path.as_str());
                items.push("pull");
            },
            VcsCommand::CurrentBranch { path } => {
                items.push("-C");
                items.push(path.as_str());
                items.push("rev-parse");
                items.push("--abbrev-ref");
                items.push("HEAD");
            },
            VcsCommand::FetchAllPrune { path } => {
                items.push("-C");
                items.push(path.as_str());
                items.push("fetch");
                items.push("--all");
                items.push("-Pp");
            },
            VcsCommand::BranchUpstreamList { path } => {
                items.push("-C");
                items.push(path.as_str());
                items.push("for-each-ref");
                items.push("--format=%(refname:short):%(upstream:short)");
                items.push("refs/heads");
            },
            VcsCommand::StatusPorcelain { path } => {
                items.push("-C");
                items.push(path.as_str());
                items.push("status");
                items.push("--porcelain");
            },
            VcsCommand::MergeFfOnly { path, upstream } => {
                if !verbose {
                    items.push("--quiet");
                }
                items.push("-C");
                items.push(path.as_str());
                items.push("merge");
                items.push("--ff-only");
                items.push(upstream.as_str());
            },
            VcsCommand::FetchRefToRef { path, upstream, local } => {
                let mut pair = upstream.clone();
                pair.append(":");
                pair.append(local.as_str());
                refspec = pair;
                items.push("-C");
                items.push(path.as_str());
                items.push("fetch");
                items.push(".");
                items.push(refspec.as_str());
            },
        }
        if !verbose {
            match self {
                VcsCommand::MergeFfOnly { .. } => {},
                _ => {
                    items.push("--quiet");
                },
            }
        }
        owned_args(&items)
    }
}

/// What running a command gave: whether git reported success, and what it
/// wrote.
#[derive(Debug, Clone, PartialEq, Eq)]
pub struct CommandOutput {
    pub success: bool,
    pub stdout: Vec<u8>,
    pub stderr: Vec<u8>,
}

/// What a `CommandOutput` holds, as plain values.
pub struct CommandOutputView {
    pub success: bool,
    pub stdout: Seq<u8>,
    pub stderr: Seq<u8>,
}

impl View for CommandOutput {
    type V = CommandOutputView;

    open spec fn view(&self) -> CommandOutputView {
        CommandOutputView { success: self.success, stdout: self.stdout@, stderr: self.stderr@ }
    }
}

/// The text that `bytes` stand for when read as UTF-8, each invalid sequence
/// replaced by U+FFFD.
pub uninterp spec fn lossy_text(bytes: Seq<u8>) -> Seq<char>;

/// `String::from_utf8_lossy` of std: `bytes` read as UTF-8 with replacement
/// characters for what is invalid, which depends on `bytes` alone. The
/// contract names that text and says no more of it.
#[verifier::external_body]
pub(crate) fn decode_lossy(bytes: &Vec<u8>) -> (r: String)
    ensures
        r@ == lossy_text(bytes@),
{
    String::from_utf8_lossy(bytes).into_owned()
}

impl CommandOutputView {
    /// What the command wrote to standard output, as text.
    pub open spec fn stdout_text(self) -> Seq<char> {
        lossy_text(self.stdout)
    }

    /// What the command wrote to standard error, as text.
    pub open spec fn stderr_text(self) -> Seq<char> {
        lossy_text(self.stderr)
    }
}

impl CommandOutput {
    /// What the command wrote to standard output, as text.
    pub fn stdout_text(&self) -> (r: String)
        ensures
            r@ == self@.stdout_text(),
    {
        decode_lossy(&self.stdout)
    }

    /// What the command wrote to standard error, as text.
    pub fn stderr_text(&self) -> (r: String)
        ensures
            r@ == self@.stderr_text(),
    {
        decode_lossy(&self.stderr)
    }
}

} // verus!
