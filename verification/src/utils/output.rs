//! The status lines of a run. Nothing here prints: each function returns the
//! line for the caller to print, or `None` where the run is quiet.
use crate::config::Config;
use crate::utils::text::{decimal, decimal_of};
use vstd::prelude::*;

verus! {

/// The lower-case form of `s` under Unicode's case mapping.
pub uninterp spec fn lowercase_of(s: Seq<char>) -> Seq<char>;

/// `str::to_lowercase` of std: the lower-case form of `s`, which depends on
/// `s` alone. The contract names that form and says no more of it.
#[verifier::external_body]
fn lowercase(s: &str) -> (r: String)
    ensures
        r@ == lowercase_of(s@),
{
    s.to_lowercase()
}

/// What a verbose run prints for `message`, and a quiet run does not.
pub open spec fn verbose_text(verbose: bool, message: Seq<char>) -> Option<Seq<char>> {
    if verbose {
        Some(message)
    } else {
        None
    }
}

/// The view of a line that may be absent.
pub open spec fn line_view(line: Option<String>) -> Option<Seq<char>> {
    match line {
        Some(s) => Some(s@),
        None => None,
    }
}

/// The line reporting a finished clone.
pub open spec fn cloned_text(repo_name: Seq<char>) -> Seq<char> {
    "Cloned "@ + repo_name + " successfully"@
}

/// The line reporting a finished sync.
pub open spec fn synced_text(repo_name: Seq<char>) -> Seq<char> {
    "Synced "@ + repo_name + " successfully"@
}

/// The line reporting a repository that was passed over.
pub open spec fn skipped_text(repo_name: Seq<char>, reason: Seq<char>) -> Seq<char> {
    "Skipping "@ + repo_name + ", "@ + reason
}

/// The line announcing an operation on `total` repositories.
pub open spec fn summary_text(operation: Seq<char>, total: nat, target_dir: Seq<char>) -> Seq<
    char,
> {
    operation + " "@ + decimal_of(total) + " repositories in "@ + target_dir
}

/// The line reporting a branch whose merge was passed over.
pub open spec fn skip_merge_text(branch: Seq<char>, reason: Seq<char>) -> Seq<char> {
    "Skipping merge on "@ + branch + " ("@ + reason + ")"@
}

/// The closing line of a run, for the operation's name in lower case.
pub open spec fn final_summary_text(lowered: Seq<char>, failed: nat, total: nat) -> Seq<char> {
    if failed > 0 {
        "Warning: Failed to "@ + lowered + " "@ + decimal_of(failed) + " out of "@ + decimal_of(
            total,
        ) + " repositories"@
    } else {
        "Successfully "@ + lowered + "d all "@ + decimal_of(total) + " repositories"@
    }
}

/// `message` where `config` is verbose; nothing where it is quiet.
pub fn verbose_line(config: &Config, message: &str) -> (r: Option<String>)
    ensures
        line_view(r) == verbose_text(config.verbose, message@),
{
    if config.verbose {
        Some(String::from_str(message))
    } else {
        None
    }
}

/// The closing line of a run for the operation whose lower-case name is
/// `lowered`: a warning with the count where `failed` is above zero.
pub fn final_summary_line(lowered: &str, failed: usize, total: usize) -> (r: String)
    ensures
        r@ == final_summary_text(lowered@, failed as nat, total as nat),
{
    let total_text = decimal(total);
    if failed > 0 {
        let failed_text = decimal(failed);
        let mut r = String::from_str("Warning: Failed to ");
        r.append(lowered);
        r.append(" ");
        r.append(failed_text.as_str());
        r.append(" out of ");
        r.append(total_text.as_str());
        r.append(" repositories");
        r
    } else {
        let mut r = String::from_str("Successfully ");
        r.append(lowered);
        r.append("d all ");
        r.append(total_text.as_str());
        r.append(" repositories");
        r
    }
}

/// Words the status lines of a run, by the verbosity of its configuration.
pub struct RepoStatusPrinter<'a> {
    config: &'a Config,
}

impl<'a> RepoStatusPrinter<'a> {
    /// Whether the printer's lines are shown.
    pub closed spec fn verbose(&self) -> bool {
        self.config.verbose
    }

    /// A printer for the run that `config` describes.
    pub fn new(config: &'a Config) -> (p: Self)
        ensures
            p.verbose() == config.verbose,
    {
        RepoStatusPrinter { config }
    }

    /// The line for a finished clone.
    pub fn cloned(&self, repo_name: &str) -> (r: Option<String>)
        ensures
            line_view(r) == verbose_text(self.verbose(), cloned_text(repo_name@)),
    {
        let mut line = String::from_str("Cloned ");
        line.append(repo_name);
        line.append(" successfully");
        verbose_line(self.config, line.as_str())
    }

    /// The line for a finished sync.
    pub fn synced(&self, repo_name: &str) -> (r: Option<String>)
        ensures
            line_view(r) == verbose_text(self.verbose(), synced_text(repo_name@)),
    {
        let mut line = String::from_str("Synced ");
        line.append(repo_name);
        line.append(" successfully");
        verbose_line(self.config, line.as_str())
    }

    /// The line for a repository that was passed over.
    pub fn skipped(&self, repo_name: &str, reason: &str) -> (r: Option<String>)
        ensures
            line_view(r) == verbose_text(self.verbose(), skipped_text(repo_name@, reason@)),
    {
        let mut line = String::from_str("Skipping ");
        line.append(repo_name);
        line.append(", ");
        line.append(reason);
        verbose_line(self.config, line.as_str())
    }

    /// The line that announces an operation.
    pub fn summary(&self, operation: &str, total: usize, target_dir: &str) -> (r: Option<String>)
        ensures
            line_view(r) == verbose_text(
                self.verbose(),
                summary_text(operation@, total as nat, target_dir@),
            ),
    {
        let count = decimal(total);
        let mut line = String::from_str(operation);
        line.append(" ");
        line.append(count.as_str());
        line.append(" repositories in ");
        line.append(target_dir);
        verbose_line(self.config, line.as_str())
    }

    /// The line for a branch whose merge was passed over.
    pub fn skip_merge(&self, branch: &str, reason: &str) -> (r: Option<String>)
        ensures
            line_view(r) == verbose_text(self.verbose(), skip_merge_text(branch@, reason@)),
    {
        let mut line = String::from_str("Skipping merge on ");
        line.append(branch);
        line.append(" (");
        line.append(reason);
        line.append(")");
        verbose_line(self.config, line.as_str())
    }

    /// The closing line of a run, shown whatever the verbosity.
    pub fn final_summary(&self, operation: &str, failed: usize, total: usize) -> (r: String)
        ensures
            r@ == final_summary_text(lowercase_of(operation@), failed as nat, total as nat),
    {
        let lowered = lowercase(operation);
        final_summary_line(lowered.as_str(), failed, total)
    }
}

} // verus!
