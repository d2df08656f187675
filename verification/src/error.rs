//! The errors that the library reports.
use crate::utils::text::{decimal, decimal_of};
use vstd::prelude::*;

verus! {

/// An error of a run, by kind.
#[derive(Debug, Clone, PartialEq, Eq)]
pub enum RepoSyncError {
    /// Reading or writing failed; the field is the system's message.
    Io(String),
    /// A git command failed.
    Git { operation: String, message: String },
    /// A repository reference is no usable URL.
    InvalidUrl(String),
    /// A line of the repository list could not be read as a reference.
    FileFormat { file: String, line: usize, content: String },
    /// The output directory could not be made or is unusable.
    Directory { path: String, message: String },
    /// The configuration or the repository list as a whole is unusable.
    Config(String),
}

/// What a `RepoSyncError` holds, as plain values.
pub enum RepoSyncErrorView {
    Io(Seq<char>),
    Git { operation: Seq<char>, message: Seq<char> },
    InvalidUrl(Seq<char>),
    FileFormat { file: Seq<char>, line: nat, content: Seq<char> },
    Directory { path: Seq<char>, message: Seq<char> },
    Config(Seq<char>),
}

impl RepoSyncErrorView {
    /// The message that describes the error to a reader.
    pub open spec fn text(self) -> Seq<char> {
        match self {
            RepoSyncErrorView::Io(err) => "I/O error: "@ + err,
            RepoSyncErrorView::Git { operation, message } => "Git "@ + operation + " failed: "@
                + message,
            RepoSyncErrorView::InvalidUrl(url) => "Invalid repository URL: "@ + url,
            RepoSyncErrorView::FileFormat { file, line, content } => "Invalid line "@ + decimal_of(
                line,
            ) + " in file "@ + file + ": '"@ + content + "'"@,
            RepoSyncErrorView::Directory { path, message } => "Directory error for '"@ + path
                + "': "@ + message,
            RepoSyncErrorView::Config(msg) => "Configuration error: "@ + msg,
        }
    }
}

impl View for RepoSyncError {
    type V = RepoSyncErrorView;

    open spec fn view(&self) -> RepoSyncErrorView {
        match self {
            RepoSyncError::Io(err) => RepoSyncErrorView::Io(err@),
            RepoSyncError::Git { operation, message } => RepoSyncErrorView::Git {
                operation: operation@,
                message: message@,
            },
            RepoSyncError::InvalidUrl(url) => RepoSyncErrorView::InvalidUrl(url@),
            RepoSyncError::FileFormat { file, line, content } => RepoSyncErrorView::FileFormat {
                file: file@,
                line: *line as nat,
                content: content@,
            },
            RepoSyncError::Directory { path, message } => RepoSyncErrorView::Directory {
                path: path@,
                message: message@,
            },
            RepoSyncError::Config(msg) => RepoSyncErrorView::Config(msg@),
        }
    }
}

impl RepoSyncError {
    /// An input or output error with the system's message.
    pub fn io(message: &str) -> (e: Self)
        ensures
            e@ == RepoSyncErrorView::Io(message@),
    {
        RepoSyncError::Io(String::from_str(message))
    }

    /// The failure of the git command `operation`.
    pub fn git(operation: &str, message: &str) -> (e: Self)
        ensures
            e@ == (RepoSyncErrorView::Git { operation: operation@, message: message@ }),
    {
        RepoSyncError::Git {
            operation: String::from_str(operation),
            message: String::from_str(message),
        }
    }

    /// An unusable repository reference; `url` says what is wrong with it.
    pub fn invalid_url(url: &str) -> (e: Self)
        ensures
            e@ == RepoSyncErrorView::InvalidUrl(url@),
    {
        RepoSyncError::InvalidUrl(String::from_str(url))
    }

    /// An unreadable line of the repository list; `line` counts from one.
    pub fn file_format(file: &str, line: usize, content: &str) -> (e: Self)
        ensures
            e@ == (RepoSyncErrorView::FileFormat {
                file: file@,
                line: line as nat,
                content: content@,
            }),
    {
        RepoSyncError::FileFormat {
            file: String::from_str(file),
            line,
            content: String::from_str(content),
        }
    }

    /// A failure to make or use the directory `path`.
    pub fn directory(path: &str, message: &str) -> (e: Self)
        ensures
            e@ == (RepoSyncErrorView::Directory { path: path@, message: message@ }),
    {
        RepoSyncError::Directory {
            path: String::from_str(path),
            message: String::from_str(message),
        }
    }

    /// An unusable configuration.
    pub fn config(message: &str) -> (e: Self)
        ensures
            e@ == RepoSyncErrorView::Config(message@),
    {
        RepoSyncError::Config(String::from_str(message))
    }

    /// The message that describes the error to a reader.
    pub fn describe(&self) -> (r: String)
        ensures
            r@ == self@.text(),
    {
        match self {
            RepoSyncError::Io(err) => String::from_str("I/O error: ").concat(err.as_str()),
            RepoSyncError::Git { operation, message } => {
                let mut r = String::from_str("Git ");
                r.append(operation.as_str());
                r.append(" failed: ");
                r.append(message.as_str());
                r
            },
            RepoSyncError::InvalidUrl(url) => String::from_str("Invalid repository URL: ").concat(
                url.as_str(),
            ),
            RepoSyncError::FileFormat { file, line, content } => {
                let number = decimal(*line);
                let mut r = String::from_str("Invalid line ");
                r.append(number.as_str());
                r.append(" in file ");
                r.append(file.as_str());
                r.append(": '");
                r.append(content.as_str());
                r.append("'");
                r
            },
            RepoSyncError::Directory { path, message } => {
                let mut r = String::from_str("Directory error for '");
                r.append(path.as_str());
                r.append("': ");
                r.append(message.as_str());
                r
            },
            RepoSyncError::Config(msg) => String::from_str("Configuration error: ").concat(
                msg.as_str(),
            ),
        }
    }
}

} // verus!
