//! Keeps a fleet of git repositories in step with their remotes: URL
//! normalisation, the per-branch reconciliation state machine, the
//! per-repository clone-or-sync decision and the fleet summary.
pub mod config;
pub mod error;
pub mod fleet;
pub mod git;
pub mod repo_list;
pub mod repository;
pub mod utils;
