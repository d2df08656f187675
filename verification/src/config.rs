//! The settings of one run.
use vstd::prelude::*;

verus! {

/// How long a run may take.
#[derive(Clone, Copy, PartialEq, Eq, Structural, Debug)]
pub enum Timeout {
    /// The run goes on until every repository is done.
    Unlimited,
    /// After `seconds` no further repository is begun, and what is still
    /// under way is stopped and counted as failed.
    After { seconds: u64 },
}

impl Timeout {
    /// Whether the time is up once `elapsed` seconds have passed.
    pub open spec fn expired_after(self, elapsed: u64) -> bool {
        self matches Timeout::After { seconds } && elapsed >= seconds
    }

    /// Whether the time is up once `elapsed` seconds have passed since the
    /// run began. An unlimited run's time is never up.
    pub fn is_expired(&self, elapsed: u64) -> (r: bool)
        ensures
            r == self.expired_after(elapsed),
    {
        match self {
            Timeout::Unlimited => false,
            Timeout::After { seconds } => elapsed >= *seconds,
        }
    }
}

/// The settings of one run.
#[derive(Debug, Clone)]
pub struct Config {
    /// The file that lists the repositories, one reference per line.
    pub repos_file: String,
    /// The directory below which the working copies live.
    pub output_dir: String,
    /// Whether the per-repository status lines are printed.
    pub verbose: bool,
    /// How long the run may take.
    pub timeout: Timeout,
}

/// What a `Config` holds, as plain values.
pub struct ConfigView {
    pub repos_file: Seq<char>,
    pub output_dir: Seq<char>,
    pub verbose: bool,
    pub timeout: Timeout,
}

impl View for Config {
    type V = ConfigView;

    open spec fn view(&self) -> ConfigView {
        ConfigView {
            repos_file: self.repos_file@,
            output_dir: self.output_dir@,
            verbose: self.verbose,
            timeout: self.timeout,
        }
    }
}

impl Config {
    /// A quiet configuration without time limit for the given list file and
    /// output directory.
    pub fn new(repos_file: &str, output_dir: &str) -> (c: Self)
        ensures
            c@ == (ConfigView {
                repos_file: repos_file@,
                output_dir: output_dir@,
                verbose: false,
                timeout: Timeout::Unlimited,
            }),
    {
        Config {
            repos_file: String::from_str(repos_file),
            output_dir: String::from_str(output_dir),
            verbose: false,
            timeout: Timeout::Unlimited,
        }
    }

    /// The same configuration with verbosity set to `verbose`.
    pub fn with_verbose(self, verbose: bool) -> (c: Self)
        ensures
            c@ == (ConfigView { verbose, ..self@ }),
    {
        let mut c = self;
        c.verbose = verbose;
        c
    }

    /// The same configuration with the time limit set to `timeout`.
    pub fn with_timeout(self, timeout: Timeout) -> (c: Self)
        ensures
            c@ == (ConfigView { timeout, ..self@ }),
    {
        let mut c = self;
        c.timeout = timeout;
        c
    }
}

} // verus!
