//! The settings of one run.

use vstd::prelude::*;

verus! {

/// How a run is to be carried out. The settings are fixed before the first
/// task is taken and do not change afterwards.
#[derive(Clone, Debug, PartialEq, Eq)]
pub struct RunConfig {
    /// Number of job slots: how many commands may run at the same time.
    pub maxjobs: usize,
    /// Go on with the next tasks after a failure.
    pub keepgoing: bool,
    /// The shell that runs the command, if it is a shell command.
    pub shell: Option<String>,
    /// Report the start and the end of each job.
    pub verbose: bool,
    /// Print the commands instead of running them.
    pub dryrun: bool,
}

impl RunConfig {
    /// The characters of the shell's path, if there is a shell.
    pub open spec fn shell_text(&self) -> Option<Seq<char>> {
        match self.shell {
            Some(s) => Some(s@),
            None => None,
        }
    }

    /// A run needs at least one job slot.
    pub open spec fn valid(&self) -> bool {
        self.maxjobs >= 1
    }
}

/// Why a run cannot begin.
#[derive(Clone, Debug, PartialEq, Eq)]
pub enum ConfigError {
    /// The command line does not fit the options; the text says how.
    BadOption(String),
    /// Help was asked for; the text is what to print.
    Help(String),
    /// The number of job slots is no positive number.
    InvalidJobs,
    /// The shell named by the environment is not valid Unicode.
    ShellNotUnicode,
    /// No command was given.
    NoCommand,
}

} // verus!
