//! Running one command per task, a bounded number at a time.
//!
//! The library holds what such a run decides and computes, and leaves the
//! work on processes and streams to its caller:
//!
//! - [`cli`] reads the command line into the settings of a run ([`config`]),
//!   with the option parser of [`getopt`];
//! - [`subst`], [`path`] and [`quote`] build the command of each task and
//!   show it as a shell would read it;
//! - [`dispatch`] takes the tasks, asks for commands to be started and for
//!   ended jobs, and keeps the running jobs within the slots; [`machine`]
//!   is its model, on which its laws are proved;
//! - [`job`] says what is written for a job that has ended, [`status`] keeps
//!   the tally of failures and turns it into the exit status, and [`fatal`]
//!   names the failures that end a run at once.

pub mod cli;
pub mod config;
pub mod dispatch;
pub mod fatal;
pub mod getopt;
pub mod job;
pub mod machine;
pub mod path;
pub mod quote;
pub mod status;
pub mod subst;
pub mod text;
