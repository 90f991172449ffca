//! How a job ended, the tally of failures over a run, and the exit status
//! that the tally amounts to.

use vstd::prelude::*;

verus! {

/// The exit status of a run that could not go on: bad options, a failure to
/// read the tasks or to write output, a broken completion queue.
pub const FATAL_STATUS: i32 = 255;

/// The highest exit status that stands for a number of failed jobs.
pub const MAX_ERROR_STATUS: i32 = 254;

/// How one job ended.
#[derive(Clone, Debug, PartialEq, Eq)]
pub enum CompletionOutcome {
    /// The process exited with code 0.
    Success,
    /// The process exited with this code, which is not 0.
    NonZeroExit(i32),
    /// The process was ended by this signal.
    Signaled(i32),
    /// Waiting for the process failed.
    WaitFailed {
        /// Identifier of the process.
        pid: u32,
        /// What the system said.
        error: String,
    },
}

impl CompletionOutcome {
    /// Whether the status that this outcome leaves behind fits the machine's
    /// integers: a signal number can have 128 added to it.
    pub open spec fn valid(&self) -> bool {
        match self {
            CompletionOutcome::Signaled(signal) => *signal + 128 <= i32::MAX,
            _ => true,
        }
    }

    /// Whether the job counts as failed.
    pub open spec fn failed(&self) -> bool {
        !(self is Success)
    }

    /// The status that a failed job leaves behind: its exit code, 128 plus
    /// the number of the signal that ended it, or 255 where waiting failed.
    pub open spec fn failure_code(&self) -> int {
        match self {
            CompletionOutcome::Success => 0,
            CompletionOutcome::NonZeroExit(code) => *code as int,
            CompletionOutcome::Signaled(signal) => 128 + *signal,
            CompletionOutcome::WaitFailed { .. } => 255,
        }
    }
}

/// What a process that was waited for reports: its exit code, or where it has
/// none, the signal that ended it.
pub open spec fn classified(code: Option<i32>, signal: Option<i32>) -> Option<CompletionOutcome> {
    match code {
        Some(c) => if c == 0 {
            Some(CompletionOutcome::Success)
        } else {
            Some(CompletionOutcome::NonZeroExit(c))
        },
        None => match signal {
            Some(s) => Some(CompletionOutcome::Signaled(s)),
            None => None,
        },
    }
}

/// Tells how a process ended from its exit code and its signal. A process
/// with neither ended for no reason known here, and gets no outcome.
pub fn classify(code: Option<i32>, signal: Option<i32>) -> (r: Option<CompletionOutcome>)
    ensures
        r == classified(code, signal),
{
    match code {
        Some(c) => {
            if c == 0 {
                Some(CompletionOutcome::Success)
            } else {
                Some(CompletionOutcome::NonZeroExit(c))
            }
        },
        None => match signal {
            Some(s) => Some(CompletionOutcome::Signaled(s)),
            None => None,
        },
    }
}

/// The tally of a run: how many jobs failed, and the status of the failure
/// that was seen last.
#[derive(Clone, Copy, Debug, PartialEq, Eq)]
pub struct AggregateState {
    /// Number of failures so far.
    pub errors: usize,
    /// Status of the failure seen last; 255 as long as none left one.
    pub last_failed: i32,
}

/// The failure count after one more outcome.
pub open spec fn errors_after(errors: nat, outcome: CompletionOutcome) -> nat {
    if outcome.failed() {
        errors + 1
    } else {
        errors
    }
}

/// The last failure status after one more outcome: a failure overwrites it.
pub open spec fn last_failed_after(last_failed: int, outcome: CompletionOutcome) -> int {
    if outcome.failed() {
        outcome.failure_code()
    } else {
        last_failed
    }
}

/// The exit status of a finished run. When the run kept going after failures,
/// the number of failures, at most 254. Else the status of the last failure
/// seen, or 0 when there was none.
pub open spec fn final_status_of(keepgoing: bool, errors: nat, last_failed: int) -> int {
    if keepgoing {
        if errors < 254 {
            errors as int
        } else {
            254
        }
    } else if errors > 0 {
        last_failed
    } else {
        0
    }
}

impl AggregateState {
    /// The tally before any job has ended.
    pub fn new() -> (r: AggregateState)
        ensures
            r.errors == 0,
            r.last_failed == 255,
    {
        AggregateState { errors: 0, last_failed: 255 }
    }

    /// Adds a failure that is no job's outcome, such as a command that could
    /// not be started. The last failure status stays.
    pub fn record_failure(&mut self)
        requires
            old(self).errors < usize::MAX,
        ensures
            final(self).errors == old(self).errors + 1,
            final(self).last_failed == old(self).last_failed,
    {
        self.errors = self.errors + 1;
    }

    /// Takes one job's outcome into the tally.
    pub fn record(&mut self, outcome: &CompletionOutcome)
        requires
            old(self).errors < usize::MAX,
            outcome.valid(),
        ensures
            final(self).errors == errors_after(old(self).errors as nat, *outcome),
            final(self).last_failed == last_failed_after(old(self).last_failed as int, *outcome),
    {
        match outcome {
            CompletionOutcome::Success => {},
            CompletionOutcome::NonZeroExit(code) => {
                self.errors = self.errors + 1;
                self.last_failed = *code;
            },
            CompletionOutcome::Signaled(signal) => {
                self.errors = self.errors + 1;
                self.last_failed = 128 + *signal;
            },
            CompletionOutcome::WaitFailed { .. } => {
                self.errors = self.errors + 1;
                self.last_failed = 255;
            },
        }
    }
}

/// The exit status of a finished run.
pub fn final_status(keepgoing: bool, state: &AggregateState) -> (status: i32)
    ensures
        status == final_status_of(keepgoing, state.errors as nat, state.last_failed as int),
{
    if keepgoing {
        if state.errors < 254 {
            state.errors as i32
        } else {
            MAX_ERROR_STATUS
        }
    } else if state.errors > 0 {
        state.last_failed
    } else {
        0
    }
}

/// A run that keeps going ends with the number of its failures, capped at
/// 254, whatever the failures were; so it never ends with the status of a
/// run that could not go on.
pub proof fn keep_going_status_counts_failures(errors: nat, last_failed: int)
    ensures
        final_status_of(true, errors, last_failed) == if errors <= 254 {
            errors as int
        } else {
            254
        },
        0 <= final_status_of(true, errors, last_failed) <= 254,
        final_status_of(true, errors, last_failed) != FATAL_STATUS,
{
}

/// A run without failures ends with status 0, in either mode.
pub proof fn clean_run_status_is_zero(keepgoing: bool, last_failed: int)
    ensures
        final_status_of(keepgoing, 0, last_failed) == 0,
{
}

/// In a run that stops at failures, the failed job whose outcome was taken
/// into the tally last decides the exit status: its exit code, 128 plus its
/// signal, or 255.
pub proof fn last_failure_decides_status(errors: nat, last_failed: int, outcome: CompletionOutcome)
    requires
        outcome.failed(),
    ensures
        final_status_of(
            false,
            errors_after(errors, outcome),
            last_failed_after(last_failed, outcome),
        ) == outcome.failure_code(),
{
}

/// A job that succeeded leaves the exit status of the run as it was.
pub proof fn success_keeps_status(
    keepgoing: bool,
    errors: nat,
    last_failed: int,
    outcome: CompletionOutcome,
)
    requires
        !outcome.failed(),
    ensures
        final_status_of(
            keepgoing,
            errors_after(errors, outcome),
            last_failed_after(last_failed, outcome),
        ) == final_status_of(keepgoing, errors, last_failed),
{
}

} // verus!
