//! What a finished job leaves behind: the output it wrote, a line in the log,
//! and its mark in the tally of failures.

use crate::config::RunConfig;
use crate::status::{errors_after, last_failed_after, AggregateState, CompletionOutcome};
use crate::text::{decimal, push_decimal, push_signed, signed_decimal};
use vstd::prelude::*;
use vstd::string::*;
use vstd::utf8::encode_utf8;

verus! {

/// The name under which the program speaks in its log.
pub const PROG: &'static str = "ljobs";

/// Where a piece of output goes.
#[derive(Clone, Copy, Debug, PartialEq, Eq, Structural)]
pub enum Stream {
    /// Standard output.
    Stdout,
    /// Standard error.
    Stderr,
}

/// A block of bytes for one stream, to be written with a single call, so that
/// nothing else can come between its bytes.
#[derive(Clone, Debug, PartialEq, Eq)]
pub struct Output {
    /// The stream to write to.
    pub stream: Stream,
    /// The bytes to write.
    pub data: Vec<u8>,
}

impl View for Output {
    type V = (Stream, Seq<u8>);

    open spec fn view(&self) -> (Stream, Seq<u8>) {
        (self.stream, self.data@)
    }
}

/// The blocks of a list of outputs, in order.
pub open spec fn emitted(outputs: Seq<Output>) -> Seq<(Stream, Seq<u8>)> {
    Seq::new(outputs.len(), |i: int| outputs[i]@)
}

/// A job that has ended, with all that it wrote.
#[derive(Clone, Debug, PartialEq, Eq)]
pub struct Job {
    /// Number of the task that the job ran for.
    pub tasknum: usize,
    /// The command as shown in the log.
    pub quotedcmd: String,
    /// Everything the process wrote to its standard output.
    pub stdout: Vec<u8>,
    /// Everything the process wrote to its standard error.
    pub stderr: Vec<u8>,
    /// How the process ended.
    pub outcome: CompletionOutcome,
}

/// Start of a log line about a task: the program's name, then the task's
/// number in square brackets, a colon and a space.
pub open spec fn log_tag(tasknum: nat) -> Seq<char> {
    PROG@ + "["@ + decimal(tasknum) + "]: "@
}

/// Log line for a command that was started.
pub open spec fn start_line(tasknum: nat, cmd: Seq<char>) -> Seq<char> {
    log_tag(tasknum) + "start\t"@ + cmd + "\n"@
}

/// Log line for a command that could not be started.
pub open spec fn spawn_error_line(tasknum: nat, cmd: Seq<char>, error: Seq<char>) -> Seq<char> {
    log_tag(tasknum) + "error\t"@ + cmd + ": "@ + error + "\n"@
}

/// Log line for a job that exited with code 0.
pub open spec fn done_line(tasknum: nat, cmd: Seq<char>) -> Seq<char> {
    log_tag(tasknum) + "done\t"@ + cmd + "\n"@
}

/// Log line for a job that exited with another code.
pub open spec fn exit_line(tasknum: nat, code: int, cmd: Seq<char>) -> Seq<char> {
    log_tag(tasknum) + "exit "@ + signed_decimal(code) + "\t"@ + cmd + "\n"@
}

/// Log line for a job that a signal ended.
pub open spec fn signal_line(tasknum: nat, signal: int, cmd: Seq<char>) -> Seq<char> {
    log_tag(tasknum) + "signal "@ + signed_decimal(signal) + "\t"@ + cmd + "\n"@
}

/// Warning about a process that could not be waited for.
pub open spec fn wait_error_line(pid: nat, error: Seq<char>) -> Seq<char> {
    "wait error pid "@ + decimal(pid) + ": "@ + error + "\n"@
}

/// The line that a dry run prints for a task: its number in square brackets,
/// a tab and the command.
pub open spec fn dry_run_line(tasknum: nat, cmd: Seq<char>) -> Seq<char> {
    "["@ + decimal(tasknum) + "]\t"@ + cmd + "\n"@
}

/// The line above a job's output that says whose output it is.
pub open spec fn banner_line(tasknum: nat, cmd: Seq<char>) -> Seq<char> {
    "-------- "@ + PROG@ + "["@ + decimal(tasknum) + "]: "@ + cmd + " --------\n"@
}

/// The line below a job's output.
pub open spec fn closing_line() -> Seq<char> {
    "--------\n"@
}

/// The block written for what a job left on one stream: nothing when the job
/// wrote nothing there; else its bytes, between a banner and a closing line
/// when `sep` asks for them.
pub open spec fn output_block(buf: Seq<u8>, tasknum: nat, cmd: Seq<char>, sep: bool) -> Option<
    Seq<u8>,
> {
    if buf.len() == 0 {
        None
    } else if sep {
        Some(encode_utf8(banner_line(tasknum, cmd)) + buf + encode_utf8(closing_line()))
    } else {
        Some(buf)
    }
}

/// The log line for an outcome. Only the warning about a failed wait is
/// written whether or not the run is verbose.
pub open spec fn outcome_line(
    outcome: CompletionOutcome,
    tasknum: nat,
    cmd: Seq<char>,
    verbose: bool,
) -> Option<Seq<char>> {
    match outcome {
        CompletionOutcome::Success => if verbose {
            Some(done_line(tasknum, cmd))
        } else {
            None
        },
        CompletionOutcome::NonZeroExit(code) => if verbose {
            Some(exit_line(tasknum, code as int, cmd))
        } else {
            None
        },
        CompletionOutcome::Signaled(signal) => if verbose {
            Some(signal_line(tasknum, signal as int, cmd))
        } else {
            None
        },
        CompletionOutcome::WaitFailed { pid, error } => Some(wait_error_line(pid as nat, error@)),
    }
}

/// A block for `stream`, if there is one.
pub open spec fn on_stream(stream: Stream, block: Option<Seq<u8>>) -> Seq<(Stream, Seq<u8>)> {
    match block {
        Some(bytes) => seq![(stream, bytes)],
        None => Seq::empty(),
    }
}

/// A line of the log, if there is one, as a block for standard error.
pub open spec fn logged(line: Option<Seq<char>>) -> Seq<(Stream, Seq<u8>)> {
    match line {
        Some(text) => seq![(Stream::Stderr, encode_utf8(text))],
        None => Seq::empty(),
    }
}

/// All that is written when a job has ended, in order: what it left on
/// standard error, with banners in a verbose run; what it left on standard
/// output, never with banners; the log line for its outcome.
pub open spec fn job_outputs(job: Job, verbose: bool) -> Seq<(Stream, Seq<u8>)> {
    on_stream(
        Stream::Stderr,
        output_block(job.stderr@, job.tasknum as nat, job.quotedcmd@, verbose),
    ) + on_stream(
        Stream::Stdout,
        output_block(job.stdout@, job.tasknum as nat, job.quotedcmd@, false),
    ) + logged(outcome_line(job.outcome, job.tasknum as nat, job.quotedcmd@, verbose))
}

/// What a job wrote reaches each stream whole and unchanged, in one block:
/// a block holds the job's bytes in one piece, and nothing but a banner
/// before and a closing line behind them.
pub proof fn output_block_holds_bytes_whole(buf: Seq<u8>, tasknum: nat, cmd: Seq<char>, sep: bool)
    ensures
        output_block(buf, tasknum, cmd, sep) is Some <==> buf.len() > 0,
        output_block(buf, tasknum, cmd, sep) matches Some(block) ==> exists|
            before: Seq<u8>,
            after: Seq<u8>,
        |
            #![trigger before + buf + after]
            block == before + buf + after && (!sep ==> before.len() == 0 && after.len() == 0),
{
    if buf.len() > 0 && !sep {
        let none = Seq::<u8>::empty();
        assert(buf =~= none + buf + none);
    }
}

/// Of what is written for a job, at most one block goes to standard output,
/// and it holds exactly what the job wrote there. What the job left on
/// standard error is written before it, and the log line after it.
pub proof fn job_outputs_are_ordered(job: Job, verbose: bool)
    ensures
        job_outputs(job, verbose).len() <= 3,
        forall|i: int|
            0 <= i < job_outputs(job, verbose).len() && (#[trigger] job_outputs(job, verbose)[i]).0
                == Stream::Stdout ==> {
                &&& job_outputs(job, verbose)[i].1 == job.stdout@
                &&& forall|j: int|
                    0 <= j < job_outputs(job, verbose).len() && j != i ==> (#[trigger] job_outputs(
                        job,
                        verbose,
                    )[j]).0 == Stream::Stderr
                &&& i + logged(
                    outcome_line(job.outcome, job.tasknum as nat, job.quotedcmd@, verbose),
                ).len() + 1 == job_outputs(job, verbose).len()
            },
{
}

fn push_tag(acc: &mut String, tasknum: usize)
    ensures
        final(acc)@ == old(acc)@ + log_tag(tasknum as nat),
{
    acc.append(PROG);
    acc.append("[");
    push_decimal(acc, tasknum as u64);
    acc.append("]: ");
}

/// The log line for a command that was started.
pub fn start_message(tasknum: usize, quotedcmd: &str) -> (line: String)
    ensures
        line@ == start_line(tasknum as nat, quotedcmd@),
{
    let mut acc = String::new();
    push_tag(&mut acc, tasknum);
    acc.append("start\t");
    acc.append(quotedcmd);
    acc.append("\n");
    acc
}

/// The log line for a command that could not be started.
pub fn spawn_error_message(tasknum: usize, quotedcmd: &str, error: &str) -> (line: String)
    ensures
        line@ == spawn_error_line(tasknum as nat, quotedcmd@, error@),
{
    let mut acc = String::new();
    push_tag(&mut acc, tasknum);
    acc.append("error\t");
    acc.append(quotedcmd);
    acc.append(": ");
    acc.append(error);
    acc.append("\n");
    acc
}

/// The log line for an outcome, if it gets one.
pub fn outcome_message(
    outcome: &CompletionOutcome,
    tasknum: usize,
    quotedcmd: &str,
    verbose: bool,
) -> (line: Option<String>)
    ensures
        match line {
            Some(text) => outcome_line(*outcome, tasknum as nat, quotedcmd@, verbose) == Some(
                text@,
            ),
            None => outcome_line(*outcome, tasknum as nat, quotedcmd@, verbose) is None,
        },
{
    let mut acc = String::new();
    match outcome {
        CompletionOutcome::Success => {
            if !verbose {
                return None;
            }
            push_tag(&mut acc, tasknum);
            acc.append("done\t");
            acc.append(quotedcmd);
            acc.append("\n");
        },
        CompletionOutcome::NonZeroExit(code) => {
            if !verbose {
                return None;
            }
            push_tag(&mut acc, tasknum);
            acc.append("exit ");
            push_signed(&mut acc, *code);
            acc.append("\t");
            acc.append(quotedcmd);
            acc.append("\n");
        },
        CompletionOutcome::Signaled(signal) => {
            if !verbose {
                return None;
            }
            push_tag(&mut acc, tasknum);
            acc.append("signal ");
            push_signed(&mut acc, *signal);
            acc.append("\t");
            acc.append(quotedcmd);
            acc.append("\n");
        },
        CompletionOutcome::WaitFailed { pid, error } => {
            acc.append("wait error pid ");
            push_decimal(&mut acc, *pid as u64);
            acc.append(": ");
            acc.append(error.as_str());
            acc.append("\n");
        },
    }
    Some(acc)
}

/// The line that a dry run prints for a task.
pub fn dryrun(tasknum: usize, quotedcmd: &str) -> (line: String)
    ensures
        line@ == dry_run_line(tasknum as nat, quotedcmd@),
{
    let mut acc = String::new();
    acc.append("[");
    push_decimal(&mut acc, tasknum as u64);
    acc.append("]\t");
    acc.append(quotedcmd);
    acc.append("\n");
    acc
}

fn banner(tasknum: usize, quotedcmd: &str) -> (line: String)
    ensures
        line@ == banner_line(tasknum as nat, quotedcmd@),
{
    let mut acc = String::new();
    acc.append("-------- ");
    acc.append(PROG);
    acc.append("[");
    push_decimal(&mut acc, tasknum as u64);
    acc.append("]: ");
    acc.append(quotedcmd);
    acc.append(" --------\n");
    acc
}

/// Appends the bytes of `src` to `acc`.
pub(crate) fn push_bytes(acc: &mut Vec<u8>, src: &[u8])
    ensures
        final(acc)@ == old(acc)@ + src@,
{
    let mut i: usize = 0;
    while i < src.len()
        invariant
            i <= src.len(),
            acc@ == old(acc)@ + src@.take(i as int),
        decreases src.len() - i,
    {
        acc.push(src[i]);
        i += 1;
    }
}

/// One line of text as a block for `stream`.
pub(crate) fn text_output(stream: Stream, line: &str) -> (out: Output)
    ensures
        out@ == (stream, encode_utf8(line@)),
{
    Output { stream, data: line.as_bytes_vec() }
}

/// The block to write for what a job left on one stream, if it left anything.
/// With `sep` the bytes stand between a banner that names the task and its
/// command, and a closing line.
pub fn show_output(buf: &[u8], tasknum: usize, quotedcmd: &str, sep: bool) -> (block: Option<
    Vec<u8>,
>)
    ensures
        match block {
            Some(bytes) => output_block(buf@, tasknum as nat, quotedcmd@, sep) == Some(bytes@),
            None => output_block(buf@, tasknum as nat, quotedcmd@, sep) is None,
        },
{
    if buf.len() == 0 {
        return None;
    }
    let mut block: Vec<u8> = Vec::new();
    if sep {
        let head = banner(tasknum, quotedcmd);
        push_bytes(&mut block, head.as_str().as_bytes());
        push_bytes(&mut block, buf);
        push_bytes(&mut block, "--------\n".as_bytes());
    } else {
        push_bytes(&mut block, buf);
    }
    Some(block)
}

/// Deals with a job that has ended: hands back what is to be written, and
/// takes the outcome into the tally of failures.
pub fn done_job(opts: &RunConfig, job: &Job, errs: &mut usize, failedexit: &mut i32) -> (outputs:
    Vec<Output>)
    requires
        *old(errs) < usize::MAX,
        job.outcome.valid(),
    ensures
        emitted(outputs@) == job_outputs(*job, opts.verbose),
        *final(errs) == errors_after(*old(errs) as nat, job.outcome),
        *final(failedexit) == last_failed_after(*old(failedexit) as int, job.outcome),
{
    let mut outputs: Vec<Output> = Vec::new();
    let cmd = job.quotedcmd.as_str();
    match show_output(job.stderr.as_slice(), job.tasknum, cmd, opts.verbose) {
        Some(data) => {
            outputs.push(Output { stream: Stream::Stderr, data });
        },
        None => {},
    }
    match show_output(job.stdout.as_slice(), job.tasknum, cmd, false) {
        Some(data) => {
            outputs.push(Output { stream: Stream::Stdout, data });
        },
        None => {},
    }
    match outcome_message(&job.outcome, job.tasknum, cmd, opts.verbose) {
        Some(line) => {
            outputs.push(text_output(Stream::Stderr, line.as_str()));
        },
        None => {},
    }
    let mut tally = AggregateState { errors: *errs, last_failed: *failedexit };
    tally.record(&job.outcome);
    *errs = tally.errors;
    *failedexit = tally.last_failed;
    outputs
}

} // verus!
