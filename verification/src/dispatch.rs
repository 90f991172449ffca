//! The dispatcher: it takes tasks one by one, asks for the command of each
//! to be started, and keeps the number of running jobs within the slots.
//!
//! The dispatcher starts no process and reads no input itself. Each of its
//! steps takes what has just happened and hands back what is to be written
//! and what it asks for next; whoever drives it does the work in between.

use crate::config::{ConfigError, RunConfig};
use crate::job::{
    done_job, dry_run_line, dryrun, emitted, job_outputs, spawn_error_line, spawn_error_message,
    start_line, start_message, text_output, Job, Output, Stream,
};
use crate::machine::{Event, Machine, Phase};
use crate::quote::{quote_cmd, quoted_cmd};
use crate::status::{final_status, final_status_of, AggregateState, CompletionOutcome};
use crate::subst::{argv_of, build_argv};
use crate::text::texts;
use vstd::prelude::*;
use vstd::string::*;
use vstd::utf8::encode_utf8;

verus! {

/// What the dispatcher asks its driver to do next.
#[derive(Clone, Debug, PartialEq, Eq)]
pub enum Request {
    /// Hand over the next task, or say that there is none.
    NextTask,
    /// Start this command, with its standard input closed and its two
    /// output streams captured, and say whether it started.
    Spawn {
        /// Number of the task.
        tasknum: usize,
        /// What to execute: the program, then its arguments.
        argv: Vec<String>,
        /// The command as shown in the log.
        quotedcmd: String,
    },
    /// Wait until one of the running jobs has ended, and hand it over.
    AwaitJob,
    /// End the run with this status.
    Exit {
        /// The exit status of the run.
        status: i32,
    },
}

/// What one step of the dispatcher hands back.
#[derive(Clone, Debug, PartialEq, Eq)]
pub struct Step {
    /// What is to be written, in this order, each block with one call.
    pub outputs: Vec<Output>,
    /// What the dispatcher asks for next.
    pub request: Request,
}

/// The numbers of a run that change from step to step.
#[derive(Clone, Copy)]
struct Counters {
    taken: usize,
    running: usize,
    errors: usize,
    last_failed: i32,
    phase: Phase,
}

/// Takes tasks and keeps the books of a run.
pub struct Dispatcher {
    opts: RunConfig,
    cmd: String,
    cmdargs: Vec<String>,
    pending: String,
    counters: Counters,
}

impl Counters {
    spec fn model(self, opts: RunConfig) -> Machine {
        Machine {
            slots: opts.maxjobs as nat,
            keep_going: opts.keepgoing,
            dry_run: opts.dryrun,
            taken: self.taken as nat,
            running: self.running as nat,
            errors: self.errors as nat,
            last_failed: self.last_failed as int,
            phase: self.phase,
        }
    }

    fn drained(self, opts: &RunConfig) -> (r: Counters)
        ensures
            r.model(*opts) == self.model(*opts).drained(),
    {
        let phase = if self.running == 0 {
            Phase::Done
        } else {
            Phase::Draining
        };
        Counters { phase, ..self }
    }

    fn settled(self, opts: &RunConfig) -> (r: Counters)
        ensures
            r.model(*opts) == self.model(*opts).settled(),
    {
        if !opts.keepgoing && self.errors > 0 {
            self.drained(opts)
        } else {
            Counters { phase: Phase::Pulling, ..self }
        }
    }
}

impl View for Dispatcher {
    type V = Machine;

    closed spec fn view(&self) -> Machine {
        self.counters.model(self.opts)
    }
}

impl Dispatcher {
    #[verifier::type_invariant]
    spec fn well_formed(&self) -> bool {
        self.counters.model(self.opts).wf()
    }

    /// The settings of the run.
    pub closed spec fn options(&self) -> RunConfig {
        self.opts
    }

    /// The command that every task is run with.
    pub closed spec fn command(&self) -> Seq<char> {
        self.cmd@
    }

    /// The arguments of the command, tokens not yet replaced.
    pub closed spec fn arguments(&self) -> Seq<Seq<char>> {
        texts(self.cmdargs@)
    }

    /// The command, as shown in the log, whose start is being waited for.
    pub closed spec fn pending_cmd(&self) -> Seq<char> {
        self.pending@
    }

    /// Whether the state agrees with the settings: the slots, and whether the
    /// run keeps going and whether it is a dry run, are those of the settings.
    pub open spec fn coherent(&self) -> bool {
        &&& self@.slots == self.options().maxjobs
        &&& self@.keep_going == self.options().keepgoing
        &&& self@.dry_run == self.options().dryrun
    }

    /// Whether two dispatchers carry out the same run: the same settings,
    /// the same command with the same arguments.
    pub open spec fn same_setup(&self, other: &Dispatcher) -> bool {
        &&& self.options() == other.options()
        &&& self.command() == other.command()
        &&& self.arguments() == other.arguments()
    }

    /// The argument vector for the task that is taken next.
    pub open spec fn task_argv(&self, task: Seq<char>) -> Seq<Seq<char>> {
        argv_of(self.options().shell_text(), self.command(), self.arguments(), self@.taken, task)
    }

    /// What taking a task writes: in a dry run the task's number and its
    /// command on standard output; else nothing.
    pub open spec fn task_outputs(&self, task: Seq<char>) -> Seq<(Stream, Seq<u8>)> {
        if self@.dry_run {
            seq![
                (
                    Stream::Stdout,
                    encode_utf8(dry_run_line(self@.taken, quoted_cmd(self.task_argv(task)))),
                ),
            ]
        } else {
            Seq::empty()
        }
    }

    /// What the word on a command's start writes to the log: its start, in a
    /// verbose run; or that it could not be started, in any run.
    pub open spec fn spawn_outputs(&self, result: Result<(), String>) -> Seq<(Stream, Seq<u8>)> {
        let tasknum = (self@.taken - 1) as nat;
        match result {
            Ok(_) => if self.options().verbose {
                seq![(Stream::Stderr, encode_utf8(start_line(tasknum, self.pending_cmd())))]
            } else {
                Seq::empty()
            },
            Err(error) => seq![
                (
                    Stream::Stderr,
                    encode_utf8(spawn_error_line(tasknum, self.pending_cmd(), error@)),
                ),
            ],
        }
    }

    /// Whether `request` is what a dispatcher in this state asks for: the
    /// next task while it takes tasks, the start of the pending command after
    /// it took one, a job's end while it waits for one, and the end of the
    /// run, with the status that the tally amounts to, when it is done.
    pub open spec fn asks(&self, request: Request) -> bool {
        match request {
            Request::NextTask => self@.phase == Phase::Pulling,
            Request::Spawn { tasknum, argv, quotedcmd } => {
                &&& self@.phase == Phase::Launching
                &&& tasknum + 1 == self@.taken
                &&& quotedcmd@ == self.pending_cmd()
                &&& quotedcmd@ == quoted_cmd(texts(argv@))
            },
            Request::AwaitJob => self@.phase == Phase::Waiting || self@.phase == Phase::Draining,
            Request::Exit { status } => {
                &&& self@.phase == Phase::Done
                &&& status == final_status_of(self@.keep_going, self@.errors, self@.last_failed)
            },
        }
    }

    /// A dispatcher for a run with these settings, before the first task. A
    /// run needs at least one job slot.
    pub fn new(opts: RunConfig, cmd: String, cmdargs: Vec<String>) -> (r: Result<
        Dispatcher,
        ConfigError,
    >)
        ensures
            match r {
                Ok(d) => {
                    &&& opts.maxjobs >= 1
                    &&& d@ == Machine::initial(opts.maxjobs as nat, opts.keepgoing, opts.dryrun)
                    &&& d@.wf()
                    &&& d.coherent()
                    &&& d.pending_cmd() == Seq::<char>::empty()
                    &&& d.options() == opts
                    &&& d.command() == cmd@
                    &&& d.arguments() == texts(cmdargs@)
                    &&& d.asks(Request::NextTask)
                },
                Err(e) => opts.maxjobs < 1 && e == ConfigError::InvalidJobs,
            },
    {
        if opts.maxjobs < 1 {
            return Err(ConfigError::InvalidJobs);
        }
        let counters = Counters {
            taken: 0,
            running: 0,
            errors: 0,
            last_failed: 255,
            phase: Phase::Pulling,
        };
        Ok(Dispatcher { opts, cmd, cmdargs, pending: String::new(), counters })
    }

    /// What the dispatcher is waiting for.
    pub fn phase(&self) -> (phase: Phase)
        ensures
            phase == self@.phase,
    {
        self.counters.phase
    }

    /// Number of job slots.
    pub fn slots(&self) -> (n: usize)
        ensures
            n == self@.slots,
            n >= 1,
    {
        proof {
            use_type_invariant(self);
        }
        self.opts.maxjobs
    }

    /// Number of jobs running now; never more than there are slots.
    pub fn running(&self) -> (n: usize)
        ensures
            n == self@.running,
            n <= self@.slots,
    {
        proof {
            use_type_invariant(self);
        }
        self.counters.running
    }

    /// Number of tasks taken so far.
    pub fn tasks_taken(&self) -> (n: usize)
        ensures
            n == self@.taken,
    {
        self.counters.taken
    }

    /// The tally of failures so far.
    pub fn aggregate(&self) -> (tally: AggregateState)
        ensures
            tally.errors == self@.errors,
            tally.last_failed == self@.last_failed,
    {
        AggregateState { errors: self.counters.errors, last_failed: self.counters.last_failed }
    }

    /// What the dispatcher asks for in its state, the start of a command
    /// aside, which is asked for with the command.
    fn request(&self) -> (request: Request)
        requires
            self@.phase != Phase::Launching,
        ensures
            self.asks(request),
    {
        match self.counters.phase {
            Phase::Pulling | Phase::Launching => Request::NextTask,
            Phase::Waiting | Phase::Draining => Request::AwaitJob,
            Phase::Done => Request::Exit {
                status: final_status(self.opts.keepgoing, &self.aggregate()),
            },
        }
    }

    /// The task source answers: here is the next task, or there is none.
    ///
    /// The dispatcher takes the answer while it waits for one, and as long as
    /// the number of tasks taken fits the machine's integers; else it hands
    /// back nothing and stays as it is. With a task, it builds the command;
    /// in a dry run it has the command printed and goes on, else it asks for
    /// the command to be started. Without a task, it waits for the jobs still
    /// running, and ends the run when there are none.
    pub fn on_task(&mut self, task: Option<&String>) -> (r: Option<Step>)
        ensures
            final(self).same_setup(old(self)),
            final(self).coherent(),
            final(self)@.wf(),
            match r {
                Some(step) => {
                    &&& old(self)@.phase == Phase::Pulling
                    &&& final(self).asks(step.request)
                    &&& step.request is Spawn || final(self).pending_cmd() == old(self).pending_cmd()
                    &&& match task {
                        Some(t) => {
                            &&& old(self)@.taken < usize::MAX
                            &&& final(self)@ == old(self)@.next(Event::Task)
                            &&& emitted(step.outputs@) == old(self).task_outputs(t@)
                            &&& step.request matches Request::Spawn { argv, .. } ==> texts(argv@)
                                == old(self).task_argv(t@)
                        },
                        None => {
                            &&& final(self)@ == old(self)@.next(Event::EndOfTasks)
                            &&& emitted(step.outputs@) == Seq::<(Stream, Seq<u8>)>::empty()
                        },
                    }
                },
                None => {
                    &&& !(old(self)@.phase == Phase::Pulling && (task is Some ==> old(self)@.taken
                        < usize::MAX))
                    &&& final(self)@ == old(self)@
                    &&& final(self).pending_cmd() == old(self).pending_cmd()
                },
            },
    {
        proof {
            use_type_invariant(&*self);
        }
        match self.counters.phase {
            Phase::Pulling => {},
            _ => {
                return None;
            },
        }
        let task = match task {
            Some(t) => t,
            None => {
                let after = self.counters.drained(&self.opts);
                self.counters = after;
                let outputs: Vec<Output> = Vec::new();
                return Some(Step { outputs, request: self.request() });
            },
        };
        if self.counters.taken == usize::MAX {
            return None;
        }
        let tasknum = self.counters.taken;
        let argv = build_argv(&self.opts, &self.cmd, self.cmdargs.as_slice(), tasknum, task);
        let quotedcmd = quote_cmd(&argv);
        let took = Counters { taken: tasknum + 1, ..self.counters };
        let mut outputs: Vec<Output> = Vec::new();
        if self.opts.dryrun {
            let line = dryrun(tasknum, quotedcmd.as_str());
            outputs.push(text_output(Stream::Stdout, line.as_str()));
            let after = took.settled(&self.opts);
            self.counters = after;
            Some(Step { outputs, request: self.request() })
        } else {
            self.pending = quotedcmd.clone();
            self.counters = Counters { phase: Phase::Launching, ..took };
            Some(Step { outputs, request: Request::Spawn { tasknum, argv, quotedcmd } })
        }
    }

    /// The driver answers: the command was started, or it could not be, and
    /// why.
    ///
    /// The dispatcher takes the answer while it waits for one; else it hands
    /// back nothing and stays as it is. A started command takes a slot, and
    /// with the last slot taken the dispatcher waits for a job to end. A
    /// command that could not be started counts as a failure and takes no
    /// slot.
    pub fn on_spawn(&mut self, result: Result<(), String>) -> (r: Option<Step>)
        ensures
            final(self).same_setup(old(self)),
            final(self).coherent(),
            final(self)@.wf(),
            match r {
                Some(step) => {
                    &&& old(self)@.phase == Phase::Launching
                    &&& final(self)@ == old(self)@.next(
                        if result is Ok {
                            Event::Spawned
                        } else {
                            Event::SpawnFailed
                        },
                    )
                    &&& emitted(step.outputs@) == old(self).spawn_outputs(result)
                    &&& final(self).asks(step.request)
                    &&& final(self).pending_cmd() == old(self).pending_cmd()
                },
                None => {
                    &&& old(self)@.phase != Phase::Launching
                    &&& final(self)@ == old(self)@
                    &&& final(self).pending_cmd() == old(self).pending_cmd()
                },
            },
    {
        proof {
            use_type_invariant(&*self);
        }
        match self.counters.phase {
            Phase::Launching => {},
            _ => {
                return None;
            },
        }
        let tasknum = self.counters.taken - 1;
        let mut outputs: Vec<Output> = Vec::new();
        match &result {
            Ok(_) => {
                if self.opts.verbose {
                    let line = start_message(tasknum, self.pending.as_str());
                    outputs.push(text_output(Stream::Stderr, line.as_str()));
                }
                let started = Counters { running: self.counters.running + 1, ..self.counters };
                let after = if started.running >= self.opts.maxjobs {
                    Counters { phase: Phase::Waiting, ..started }
                } else {
                    started.settled(&self.opts)
                };
                self.counters = after;
            },
            Err(error) => {
                let line = spawn_error_message(tasknum, self.pending.as_str(), error.as_str());
                outputs.push(text_output(Stream::Stderr, line.as_str()));
                let failed = Counters { errors: self.counters.errors + 1, ..self.counters };
                let after = failed.settled(&self.opts);
                self.counters = after;
            },
        }
        Some(Step { outputs, request: self.request() })
    }

    /// The driver hands over a job that has ended, with what it wrote.
    ///
    /// The dispatcher takes the job while it waits for one, if the status
    /// that the job leaves behind fits the machine's integers; else it hands
    /// back nothing and stays as it is. It has the job's output written, takes
    /// the outcome into the tally and frees the slot. Then it takes the next
    /// task; or after a failure in a run that does not keep going, and when
    /// the task source has ended, it waits for the jobs still running.
    pub fn on_completion(&mut self, job: &Job) -> (r: Option<Step>)
        ensures
            final(self).same_setup(old(self)),
            final(self).coherent(),
            final(self)@.wf(),
            final(self).pending_cmd() == old(self).pending_cmd(),
            match r {
                Some(step) => {
                    &&& old(self)@.accepts(Event::Completed(job.outcome))
                    &&& job.outcome.valid()
                    &&& final(self)@ == old(self)@.next(Event::Completed(job.outcome))
                    &&& emitted(step.outputs@) == job_outputs(*job, old(self).options().verbose)
                    &&& final(self).asks(step.request)
                },
                None => {
                    &&& !(old(self)@.accepts(Event::Completed(job.outcome)) && job.outcome.valid())
                    &&& final(self)@ == old(self)@
                },
            },
    {
        proof {
            use_type_invariant(&*self);
        }
        let waitall = match self.counters.phase {
            Phase::Waiting => false,
            Phase::Draining => true,
            _ => {
                return None;
            },
        };
        if !outcome_fits(job) {
            return None;
        }
        let mut errs = self.counters.errors;
        let mut failedexit = self.counters.last_failed;
        let outputs = done_job(&self.opts, job, &mut errs, &mut failedexit);
        let collected = Counters {
            running: self.counters.running - 1,
            errors: errs,
            last_failed: failedexit,
            ..self.counters
        };
        let after = if waitall {
            collected.drained(&self.opts)
        } else {
            collected.settled(&self.opts)
        };
        self.counters = after;
        Some(Step { outputs, request: self.request() })
    }
}

/// Whether the status that a job leaves behind fits the machine's integers.
pub fn outcome_fits(job: &Job) -> (r: bool)
    ensures
        r == job.outcome.valid(),
{
    match &job.outcome {
        CompletionOutcome::Signaled(signal) => *signal <= i32::MAX - 128,
        _ => true,
    }
}

} // verus!
