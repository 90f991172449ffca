//! The dispatcher as a state machine: which event it waits for, and what
//! each event does to the number of running jobs and to the tally of
//! failures. Nothing here runs a process; the laws of the dispatcher are
//! stated and proved on this model.

use crate::status::{errors_after, last_failed_after, CompletionOutcome};
use vstd::prelude::*;

verus! {

/// What the dispatcher is waiting for.
#[derive(Clone, Copy, Debug, PartialEq, Eq, Structural)]
pub enum Phase {
    /// The next task, or word that there is none.
    Pulling,
    /// Word on whether the command for the task just taken could be started.
    Launching,
    /// One job to end: every slot is taken.
    Waiting,
    /// The jobs still running to end: no further task will be taken.
    Draining,
    /// Nothing: the run is over.
    Done,
}

/// What can happen to a dispatcher.
pub enum Event {
    /// The task source hands over a task.
    Task,
    /// The task source has no further task.
    EndOfTasks,
    /// The command was started.
    Spawned,
    /// The command could not be started.
    SpawnFailed,
    /// A running job ended, in this way.
    Completed(CompletionOutcome),
}

/// The state of a dispatcher.
pub struct Machine {
    /// Number of job slots.
    pub slots: nat,
    /// Whether the run goes on after a failure.
    pub keep_going: bool,
    /// Whether commands are printed instead of run.
    pub dry_run: bool,
    /// Number of tasks taken from the source so far. The next task taken
    /// gets this number.
    pub taken: nat,
    /// Number of jobs running now.
    pub running: nat,
    /// Number of failures so far.
    pub errors: nat,
    /// Status of the failure seen last.
    pub last_failed: int,
    /// What the dispatcher is waiting for.
    pub phase: Phase,
}

impl Machine {
    /// The state before the first task.
    pub open spec fn initial(slots: nat, keep_going: bool, dry_run: bool) -> Machine {
        Machine {
            slots,
            keep_going,
            dry_run,
            taken: 0,
            running: 0,
            errors: 0,
            last_failed: 255,
            phase: Phase::Pulling,
        }
    }

    /// What holds of every state that a run can reach.
    pub open spec fn wf(self) -> bool {
        &&& self.slots >= 1
        &&& self.running <= self.slots
        &&& self.errors + self.running + (if self.phase == Phase::Launching {
            1nat
        } else {
            0nat
        }) <= self.taken
        &&& match self.phase {
            Phase::Pulling => self.running < self.slots,
            Phase::Launching => self.running < self.slots && !self.dry_run,
            Phase::Waiting => self.running == self.slots,
            Phase::Draining => self.running >= 1,
            Phase::Done => self.running == 0,
        }
        &&& !self.keep_going && self.errors > 0 ==> self.phase == Phase::Draining || self.phase
            == Phase::Done
    }

    /// Whether the dispatcher still takes tasks.
    pub open spec fn dispatching(self) -> bool {
        self.phase == Phase::Pulling || self.phase == Phase::Launching || self.phase
            == Phase::Waiting
    }

    /// No further task is taken: the jobs still running are waited for, and
    /// with none running the run is over.
    pub open spec fn drained(self) -> Machine {
        Machine {
            phase: if self.running == 0 {
                Phase::Done
            } else {
                Phase::Draining
            },
            ..self
        }
    }

    /// The decision once a task has been dealt with: after a failure in a
    /// run that does not keep going no further task is taken; else the next
    /// task is.
    pub open spec fn settled(self) -> Machine {
        if !self.keep_going && self.errors > 0 {
            self.drained()
        } else {
            Machine { phase: Phase::Pulling, ..self }
        }
    }

    /// The tally takes in the outcome of a job that has ended, and the job's
    /// slot is free again.
    pub open spec fn collected(self, outcome: CompletionOutcome) -> Machine {
        Machine {
            running: (self.running - 1) as nat,
            errors: errors_after(self.errors, outcome),
            last_failed: last_failed_after(self.last_failed, outcome),
            ..self
        }
    }

    /// Whether the dispatcher is waiting for this event.
    pub open spec fn accepts(self, event: Event) -> bool {
        match event {
            Event::Task | Event::EndOfTasks => self.phase == Phase::Pulling,
            Event::Spawned | Event::SpawnFailed => self.phase == Phase::Launching,
            Event::Completed(_) => self.phase == Phase::Waiting || self.phase == Phase::Draining,
        }
    }

    /// The state after an event. An event that the dispatcher is not waiting
    /// for changes nothing.
    pub open spec fn next(self, event: Event) -> Machine {
        if !self.accepts(event) {
            self
        } else {
            match event {
                Event::Task => {
                    let took = Machine { taken: self.taken + 1, ..self };
                    if self.dry_run {
                        took.settled()
                    } else {
                        Machine { phase: Phase::Launching, ..took }
                    }
                },
                Event::EndOfTasks => self.drained(),
                Event::Spawned => {
                    let started = Machine { running: self.running + 1, ..self };
                    if started.running >= self.slots {
                        Machine { phase: Phase::Waiting, ..started }
                    } else {
                        started.settled()
                    }
                },
                Event::SpawnFailed => Machine { errors: self.errors + 1, ..self }.settled(),
                Event::Completed(outcome) => if self.phase == Phase::Waiting {
                    self.collected(outcome).settled()
                } else {
                    self.collected(outcome).drained()
                },
            }
        }
    }

    /// The state after a sequence of events.
    pub open spec fn run(self, events: Seq<Event>) -> Machine
        decreases events.len(),
    {
        if events.len() == 0 {
            self
        } else {
            self.run(events.drop_last()).next(events.last())
        }
    }

    /// Number of failures that a sequence of events adds to the tally: the
    /// commands that could not be started and the jobs that did not end well,
    /// as far as the dispatcher was waiting for them.
    pub open spec fn failures(self, events: Seq<Event>) -> nat
        decreases events.len(),
    {
        if events.len() == 0 {
            0
        } else {
            let before = self.run(events.drop_last());
            let counted: nat = if !before.accepts(events.last()) {
                0
            } else {
                match events.last() {
                    Event::SpawnFailed => 1,
                    Event::Completed(outcome) => if outcome.failed() {
                        1
                    } else {
                        0
                    },
                    _ => 0,
                }
            };
            self.failures(events.drop_last()) + counted
        }
    }

    /// Number of tasks that a sequence of events hands to the dispatcher
    /// while it is waiting for one.
    pub open spec fn tasks_offered(self, events: Seq<Event>) -> nat
        decreases events.len(),
    {
        if events.len() == 0 {
            0
        } else {
            let before = self.run(events.drop_last());
            let counted: nat = if events.last() is Task && before.phase == Phase::Pulling {
                1
            } else {
                0
            };
            self.tasks_offered(events.drop_last()) + counted
        }
    }
}

/// A run starts in a state where every slot is free.
pub proof fn initial_state_is_well_formed(slots: nat, keep_going: bool, dry_run: bool)
    requires
        slots >= 1,
    ensures
        Machine::initial(slots, keep_going, dry_run).wf(),
{
}

/// No event takes the dispatcher out of the states that a run can reach, and
/// none changes the settings of the run.
pub proof fn step_preserves_well_formedness(m: Machine, event: Event)
    requires
        m.wf(),
    ensures
        m.next(event).wf(),
        m.next(event).slots == m.slots,
        m.next(event).keep_going == m.keep_going,
        m.next(event).dry_run == m.dry_run,
{
}

/// Whatever happens, in whatever order, the dispatcher stays in the states
/// that a run can reach.
pub proof fn run_preserves_well_formedness(m: Machine, events: Seq<Event>)
    requires
        m.wf(),
    ensures
        m.run(events).wf(),
        m.run(events).slots == m.slots,
        m.run(events).keep_going == m.keep_going,
        m.run(events).dry_run == m.dry_run,
    decreases events.len(),
{
    if events.len() > 0 {
        run_preserves_well_formedness(m, events.drop_last());
    }
}

/// With any number of slots from one up, any number of tasks and any order of
/// events, the number of running jobs never exceeds the number of slots; and
/// a command is only ever started while a slot is free.
pub proof fn running_jobs_never_exceed_slots(
    slots: nat,
    keep_going: bool,
    dry_run: bool,
    events: Seq<Event>,
)
    requires
        slots >= 1,
    ensures
        Machine::initial(slots, keep_going, dry_run).run(events).running <= slots,
        Machine::initial(slots, keep_going, dry_run).run(events).phase == Phase::Launching
            ==> Machine::initial(slots, keep_going, dry_run).run(events).running < slots,
{
    run_preserves_well_formedness(Machine::initial(slots, keep_going, dry_run), events);
}

/// In a run that does not keep going, once there is a failure the dispatcher
/// neither takes a task nor starts a command, but still waits for each job
/// that is running; it is done exactly when none is.
pub proof fn failure_stops_dispatch(m: Machine)
    requires
        m.wf(),
        !m.keep_going,
        m.errors > 0,
    ensures
        !m.dispatching(),
        !m.accepts(Event::Task),
        !m.accepts(Event::Spawned),
        m.phase == Phase::Done <==> m.running == 0,
        m.running > 0 ==> forall|outcome: CompletionOutcome|
            #[trigger] m.accepts(Event::Completed(outcome)),
{
}

/// Once the dispatcher has stopped taking tasks it never takes one again:
/// whatever happens later, the number of tasks taken stays, no job is added
/// to those running, and the failures counted are never forgotten.
pub proof fn stopped_dispatch_stays_stopped(m: Machine, later: Seq<Event>)
    requires
        m.wf(),
        !m.dispatching(),
    ensures
        !m.run(later).dispatching(),
        m.run(later).taken == m.taken,
        m.run(later).running <= m.running,
        m.run(later).errors >= m.errors,
    decreases later.len(),
{
    if later.len() > 0 {
        stopped_dispatch_stays_stopped(m, later.drop_last());
        run_preserves_well_formedness(m, later.drop_last());
    }
}

/// In a run that does not keep going, no task is taken and no command is
/// started after the first failure: from the moment the tally holds a failure,
/// the number of tasks taken never changes again, whatever the events. The
/// jobs already running are still waited for.
pub proof fn no_task_is_taken_after_a_failure(
    slots: nat,
    dry_run: bool,
    before: Seq<Event>,
    later: Seq<Event>,
)
    requires
        slots >= 1,
        Machine::initial(slots, false, dry_run).run(before).errors > 0,
    ensures
        Machine::initial(slots, false, dry_run).run(before).run(later).taken == Machine::initial(
            slots,
            false,
            dry_run,
        ).run(before).taken,
        !Machine::initial(slots, false, dry_run).run(before).run(later).dispatching(),
{
    let m = Machine::initial(slots, false, dry_run).run(before);
    run_preserves_well_formedness(Machine::initial(slots, false, dry_run), before);
    stopped_dispatch_stays_stopped(m, later);
}

/// In a run that keeps going, only the end of the task source stops the
/// dispatcher from taking tasks: no failure does.
pub proof fn keep_going_step_keeps_dispatching(m: Machine, event: Event)
    requires
        m.wf(),
        m.keep_going,
        m.dispatching(),
        !(event is EndOfTasks),
    ensures
        m.next(event).dispatching(),
        event is Task && m.phase == Phase::Pulling ==> m.next(event).taken == m.taken + 1,
{
}

/// In a run that keeps going, every task that the source hands over while
/// the dispatcher waits for one is taken, whatever failed before; and as long
/// as the source has not ended, the dispatcher goes on taking tasks.
pub proof fn keep_going_takes_every_task(slots: nat, dry_run: bool, events: Seq<Event>)
    requires
        slots >= 1,
        forall|i: int| 0 <= i < events.len() ==> !(#[trigger] events[i] is EndOfTasks),
    ensures
        Machine::initial(slots, true, dry_run).run(events).dispatching(),
        Machine::initial(slots, true, dry_run).run(events).taken == Machine::initial(
            slots,
            true,
            dry_run,
        ).tasks_offered(events),
    decreases events.len(),
{
    let m = Machine::initial(slots, true, dry_run);
    if events.len() > 0 {
        let head = events.drop_last();
        assert forall|i: int| 0 <= i < head.len() implies !(#[trigger] head[i] is EndOfTasks) by {
            assert(head[i] == events[i]);
        }
        keep_going_takes_every_task(slots, dry_run, head);
        run_preserves_well_formedness(m, head);
    }
}

/// The tally holds exactly the failures that happened: one for each command
/// that could not be started and one for each job that did not end well.
pub proof fn errors_count_the_failures(m: Machine, events: Seq<Event>)
    requires
        m.wf(),
    ensures
        m.run(events).errors == m.errors + m.failures(events),
    decreases events.len(),
{
    if events.len() > 0 {
        errors_count_the_failures(m, events.drop_last());
    }
}

/// Without any task nothing runs and nothing fails: when the source ends at
/// once, the run is over with a clean tally.
pub proof fn empty_run_is_clean(slots: nat, keep_going: bool, dry_run: bool)
    requires
        slots >= 1,
    ensures
        Machine::initial(slots, keep_going, dry_run).next(Event::EndOfTasks).phase == Phase::Done,
        Machine::initial(slots, keep_going, dry_run).next(Event::EndOfTasks).errors == 0,
        Machine::initial(slots, keep_going, dry_run).next(Event::EndOfTasks).taken == 0,
{
}

} // verus!
