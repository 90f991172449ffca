use ljobs::config::{ConfigError, RunConfig};
use ljobs::dispatch::{outcome_fits, Dispatcher, Request, Step};
use ljobs::job::{Job, Output, Stream};
use ljobs::machine::Phase;
use ljobs::status::{AggregateState, CompletionOutcome};

fn config(maxjobs: usize, keepgoing: bool) -> RunConfig {
    RunConfig { maxjobs, keepgoing, shell: None, verbose: false, dryrun: false }
}

fn echo(config: RunConfig) -> Dispatcher {
    Dispatcher::new(config, "echo".to_string(), vec!["-n".to_string()]).unwrap()
}

fn finished(tasknum: usize, outcome: CompletionOutcome) -> Job {
    Job { tasknum, quotedcmd: format!("echo -n t{}", tasknum), stdout: vec![], stderr: vec![], outcome }
}

fn take(d: &mut Dispatcher, task: &str) -> Step {
    d.on_task(Some(&task.to_string())).unwrap()
}

fn log(line: &str) -> Output {
    Output { stream: Stream::Stderr, data: line.as_bytes().to_vec() }
}

fn spawn_of(step: &Step) -> (usize, Vec<String>, String) {
    match &step.request {
        Request::Spawn { tasknum, argv, quotedcmd } => (*tasknum, argv.clone(), quotedcmd.clone()),
        other => panic!("no spawn asked for: {:?}", other),
    }
}

#[test]
fn a_dispatcher_needs_a_slot() {
    let refused = Dispatcher::new(config(0, false), "echo".to_string(), vec![]);
    assert!(matches!(refused, Err(ConfigError::InvalidJobs)));
    assert!(Dispatcher::new(config(1, false), "echo".to_string(), vec![]).is_ok());
}

#[test]
fn a_new_dispatcher_waits_for_a_task() {
    let d = echo(config(2, false));
    assert_eq!(d.phase(), Phase::Pulling);
    assert_eq!(d.running(), 0);
    assert_eq!(d.slots(), 2);
    assert_eq!(d.tasks_taken(), 0);
    assert_eq!(d.aggregate(), AggregateState { errors: 0, last_failed: 255 });
}

#[test]
fn an_empty_task_list_ends_the_run_cleanly() {
    let mut d = echo(config(4, false));
    let step = d.on_task(None).unwrap();
    assert_eq!(step, Step { outputs: vec![], request: Request::Exit { status: 0 } });
    assert_eq!(d.phase(), Phase::Done);
    assert_eq!(d.aggregate().errors, 0);
    assert_eq!(d.tasks_taken(), 0);
}

#[test]
fn a_task_asks_for_its_command_to_be_started() {
    let mut d = echo(config(2, false));
    let step = take(&mut d, "a b");
    assert_eq!(
        step,
        Step {
            outputs: vec![],
            request: Request::Spawn {
                tasknum: 0,
                argv: vec!["echo".to_string(), "-n".to_string(), "a b".to_string()],
                quotedcmd: "echo -n 'a b'".to_string(),
            },
        }
    );
    assert_eq!(d.phase(), Phase::Launching);
    assert_eq!(d.running(), 0);
    assert_eq!(d.tasks_taken(), 1);
}

#[test]
fn tasks_are_numbered_from_zero_in_order() {
    let mut d = Dispatcher::new(config(3, false), "echo".to_string(), vec!["{#}:{}".to_string()]).unwrap();
    for n in 0..3 {
        let step = take(&mut d, "t");
        let (tasknum, argv, _) = spawn_of(&step);
        assert_eq!(tasknum, n);
        assert_eq!(argv, vec!["echo".to_string(), format!("{}:t", n)]);
        d.on_spawn(Ok(())).unwrap();
    }
}

#[test]
fn scenario_three_tasks_two_slots_all_succeed() {
    let mut d = Dispatcher::new(
        RunConfig { verbose: true, ..config(2, false) },
        "echo".to_string(),
        vec!["-n".to_string()],
    )
    .unwrap();
    let mut done_lines = 0;
    let mut most_running = 0;

    take(&mut d, "t0");
    let started = d.on_spawn(Ok(())).unwrap();
    assert_eq!(started.outputs, vec![log("ljobs[0]: start\techo -n t0\n")]);
    assert_eq!(started.request, Request::NextTask);
    most_running = most_running.max(d.running());

    take(&mut d, "t1");
    let full = d.on_spawn(Ok(())).unwrap();
    assert_eq!(full.outputs, vec![log("ljobs[1]: start\techo -n t1\n")]);
    assert_eq!(full.request, Request::AwaitJob);
    assert_eq!(d.phase(), Phase::Waiting);
    most_running = most_running.max(d.running());

    let one = d.on_completion(&finished(1, CompletionOutcome::Success)).unwrap();
    assert_eq!(one.outputs, vec![log("ljobs[1]: done\techo -n t1\n")]);
    assert_eq!(one.request, Request::NextTask);
    done_lines += one.outputs.len();
    assert_eq!(d.running(), 1);

    take(&mut d, "t2");
    assert_eq!(d.on_spawn(Ok(())).unwrap().request, Request::AwaitJob);
    most_running = most_running.max(d.running());

    let two = d.on_completion(&finished(0, CompletionOutcome::Success)).unwrap();
    assert_eq!(two.request, Request::NextTask);
    done_lines += two.outputs.len();

    let drain = d.on_task(None).unwrap();
    assert_eq!(drain, Step { outputs: vec![], request: Request::AwaitJob });
    assert_eq!(d.phase(), Phase::Draining);

    let last = d.on_completion(&finished(2, CompletionOutcome::Success)).unwrap();
    assert_eq!(last.outputs, vec![log("ljobs[2]: done\techo -n t2\n")]);
    assert_eq!(last.request, Request::Exit { status: 0 });
    done_lines += last.outputs.len();

    assert_eq!(done_lines, 3);
    assert_eq!(most_running, 2);
    assert_eq!(d.phase(), Phase::Done);
    assert_eq!(d.aggregate().errors, 0);
}

#[test]
fn scenario_fail_fast_stops_after_the_first_failure() {
    let mut d = echo(config(1, false));
    take(&mut d, "t0");
    assert_eq!(d.on_spawn(Ok(())).unwrap().request, Request::AwaitJob);
    let step = d.on_completion(&finished(0, CompletionOutcome::NonZeroExit(3))).unwrap();
    assert_eq!(step, Step { outputs: vec![], request: Request::Exit { status: 3 } });
    assert_eq!(d.phase(), Phase::Done);
    assert_eq!(d.tasks_taken(), 1);
    assert_eq!(d.aggregate(), AggregateState { errors: 1, last_failed: 3 });

    assert_eq!(d.on_task(Some(&"t1".to_string())), None);
    assert_eq!(d.on_spawn(Ok(())), None);
    assert_eq!(d.tasks_taken(), 1);
    assert_eq!(d.running(), 0);
}

#[test]
fn scenario_keep_going_counts_the_failures() {
    let mut d = echo(config(1, true));
    let outcomes = [
        CompletionOutcome::NonZeroExit(2),
        CompletionOutcome::Success,
        CompletionOutcome::Signaled(9),
    ];
    for (n, outcome) in outcomes.iter().enumerate() {
        take(&mut d, "t");
        assert_eq!(d.on_spawn(Ok(())).unwrap().request, Request::AwaitJob);
        let step = d.on_completion(&finished(n, outcome.clone())).unwrap();
        assert_eq!(step.request, Request::NextTask);
    }
    assert_eq!(d.tasks_taken(), 3);
    assert_eq!(d.aggregate(), AggregateState { errors: 2, last_failed: 137 });
    assert_eq!(d.on_task(None).unwrap().request, Request::Exit { status: 2 });
}

#[test]
fn scenario_dry_run_prints_and_spawns_nothing() {
    let mut d = Dispatcher::new(
        RunConfig { dryrun: true, ..config(4, false) },
        "echo".to_string(),
        vec!["{}".to_string(), "x y".to_string()],
    )
    .unwrap();
    let first = take(&mut d, "a");
    assert_eq!(
        first,
        Step {
            outputs: vec![Output { stream: Stream::Stdout, data: b"[0]\techo a 'x y'\n".to_vec() }],
            request: Request::NextTask,
        }
    );
    assert_eq!(d.running(), 0);
    let second = take(&mut d, "b");
    assert_eq!(
        second,
        Step {
            outputs: vec![Output { stream: Stream::Stdout, data: b"[1]\techo b 'x y'\n".to_vec() }],
            request: Request::NextTask,
        }
    );
    assert_eq!(d.running(), 0);
    assert_eq!(d.on_task(None).unwrap(), Step { outputs: vec![], request: Request::Exit { status: 0 } });
}

#[test]
fn scenario_spawn_failure_counts_without_taking_a_slot() {
    let mut d = Dispatcher::new(config(2, false), "/no/such/program".to_string(), vec![]).unwrap();
    take(&mut d, "t");
    let step = d.on_spawn(Err("No such file or directory (os error 2)".to_string())).unwrap();
    assert_eq!(
        step,
        Step {
            outputs: vec![log(
                "ljobs[0]: error\t/no/such/program t: No such file or directory (os error 2)\n"
            )],
            request: Request::Exit { status: 255 },
        }
    );
    assert_eq!(d.running(), 0);
    assert_eq!(d.aggregate(), AggregateState { errors: 1, last_failed: 255 });
    assert_eq!(d.phase(), Phase::Done);
}

#[test]
fn a_spawn_failure_in_a_keep_going_run_goes_on() {
    let mut d = echo(config(2, true));
    take(&mut d, "t0");
    let step = d.on_spawn(Err("denied".to_string())).unwrap();
    assert_eq!(step.request, Request::NextTask);
    assert_eq!(d.running(), 0);
    take(&mut d, "t1");
    assert_eq!(d.on_spawn(Ok(())).unwrap().request, Request::NextTask);
    assert_eq!(d.on_task(None).unwrap().request, Request::AwaitJob);
    let end = d.on_completion(&finished(1, CompletionOutcome::Success)).unwrap();
    assert_eq!(end.request, Request::Exit { status: 1 });
}

#[test]
fn a_quiet_run_does_not_log_starts() {
    let mut d = echo(config(2, false));
    take(&mut d, "t0");
    assert_eq!(d.on_spawn(Ok(())).unwrap(), Step { outputs: vec![], request: Request::NextTask });
}

#[test]
fn running_jobs_stay_within_the_slots() {
    for slots in 1..=4usize {
        let mut d = echo(config(slots, true));
        let mut running: Vec<usize> = vec![];
        for n in 0..20usize {
            take(&mut d, "t");
            let mut request = d.on_spawn(Ok(())).unwrap().request;
            running.push(n);
            assert!(d.running() <= slots);
            assert_eq!(d.running(), running.len());
            while request == Request::AwaitJob {
                let ended = running.remove(0);
                request = d.on_completion(&finished(ended, CompletionOutcome::Success)).unwrap().request;
            }
            assert_eq!(request, Request::NextTask);
            assert!(d.running() < slots);
            assert_eq!(d.running(), (n + 1).min(slots - 1));
        }
    }
}

#[test]
fn backpressure_waits_for_one_job_only() {
    let mut d = echo(config(3, false));
    for _ in 0..3 {
        take(&mut d, "t");
        d.on_spawn(Ok(())).unwrap();
    }
    assert_eq!(d.phase(), Phase::Waiting);
    assert_eq!(d.running(), 3);
    let step = d.on_completion(&finished(1, CompletionOutcome::Success)).unwrap();
    assert_eq!(step.request, Request::NextTask);
    assert_eq!(d.running(), 2);
}

#[test]
fn after_a_failure_running_jobs_are_still_collected() {
    let mut d = echo(config(3, false));
    for _ in 0..3 {
        take(&mut d, "t");
        d.on_spawn(Ok(())).unwrap();
    }
    let first = d.on_completion(&finished(2, CompletionOutcome::NonZeroExit(7))).unwrap();
    assert_eq!(first.request, Request::AwaitJob);
    assert_eq!(d.phase(), Phase::Draining);
    assert_eq!(d.on_task(Some(&"t3".to_string())), None);
    let second = d.on_completion(&finished(0, CompletionOutcome::Success)).unwrap();
    assert_eq!(second.request, Request::AwaitJob);
    let third = d.on_completion(&finished(1, CompletionOutcome::Signaled(15))).unwrap();
    assert_eq!(third.request, Request::Exit { status: 143 });
    assert_eq!(d.aggregate(), AggregateState { errors: 2, last_failed: 143 });
    assert_eq!(d.tasks_taken(), 3);
}

#[test]
fn a_failure_seen_while_draining_decides_the_status() {
    let mut d = echo(config(2, false));
    take(&mut d, "t0");
    d.on_spawn(Ok(())).unwrap();
    take(&mut d, "t1");
    let failed = d.on_spawn(Err("nope".to_string())).unwrap();
    assert_eq!(failed.request, Request::AwaitJob);
    assert_eq!(d.aggregate(), AggregateState { errors: 1, last_failed: 255 });
    let end = d.on_completion(&finished(0, CompletionOutcome::NonZeroExit(3))).unwrap();
    assert_eq!(end.request, Request::Exit { status: 3 });
}

#[test]
fn events_that_are_not_waited_for_change_nothing() {
    let mut d = echo(config(1, false));
    assert_eq!(d.on_spawn(Ok(())), None);
    assert_eq!(d.on_completion(&finished(0, CompletionOutcome::Success)), None);
    assert_eq!(d.phase(), Phase::Pulling);
    take(&mut d, "t0");
    assert_eq!(d.on_task(Some(&"t1".to_string())), None);
    assert_eq!(d.on_task(None), None);
    assert_eq!(d.on_completion(&finished(0, CompletionOutcome::Success)), None);
    assert_eq!(d.phase(), Phase::Launching);
    assert_eq!(d.tasks_taken(), 1);
    d.on_spawn(Ok(())).unwrap();
    assert_eq!(d.on_task(None), None);
    assert_eq!(d.on_spawn(Ok(())), None);
    assert_eq!(d.running(), 1);
    d.on_completion(&finished(0, CompletionOutcome::Success)).unwrap();
    d.on_task(None).unwrap();
    assert_eq!(d.phase(), Phase::Done);
    assert_eq!(d.on_task(None), None);
    assert_eq!(d.on_completion(&finished(0, CompletionOutcome::Success)), None);
}

#[test]
fn a_signal_number_that_overflows_the_status_is_refused() {
    let huge = finished(0, CompletionOutcome::Signaled(i32::MAX));
    assert!(!outcome_fits(&huge));
    assert!(outcome_fits(&finished(0, CompletionOutcome::Signaled(i32::MAX - 128))));
    assert!(outcome_fits(&finished(0, CompletionOutcome::NonZeroExit(i32::MAX))));
    let mut d = echo(config(1, false));
    take(&mut d, "t0");
    d.on_spawn(Ok(())).unwrap();
    assert_eq!(d.on_completion(&huge), None);
    assert_eq!(d.running(), 1);
    assert_eq!(d.aggregate().errors, 0);
}

#[test]
fn a_job_output_is_written_when_it_is_collected() {
    let mut d = Dispatcher::new(
        RunConfig { verbose: true, ..config(1, true) },
        "sh".to_string(),
        vec![],
    )
    .unwrap();
    take(&mut d, "t0");
    d.on_spawn(Ok(())).unwrap();
    let job = Job {
        tasknum: 0,
        quotedcmd: "sh t0".to_string(),
        stdout: b"result\n".to_vec(),
        stderr: b"warning\n".to_vec(),
        outcome: CompletionOutcome::Signaled(2),
    };
    let step = d.on_completion(&job).unwrap();
    assert_eq!(
        step.outputs,
        vec![
            Output {
                stream: Stream::Stderr,
                data: b"-------- ljobs[0]: sh t0 --------\nwarning\n--------\n".to_vec(),
            },
            Output { stream: Stream::Stdout, data: b"result\n".to_vec() },
            log("ljobs[0]: signal 2\tsh t0\n"),
        ]
    );
    assert_eq!(d.aggregate(), AggregateState { errors: 1, last_failed: 130 });
}

#[test]
fn a_keep_going_run_with_many_failures_ends_with_254() {
    let mut d = echo(config(1, true));
    for n in 0..300usize {
        take(&mut d, "t");
        d.on_spawn(Ok(())).unwrap();
        d.on_completion(&finished(n, CompletionOutcome::NonZeroExit(1))).unwrap();
    }
    assert_eq!(d.aggregate().errors, 300);
    assert_eq!(d.on_task(None).unwrap().request, Request::Exit { status: 254 });
}
