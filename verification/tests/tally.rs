use ljobs::config::RunConfig;
use ljobs::job::{
    done_job, dryrun, outcome_message, show_output, spawn_error_message, start_message, Job,
    Output, Stream, PROG,
};
use ljobs::status::{
    classify, final_status, AggregateState, CompletionOutcome, FATAL_STATUS, MAX_ERROR_STATUS,
};

fn quiet() -> RunConfig {
    RunConfig { maxjobs: 1, keepgoing: false, shell: None, verbose: false, dryrun: false }
}

fn verbose() -> RunConfig {
    RunConfig { verbose: true, ..quiet() }
}

fn job(outcome: CompletionOutcome, stdout: &[u8], stderr: &[u8]) -> Job {
    Job {
        tasknum: 3,
        quotedcmd: "echo 'a b'".to_string(),
        stdout: stdout.to_vec(),
        stderr: stderr.to_vec(),
        outcome,
    }
}

fn out(stream: Stream, data: &[u8]) -> Output {
    Output { stream, data: data.to_vec() }
}

#[test]
fn the_program_speaks_under_its_name() {
    assert_eq!(PROG, "ljobs");
    assert_eq!(FATAL_STATUS, 255);
    assert_eq!(MAX_ERROR_STATUS, 254);
}

#[test]
fn classify_reads_exit_codes_and_signals() {
    assert_eq!(classify(Some(0), None), Some(CompletionOutcome::Success));
    assert_eq!(classify(Some(3), None), Some(CompletionOutcome::NonZeroExit(3)));
    assert_eq!(classify(Some(-1), None), Some(CompletionOutcome::NonZeroExit(-1)));
    assert_eq!(classify(None, Some(9)), Some(CompletionOutcome::Signaled(9)));
    assert_eq!(classify(Some(0), Some(9)), Some(CompletionOutcome::Success));
    assert_eq!(classify(None, None), None);
}

#[test]
fn a_new_tally_has_no_errors_and_the_default_status() {
    let tally = AggregateState::new();
    assert_eq!(tally.errors, 0);
    assert_eq!(tally.last_failed, 255);
}

#[test]
fn record_counts_failures_and_keeps_the_last_status() {
    let mut tally = AggregateState::new();
    tally.record(&CompletionOutcome::Success);
    assert_eq!(tally, AggregateState { errors: 0, last_failed: 255 });
    tally.record(&CompletionOutcome::NonZeroExit(2));
    assert_eq!(tally, AggregateState { errors: 1, last_failed: 2 });
    tally.record(&CompletionOutcome::Signaled(9));
    assert_eq!(tally, AggregateState { errors: 2, last_failed: 137 });
    tally.record(&CompletionOutcome::Success);
    assert_eq!(tally, AggregateState { errors: 2, last_failed: 137 });
    tally.record(&CompletionOutcome::WaitFailed { pid: 7, error: "gone".to_string() });
    assert_eq!(tally, AggregateState { errors: 3, last_failed: 255 });
    tally.record(&CompletionOutcome::NonZeroExit(1));
    assert_eq!(tally, AggregateState { errors: 4, last_failed: 1 });
}

#[test]
fn record_failure_leaves_the_last_status() {
    let mut tally = AggregateState { errors: 2, last_failed: 9 };
    tally.record_failure();
    assert_eq!(tally, AggregateState { errors: 3, last_failed: 9 });
}

#[test]
fn final_status_of_a_keep_going_run_is_the_error_count_capped() {
    for (errors, status) in [(0usize, 0), (1, 1), (2, 2), (253, 253), (254, 254), (255, 254), (100000, 254)] {
        let tally = AggregateState { errors, last_failed: 77 };
        assert_eq!(final_status(true, &tally), status);
    }
    let huge = AggregateState { errors: usize::MAX, last_failed: 1 };
    assert_eq!(final_status(true, &huge), 254);
}

#[test]
fn final_status_of_a_fail_fast_run_is_the_last_failure() {
    assert_eq!(final_status(false, &AggregateState { errors: 1, last_failed: 3 }), 3);
    assert_eq!(final_status(false, &AggregateState { errors: 2, last_failed: 137 }), 137);
    assert_eq!(final_status(false, &AggregateState { errors: 1, last_failed: 255 }), 255);
    assert_eq!(final_status(false, &AggregateState { errors: 500, last_failed: 1 }), 1);
}

#[test]
fn final_status_without_errors_is_zero() {
    assert_eq!(final_status(false, &AggregateState { errors: 0, last_failed: 255 }), 0);
    assert_eq!(final_status(true, &AggregateState { errors: 0, last_failed: 255 }), 0);
    assert_eq!(final_status(false, &AggregateState::new()), 0);
}

#[test]
fn log_lines_have_the_documented_form() {
    assert_eq!(start_message(0, "echo a"), "ljobs[0]: start\techo a\n");
    assert_eq!(start_message(12, "x"), "ljobs[12]: start\tx\n");
    assert_eq!(
        spawn_error_message(5, "nope", "No such file or directory (os error 2)"),
        "ljobs[5]: error\tnope: No such file or directory (os error 2)\n"
    );
    assert_eq!(dryrun(0, "echo a"), "[0]\techo a\n");
    assert_eq!(dryrun(41, "echo 'a b'"), "[41]\techo 'a b'\n");
}

#[test]
fn outcome_lines_depend_on_verbosity() {
    let cmd = "true";
    assert_eq!(outcome_message(&CompletionOutcome::Success, 1, cmd, true), Some("ljobs[1]: done\ttrue\n".to_string()));
    assert_eq!(outcome_message(&CompletionOutcome::Success, 1, cmd, false), None);
    assert_eq!(
        outcome_message(&CompletionOutcome::NonZeroExit(3), 1, cmd, true),
        Some("ljobs[1]: exit 3\ttrue\n".to_string())
    );
    assert_eq!(outcome_message(&CompletionOutcome::NonZeroExit(3), 1, cmd, false), None);
    assert_eq!(
        outcome_message(&CompletionOutcome::NonZeroExit(-7), 1, cmd, true),
        Some("ljobs[1]: exit -7\ttrue\n".to_string())
    );
    assert_eq!(
        outcome_message(&CompletionOutcome::NonZeroExit(i32::MIN), 1, cmd, true),
        Some("ljobs[1]: exit -2147483648\ttrue\n".to_string())
    );
    assert_eq!(
        outcome_message(&CompletionOutcome::Signaled(15), 20, cmd, true),
        Some("ljobs[20]: signal 15\ttrue\n".to_string())
    );
    assert_eq!(outcome_message(&CompletionOutcome::Signaled(15), 20, cmd, false), None);
}

#[test]
fn the_wait_warning_is_written_in_any_run() {
    let failed = CompletionOutcome::WaitFailed { pid: 4321, error: "No child processes".to_string() };
    let line = Some("wait error pid 4321: No child processes\n".to_string());
    assert_eq!(outcome_message(&failed, 1, "x", false), line);
    assert_eq!(outcome_message(&failed, 1, "x", true), line);
}

#[test]
fn show_output_writes_nothing_for_no_output() {
    assert_eq!(show_output(b"", 0, "cmd", false), None);
    assert_eq!(show_output(b"", 0, "cmd", true), None);
}

#[test]
fn show_output_hands_the_bytes_on_unchanged() {
    assert_eq!(show_output(b"hello\n", 2, "cmd", false), Some(b"hello\n".to_vec()));
    assert_eq!(show_output(&[0xff, 0x00, 0x80], 2, "cmd", false), Some(vec![0xff, 0x00, 0x80]));
}

#[test]
fn show_output_frames_the_bytes_with_banners() {
    assert_eq!(
        show_output(b"oops\n", 2, "ls 'a b'", true),
        Some(b"-------- ljobs[2]: ls 'a b' --------\noops\n--------\n".to_vec())
    );
    assert_eq!(
        show_output(b"no newline", 10, "x", true),
        Some(b"-------- ljobs[10]: x --------\nno newline--------\n".to_vec())
    );
    assert_eq!(
        show_output(b"x", 0, "\u{e9}", true),
        Some("-------- ljobs[0]: \u{e9} --------\nx--------\n".as_bytes().to_vec())
    );
}

#[test]
fn done_job_writes_stderr_then_stdout_then_the_log_line() {
    let mut errs = 0;
    let mut failedexit = 255;
    let outputs = done_job(
        &verbose(),
        &job(CompletionOutcome::NonZeroExit(4), b"out\n", b"err\n"),
        &mut errs,
        &mut failedexit,
    );
    assert_eq!(
        outputs,
        vec![
            out(Stream::Stderr, b"-------- ljobs[3]: echo 'a b' --------\nerr\n--------\n"),
            out(Stream::Stdout, b"out\n"),
            out(Stream::Stderr, b"ljobs[3]: exit 4\techo 'a b'\n"),
        ]
    );
    assert_eq!(errs, 1);
    assert_eq!(failedexit, 4);
}

#[test]
fn done_job_of_a_quiet_success_writes_only_what_the_job_wrote() {
    let mut errs = 2;
    let mut failedexit = 9;
    let outputs = done_job(&quiet(), &job(CompletionOutcome::Success, b"out", b"err"), &mut errs, &mut failedexit);
    assert_eq!(outputs, vec![out(Stream::Stderr, b"err"), out(Stream::Stdout, b"out")]);
    assert_eq!(errs, 2);
    assert_eq!(failedexit, 9);

    let nothing = done_job(&quiet(), &job(CompletionOutcome::Success, b"", b""), &mut errs, &mut failedexit);
    assert_eq!(nothing, vec![]);
}

#[test]
fn done_job_never_frames_standard_output() {
    let mut errs = 0;
    let mut failedexit = 255;
    let outputs = done_job(&verbose(), &job(CompletionOutcome::Success, b"out", b""), &mut errs, &mut failedexit);
    assert_eq!(
        outputs,
        vec![out(Stream::Stdout, b"out"), out(Stream::Stderr, b"ljobs[3]: done\techo 'a b'\n")]
    );
    assert_eq!(errs, 0);
    assert_eq!(failedexit, 255);
}

#[test]
fn done_job_records_a_signal_as_128_plus_its_number() {
    let mut errs = 0;
    let mut failedexit = 255;
    let outputs = done_job(&quiet(), &job(CompletionOutcome::Signaled(9), b"", b""), &mut errs, &mut failedexit);
    assert_eq!(outputs, vec![]);
    assert_eq!(errs, 1);
    assert_eq!(failedexit, 137);
}

#[test]
fn done_job_records_a_failed_wait_as_255_and_always_warns() {
    let mut errs = 1;
    let mut failedexit = 2;
    let failed = CompletionOutcome::WaitFailed { pid: 99, error: "interrupted".to_string() };
    let outputs = done_job(&quiet(), &job(failed, b"", b""), &mut errs, &mut failedexit);
    assert_eq!(outputs, vec![out(Stream::Stderr, b"wait error pid 99: interrupted\n")]);
    assert_eq!(errs, 2);
    assert_eq!(failedexit, 255);
}
