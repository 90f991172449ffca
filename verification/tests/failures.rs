use ljobs::config::ConfigError;
use ljobs::fatal::Fatal;

#[test]
fn fatal_failures_have_their_messages() {
    assert_eq!(
        Fatal::TaskInput("stream did not contain valid UTF-8".to_string()).message(),
        "error reading standard input: stream did not contain valid UTF-8\n"
    );
    assert_eq!(Fatal::OutputRead("Interrupted".to_string()).message(), "read error: Interrupted\n");
    assert_eq!(
        Fatal::OutputWrite("Broken pipe (os error 32)".to_string()).message(),
        "write error: Broken pipe (os error 32)\n"
    );
    assert_eq!(
        Fatal::QueueSend("sending on a closed channel".to_string()).message(),
        "send error: sending on a closed channel\n"
    );
    assert_eq!(
        Fatal::QueueReceive("receiving on a closed channel".to_string()).message(),
        "recv error: receiving on a closed channel\n"
    );
    assert_eq!(Fatal::OutputRead(String::new()).message(), "read error: \n");
}

#[test]
fn only_the_help_text_goes_to_standard_output() {
    assert!(ConfigError::Help("Usage".to_string()).for_stdout());
    assert!(!ConfigError::BadOption("x".to_string()).for_stdout());
    assert!(!ConfigError::InvalidJobs.for_stdout());
    assert!(!ConfigError::ShellNotUnicode.for_stdout());
    assert!(!ConfigError::NoCommand.for_stdout());
}
