use shellblock::block::Block;
use shellblock::errors::BlockError;
use shellblock::shell::CommandOutcome;
use shellblock::shell::ShellBlock;

fn ok_exit(stdout: &[u8]) -> CommandOutcome {
    CommandOutcome::Exited { success: true, status: String::from("exit status: 0"), stdout: stdout.to_vec() }
}

fn failed_exit(status: &str) -> CommandOutcome {
    CommandOutcome::Exited { success: false, status: String::from(status), stdout: Vec::new() }
}

fn expect_ok(r: Result<String, BlockError>) -> String {
    match r {
        Ok(s) => s,
        Err(e) => panic!("expected success, got error: {}", e.message()),
    }
}

fn expect_err_message(r: Result<String, BlockError>) -> String {
    match r {
        Ok(s) => panic!("expected an error, got: {}", s),
        Err(BlockError::CommandFailed(m)) => m,
    }
}

#[test]
fn never_refreshed_widget_always_attempts_execution() {
    let block = ShellBlock::new("{}", "true", 60, 0);
    assert!(block.should_refresh(0));
    assert!(block.should_refresh(1));
    assert!(block.should_refresh(1_000_000));
}

#[test]
fn still_attempts_execution_after_failures() {
    let mut block = ShellBlock::new("{}", "false", 60, 0);
    assert!(block.should_refresh(1000));
    let r = block.content(1000, Some(failed_exit("exit status: 1")));
    assert!(r.is_err());
    // the failure recorded no success, so the next query attempts again
    assert!(block.should_refresh(1001));
    let r = block.content(1001, Some(failed_exit("exit status: 1")));
    assert!(r.is_err());
    assert!(block.should_refresh(1002));
}

#[test]
fn formatting_strips_whitespace_and_substitutes() {
    let mut block = ShellBlock::new("CPU: {}%", "echo 42", 1, 0);
    let r = expect_ok(block.content(0, Some(ok_exit(b"42\n"))));
    assert_eq!(r, "CPU: 42%");
}

#[test]
fn formatting_strips_surrounding_whitespace() {
    let mut block = ShellBlock::new("[{}]", "echo", 1, 0);
    let r = expect_ok(block.content(0, Some(ok_exit(b"  \t hi there \n\r\n"))));
    assert_eq!(r, "[hi there]");
}

#[test]
fn fresh_cache_served_without_execution() {
    let mut block = ShellBlock::new("v={}", "echo 7", 5, 0);
    let first = expect_ok(block.content(1000, Some(ok_exit(b"7\n"))));
    assert_eq!(first, "v=7");
    // strictly inside the interval: no event expected, cache served as is
    assert!(!block.should_refresh(1000 + 4999));
    let again = expect_ok(block.content(1000 + 4999, None));
    assert_eq!(again, first);
    let again = expect_ok(block.content(1000 + 4999, None));
    assert_eq!(again, first);
}

#[test]
fn stale_cache_triggers_execution() {
    let mut block = ShellBlock::new("v={}", "echo 7", 5, 0);
    expect_ok(block.content(1000, Some(ok_exit(b"7\n"))));
    assert!(!block.should_refresh(1000 + 4999));
    assert!(block.should_refresh(1000 + 5000));
    // the new execution's output replaces the cache and resets the timer
    let r = expect_ok(block.content(1000 + 5000, Some(ok_exit(b"8\n"))));
    assert_eq!(r, "v=8");
    assert!(!block.should_refresh(1000 + 5000 + 4999));
    assert_eq!(expect_ok(block.content(1000 + 5000 + 4999, None)), "v=8");
}

#[test]
fn failed_command_reports_error_and_keeps_cache() {
    let mut block = ShellBlock::new("v={}", "echo 7", 5, 0);
    expect_ok(block.content(1000, Some(ok_exit(b"7\n"))));
    // stale, so a refresh is attempted; it fails
    let m = expect_err_message(block.content(7000, Some(failed_exit("exit status: 1"))));
    assert_eq!(m, "Command exited with status: exit status: 1");
    // prior cached output and timestamp are unchanged
    assert_eq!(expect_ok(block.cached_content()), "v=7");
    assert!(block.should_refresh(7001));
    assert!(!block.should_refresh(1000 + 4999));
}

#[test]
fn spawn_failure_reports_error_and_keeps_state_empty() {
    let mut block = ShellBlock::new("{}", "no-such-binary", 5, 0);
    let m = expect_err_message(block.content(0, Some(CommandOutcome::SpawnFailed(String::from(
        "No such file or directory (os error 2)",
    )))));
    assert_eq!(m, "Failed to execute command: No such file or directory (os error 2)");
    let m = expect_err_message(block.cached_content());
    assert_eq!(m, "No cached output");
}

#[test]
fn zero_interval_executes_on_every_call() {
    let mut block = ShellBlock::new("{}", "echo x", 0, 0);
    expect_ok(block.content(1000, Some(ok_exit(b"x\n"))));
    // even with no time elapsed at all, the policy asks for execution
    assert!(block.should_refresh(1000));
    let r = expect_ok(block.content(1000, Some(ok_exit(b"y\n"))));
    assert_eq!(r, "y");
}

#[test]
fn multiple_markers_all_get_the_same_value() {
    let mut block = ShellBlock::new("{} and {} and {}", "echo x", 1, 0);
    let r = expect_ok(block.content(0, Some(ok_exit(b"x\n"))));
    assert_eq!(r, "x and x and x");
}

#[test]
fn template_without_marker_is_returned_verbatim() {
    let mut block = ShellBlock::new("plain text", "echo x", 1, 0);
    let r = expect_ok(block.content(0, Some(ok_exit(b"ignored\n"))));
    assert_eq!(r, "plain text");
}

#[test]
fn empty_output_substitutes_empty_value() {
    let mut block = ShellBlock::new("[{}]", "true", 1, 0);
    let r = expect_ok(block.content(0, Some(ok_exit(b""))));
    assert_eq!(r, "[]");
}

#[test]
fn invalid_utf8_is_replaced_not_fatal() {
    let mut block = ShellBlock::new("{}", "cat some-file", 1, 0);
    let r = expect_ok(block.content(0, Some(ok_exit(&[0xff, b'a']))));
    assert_eq!(r, "\u{fffd}a");
}

#[test]
fn accessors_return_configuration() {
    let block = ShellBlock::new("{}", "echo x", 30, 0x00ff00);
    assert_eq!(block.interval(), 30);
    assert_eq!(block.color(), 0x00ff00);
    assert_eq!(block.command_text(), "echo x");
}
