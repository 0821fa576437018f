use docktopus::container::Error;
use docktopus::wait::WaitMessage;
use docktopus::wait::WaitStep;
use docktopus::wait::resolve;
use docktopus::wait::wait_step;

fn event(code: i64, detail: Option<&str>) -> WaitMessage {
    WaitMessage::Event { status_code: code, error_message: detail.map(|s| s.to_string()) }
}

#[test]
fn first_zero_code_resolves_even_with_later_messages() {
    let outcome = resolve(vec![
        event(0, None),
        event(137, Some("would have failed")),
        WaitMessage::Transport("connection reset".to_string()),
    ]);
    assert!(outcome.is_ok());
}

#[test]
fn transport_error_fails_immediately_and_unchanged() {
    let outcome = resolve(vec![
        WaitMessage::Transport("connection reset".to_string()),
        event(0, None),
    ]);
    assert!(matches!(
        outcome,
        Err(Error::Transport(m)) if m == "connection reset"
    ));
}

#[test]
fn nonzero_code_with_detail_fails_with_both() {
    let outcome = resolve(vec![event(137, Some("oom-killed")), event(0, None)]);
    assert!(matches!(
        outcome,
        Err(Error::WaitFailed { code: 137, message: m }) if m == "oom-killed"
    ));
}

#[test]
fn bare_nonzero_code_is_not_terminal() {
    // A non-zero code without an error detail is an intermediate
    // notification: consumption continues to the next message.
    let outcome = resolve(vec![event(1, None), event(0, None)]);
    assert!(outcome.is_ok());
    let outcome = resolve(vec![event(1, None), event(137, Some("gone"))]);
    assert!(matches!(
        outcome,
        Err(Error::WaitFailed { code: 137, message: m }) if m == "gone"
    ));
}

#[test]
fn exhaustion_without_terminal_message_resolves_successfully() {
    assert!(resolve(Vec::new()).is_ok());
    assert!(resolve(vec![event(1, None), event(2, None)]).is_ok());
}

#[test]
fn single_message_decisions() {
    assert!(matches!(wait_step(event(0, None)), WaitStep::Resolved));
    assert!(matches!(wait_step(event(0, Some("detail ignored"))), WaitStep::Resolved));
    assert!(matches!(wait_step(event(3, None)), WaitStep::Pending));
    assert!(matches!(
        wait_step(event(3, Some("boom"))),
        WaitStep::Failed(Error::WaitFailed { code: 3, message: m }) if m == "boom"
    ));
    assert!(matches!(
        wait_step(WaitMessage::Transport("eof".to_string())),
        WaitStep::Failed(Error::Transport(m)) if m == "eof"
    ));
}
