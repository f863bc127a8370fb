use pipeweld::audio::{AudioControls, Invocation, ProcessOutcome, VolumeError};
use pipeweld::diff::DiffValue;
use std::cell::RefCell;
use std::rc::Rc;

fn recording_runner(
    calls: &Rc<RefCell<Vec<(String, Vec<String>)>>>,
    outcome: ProcessOutcome,
) -> impl FnOnce(Invocation) -> ProcessOutcome {
    let calls = Rc::clone(calls);
    move |invocation: Invocation| {
        calls.borrow_mut().push((invocation.program, invocation.arguments));
        outcome
    }
}

#[test]
fn invocation_targets_the_default_sink() {
    let invocation = AudioControls::invocation(DiffValue::new(5));
    assert_eq!(invocation.program, "pactl");
    assert_eq!(invocation.arguments, vec!["set-sink-volume", "@DEFAULT_SINK@", "+5%"]);
}

#[test]
fn invocation_carries_the_formatted_delta() {
    assert_eq!(AudioControls::invocation(DiffValue::new(-5)).arguments[2], "-5%");
    assert_eq!(AudioControls::invocation(DiffValue::new(0)).arguments[2], "0%");
    assert_eq!(AudioControls::invocation(DiffValue::new(25)).arguments[2], "+25%");
}

#[test]
fn change_volume_issues_exactly_one_call() {
    let calls = Rc::new(RefCell::new(Vec::new()));
    let result = AudioControls::change_volume_percent(
        DiffValue::new(5),
        recording_runner(&calls, ProcessOutcome::Exited(Some(0))),
    );
    assert_eq!(result, Ok(()));
    let calls = calls.borrow();
    assert_eq!(calls.len(), 1);
    assert_eq!(calls[0].0, "pactl");
    assert_eq!(calls[0].1, vec!["set-sink-volume", "@DEFAULT_SINK@", "+5%"]);
}

#[test]
fn change_volume_issues_one_call_on_failure_too() {
    let calls = Rc::new(RefCell::new(Vec::new()));
    let result = AudioControls::change_volume_percent(
        DiffValue::new(-5),
        recording_runner(&calls, ProcessOutcome::NotStarted("no such file".to_string())),
    );
    assert_eq!(result, Err(VolumeError::Command("no such file".to_string())));
    let calls = calls.borrow();
    assert_eq!(calls.len(), 1);
    assert_eq!(calls[0].1, vec!["set-sink-volume", "@DEFAULT_SINK@", "-5%"]);
}

#[test]
fn exit_code_zero_is_success() {
    let result =
        AudioControls::change_volume_percent(DiffValue::new(5), |_| ProcessOutcome::Exited(Some(0)));
    assert_eq!(result, Ok(()));
}

#[test]
fn nonzero_exit_code_is_a_status_error() {
    let result =
        AudioControls::change_volume_percent(DiffValue::new(5), |_| ProcessOutcome::Exited(Some(1)));
    assert_eq!(result, Err(VolumeError::Status));
    let result = AudioControls::change_volume_percent(DiffValue::new(5), |_| {
        ProcessOutcome::Exited(Some(-1))
    });
    assert_eq!(result, Err(VolumeError::Status));
}

#[test]
fn missing_exit_code_is_a_status_error() {
    let result =
        AudioControls::change_volume_percent(DiffValue::new(5), |_| ProcessOutcome::Exited(None));
    assert_eq!(result, Err(VolumeError::Status));
}

#[test]
fn unstarted_process_is_a_command_error() {
    let result = AudioControls::change_volume_percent(DiffValue::new(5), |_| {
        ProcessOutcome::NotStarted("permission denied".to_string())
    });
    assert_eq!(result, Err(VolumeError::Command("permission denied".to_string())));
    let result = AudioControls::change_volume_percent(DiffValue::new(5), |_| {
        ProcessOutcome::NotStarted(String::new())
    });
    assert_eq!(result, Err(VolumeError::Command(String::new())));
}

#[test]
fn outcome_reads_as_result() {
    assert_eq!(ProcessOutcome::Exited(Some(0)).into_result(), Ok(()));
    assert_eq!(ProcessOutcome::Exited(Some(2)).into_result(), Err(VolumeError::Status));
    assert_eq!(ProcessOutcome::Exited(Some(i32::MIN)).into_result(), Err(VolumeError::Status));
    assert_eq!(ProcessOutcome::Exited(None).into_result(), Err(VolumeError::Status));
    assert_eq!(
        ProcessOutcome::NotStarted("not found".to_string()).into_result(),
        Err(VolumeError::Command("not found".to_string()))
    );
}

#[test]
fn errors_describe_themselves() {
    assert_eq!(VolumeError::Command("not found".to_string()).message(), "running the command");
    assert_eq!(VolumeError::Status.message(), "command failed");
}

#[test]
fn command_error_keeps_its_cause() {
    let error = ProcessOutcome::NotStarted("not found".to_string()).into_result().unwrap_err();
    assert_eq!(error.cause().map(String::as_str), Some("not found"));
    assert_eq!(VolumeError::Status.cause(), None);
    let error = ProcessOutcome::Exited(Some(3)).into_result().unwrap_err();
    assert_eq!(error.cause(), None);
}
