use shinkai_tools_runner::execution_error::ErrorKind;
use shinkai_tools_runner::process::{
    conclude, step, timeout_message, CapturedOutput, ProcessAction, ProcessEvent, ProcessState,
};

fn output() -> CapturedOutput {
    let mut output = CapturedOutput::new();
    output.push_stdout("out 1".to_string());
    output.push_stderr("Traceback (most recent call last):".to_string());
    output.push_stdout("out 2".to_string());
    output.push_stderr("ValueError: boom".to_string());
    output
}

#[test]
fn process_goes_from_spawning_to_its_end() {
    assert_eq!(
        step(ProcessState::Spawning, ProcessEvent::Spawned),
        (ProcessState::Running, ProcessAction::AwaitExit)
    );
    assert_eq!(
        step(ProcessState::Spawning, ProcessEvent::SpawnFailed),
        (ProcessState::SpawnFailed, ProcessAction::Conclude)
    );
    assert_eq!(
        step(ProcessState::Running, ProcessEvent::Exited { success: true }),
        (ProcessState::Completed, ProcessAction::DrainOutput)
    );
    assert_eq!(
        step(ProcessState::Running, ProcessEvent::Exited { success: false }),
        (ProcessState::NonZeroExit, ProcessAction::DrainOutput)
    );
    assert_eq!(
        step(ProcessState::Running, ProcessEvent::TimeoutElapsed { seconds: 7, nanos: 0 }),
        (ProcessState::TimedOut { seconds: 7, nanos: 0 }, ProcessAction::StopProcess)
    );
    assert_eq!(
        step(ProcessState::Running, ProcessEvent::WaitFailed),
        (ProcessState::SpawnFailed, ProcessAction::StopProcess)
    );
}

#[test]
fn process_ignores_what_does_not_concern_its_state() {
    let events = [
        ProcessEvent::Spawned,
        ProcessEvent::SpawnFailed,
        ProcessEvent::Exited { success: true },
        ProcessEvent::Exited { success: false },
        ProcessEvent::WaitFailed,
        ProcessEvent::TimeoutElapsed { seconds: 1, nanos: 0 },
    ];
    for state in [
        ProcessState::Completed,
        ProcessState::TimedOut { seconds: 9, nanos: 0 },
        ProcessState::SpawnFailed,
        ProcessState::NonZeroExit,
    ] {
        for event in events {
            assert_eq!(step(state, event), (state, ProcessAction::Ignore));
        }
    }
    assert_eq!(
        step(ProcessState::Spawning, ProcessEvent::TimeoutElapsed { seconds: 1, nanos: 0 }),
        (ProcessState::Spawning, ProcessAction::Ignore)
    );
    assert_eq!(
        step(ProcessState::Running, ProcessEvent::Spawned),
        (ProcessState::Running, ProcessAction::Ignore)
    );
}

#[test]
fn captured_lines_stay_in_order() {
    let output = output();
    assert_eq!(output.stdout(), &vec!["out 1".to_string(), "out 2".to_string()]);
    assert_eq!(
        output.stderr(),
        &vec!["Traceback (most recent call last):".to_string(), "ValueError: boom".to_string()]
    );
}

#[test]
fn completed_process_yields_its_output() {
    let lines = conclude(ProcessState::Completed, output(), "").unwrap().unwrap();
    assert_eq!(lines, vec!["out 1".to_string(), "out 2".to_string()]);
}

#[test]
fn failed_process_yields_its_error_stream() {
    let error = conclude(ProcessState::NonZeroExit, output(), "").unwrap().unwrap_err();
    assert_eq!(error.kind, ErrorKind::NonZeroExit);
    assert_eq!(error.message, "Traceback (most recent call last):\nValueError: boom");
    assert!(error.message.contains("boom"));
    assert_eq!(error.code, None);
}

#[test]
fn timed_out_process_names_the_duration() {
    let error = conclude(ProcessState::TimedOut { seconds: 2, nanos: 0 }, output(), "").unwrap().unwrap_err();
    assert_eq!(error.kind, ErrorKind::Timeout);
    assert_eq!(error.message, "process timed out after 2[s]");
    assert_eq!(timeout_message(0, 0), "process timed out after 0[s]");
    assert_eq!(timeout_message(3600, 0), "process timed out after 3600[s]");
}

#[test]
fn process_that_did_not_start_yields_the_reason() {
    let error = conclude(
        ProcessState::SpawnFailed,
        CapturedOutput::new(),
        "No such file or directory (os error 2)",
    )
    .unwrap()
    .unwrap_err();
    assert_eq!(error.kind, ErrorKind::Spawn);
    assert_eq!(error.message, "No such file or directory (os error 2)");
}

#[test]
fn run_does_not_conclude_before_the_process_has_ended() {
    assert!(conclude(ProcessState::Spawning, output(), "").is_none());
    assert!(conclude(ProcessState::Running, output(), "").is_none());
}

#[test]
fn timed_out_process_names_a_part_of_a_second() {
    assert_eq!(timeout_message(0, 500_000_000), "process timed out after 0.5[s]");
    assert_eq!(timeout_message(1, 250_000_000), "process timed out after 1.25[s]");
    assert_eq!(timeout_message(2, 1), "process timed out after 2.000000001[s]");
    assert_eq!(timeout_message(0, 30_000), "process timed out after 0.00003[s]");
    assert_eq!(timeout_message(10, 999_999_999), "process timed out after 10.999999999[s]");
    let (state, _) = step(
        ProcessState::Running,
        ProcessEvent::TimeoutElapsed { seconds: 0, nanos: 500_000_000 },
    );
    let error = conclude(state, output(), "").unwrap().unwrap_err();
    assert_eq!(error.kind, ErrorKind::Timeout);
    assert_eq!(error.message, "process timed out after 0.5[s]");
}
