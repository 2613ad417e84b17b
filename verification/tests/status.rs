use bubblewrap::process::EXIT_EXEC_FAILURE;
use bubblewrap::sandbox::Sandbox;
use bubblewrap::status::{exit_code, status_from_wait, ExitStatus, WaitOutcome, EXIT_INTERNAL_FAILURE};

/// What the monitor reports when the intermediate process exits with the
/// code that it derived from how init ended.
fn reported(init: WaitOutcome) -> ExitStatus {
    let code = Sandbox::waitstatus_to_exitcode(init);
    Sandbox::waitstatus_to_exitstatus(WaitOutcome::Exited((code & 0xff) as u8))
}

#[test]
fn exit_code_of_command_reaches_the_caller() {
    assert_eq!(reported(WaitOutcome::Exited(42)).code(), Some(42));
    assert_eq!(reported(WaitOutcome::Exited(0)).code(), Some(0));
    assert!(reported(WaitOutcome::Exited(0)).success());
}

#[test]
fn signal_is_reported_as_128_plus_signal() {
    assert_eq!(reported(WaitOutcome::Signaled(9, false)).code(), Some(128 + 9));
    assert_eq!(reported(WaitOutcome::Signaled(15, true)).code(), Some(128 + 15));
}

#[test]
fn unfinished_init_is_an_internal_failure() {
    assert_eq!(Sandbox::waitstatus_to_exitcode(WaitOutcome::Other), EXIT_INTERNAL_FAILURE);
    assert_eq!(reported(WaitOutcome::Other).code(), Some(255));
    assert_eq!(Sandbox::waitstatus_to_exitstatus(WaitOutcome::Other).code(), Some(255));
}

#[test]
fn killed_intermediate_is_reported_by_signal() {
    let status = Sandbox::waitstatus_to_exitstatus(WaitOutcome::Signaled(9, true));
    assert_eq!(status.signal(), Some(9));
    assert_eq!(status.code(), None);
    assert_eq!(status.into_raw(), 9);
}

#[test]
fn wait_status_words() {
    let exited = status_from_wait(WaitOutcome::Exited(3)).unwrap();
    assert_eq!(exited.into_raw(), 3 << 8);
    assert_eq!(exited.code(), Some(3));
    assert_eq!(exited.signal(), None);
    assert_eq!(exit_code(exited), 3);

    let killed = status_from_wait(WaitOutcome::Signaled(11, true)).unwrap();
    assert_eq!(killed.into_raw(), 11 | 0x80);
    assert_eq!(killed.signal(), Some(11));
    assert_eq!(killed.code(), None);
    assert_eq!(exit_code(killed), 128 + 11);

    assert!(status_from_wait(WaitOutcome::Other).is_none());
}

#[test]
fn raw_status_decoding() {
    let stopped = ExitStatus::from_raw(0x137f);
    assert_eq!(stopped.code(), None);
    assert_eq!(stopped.signal(), None);
    assert_eq!(exit_code(stopped), 128 + 127);
    assert_eq!(ExitStatus::from_raw(0x2a00).code(), Some(42));
    assert!(!ExitStatus::from_raw(0x0100).success());
}

#[test]
fn user_namespace_setup_failure_is_reported_as_255() {
    let status = Sandbox::waitstatus_to_exitstatus(WaitOutcome::Exited(EXIT_INTERNAL_FAILURE as u8));
    assert_eq!(status.code(), Some(255));
}

#[test]
fn failed_exec_is_reported_as_1() {
    assert_eq!(reported(WaitOutcome::Exited(EXIT_EXEC_FAILURE as u8)).code(), Some(1));
}

#[test]
fn intermediate_exit_codes() {
    assert_eq!(Sandbox::intermediate_exit_code(Some(WaitOutcome::Exited(42))), 42);
    assert_eq!(Sandbox::intermediate_exit_code(Some(WaitOutcome::Signaled(9, false))), 137);
    assert_eq!(Sandbox::intermediate_exit_code(None), 255);
}

#[test]
fn success_needs_a_zero_status_word() {
    assert!(ExitStatus::from_raw(0).success());
    assert!(!ExitStatus::from_raw(0x80).success());
    assert!(!ExitStatus::from_raw(0x10000).success());
}
