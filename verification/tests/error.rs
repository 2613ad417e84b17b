use bubblewrap::parent_death::{must_kill_self, parent_death_result};
use bubblewrap::{die_with_parent, Error};

#[test]
fn error_messages() {
    assert_eq!(Error::InvalidConfig("bad").message(), "bad");
    assert_eq!(Error::ChildSetup.message(), "sandbox process failed during setup");
    assert!(Error::from_errno(2).message().contains("No such file or directory"));
}

#[test]
fn io_errors_keep_their_source() {
    let error = Error::from_errno(13);
    assert_eq!(error.io_source().unwrap().raw_os_error(), Some(13));
    let converted = Error::from(std::io::Error::from_raw_os_error(2));
    assert_eq!(converted.io_source().unwrap().raw_os_error(), Some(2));
    assert!(Error::ChildSetup.io_source().is_none());
    assert!(Error::InvalidConfig("x").io_source().is_none());
}

#[test]
fn reparented_process_kills_itself() {
    assert!(must_kill_self(1, 4242));
    assert!(!must_kill_self(4242, 4242));
}

#[test]
fn current_process_can_die_with_its_parent() {
    assert!(die_with_parent().is_ok());
}

#[test]
fn parent_death_outcomes() {
    assert!(parent_death_result(Ok(()), 7, 7, None).is_ok());
    assert!(parent_death_result(Ok(()), 1, 7, Some(Ok(()))).is_ok());
    let failed_kill = parent_death_result(Ok(()), 1, 7, Some(Err(1)));
    assert_eq!(failed_kill.unwrap_err().io_source().unwrap().raw_os_error(), Some(1));
    let failed_request = parent_death_result(Err(22), 7, 7, None);
    assert_eq!(failed_request.unwrap_err().io_source().unwrap().raw_os_error(), Some(22));
}

#[test]
fn errno_is_kept() {
    for code in [1, 2, 10, 22] {
        assert_eq!(Error::from_errno(code).io_source().unwrap().raw_os_error(), Some(code));
    }
}
