//! Tying the life of a process to the life of its parent.
use crate::error::{os_error_value, Error};
use nix::sys::prctl::set_pdeathsig;
use nix::sys::signal::{kill, Signal};
use nix::unistd::{getpid, getppid, Pid};
use vstd::prelude::*;

verus! {

/// Calls `nix::sys::prctl::set_pdeathsig(Signal::SIGKILL)`, which asks the
/// kernel to kill the calling process when its parent dies; the error, if
/// any, is handed back as its error number. Nothing is claimed about which
/// outcome comes.
#[verifier::external_body]
fn request_kill_on_parent_death() -> (result: Result<(), i32>) {
    match set_pdeathsig(Signal::SIGKILL) {
        Ok(()) => Ok(()),
        Err(errno) => Err(errno as i32),
    }
}

/// Calls `nix::unistd::getppid`: the pid of the calling process's parent,
/// which depends on the machine, so nothing is claimed about it.
#[verifier::external_body]
fn parent_pid() -> (pid: i32) {
    getppid().as_raw()
}

/// Calls `nix::unistd::getpid`: the pid of the calling process, which depends
/// on the machine, so nothing is claimed about it.
#[verifier::external_body]
fn own_pid() -> (pid: i32) {
    getpid().as_raw()
}

/// Calls `nix::sys::signal::kill` to send `SIGKILL` to the process `pid`;
/// the error, if any, is handed back as its error number. Nothing is claimed
/// about which outcome comes.
#[verifier::external_body]
fn send_sigkill(pid: i32) -> (result: Result<(), i32>) {
    match kill(Pid::from_raw(pid), Signal::SIGKILL) {
        Ok(()) => Ok(()),
        Err(errno) => Err(errno as i32),
    }
}

/// Whether the process has lost the parent it expected: its parent is now
/// another process (it was reparented because the expected one died).
pub open spec fn reparented(current_parent: i32, expected_parent: i32) -> bool {
    current_parent != expected_parent
}

/// Whether a process whose parent is now `current_parent` must kill itself
/// because it expected `expected_parent`.
pub fn must_kill_self(current_parent: i32, expected_parent: i32) -> (kill_self: bool)
    ensures
        kill_self == reparented(current_parent, expected_parent),
{
    current_parent != expected_parent
}

/// What arranging to die with the parent comes to, given what the calls
/// returned: the result of the request for the death signal, the parent seen
/// after it, and the result of the `SIGKILL` that the process sent itself,
/// if it sent one (it sends one exactly when the request succeeded and the
/// parent is no longer the expected one). It succeeds when the request
/// succeeded and no self-kill failed; a failure is the I/O error of the
/// failed call's error number.
pub fn parent_death_result(
    request: Result<(), i32>,
    current_parent: i32,
    expected_parent: i32,
    kill: Option<Result<(), i32>>,
) -> (result: Result<(), Error>)
    requires
        kill is Some <==> (request is Ok && reparented(current_parent, expected_parent)),
    ensures
        result is Ok <==> (request is Ok && (kill matches Some(k) ==> k is Ok)),
        request matches Err(code) ==> result == Err::<(), Error>(Error::Io(os_error_value(code))),
        request is Ok ==> (kill matches Some(Err(code)) ==> result == Err::<(), Error>(
            Error::Io(os_error_value(code)),
        )),
{
    match request {
        Err(code) => Err(Error::from_errno(code)),
        Ok(()) => match kill {
            Some(Err(code)) => Err(Error::from_errno(code)),
            _ => Ok(()),
        },
    }
}

/// Arranges for the calling process to be killed when `expected_parent`
/// dies. The parent is checked after the request, so that a parent that died
/// while the request was being made is not missed: the process then kills
/// itself. Every failure is the I/O error of the error number of a failed call.
pub fn set_for_parent(expected_parent: i32) -> (result: Result<(), Error>)
    ensures
        result matches Err(e) ==> exists|code: i32| e == Error::Io(#[trigger] os_error_value(code)),
{
    let request = request_kill_on_parent_death();
    if let Err(code) = request {
        return parent_death_result(Err(code), expected_parent, expected_parent, None);
    }
    let current_parent = parent_pid();
    let kill = if must_kill_self(current_parent, expected_parent) {
        Some(send_sigkill(own_pid()))
    } else {
        None
    };
    parent_death_result(request, current_parent, expected_parent, kill)
}

/// Arranges for the calling process to be killed when its current parent
/// dies.
pub fn set() -> (result: Result<(), Error>)
    ensures
        result matches Err(e) ==> exists|code: i32| e == Error::Io(#[trigger] os_error_value(code)),
{
    let parent = parent_pid();
    set_for_parent(parent)
}

} // verus!
