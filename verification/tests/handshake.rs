use bubblewrap::handshake::{
    unexpected_message, ChildAction, ChildState, Event, ParentAction, ParentState,
};
use bubblewrap::protocol::Message;
use bubblewrap::Error;

/// Runs both sides of the handshake, delivering every message, with the given
/// results of the id-map write and of launching init.
fn run(maps_written: bool, init_launched: bool) -> (ParentAction, ChildAction) {
    let (mut parent, mut parent_action) = ParentState::start();
    let (mut child, mut child_action) = ChildState::start();
    let mut to_parent: Vec<Message> = Vec::new();
    let mut to_child: Vec<Message> = Vec::new();
    let mut child_closed = false;
    for _ in 0..20 {
        let mut progressed = false;
        match child_action {
            ChildAction::Send(m) => {
                to_parent.push(m);
                (child, child_action) = child.step(Event::Sent);
                progressed = true;
            }
            ChildAction::Receive if !to_child.is_empty() => {
                let m = to_child.remove(0);
                (child, child_action) = child.step(Event::Received(m));
                progressed = true;
            }
            ChildAction::LaunchInit => {
                let event = if init_launched { Event::Succeeded } else { Event::Failed };
                (child, child_action) = child.step(event);
                progressed = true;
            }
            ChildAction::ReturnError | ChildAction::FailSetup | ChildAction::RejectMessage => {
                child_closed = true;
            }
            _ => {}
        }
        match parent_action {
            ParentAction::Receive if !to_parent.is_empty() => {
                let m = to_parent.remove(0);
                (parent, parent_action) = parent.step(Event::Received(m));
                progressed = true;
            }
            ParentAction::Receive if child_closed => {
                (parent, parent_action) = parent.step(Event::ReceiveFailed);
                progressed = true;
            }
            ParentAction::WriteIdMaps => {
                let event = if maps_written { Event::Succeeded } else { Event::Failed };
                (parent, parent_action) = parent.step(event);
                progressed = true;
            }
            ParentAction::Send(m) => {
                to_child.push(m);
                (parent, parent_action) = parent.step(Event::Sent);
                progressed = true;
            }
            ParentAction::AbortSetup => {
                if to_child.last() != Some(&Message::Abort) {
                    to_child.push(Message::Abort);
                    progressed = true;
                }
            }
            _ => {}
        }
        if !progressed {
            break;
        }
    }
    let _ = (parent, child);
    (parent_action, child_action)
}

#[test]
fn successful_setup_hands_back_the_sandbox() {
    assert_eq!(run(true, true), (ParentAction::Finish, ChildAction::WaitForInit));
}

#[test]
fn failed_id_maps_abort_the_child() {
    assert_eq!(run(false, true), (ParentAction::AbortSetup, ChildAction::FailSetup));
}

#[test]
fn failed_launch_fails_the_parent() {
    assert_eq!(run(true, false), (ParentAction::FailSetup, ChildAction::ReturnError));
}

#[test]
fn unexpected_messages() {
    let (s, a) = ParentState::AwaitingUserNamespace.step(Event::Received(Message::InitReady));
    assert_eq!((s, a), (ParentState::GaveUp, ParentAction::FailSetup));
    let (s, a) = ParentState::AwaitingUserNamespace.step(Event::ReceiveFailed);
    assert_eq!((s, a), (ParentState::GaveUp, ParentAction::FailSetup));
    let (s, a) = ParentState::ConfirmingIdMaps.step(Event::SendFailed);
    assert_eq!((s, a), (ParentState::GaveUp, ParentAction::ReturnError));
    let (s, a) = ChildState::AwaitingIdMaps.step(Event::Received(Message::InitReady));
    assert_eq!((s, a), (ChildState::GaveUp, ChildAction::RejectMessage));
    let (s, a) = ChildState::AwaitingIdMaps.step(Event::ReceiveFailed);
    assert_eq!((s, a), (ChildState::GaveUp, ChildAction::ReturnError));
    match unexpected_message() {
        Error::InvalidConfig(text) => assert_eq!(text, "unexpected process protocol state"),
        other => panic!("{:?}", other),
    }
}
