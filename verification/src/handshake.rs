//! The setup handshake between the process that spawns a sandbox (the parent)
//! and the intermediate process that it forks.
//!
//! The intermediate process enters a new user namespace and announces it; the
//! parent writes the id maps of that namespace and confirms them (or aborts);
//! the intermediate process then becomes root in the namespace, forks the init
//! process and announces it. Each side is a state machine here: given its state
//! and what its last action led to, it says what to do next. The caller carries
//! out the actions (pipe reads and writes, id-map writes, forks).
use crate::error::Error;
use crate::protocol::Message;
use vstd::prelude::*;

verus! {

/// What the last action of a side led to.
#[derive(Clone, Copy, Debug, PartialEq, Eq, Structural)]
pub enum Event {
    /// A message was received.
    Received(Message),
    /// Receiving failed: the pipe was closed, reading failed, or the byte
    /// carried no message.
    ReceiveFailed,
    /// The message was sent.
    Sent,
    /// Sending failed.
    SendFailed,
    /// The work of the step (writing id maps, launching init) succeeded.
    Succeeded,
    /// The work of the step failed.
    Failed,
}

/// The states of the parent.
#[derive(Clone, Copy, Debug, PartialEq, Eq, Structural)]
pub enum ParentState {
    AwaitingUserNamespace,
    WritingIdMaps,
    ConfirmingIdMaps,
    AwaitingInit,
    /// The sandbox is running; the intermediate process is handed back.
    Ready,
    /// The setup failed.
    GaveUp,
}

/// What the parent does next.
#[derive(Clone, Copy, Debug, PartialEq, Eq, Structural)]
pub enum ParentAction {
    /// Receive a message from the intermediate process.
    Receive,
    /// Write the id maps of the intermediate process's user namespace.
    WriteIdMaps,
    /// Send a message to the intermediate process.
    Send(Message),
    /// Send `Abort` (whether or not that works), reap the intermediate process
    /// and return the error of the id-map write.
    AbortSetup,
    /// Reap the intermediate process and return `Error::ChildSetup`.
    FailSetup,
    /// Return the error of the failed send.
    ReturnError,
    /// Return the pid of the intermediate process.
    Finish,
}

/// The states of the intermediate process.
#[derive(Clone, Copy, Debug, PartialEq, Eq, Structural)]
pub enum ChildState {
    AnnouncingUserNamespace,
    AwaitingIdMaps,
    LaunchingInit,
    AnnouncingInit,
    /// Init runs; the intermediate process waits for it.
    Running,
    /// The setup failed.
    GaveUp,
}

/// What the intermediate process does next.
#[derive(Clone, Copy, Debug, PartialEq, Eq, Structural)]
pub enum ChildAction {
    /// Send a message to the parent.
    Send(Message),
    /// Receive a message from the parent.
    Receive,
    /// Become root in the namespace, enter the configured namespaces and fork
    /// the init process.
    LaunchInit,
    /// Close the pipe and wait for the init process.
    WaitForInit,
    /// Return the error of the failed step.
    ReturnError,
    /// Return `Error::ChildSetup`: the parent aborted.
    FailSetup,
    /// Return the error for a message that does not fit the protocol state.
    RejectMessage,
}

/// Which events can follow the action that the parent took in `state`.
pub open spec fn parent_accepts(state: ParentState, event: Event) -> bool {
    match state {
        ParentState::AwaitingUserNamespace | ParentState::AwaitingInit => event is Received
            || event is ReceiveFailed,
        ParentState::WritingIdMaps => event is Succeeded || event is Failed,
        ParentState::ConfirmingIdMaps => event is Sent || event is SendFailed,
        ParentState::Ready | ParentState::GaveUp => false,
    }
}

/// The transitions of the parent.
pub open spec fn parent_step(state: ParentState, event: Event) -> (ParentState, ParentAction) {
    match (state, event) {
        (ParentState::AwaitingUserNamespace, Event::Received(Message::UserNamespaceReady)) => (
            ParentState::WritingIdMaps,
            ParentAction::WriteIdMaps,
        ),
        (ParentState::AwaitingUserNamespace, _) => (ParentState::GaveUp, ParentAction::FailSetup),
        (ParentState::WritingIdMaps, Event::Succeeded) => (
            ParentState::ConfirmingIdMaps,
            ParentAction::Send(Message::IdMappingsInstalled),
        ),
        (ParentState::WritingIdMaps, _) => (ParentState::GaveUp, ParentAction::AbortSetup),
        (ParentState::ConfirmingIdMaps, Event::Sent) => (
            ParentState::AwaitingInit,
            ParentAction::Receive,
        ),
        (ParentState::ConfirmingIdMaps, _) => (ParentState::GaveUp, ParentAction::ReturnError),
        (ParentState::AwaitingInit, Event::Received(Message::InitReady)) => (
            ParentState::Ready,
            ParentAction::Finish,
        ),
        (_, _) => (ParentState::GaveUp, ParentAction::FailSetup),
    }
}

/// Which events can follow the action that the intermediate process took in
/// `state`.
pub open spec fn child_accepts(state: ChildState, event: Event) -> bool {
    match state {
        ChildState::AnnouncingUserNamespace | ChildState::AnnouncingInit => event is Sent
            || event is SendFailed,
        ChildState::AwaitingIdMaps => event is Received || event is ReceiveFailed,
        ChildState::LaunchingInit => event is Succeeded || event is Failed,
        ChildState::Running | ChildState::GaveUp => false,
    }
}

/// The transitions of the intermediate process.
pub open spec fn child_step(state: ChildState, event: Event) -> (ChildState, ChildAction) {
    match (state, event) {
        (ChildState::AnnouncingUserNamespace, Event::Sent) => (
            ChildState::AwaitingIdMaps,
            ChildAction::Receive,
        ),
        (ChildState::AwaitingIdMaps, Event::Received(Message::IdMappingsInstalled)) => (
            ChildState::LaunchingInit,
            ChildAction::LaunchInit,
        ),
        (ChildState::AwaitingIdMaps, Event::Received(Message::Abort)) => (
            ChildState::GaveUp,
            ChildAction::FailSetup,
        ),
        (ChildState::AwaitingIdMaps, Event::Received(_)) => (
            ChildState::GaveUp,
            ChildAction::RejectMessage,
        ),
        (ChildState::LaunchingInit, Event::Succeeded) => (
            ChildState::AnnouncingInit,
            ChildAction::Send(Message::InitReady),
        ),
        (ChildState::AnnouncingInit, Event::Sent) => (
            ChildState::Running,
            ChildAction::WaitForInit,
        ),
        (_, _) => (ChildState::GaveUp, ChildAction::ReturnError),
    }
}

/// The text of the error for a message that does not fit the protocol state.
pub open spec fn unexpected_message_text() -> Seq<char> {
    "unexpected process protocol state"@
}

impl ParentState {
    /// The state in which the parent starts, right after the fork, and its
    /// first action.
    pub fn start() -> (start: (ParentState, ParentAction))
        ensures
            start == (ParentState::AwaitingUserNamespace, ParentAction::Receive),
    {
        (ParentState::AwaitingUserNamespace, ParentAction::Receive)
    }

    /// The next state and action of the parent after `event`.
    pub fn step(self, event: Event) -> (next: (ParentState, ParentAction))
        requires
            parent_accepts(self, event),
        ensures
            next == parent_step(self, event),
    {
        match (self, event) {
            (ParentState::AwaitingUserNamespace, Event::Received(Message::UserNamespaceReady)) => (
                ParentState::WritingIdMaps,
                ParentAction::WriteIdMaps,
            ),
            (ParentState::AwaitingUserNamespace, _) => (
                ParentState::GaveUp,
                ParentAction::FailSetup,
            ),
            (ParentState::WritingIdMaps, Event::Succeeded) => (
                ParentState::ConfirmingIdMaps,
                ParentAction::Send(Message::IdMappingsInstalled),
            ),
            (ParentState::WritingIdMaps, _) => (ParentState::GaveUp, ParentAction::AbortSetup),
            (ParentState::ConfirmingIdMaps, Event::Sent) => (
                ParentState::AwaitingInit,
                ParentAction::Receive,
            ),
            (ParentState::ConfirmingIdMaps, _) => (ParentState::GaveUp, ParentAction::ReturnError),
            (ParentState::AwaitingInit, Event::Received(Message::InitReady)) => (
                ParentState::Ready,
                ParentAction::Finish,
            ),
            (_, _) => (ParentState::GaveUp, ParentAction::FailSetup),
        }
    }
}

impl ChildState {
    /// The state in which the intermediate process starts, right after it has
    /// entered its user namespace, and its first action.
    pub fn start() -> (start: (ChildState, ChildAction))
        ensures
            start == (
                ChildState::AnnouncingUserNamespace,
                ChildAction::Send(Message::UserNamespaceReady),
            ),
    {
        (ChildState::AnnouncingUserNamespace, ChildAction::Send(Message::UserNamespaceReady))
    }

    /// The next state and action of the intermediate process after `event`.
    pub fn step(self, event: Event) -> (next: (ChildState, ChildAction))
        requires
            child_accepts(self, event),
        ensures
            next == child_step(self, event),
    {
        match (self, event) {
            (ChildState::AnnouncingUserNamespace, Event::Sent) => (
                ChildState::AwaitingIdMaps,
                ChildAction::Receive,
            ),
            (ChildState::AwaitingIdMaps, Event::Received(Message::IdMappingsInstalled)) => (
                ChildState::LaunchingInit,
                ChildAction::LaunchInit,
            ),
            (ChildState::AwaitingIdMaps, Event::Received(Message::Abort)) => (
                ChildState::GaveUp,
                ChildAction::FailSetup,
            ),
            (ChildState::AwaitingIdMaps, Event::Received(_)) => (
                ChildState::GaveUp,
                ChildAction::RejectMessage,
            ),
            (ChildState::LaunchingInit, Event::Succeeded) => (
                ChildState::AnnouncingInit,
                ChildAction::Send(Message::InitReady),
            ),
            (ChildState::AnnouncingInit, Event::Sent) => (
                ChildState::Running,
                ChildAction::WaitForInit,
            ),
            (_, _) => (ChildState::GaveUp, ChildAction::ReturnError),
        }
    }
}

/// The error that the intermediate process returns for a message that does
/// not fit the protocol state.
pub fn unexpected_message() -> (e: Error)
    ensures
        e matches Error::InvalidConfig(text) && text@ == unexpected_message_text(),
{
    Error::InvalidConfig("unexpected process protocol state")
}

/// How a setup in which every message arrives ends, for the parent and for the
/// intermediate process, given whether the parent could write the id maps and
/// whether the intermediate process could launch init. Messages are sent in
/// the order of the handshake, and a side that gives up closes its pipe, so
/// that the other side's next receive fails.
pub open spec fn handshake_outcome(maps_written: bool, init_launched: bool) -> (
    (ParentState, ParentAction),
    (ChildState, ChildAction),
) {
    // The intermediate process announces its user namespace.
    let (c1, _) = child_step(ChildState::AnnouncingUserNamespace, Event::Sent);
    // The parent receives the announcement and writes the id maps.
    let (p1, _) = parent_step(
        ParentState::AwaitingUserNamespace,
        Event::Received(Message::UserNamespaceReady),
    );
    if !maps_written {
        // The parent aborts; the intermediate process receives `Abort`.
        let parent = parent_step(p1, Event::Failed);
        let child = child_step(c1, Event::Received(Message::Abort));
        (parent, child)
    } else {
        let (p2, _) = parent_step(p1, Event::Succeeded);
        let (p3, _) = parent_step(p2, Event::Sent);
        let (c2, _) = child_step(c1, Event::Received(Message::IdMappingsInstalled));
        if !init_launched {
            // The intermediate process gives up and closes its pipe.
            let child = child_step(c2, Event::Failed);
            let parent = parent_step(p3, Event::ReceiveFailed);
            (parent, child)
        } else {
            let (c3, _) = child_step(c2, Event::Succeeded);
            let child = child_step(c3, Event::Sent);
            let parent = parent_step(p3, Event::Received(Message::InitReady));
            (parent, child)
        }
    }
}

/// The handshake of a sandbox setup: the parent hands back the sandbox exactly
/// when it could write the id maps and the intermediate process could launch
/// init, and then the intermediate process waits for init. When the id maps
/// cannot be written, the parent aborts and reports the write error, and the
/// intermediate process fails with `ChildSetup`. When init cannot be launched,
/// the intermediate process reports its error and the parent fails with
/// `ChildSetup`.
pub proof fn lemma_handshake(maps_written: bool, init_launched: bool)
    ensures
        ({
            let ((parent, parent_action), (child, child_action)) = handshake_outcome(
                maps_written,
                init_launched,
            );
            &&& (parent == ParentState::Ready) <==> (maps_written && init_launched)
            &&& maps_written && init_launched ==> parent_action == ParentAction::Finish && child
                == ChildState::Running && child_action == ChildAction::WaitForInit
            &&& !maps_written ==> parent_action == ParentAction::AbortSetup && child_action
                == ChildAction::FailSetup
            &&& maps_written && !init_launched ==> parent_action == ParentAction::FailSetup
                && child_action == ChildAction::ReturnError
        }),
{
}

} // verus!
