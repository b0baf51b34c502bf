//! The listener, as a state machine.
//!
//! The listener binds its one address. If that fails it stops, and the
//! process is to exit with a failure status. Else it accepts connections for
//! as long as the process lives: each accepted stream goes to a handler of
//! its own, and an accept that fails is logged and passed over.

use vstd::prelude::*;
use crate::log::{
    listen_address, log_views, LogLine, LogLineView, SERVER_ADDRESS, SERVER_PORT,
};

verus! {

/// The exit status of a process whose listener could not bind.
pub const BIND_FAILURE_STATUS: i32 = 1;

/// Where the listener stands.
#[derive(Clone, Copy, Debug, PartialEq, Eq, Structural)]
pub enum ListenerState {
    /// The address is not bound yet.
    Binding,
    /// The address is bound; connections are accepted.
    Listening,
    /// The listener has given up; the process exits with the status held.
    Stopped(i32),
}

/// The work that a listener's state waits for.
#[derive(Clone, Copy, Debug, PartialEq, Eq, Structural)]
pub enum ListenerOperation {
    /// Bind the address.
    Bind,
    /// Wait for the next connection.
    Accept,
    /// Exit with the status held.
    Exit(i32),
}

/// How the work that the listener waited for went. A failure carries its
/// cause as text.
#[derive(Clone, Debug, PartialEq, Eq)]
pub enum ListenerEvent {
    /// The address is bound.
    Bound,
    /// The address could not be bound.
    BindFailed(String),
    /// A connection came in, and its stream is at hand.
    StreamAccepted,
    /// A connection came in, but could not be accepted.
    AcceptFailed(String),
}

/// A listener's event, as plain values.
pub enum ListenerEventView {
    Bound,
    BindFailed(Seq<char>),
    StreamAccepted,
    AcceptFailed(Seq<char>),
}

impl View for ListenerEvent {
    type V = ListenerEventView;

    open spec fn view(&self) -> ListenerEventView {
        match self {
            ListenerEvent::Bound => ListenerEventView::Bound,
            ListenerEvent::BindFailed(cause) => ListenerEventView::BindFailed(cause@),
            ListenerEvent::StreamAccepted => ListenerEventView::StreamAccepted,
            ListenerEvent::AcceptFailed(cause) => ListenerEventView::AcceptFailed(cause@),
        }
    }
}

/// Where the listener stands after an event, what it logs for it, and
/// whether the stream at hand goes to a new handler.
#[derive(Clone, Debug, PartialEq, Eq)]
pub struct ListenerStep {
    pub next: ListenerState,
    pub log: Vec<LogLine>,
    pub dispatch: bool,
}

/// A listener's step, as plain values.
pub struct ListenerStepView {
    pub next: ListenerState,
    pub log: Seq<LogLineView>,
    pub dispatch: bool,
}

impl View for ListenerStep {
    type V = ListenerStepView;

    open spec fn view(&self) -> ListenerStepView {
        ListenerStepView { next: self.next, log: log_views(self.log@), dispatch: self.dispatch }
    }
}

/// The work that a listener's state waits for.
pub open spec fn listener_awaits(state: ListenerState) -> ListenerOperation {
    match state {
        ListenerState::Binding => ListenerOperation::Bind,
        ListenerState::Listening => ListenerOperation::Accept,
        ListenerState::Stopped(status) => ListenerOperation::Exit(status),
    }
}

/// Where a listener in `state` stands after `event`, what it logs, and
/// whether it hands a stream on. An event that the state does not wait for
/// changes nothing, logs nothing and hands nothing on.
pub open spec fn listened(state: ListenerState, event: ListenerEventView) -> ListenerStepView {
    match (state, event) {
        (ListenerState::Binding, ListenerEventView::Bound) => ListenerStepView {
            next: ListenerState::Listening,
            log: seq![LogLineView::ServerStarted],
            dispatch: false,
        },
        (ListenerState::Binding, ListenerEventView::BindFailed(cause)) => ListenerStepView {
            next: ListenerState::Stopped(BIND_FAILURE_STATUS),
            log: seq![LogLineView::BindFailed(cause)],
            dispatch: false,
        },
        (ListenerState::Listening, ListenerEventView::StreamAccepted) => ListenerStepView {
            next: ListenerState::Listening,
            log: Seq::empty(),
            dispatch: true,
        },
        (ListenerState::Listening, ListenerEventView::AcceptFailed(cause)) => ListenerStepView {
            next: ListenerState::Listening,
            log: seq![LogLineView::AcceptFailed(cause)],
            dispatch: false,
        },
        _ => ListenerStepView { next: state, log: Seq::empty(), dispatch: false },
    }
}

impl ListenerState {
    /// The state of a listener that has not bound its address yet.
    pub fn new() -> (state: ListenerState)
        ensures
            state == ListenerState::Binding,
    {
        ListenerState::Binding
    }

    /// The work that the state waits for.
    pub fn awaits(&self) -> (operation: ListenerOperation)
        ensures
            operation == listener_awaits(*self),
    {
        match self {
            ListenerState::Binding => ListenerOperation::Bind,
            ListenerState::Listening => ListenerOperation::Accept,
            ListenerState::Stopped(status) => ListenerOperation::Exit(*status),
        }
    }
}

/// Takes a listener in `state` through `event`: says where it stands after
/// it, what it logs, and whether the stream at hand goes to a new handler.
pub fn listen(state: ListenerState, event: ListenerEvent) -> (step: ListenerStep)
    ensures
        step@ == listened(state, event@),
{
    let mut log: Vec<LogLine> = Vec::new();
    let mut dispatch = false;
    let next = match (state, event) {
        (ListenerState::Binding, ListenerEvent::Bound) => {
            log.push(LogLine::ServerStarted);
            ListenerState::Listening
        },
        (ListenerState::Binding, ListenerEvent::BindFailed(cause)) => {
            log.push(LogLine::BindFailed(cause));
            ListenerState::Stopped(BIND_FAILURE_STATUS)
        },
        (ListenerState::Listening, ListenerEvent::StreamAccepted) => {
            dispatch = true;
            ListenerState::Listening
        },
        (ListenerState::Listening, ListenerEvent::AcceptFailed(cause)) => {
            log.push(LogLine::AcceptFailed(cause));
            ListenerState::Listening
        },
        (state, _) => state,
    };
    assert(log_views(log@) =~= listened(state, event@).log);
    ListenerStep { next, log, dispatch }
}

/// A bind that fails stops the listener for good: the process is to exit
/// with status 1, after one line that names the host, the port and the cause.
pub proof fn law_bind_failure_is_fatal(cause: Seq<char>)
    ensures
        listened(ListenerState::Binding, ListenerEventView::BindFailed(cause)).next
            == ListenerState::Stopped(1),
        listener_awaits(ListenerState::Stopped(1)) == ListenerOperation::Exit(1),
        listened(ListenerState::Binding, ListenerEventView::BindFailed(cause)).log == seq![
            LogLineView::BindFailed(cause),
        ],
        LogLineView::BindFailed(cause).text() == "Unable to bind to the '"@ + SERVER_ADDRESS@
            + "' address and port '"@ + SERVER_PORT@ + "': "@ + cause,
        forall|event: ListenerEventView|
            listened(ListenerState::Stopped(1), event).next == ListenerState::Stopped(1),
{
}

/// A bind that succeeds is logged in one line, which carries the address
/// bound, and the listener starts to accept.
pub proof fn law_bind_success_starts_listening()
    ensures
        listened(ListenerState::Binding, ListenerEventView::Bound) == (ListenerStepView {
            next: ListenerState::Listening,
            log: seq![LogLineView::ServerStarted],
            dispatch: false,
        }),
        LogLineView::ServerStarted.text() == "Server started at: "@ + listen_address(),
{
}

/// Nothing that is reported to a listening listener stops it: after an accept
/// that failed, as after one that worked, it waits for the next connection.
/// A stream is handed on exactly for an accept that worked, and a line is
/// logged exactly for one that failed.
pub proof fn law_listening_never_stops(event: ListenerEventView)
    ensures
        listened(ListenerState::Listening, event).next == ListenerState::Listening,
        listened(ListenerState::Listening, event).dispatch <==> event is StreamAccepted,
        listened(ListenerState::Listening, event).log.len() > 0 <==> event is AcceptFailed,
        event matches ListenerEventView::AcceptFailed(cause) ==> listened(
            ListenerState::Listening,
            event,
        ).log == seq![LogLineView::AcceptFailed(cause)],
{
}

} // verus!
