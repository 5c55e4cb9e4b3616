//! The connection supervisor: what to do about each thing that happens to the
//! listening socket and to the sessions it launched.
//!
//! The supervisor binds once and then accepts for ever. The caller owns the
//! socket and the tasks: it tells the supervisor what happened, and does what
//! the supervisor answers.

use vstd::prelude::*;

verus! {

/// Where the supervisor stands.
#[derive(Clone, Copy, Debug, PartialEq, Eq, Structural)]
pub enum SupervisorState {
    /// The listening socket is not bound yet.
    Starting,
    /// The socket is bound and connections are accepted.
    Listening,
    /// The socket could not be bound: nothing will be served.
    Aborted,
}

/// Something that happened to the listening socket or to a session.
#[derive(Clone, Debug, PartialEq, Eq)]
pub enum SupervisorEvent {
    /// The listening socket was bound at this address.
    Bound { address: String },
    /// The listening socket could not be bound.
    BindFailed { reason: String },
    /// A connection from this remote address was accepted.
    Accepted { remote: String },
    /// An attempt to accept a connection failed.
    AcceptFailed { reason: String },
    /// The session of the connection from this remote address is over, with
    /// the error that ended it, if one did.
    SessionFinished { remote: String, failure: Option<String> },
}

/// What the caller is to do next.
#[derive(Clone, Debug, PartialEq, Eq)]
pub enum SupervisorAction {
    /// Report that the server listens at this address, and start to accept.
    Listen { address: String },
    /// Report that the address could not be bound, and give up.
    Abort { reason: String },
    /// Report the connection, and launch a session of its own for it, with a
    /// handler of its own, that blocks neither the accepting nor another
    /// session.
    Serve { remote: String },
    /// Report the failed attempt, and go on accepting.
    ReportAcceptFailure { reason: String },
    /// Report the end of the session, and go on accepting.
    ReportSessionEnd { remote: String, failure: Option<String> },
    /// Nothing: the event has no meaning where the supervisor stands.
    Ignore,
}

/// The mathematical value of a [`SupervisorEvent`].
pub enum SupervisorEventModel {
    Bound { address: Seq<char> },
    BindFailed { reason: Seq<char> },
    Accepted { remote: Seq<char> },
    AcceptFailed { reason: Seq<char> },
    SessionFinished { remote: Seq<char>, failure: Option<Seq<char>> },
}

/// The mathematical value of a [`SupervisorAction`].
pub enum SupervisorActionModel {
    Listen { address: Seq<char> },
    Abort { reason: Seq<char> },
    Serve { remote: Seq<char> },
    ReportAcceptFailure { reason: Seq<char> },
    ReportSessionEnd { remote: Seq<char>, failure: Option<Seq<char>> },
    Ignore,
}

/// The mathematical value of a text that may be absent.
pub open spec fn text_view(text: Option<String>) -> Option<Seq<char>> {
    match text {
        Some(t) => Some(t@),
        None => None,
    }
}

impl View for SupervisorEvent {
    type V = SupervisorEventModel;

    open spec fn view(&self) -> SupervisorEventModel {
        match self {
            SupervisorEvent::Bound { address } => SupervisorEventModel::Bound { address: address@ },
            SupervisorEvent::BindFailed { reason } => SupervisorEventModel::BindFailed {
                reason: reason@,
            },
            SupervisorEvent::Accepted { remote } => SupervisorEventModel::Accepted {
                remote: remote@,
            },
            SupervisorEvent::AcceptFailed { reason } => SupervisorEventModel::AcceptFailed {
                reason: reason@,
            },
            SupervisorEvent::SessionFinished {
                remote,
                failure,
            } => SupervisorEventModel::SessionFinished {
                remote: remote@,
                failure: text_view(*failure),
            },
        }
    }
}

impl View for SupervisorAction {
    type V = SupervisorActionModel;

    open spec fn view(&self) -> SupervisorActionModel {
        match self {
            SupervisorAction::Listen { address } => SupervisorActionModel::Listen {
                address: address@,
            },
            SupervisorAction::Abort { reason } => SupervisorActionModel::Abort { reason: reason@ },
            SupervisorAction::Serve { remote } => SupervisorActionModel::Serve { remote: remote@ },
            SupervisorAction::ReportAcceptFailure {
                reason,
            } => SupervisorActionModel::ReportAcceptFailure { reason: reason@ },
            SupervisorAction::ReportSessionEnd {
                remote,
                failure,
            } => SupervisorActionModel::ReportSessionEnd {
                remote: remote@,
                failure: text_view(*failure),
            },
            SupervisorAction::Ignore => SupervisorActionModel::Ignore,
        }
    }
}

/// Where the supervisor stands after `event`. Only the outcome of binding
/// moves it: once it listens, it listens for ever.
pub open spec fn next_state(state: SupervisorState, event: SupervisorEventModel) -> SupervisorState {
    match (state, event) {
        (SupervisorState::Starting, SupervisorEventModel::Bound { .. }) => SupervisorState::Listening,
        (SupervisorState::Starting, SupervisorEventModel::BindFailed { .. }) => SupervisorState::Aborted,
        _ => state,
    }
}

/// What the caller is to do about `event` where the supervisor stands at
/// `state`.
pub open spec fn action_for(
    state: SupervisorState,
    event: SupervisorEventModel,
) -> SupervisorActionModel {
    match (state, event) {
        (
            SupervisorState::Starting,
            SupervisorEventModel::Bound { address },
        ) => SupervisorActionModel::Listen { address },
        (
            SupervisorState::Starting,
            SupervisorEventModel::BindFailed { reason },
        ) => SupervisorActionModel::Abort { reason },
        (
            SupervisorState::Listening,
            SupervisorEventModel::Accepted { remote },
        ) => SupervisorActionModel::Serve { remote },
        (
            SupervisorState::Listening,
            SupervisorEventModel::AcceptFailed { reason },
        ) => SupervisorActionModel::ReportAcceptFailure { reason },
        (
            SupervisorState::Listening,
            SupervisorEventModel::SessionFinished { remote, failure },
        ) => SupervisorActionModel::ReportSessionEnd { remote, failure },
        _ => SupervisorActionModel::Ignore,
    }
}

/// Where the supervisor stands after all of `events`, in this order.
pub open spec fn state_after(
    state: SupervisorState,
    events: Seq<SupervisorEventModel>,
) -> SupervisorState
    decreases events.len(),
{
    if events.len() == 0 {
        state
    } else {
        next_state(state_after(state, events.drop_last()), events.last())
    }
}

/// No failure ends the supervisor. Once it listens, whatever happens and in
/// whatever order, failed attempts to accept and failed sessions among it, the
/// supervisor still listens, and the next connection is served.
pub proof fn listening_survives_every_failure(
    events: Seq<SupervisorEventModel>,
    remote: Seq<char>,
)
    ensures
        state_after(SupervisorState::Listening, events) == SupervisorState::Listening,
        action_for(
            state_after(SupervisorState::Listening, events),
            SupervisorEventModel::Accepted { remote },
        ) == (SupervisorActionModel::Serve { remote }),
    decreases events.len(),
{
    if events.len() > 0 {
        listening_survives_every_failure(events.drop_last(), remote);
    }
}

/// A failure to bind is final: nothing that happens afterwards makes the
/// supervisor serve.
pub proof fn aborted_serves_nothing(events: Seq<SupervisorEventModel>, event: SupervisorEventModel)
    ensures
        state_after(SupervisorState::Aborted, events) == SupervisorState::Aborted,
        action_for(state_after(SupervisorState::Aborted, events), event)
            == SupervisorActionModel::Ignore,
    decreases events.len(),
{
    if events.len() > 0 {
        aborted_serves_nothing(events.drop_last(), event);
    }
}

/// The connection supervisor.
#[derive(Clone, Copy, Debug)]
pub struct Supervisor {
    /// Where the supervisor stands.
    pub state: SupervisorState,
}

impl Supervisor {
    /// A supervisor whose listening socket is not bound yet.
    pub fn new() -> (supervisor: Supervisor)
        ensures
            supervisor.state == SupervisorState::Starting,
    {
        Supervisor { state: SupervisorState::Starting }
    }

    /// Whether connections are accepted.
    pub fn is_listening(&self) -> (b: bool)
        ensures
            b == (self.state == SupervisorState::Listening),
    {
        self.state == SupervisorState::Listening
    }

    /// Takes note of `event` and says what the caller is to do about it.
    pub fn step(&mut self, event: SupervisorEvent) -> (action: SupervisorAction)
        ensures
            final(self).state == next_state(old(self).state, event@),
            action@ == action_for(old(self).state, event@),
    {
        match self.state {
            SupervisorState::Starting => match event {
                SupervisorEvent::Bound { address } => {
                    self.state = SupervisorState::Listening;
                    SupervisorAction::Listen { address }
                },
                SupervisorEvent::BindFailed { reason } => {
                    self.state = SupervisorState::Aborted;
                    SupervisorAction::Abort { reason }
                },
                _ => SupervisorAction::Ignore,
            },
            SupervisorState::Listening => match event {
                SupervisorEvent::Accepted { remote } => SupervisorAction::Serve { remote },
                SupervisorEvent::AcceptFailed { reason } => SupervisorAction::ReportAcceptFailure {
                    reason,
                },
                SupervisorEvent::SessionFinished {
                    remote,
                    failure,
                } => SupervisorAction::ReportSessionEnd { remote, failure },
                _ => SupervisorAction::Ignore,
            },
            SupervisorState::Aborted => SupervisorAction::Ignore,
        }
    }
}

} // verus!
