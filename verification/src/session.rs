//! A session as its handler sees it: a sequence of events, delivered one at a
//! time and in the order of arrival, until a callback fails.

use crate::handler::{
    outcome_view, OutcomeModel, Record, SessionData, SessionDataModel, SessionError,
    SessionHandler,
};
use vstd::prelude::*;

verus! {

/// An event that a session engine delivers to the handler of its session.
#[derive(Clone, Debug, PartialEq, Eq)]
pub enum SessionEvent {
    /// Data was received on a stream.
    Data { stream_id: u32, data: SessionData },
    /// A stream was published.
    Publish { stream_id: u32, app_name: String, stream_name: String },
    /// A stream was unpublished.
    Unpublish { stream_id: u32 },
}

/// The mathematical value of a [`SessionEvent`].
pub enum SessionEventModel {
    Data { stream_id: u32, data: SessionDataModel },
    Publish { stream_id: u32, app_name: Seq<char>, stream_name: Seq<char> },
    Unpublish { stream_id: u32 },
}

impl View for SessionEvent {
    type V = SessionEventModel;

    open spec fn view(&self) -> SessionEventModel {
        match self {
            SessionEvent::Data { stream_id, data } => SessionEventModel::Data {
                stream_id: *stream_id,
                data: data@,
            },
            SessionEvent::Publish { stream_id, app_name, stream_name } => SessionEventModel::Publish {
                stream_id: *stream_id,
                app_name: app_name@,
                stream_name: stream_name@,
            },
            SessionEvent::Unpublish { stream_id } => SessionEventModel::Unpublish {
                stream_id: *stream_id,
            },
        }
    }
}

/// Whether the callback for `event` may return `outcome`.
pub open spec fn event_allows<H: SessionHandler>(
    handler: &H,
    event: SessionEventModel,
    outcome: OutcomeModel,
) -> bool {
    match event {
        SessionEventModel::Data { stream_id, data } => handler.data_allows(
            stream_id,
            data,
            outcome,
        ),
        SessionEventModel::Publish { stream_id, app_name, stream_name } => handler.publish_allows(
            stream_id,
            app_name,
            stream_name,
            outcome,
        ),
        SessionEventModel::Unpublish { stream_id } => handler.unpublish_allows(stream_id, outcome),
    }
}

/// Whether a session with these outcomes so far has ended: its last callback
/// failed.
pub open spec fn has_ended(trace: Seq<OutcomeModel>) -> bool {
    trace.len() > 0 && trace.last() is Err
}

/// Whether `trace` is what the callbacks of a session may return, in the
/// order of their calls, when `events` arrive in this order. Each event gets
/// its callback once the events before it have had theirs, unless the session
/// has ended by then: the last event either found the session ended and got
/// no call, or got the last call.
pub open spec fn is_session_trace<H: SessionHandler>(
    handler: &H,
    events: Seq<SessionEventModel>,
    trace: Seq<OutcomeModel>,
) -> bool
    decreases events.len(),
{
    if events.len() == 0 {
        trace.len() == 0
    } else {
        ||| has_ended(trace) && is_session_trace(handler, events.drop_last(), trace)
        ||| {
            &&& trace.len() > 0
            &&& !has_ended(trace.drop_last())
            &&& is_session_trace(handler, events.drop_last(), trace.drop_last())
            &&& event_allows(handler, events.last(), trace.last())
        }
    }
}

/// The mathematical value of a sequence of events.
pub open spec fn events_view(events: Seq<SessionEvent>) -> Seq<SessionEventModel> {
    events.map_values(|event: SessionEvent| event@)
}

/// The mathematical value of what the callbacks of a session returned.
pub open spec fn trace_view(trace: Seq<Result<Record, SessionError>>) -> Seq<OutcomeModel> {
    trace.map_values(|r: Result<Record, SessionError>| outcome_view(r))
}

/// Callbacks follow the order of arrival. Whatever the handler and the events:
/// the call number `i` of the session is the callback for the event number
/// `i`, so that no event is passed over, moved or delivered twice; every call
/// but the last succeeded; and events are left without a call only where the
/// last call failed.
pub proof fn callbacks_follow_arrival_order<H: SessionHandler>(
    handler: &H,
    events: Seq<SessionEventModel>,
    trace: Seq<OutcomeModel>,
)
    requires
        is_session_trace(handler, events, trace),
    ensures
        trace.len() <= events.len(),
        forall|i: int| 0 <= i < trace.len() ==> event_allows(handler, events[i], #[trigger] trace[i]),
        forall|i: int| 0 <= i < trace.len() - 1 ==> #[trigger] trace[i] is Ok,
        trace.len() < events.len() ==> has_ended(trace),
    decreases events.len(),
{
    if events.len() > 0 {
        if has_ended(trace) && is_session_trace(handler, events.drop_last(), trace) {
            callbacks_follow_arrival_order(handler, events.drop_last(), trace);
        } else {
            callbacks_follow_arrival_order(handler, events.drop_last(), trace.drop_last());
            assert forall|i: int| 0 <= i < trace.len() implies event_allows(
                handler,
                events[i],
                #[trigger] trace[i],
            ) by {
                if i < trace.len() - 1 {
                    assert(trace[i] == trace.drop_last()[i]);
                    assert(events[i] == events.drop_last()[i]);
                }
            }
            assert forall|i: int| 0 <= i < trace.len() - 1 implies #[trigger] trace[i] is Ok by {
                assert(trace[i] == trace.drop_last()[i]);
            }
        }
    }
}

/// What a session has seen does not change with what arrives later: a session
/// that has ended makes no further call, whatever follows.
pub proof fn ended_session_takes_no_more<H: SessionHandler>(
    handler: &H,
    events: Seq<SessionEventModel>,
    more: Seq<SessionEventModel>,
    trace: Seq<OutcomeModel>,
)
    requires
        is_session_trace(handler, events, trace),
        has_ended(trace),
    ensures
        is_session_trace(handler, events + more, trace),
    decreases more.len(),
{
    if more.len() == 0 {
        assert(events + more =~= events);
    } else {
        ended_session_takes_no_more(handler, events, more.drop_last(), trace);
        assert((events + more).drop_last() =~= events + more.drop_last());
    }
}

/// An event of a run of two sessions: the event, and whether it arrived in
/// the first session.
pub struct Arrival {
    pub first: bool,
    pub event: SessionEventModel,
}

/// The events of one of two sessions, in the order of their arrival.
pub open spec fn arrivals_of(arrivals: Seq<Arrival>, first: bool) -> Seq<SessionEventModel>
    decreases arrivals.len(),
{
    if arrivals.len() == 0 {
        Seq::empty()
    } else if arrivals.last().first == first {
        arrivals_of(arrivals.drop_last(), first).push(arrivals.last().event)
    } else {
        arrivals_of(arrivals.drop_last(), first)
    }
}

/// Whether `first` and `second` are what the callbacks of two sessions, each
/// with a handler of its own, may return when the events of both arrive in
/// the one order of `arrivals`: the last arrival belongs to one session,
/// which it found ended or which made its last call for it, and it left the
/// other session as it was.
pub open spec fn is_joint_trace<A: SessionHandler, B: SessionHandler>(
    one: &A,
    other: &B,
    arrivals: Seq<Arrival>,
    first: Seq<OutcomeModel>,
    second: Seq<OutcomeModel>,
) -> bool
    decreases arrivals.len(),
{
    if arrivals.len() == 0 {
        first.len() == 0 && second.len() == 0
    } else if arrivals.last().first {
        ||| has_ended(first) && is_joint_trace(one, other, arrivals.drop_last(), first, second)
        ||| {
            &&& first.len() > 0
            &&& !has_ended(first.drop_last())
            &&& is_joint_trace(one, other, arrivals.drop_last(), first.drop_last(), second)
            &&& event_allows(one, arrivals.last().event, first.last())
        }
    } else {
        ||| has_ended(second) && is_joint_trace(one, other, arrivals.drop_last(), first, second)
        ||| {
            &&& second.len() > 0
            &&& !has_ended(second.drop_last())
            &&& is_joint_trace(one, other, arrivals.drop_last(), first, second.drop_last())
            &&& event_allows(other, arrivals.last().event, second.last())
        }
    }
}

/// Sessions do not interfere. When the events of two sessions arrive in any
/// one order, what the callbacks of each session return is what they may
/// return for the events of that session alone, in their own order: the
/// number, the timing and the outcome of the calls of the other session play
/// no part.
pub proof fn sessions_do_not_interfere<A: SessionHandler, B: SessionHandler>(
    one: &A,
    other: &B,
    arrivals: Seq<Arrival>,
    first: Seq<OutcomeModel>,
    second: Seq<OutcomeModel>,
)
    requires
        is_joint_trace(one, other, arrivals, first, second),
    ensures
        is_session_trace(one, arrivals_of(arrivals, true), first),
        is_session_trace(other, arrivals_of(arrivals, false), second),
    decreases arrivals.len(),
{
    if arrivals.len() > 0 {
        let rest = arrivals.drop_last();
        let last = arrivals.last();
        if last.first {
            assert(arrivals_of(arrivals, true).drop_last() =~= arrivals_of(rest, true));
            if has_ended(first) && is_joint_trace(one, other, rest, first, second) {
                sessions_do_not_interfere(one, other, rest, first, second);
            } else {
                sessions_do_not_interfere(one, other, rest, first.drop_last(), second);
            }
        } else {
            assert(arrivals_of(arrivals, false).drop_last() =~= arrivals_of(rest, false));
            if has_ended(second) && is_joint_trace(one, other, rest, first, second) {
                sessions_do_not_interfere(one, other, rest, first, second);
            } else {
                sessions_do_not_interfere(one, other, rest, first, second.drop_last());
            }
        }
    }
}

/// And the other way round: whatever each of two sessions may return for its
/// own events, the two may return it in every order in which the events of
/// both arrive.
pub proof fn every_interleaving_is_a_joint_run<A: SessionHandler, B: SessionHandler>(
    one: &A,
    other: &B,
    arrivals: Seq<Arrival>,
    first: Seq<OutcomeModel>,
    second: Seq<OutcomeModel>,
)
    requires
        is_session_trace(one, arrivals_of(arrivals, true), first),
        is_session_trace(other, arrivals_of(arrivals, false), second),
    ensures
        is_joint_trace(one, other, arrivals, first, second),
    decreases arrivals.len(),
{
    if arrivals.len() > 0 {
        let rest = arrivals.drop_last();
        let last = arrivals.last();
        if last.first {
            assert(arrivals_of(arrivals, true).drop_last() =~= arrivals_of(rest, true));
            if has_ended(first) && is_session_trace(one, arrivals_of(rest, true), first) {
                every_interleaving_is_a_joint_run(one, other, rest, first, second);
            } else {
                every_interleaving_is_a_joint_run(one, other, rest, first.drop_last(), second);
            }
        } else {
            assert(arrivals_of(arrivals, false).drop_last() =~= arrivals_of(rest, false));
            if has_ended(second) && is_session_trace(other, arrivals_of(rest, false), second) {
                every_interleaving_is_a_joint_run(one, other, rest, first, second);
            } else {
                every_interleaving_is_a_joint_run(one, other, rest, first, second.drop_last());
            }
        }
    }
}

/// Hands an event to the callback that is for it.
pub fn dispatch<H: SessionHandler>(handler: &H, event: SessionEvent) -> (r: Result<
    Record,
    SessionError,
>)
    ensures
        event_allows(handler, event@, outcome_view(r)),
{
    match event {
        SessionEvent::Data { stream_id, data } => handler.on_data(stream_id, data),
        SessionEvent::Publish { stream_id, app_name, stream_name } => handler.on_publish(
            stream_id,
            app_name.as_str(),
            stream_name.as_str(),
        ),
        SessionEvent::Unpublish { stream_id } => handler.on_unpublish(stream_id),
    }
}

/// Runs a session over events that have arrived in this order, and returns
/// what each callback returned, in the order of the calls. The events after a
/// failed callback get no call.
pub fn replay<H: SessionHandler>(handler: &H, events: Vec<SessionEvent>) -> (trace: Vec<
    Result<Record, SessionError>,
>)
    ensures
        is_session_trace(handler, events_view(events@), trace_view(trace@)),
{
    let ghost all = events_view(events@);
    let mut trace: Vec<Result<Record, SessionError>> = Vec::new();
    let mut ended: bool = false;
    for event in it: events
        invariant
            it.seq() == events@,
            all == events_view(events@),
            ended == has_ended(trace_view(trace@)),
            is_session_trace(handler, all.take(it.index() as int), trace_view(trace@)),
    {
        let ghost before = trace_view(trace@);
        let ghost i = it.index() as int;
        proof {
            assert(all.take(i + 1).drop_last() =~= all.take(i));
            assert(all.take(i + 1).last() == event@);
        }
        if !ended {
            let r = dispatch(handler, event);
            ended = r.is_err();
            trace.push(r);
            proof {
                assert(trace_view(trace@).drop_last() =~= before);
                assert(trace_view(trace@).last() == outcome_view(r));
            }
        }
    }
    proof {
        assert(all.take(events@.len() as int) =~= all);
    }
    trace
}

} // verus!
