//! The decisions of the service's single control loop.
//!
//! The loop waits on two sources at once, the listening socket and a timer,
//! and answers whichever is ready first. Waiting, serving and emitting the
//! heartbeat are the embedding program's work. What to do next is decided
//! here: the program reports each event to [`step`] and performs the action
//! that comes back.

use crate::error::EigenError;
use vstd::prelude::*;

verus! {

/// Seconds between two heartbeats.
pub const HEARTBEAT_PERIOD_SECS: u64 = 2;

/// Whether a tick that comes due while the loop is busy is dropped. Ticks are
/// never queued: the timer goes on with the next one that is still to come.
pub const SKIP_MISSED_TICKS: bool = true;

/// The address that the service listens on: the loopback address.
pub const LISTEN_ADDR: [u8; 4] = [127, 0, 0, 1];

/// The port that the service listens on.
pub const LISTEN_PORT: u16 = 3000;

/// Where the loop stands.
#[derive(Debug, Clone, Copy, PartialEq, Eq, Structural)]
pub enum LoopState {
    /// The listening socket is being bound.
    Binding,
    /// The loop waits for a connection or a tick, whichever comes first.
    Waiting,
    /// A connection is being served; the loop waits for that alone.
    Serving,
    /// The loop has ended.
    Stopped,
}

/// What the embedding program reports to the loop.
#[derive(Debug, Clone, Copy, PartialEq, Eq, Structural)]
pub enum LoopEvent {
    /// The listening socket is bound.
    Bound,
    /// The listening socket could not be bound.
    BindFailed,
    /// A connection was accepted.
    Accepted,
    /// Accepting a connection failed.
    AcceptFailed,
    /// The timer ticked.
    Tick,
    /// The connection that was being served is closed.
    Served,
}

/// What the loop asks of the embedding program.
#[derive(Debug, Clone, Copy, PartialEq, Eq, Structural)]
pub enum LoopAction {
    /// Wait for a connection or a tick.
    Wait,
    /// Serve the accepted connection to its end, then report [`LoopEvent::Served`].
    Serve,
    /// Emit a heartbeat, then wait for a connection or a tick.
    Heartbeat,
    /// Leave the loop and end the process with this failure.
    Exit(EigenError),
}

/// The state that follows an event and the action it calls for, or `None`
/// where the event cannot occur in the state.
pub open spec fn step_of(state: LoopState, event: LoopEvent) -> Option<(LoopState, LoopAction)> {
    match (state, event) {
        (LoopState::Binding, LoopEvent::Bound) => Some((LoopState::Waiting, LoopAction::Wait)),
        (LoopState::Binding, LoopEvent::BindFailed) => Some(
            (LoopState::Stopped, LoopAction::Exit(EigenError::ListenError)),
        ),
        (LoopState::Waiting, LoopEvent::Accepted) => Some((LoopState::Serving, LoopAction::Serve)),
        (LoopState::Waiting, LoopEvent::AcceptFailed) => Some(
            (LoopState::Stopped, LoopAction::Exit(EigenError::ConnectionError)),
        ),
        (LoopState::Waiting, LoopEvent::Tick) => Some((LoopState::Waiting, LoopAction::Heartbeat)),
        (LoopState::Serving, LoopEvent::Served) => Some((LoopState::Waiting, LoopAction::Wait)),
        _ => None,
    }
}

/// Answers an event: gives the next state and the action to perform.
///
/// `None` means that the event cannot occur in this state, and that nothing
/// has changed.
pub fn step(state: LoopState, event: LoopEvent) -> (r: Option<(LoopState, LoopAction)>)
    ensures
        r == step_of(state, event),
{
    match state {
        LoopState::Binding => match event {
            LoopEvent::Bound => Some((LoopState::Waiting, LoopAction::Wait)),
            LoopEvent::BindFailed => Some(
                (LoopState::Stopped, LoopAction::Exit(EigenError::ListenError)),
            ),
            _ => None,
        },
        LoopState::Waiting => match event {
            LoopEvent::Accepted => Some((LoopState::Serving, LoopAction::Serve)),
            LoopEvent::AcceptFailed => Some(
                (LoopState::Stopped, LoopAction::Exit(EigenError::ConnectionError)),
            ),
            LoopEvent::Tick => Some((LoopState::Waiting, LoopAction::Heartbeat)),
            _ => None,
        },
        LoopState::Serving => match event {
            LoopEvent::Served => Some((LoopState::Waiting, LoopAction::Wait)),
            _ => None,
        },
        LoopState::Stopped => None,
    }
}

/// The state that a loop started in `state` reaches through `events`, or
/// `None` where one of them cannot occur when its turn comes.
pub open spec fn run(state: LoopState, events: Seq<LoopEvent>) -> Option<LoopState>
    decreases events.len(),
{
    if events.len() == 0 {
        Some(state)
    } else {
        match run(state, events.drop_last()) {
            None => None,
            Some(before) => match step_of(before, events.last()) {
                None => None,
                Some((after, _)) => Some(after),
            },
        }
    }
}

/// A run that is possible stays possible when it is cut short.
pub proof fn lemma_run_prefix(state: LoopState, events: Seq<LoopEvent>, n: int)
    requires
        run(state, events) is Some,
        0 <= n <= events.len(),
    ensures
        run(state, events.take(n)) is Some,
    decreases events.len(),
{
    if n == events.len() {
        assert(events.take(n) =~= events);
    } else {
        assert(events.drop_last().take(n) =~= events.take(n));
        lemma_run_prefix(state, events.drop_last(), n);
    }
}

/// While a connection is served, the loop answers to nothing but the end of
/// that connection.
///
/// In every possible run, an accepted connection and any later event other
/// than [`LoopEvent::Served`] have a [`LoopEvent::Served`] between them. So a
/// second connection is not accepted, and no heartbeat is emitted, before the
/// connection in hand is closed.
pub proof fn lemma_served_before_anything_else(
    state: LoopState,
    events: Seq<LoopEvent>,
    i: int,
    j: int,
)
    requires
        run(state, events) is Some,
        0 <= i < j < events.len(),
        events[i] == LoopEvent::Accepted,
        events[j] != LoopEvent::Served,
    ensures
        exists|k: int| i < k < j && events[k] == LoopEvent::Served,
{
    if forall|k: int| i < k < j ==> events[k] != LoopEvent::Served {
        lemma_serving_holds(state, events, i, j);
        lemma_run_prefix(state, events, j + 1);
        let upto = events.take(j + 1);
        assert(upto.drop_last() =~= events.take(j));
        assert(upto.last() == events[j]);
        assert(step_of(LoopState::Serving, events[j]) is Some);
    }
}

/// Connections are served one at a time: in every possible run, two accepted
/// connections have the closing of the first between them.
pub proof fn lemma_one_connection_at_a_time(
    state: LoopState,
    events: Seq<LoopEvent>,
    first: int,
    second: int,
)
    requires
        run(state, events) is Some,
        0 <= first < second < events.len(),
        events[first] == LoopEvent::Accepted,
        events[second] == LoopEvent::Accepted,
    ensures
        exists|k: int| first < k < second && events[k] == LoopEvent::Served,
{
    lemma_served_before_anything_else(state, events, first, second);
}

/// No heartbeat is emitted while a connection is served: in every possible
/// run, an accepted connection and a later tick have the closing of that
/// connection between them.
pub proof fn lemma_no_heartbeat_while_serving(
    state: LoopState,
    events: Seq<LoopEvent>,
    accepted: int,
    tick: int,
)
    requires
        run(state, events) is Some,
        0 <= accepted < tick < events.len(),
        events[accepted] == LoopEvent::Accepted,
        events[tick] == LoopEvent::Tick,
    ensures
        exists|k: int| accepted < k < tick && events[k] == LoopEvent::Served,
{
    lemma_served_before_anything_else(state, events, accepted, tick);
}

/// Each action answers one kind of event: a connection is served only when
/// one was accepted during the wait, and a heartbeat is emitted only for a
/// tick during the wait, one heartbeat for one tick.
pub proof fn lemma_actions_answer_their_events(state: LoopState, event: LoopEvent)
    ensures
        step_of(state, event) == Some((LoopState::Serving, LoopAction::Serve)) <==> (state
            == LoopState::Waiting && event == LoopEvent::Accepted),
        step_of(state, event) == Some((LoopState::Waiting, LoopAction::Heartbeat)) <==> (state
            == LoopState::Waiting && event == LoopEvent::Tick),
        match step_of(state, event) {
            Some((after, action)) => {
                &&& action == LoopAction::Serve <==> after == LoopState::Serving
                &&& action == LoopAction::Heartbeat ==> after == LoopState::Waiting
            },
            None => true,
        },
{
}

/// After a connection is accepted the loop is serving, and stays so until
/// that connection is closed.
proof fn lemma_serving_holds(state: LoopState, events: Seq<LoopEvent>, i: int, j: int)
    requires
        run(state, events) is Some,
        0 <= i < j <= events.len(),
        events[i] == LoopEvent::Accepted,
        forall|k: int| i < k < j ==> events[k] != LoopEvent::Served,
    ensures
        run(state, events.take(j)) == Some(LoopState::Serving),
    decreases j - i,
{
    lemma_run_prefix(state, events, j);
    let upto = events.take(j);
    assert(upto.drop_last() =~= events.take(j - 1));
    assert(upto.last() == events[j - 1]);
    if j == i + 1 {
        lemma_run_prefix(state, events, i);
    } else {
        lemma_serving_holds(state, events, i, j - 1);
    }
}

/// The loop ends only on a failure that ends the service, and once it has
/// ended nothing can occur.
pub proof fn lemma_exit_is_final(state: LoopState, event: LoopEvent, next: LoopEvent)
    ensures
        match step_of(state, event) {
            Some((after, LoopAction::Exit(e))) => e.fatal() && after == LoopState::Stopped,
            Some((after, _)) => after != LoopState::Stopped,
            None => true,
        },
        step_of(LoopState::Stopped, next) is None,
{
}

} // verus!
