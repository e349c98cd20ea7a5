use eigen_server::error::EigenError;
use eigen_server::scheduler::{
    step, LoopAction, LoopEvent, LoopState, HEARTBEAT_PERIOD_SECS, LISTEN_ADDR, LISTEN_PORT,
    SKIP_MISSED_TICKS,
};

const EVENTS: [LoopEvent; 6] = [
    LoopEvent::Bound,
    LoopEvent::BindFailed,
    LoopEvent::Accepted,
    LoopEvent::AcceptFailed,
    LoopEvent::Tick,
    LoopEvent::Served,
];

/// Feeds the events to the loop one by one; `None` where one cannot occur.
fn drive(events: &[LoopEvent]) -> Option<(LoopState, Vec<LoopAction>)> {
    let mut state = LoopState::Binding;
    let mut actions = Vec::new();
    for event in events {
        let (next, action) = step(state, *event)?;
        state = next;
        actions.push(action);
    }
    Some((state, actions))
}

#[test]
fn the_service_listens_on_loopback_port_3000() {
    assert_eq!(LISTEN_ADDR, [127, 0, 0, 1]);
    assert_eq!(LISTEN_PORT, 3000);
}

#[test]
fn the_heartbeat_comes_every_two_seconds() {
    assert_eq!(HEARTBEAT_PERIOD_SECS, 2);
}

#[test]
fn missed_ticks_are_skipped() {
    assert!(SKIP_MISSED_TICKS);
}

#[test]
fn a_bound_socket_starts_the_wait() {
    assert_eq!(
        step(LoopState::Binding, LoopEvent::Bound),
        Some((LoopState::Waiting, LoopAction::Wait))
    );
}

#[test]
fn a_failed_bind_ends_the_service_with_a_listen_error() {
    assert_eq!(
        step(LoopState::Binding, LoopEvent::BindFailed),
        Some((LoopState::Stopped, LoopAction::Exit(EigenError::ListenError)))
    );
}

#[test]
fn an_accepted_connection_is_served() {
    assert_eq!(
        step(LoopState::Waiting, LoopEvent::Accepted),
        Some((LoopState::Serving, LoopAction::Serve))
    );
}

#[test]
fn a_failed_accept_ends_the_service_with_a_connection_error() {
    assert_eq!(
        step(LoopState::Waiting, LoopEvent::AcceptFailed),
        Some((LoopState::Stopped, LoopAction::Exit(EigenError::ConnectionError)))
    );
}

#[test]
fn a_tick_is_answered_with_one_heartbeat() {
    assert_eq!(
        step(LoopState::Waiting, LoopEvent::Tick),
        Some((LoopState::Waiting, LoopAction::Heartbeat))
    );
}

#[test]
fn a_served_connection_returns_the_loop_to_the_wait() {
    assert_eq!(
        step(LoopState::Serving, LoopEvent::Served),
        Some((LoopState::Waiting, LoopAction::Wait))
    );
}

#[test]
fn nothing_but_the_bind_can_occur_while_binding() {
    for event in EVENTS {
        let binding = event == LoopEvent::Bound || event == LoopEvent::BindFailed;
        assert_eq!(step(LoopState::Binding, event).is_some(), binding);
    }
}

#[test]
fn nothing_but_the_end_of_the_connection_can_occur_while_serving() {
    for event in EVENTS {
        assert_eq!(step(LoopState::Serving, event).is_some(), event == LoopEvent::Served);
    }
}

#[test]
fn neither_the_bind_nor_an_end_of_connection_can_occur_while_waiting() {
    for event in [LoopEvent::Bound, LoopEvent::BindFailed, LoopEvent::Served] {
        assert_eq!(step(LoopState::Waiting, event), None);
    }
}

#[test]
fn nothing_can_occur_once_stopped() {
    for event in EVENTS {
        assert_eq!(step(LoopState::Stopped, event), None);
    }
}

#[test]
fn the_loop_exits_only_on_fatal_failures() {
    let states =
        [LoopState::Binding, LoopState::Waiting, LoopState::Serving, LoopState::Stopped];
    for state in states {
        for event in EVENTS {
            match step(state, event) {
                Some((next, LoopAction::Exit(reason))) => {
                    assert!(reason.is_fatal());
                    assert_eq!(next, LoopState::Stopped);
                }
                Some((next, _)) => assert_ne!(next, LoopState::Stopped),
                None => {}
            }
        }
    }
}

#[test]
fn idle_service_emits_one_heartbeat_per_tick() {
    let run = drive(&[LoopEvent::Bound, LoopEvent::Tick, LoopEvent::Tick, LoopEvent::Tick]);
    assert_eq!(
        run,
        Some((
            LoopState::Waiting,
            vec![
                LoopAction::Wait,
                LoopAction::Heartbeat,
                LoopAction::Heartbeat,
                LoopAction::Heartbeat
            ]
        ))
    );
}

#[test]
fn connections_and_ticks_are_answered_in_the_order_they_come() {
    let run = drive(&[
        LoopEvent::Bound,
        LoopEvent::Accepted,
        LoopEvent::Served,
        LoopEvent::Tick,
        LoopEvent::Accepted,
        LoopEvent::Served,
    ]);
    assert_eq!(
        run,
        Some((
            LoopState::Waiting,
            vec![
                LoopAction::Wait,
                LoopAction::Serve,
                LoopAction::Wait,
                LoopAction::Heartbeat,
                LoopAction::Serve,
                LoopAction::Wait
            ]
        ))
    );
}

#[test]
fn a_second_connection_waits_for_the_first_to_close() {
    assert_eq!(drive(&[LoopEvent::Bound, LoopEvent::Accepted, LoopEvent::Accepted]), None);
    let run =
        drive(&[LoopEvent::Bound, LoopEvent::Accepted, LoopEvent::Served, LoopEvent::Accepted]);
    assert_eq!(
        run,
        Some((
            LoopState::Serving,
            vec![LoopAction::Wait, LoopAction::Serve, LoopAction::Wait, LoopAction::Serve]
        ))
    );
}

#[test]
fn no_heartbeat_is_emitted_while_a_connection_is_served() {
    assert_eq!(drive(&[LoopEvent::Bound, LoopEvent::Accepted, LoopEvent::Tick]), None);
    let run = drive(&[LoopEvent::Bound, LoopEvent::Accepted, LoopEvent::Served, LoopEvent::Tick]);
    assert_eq!(
        run,
        Some((
            LoopState::Waiting,
            vec![LoopAction::Wait, LoopAction::Serve, LoopAction::Wait, LoopAction::Heartbeat]
        ))
    );
}

#[test]
fn a_failed_accept_ends_a_running_service() {
    let run = drive(&[LoopEvent::Bound, LoopEvent::Tick, LoopEvent::AcceptFailed]);
    assert_eq!(
        run,
        Some((
            LoopState::Stopped,
            vec![
                LoopAction::Wait,
                LoopAction::Heartbeat,
                LoopAction::Exit(EigenError::ConnectionError)
            ]
        ))
    );
    assert_eq!(drive(&[LoopEvent::Bound, LoopEvent::AcceptFailed, LoopEvent::Tick]), None);
}
