use chat_gateway::shutdown::{ShutdownAction, ShutdownEvent, ShutdownState};

const STATES: [ShutdownState; 3] =
    [ShutdownState::Running, ShutdownState::Draining, ShutdownState::Stopped];
const EVENTS: [ShutdownEvent; 2] =
    [ShutdownEvent::TerminationSignal, ShutdownEvent::ConnectionsFinished];

fn rank(state: ShutdownState) -> u8 {
    match state {
        ShutdownState::Running => 0,
        ShutdownState::Draining => 1,
        ShutdownState::Stopped => 2,
    }
}

#[test]
fn a_listener_starts_running() {
    let state = ShutdownState::new();
    assert_eq!(state, ShutdownState::Running);
    assert!(state.accepts_connections());
}

#[test]
fn a_signal_starts_the_drain() {
    assert_eq!(
        ShutdownState::Running.step(ShutdownEvent::TerminationSignal),
        (ShutdownState::Draining, ShutdownAction::Drain)
    );
}

#[test]
fn the_last_connection_ends_the_drain() {
    assert_eq!(
        ShutdownState::Draining.step(ShutdownEvent::ConnectionsFinished),
        (ShutdownState::Stopped, ShutdownAction::Exit)
    );
}

#[test]
fn a_running_listener_outlives_its_connections() {
    assert_eq!(
        ShutdownState::Running.step(ShutdownEvent::ConnectionsFinished),
        (ShutdownState::Running, ShutdownAction::Continue)
    );
}

#[test]
fn a_second_signal_changes_nothing() {
    assert_eq!(
        ShutdownState::Draining.step(ShutdownEvent::TerminationSignal),
        (ShutdownState::Draining, ShutdownAction::Continue)
    );
}

#[test]
fn a_stopped_listener_stays_stopped() {
    for event in EVENTS {
        assert_eq!(
            ShutdownState::Stopped.step(event),
            (ShutdownState::Stopped, ShutdownAction::Continue)
        );
    }
}

#[test]
fn only_a_running_listener_accepts() {
    assert!(ShutdownState::Running.accepts_connections());
    assert!(!ShutdownState::Draining.accepts_connections());
    assert!(!ShutdownState::Stopped.accepts_connections());
}

#[test]
fn no_step_goes_back() {
    for state in STATES {
        for event in EVENTS {
            let (next, action) = state.step(event);
            assert!(rank(state) <= rank(next));
            assert!(rank(next) <= rank(state) + 1);
            assert_eq!(action == ShutdownAction::Continue, next == state);
        }
    }
}

#[test]
fn nothing_is_accepted_after_a_signal() {
    for state in STATES {
        let (signalled, _) = state.step(ShutdownEvent::TerminationSignal);
        assert!(!signalled.accepts_connections());
        for first in EVENTS {
            for second in EVENTS {
                for third in EVENTS {
                    let mut current = signalled;
                    for event in [first, second, third] {
                        current = current.step(event).0;
                        assert!(!current.accepts_connections());
                    }
                }
            }
        }
    }
}

#[test]
fn a_request_in_flight_at_the_signal_is_waited_for() {
    let state = ShutdownState::new();
    let (state, action) = state.step(ShutdownEvent::TerminationSignal);
    assert_eq!(action, ShutdownAction::Drain);
    assert_eq!(state, ShutdownState::Draining);
    let (state, action) = state.step(ShutdownEvent::TerminationSignal);
    assert_eq!((state, action), (ShutdownState::Draining, ShutdownAction::Continue));
    let (state, action) = state.step(ShutdownEvent::ConnectionsFinished);
    assert_eq!((state, action), (ShutdownState::Stopped, ShutdownAction::Exit));
}
