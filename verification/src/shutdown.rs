//! Graceful shutdown: the listener runs, drains after a termination signal,
//! and stops once the connections in flight have finished. There is one way
//! through these states and no way back.

use vstd::prelude::*;

verus! {

/// Where the listener stands between start and exit.
#[derive(Clone, Copy, Debug, PartialEq, Eq, Structural)]
pub enum ShutdownState {
    /// New connections are accepted.
    Running,
    /// No new connection is accepted; those already accepted run to their end.
    Draining,
    /// Every connection has finished.
    Stopped,
}

/// What the coordinator is told.
#[derive(Clone, Copy, Debug, PartialEq, Eq, Structural)]
pub enum ShutdownEvent {
    /// The process was asked to interrupt or terminate.
    TerminationSignal,
    /// The last connection in flight has finished.
    ConnectionsFinished,
}

/// What the coordinator asks of the listener in answer to an event.
#[derive(Clone, Copy, Debug, PartialEq, Eq, Structural)]
pub enum ShutdownAction {
    /// Nothing changes.
    Continue,
    /// Stop accepting connections and let those in flight finish, however long
    /// they take.
    Drain,
    /// Leave the listen loop.
    Exit,
}

impl ShutdownState {
    /// Whether a listener in this state takes a new connection.
    pub open spec fn accepting(self) -> bool {
        self is Running
    }

    /// How far this state is along the way from start to exit.
    pub open spec fn rank(self) -> nat {
        match self {
            ShutdownState::Running => 0,
            ShutdownState::Draining => 1,
            ShutdownState::Stopped => 2,
        }
    }

    /// The state that follows this one on `event`. A signal takes a running
    /// listener to draining, the end of the last connection takes a draining
    /// one to stopped, and nothing else changes anything.
    pub open spec fn next(self, event: ShutdownEvent) -> ShutdownState {
        match (self, event) {
            (ShutdownState::Running, ShutdownEvent::TerminationSignal) => ShutdownState::Draining,
            (ShutdownState::Draining, ShutdownEvent::ConnectionsFinished) => ShutdownState::Stopped,
            _ => self,
        }
    }

    /// What the listener is asked to do when `event` arrives in this state.
    pub open spec fn action(self, event: ShutdownEvent) -> ShutdownAction {
        match (self, event) {
            (ShutdownState::Running, ShutdownEvent::TerminationSignal) => ShutdownAction::Drain,
            (ShutdownState::Draining, ShutdownEvent::ConnectionsFinished) => ShutdownAction::Exit,
            _ => ShutdownAction::Continue,
        }
    }

    /// The state reached from this one after `events`, in their order.
    pub open spec fn after(self, events: Seq<ShutdownEvent>) -> ShutdownState
        decreases events.len(),
    {
        if events.len() == 0 {
            self
        } else {
            self.after(events.drop_last()).next(events.last())
        }
    }

    /// The state a listener starts in.
    pub fn new() -> (state: ShutdownState)
        ensures
            state == ShutdownState::Running,
    {
        ShutdownState::Running
    }

    /// Whether a listener in this state takes a new connection.
    pub fn accepts_connections(&self) -> (accepts: bool)
        ensures
            accepts == self.accepting(),
    {
        match self {
            ShutdownState::Running => true,
            _ => false,
        }
    }

    /// Takes one event: returns the state that follows and what the listener
    /// is to do.
    pub fn step(self, event: ShutdownEvent) -> (outcome: (ShutdownState, ShutdownAction))
        ensures
            outcome.0 == self.next(event),
            outcome.1 == self.action(event),
    {
        match (self, event) {
            (ShutdownState::Running, ShutdownEvent::TerminationSignal) => (
                ShutdownState::Draining,
                ShutdownAction::Drain,
            ),
            (ShutdownState::Draining, ShutdownEvent::ConnectionsFinished) => (
                ShutdownState::Stopped,
                ShutdownAction::Exit,
            ),
            _ => (self, ShutdownAction::Continue),
        }
    }
}

/// No event takes a listener back: a step leaves the state where it is or
/// moves it one place on, and the listener is asked to act exactly when it
/// moves.
pub proof fn lemma_step_moves_forward(state: ShutdownState, event: ShutdownEvent)
    ensures
        state.rank() <= state.next(event).rank() <= state.rank() + 1,
        state.action(event) is Continue <==> state.next(event) == state,
        state.action(event) is Drain <==> state is Running && state.next(event) is Draining,
        state.action(event) is Exit <==> state is Draining && state.next(event) is Stopped,
{
}

/// However many events arrive, the listener is never further back than it
/// was.
pub proof fn lemma_never_goes_back(state: ShutdownState, events: Seq<ShutdownEvent>)
    ensures
        state.rank() <= state.after(events).rank(),
    decreases events.len(),
{
    if events.len() > 0 {
        lemma_never_goes_back(state, events.drop_last());
        lemma_step_moves_forward(state.after(events.drop_last()), events.last());
    }
}

/// Once a termination signal has been delivered, no new connection is
/// accepted, whatever state the signal found and whatever arrives after it.
pub proof fn lemma_signal_ends_accepting(state: ShutdownState, later: Seq<ShutdownEvent>)
    ensures
        !state.next(ShutdownEvent::TerminationSignal).after(later).accepting(),
{
    lemma_never_goes_back(state.next(ShutdownEvent::TerminationSignal), later);
}

/// Connections accepted before the signal are left to finish: a draining
/// listener stays draining under every event but the end of its last
/// connection, and only that event stops it.
pub proof fn lemma_drain_waits_for_connections(state: ShutdownState, event: ShutdownEvent)
    ensures
        state is Draining && !(event is ConnectionsFinished) ==> state.next(event) is Draining,
        state.next(event) is Stopped && !(state is Stopped) ==> state is Draining
            && event is ConnectionsFinished,
{
}

/// A stopped listener stays stopped.
pub proof fn lemma_stopped_is_final(events: Seq<ShutdownEvent>)
    ensures
        ShutdownState::Stopped.after(events) is Stopped,
{
    lemma_never_goes_back(ShutdownState::Stopped, events);
}

} // verus!
