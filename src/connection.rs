//! The connection lifecycle: the decisions between the network client's
//! events, as a function from state and event to next state and actions.
//! The caller performs the actions and feeds back what happened.
use vstd::prelude::*;

verus! {

/// Where the connection stands.
#[derive(PartialEq, Eq, Structural, Clone, Copy, Debug)]
pub enum ConnectionState {
    Disconnected,
    Connecting,
    Connected,
}

/// What happened.
#[derive(PartialEq, Eq, Structural, Clone, Copy, Debug)]
pub enum ConnectionEvent {
    /// The player asked to connect, or to reconnect.
    ConnectRequest,
    /// The server accepted the connection.
    Succeeded,
    /// The connection attempt failed.
    Failed,
    /// The connection broke: a network error, a closed socket or a protocol violation.
    NetworkError,
    /// The player asked to disconnect.
    DisconnectRequest,
}

/// The next state and what the caller has to do.
#[derive(PartialEq, Eq, Structural, Clone, Copy, Debug)]
pub struct Transition {
    pub next: ConnectionState,
    /// Open a fresh connection.
    pub connect: bool,
    /// Load the data package, hydrate the checked locations, load the
    /// ledger for the slot, scout the locations and install the hooks.
    pub run_setup: bool,
    /// Close the current connection.
    pub close: bool,
    /// Forget the live view of the session (checked locations, slot and team)
    /// while keeping the ledger on disk and the last inventory.
    pub clear_live: bool,
    /// Drop the inventory, the mapping and every cached table, as if never connected.
    pub reset_all: bool,
    /// Ask to connect again at once, with no delay: the caller feeds a
    /// `ConnectRequest` back in after this transition.
    pub reconnect: bool,
}

/// A transition that does nothing but move to `next`.
pub open spec fn only(next: ConnectionState) -> Transition {
    Transition { next, connect: false, run_setup: false, close: false, clear_live: false, reset_all: false, reconnect: false }
}

/// The lifecycle's rules.
pub open spec fn transition_spec(state: ConnectionState, event: ConnectionEvent) -> Transition {
    match (state, event) {
        (ConnectionState::Disconnected, ConnectionEvent::ConnectRequest) => Transition { connect: true, ..only(ConnectionState::Connecting) },
        (ConnectionState::Connected, ConnectionEvent::ConnectRequest) => Transition {
            connect: true,
            close: true,
            clear_live: true,
            ..only(ConnectionState::Connecting)
        },
        (ConnectionState::Connecting, ConnectionEvent::Succeeded) => Transition { run_setup: true, ..only(ConnectionState::Connected) },
        (ConnectionState::Connecting, ConnectionEvent::Failed) => Transition {
            close: true,
            clear_live: true,
            reconnect: true,
            ..only(ConnectionState::Disconnected)
        },
        (ConnectionState::Connected, ConnectionEvent::NetworkError) => Transition {
            close: true,
            clear_live: true,
            reconnect: true,
            ..only(ConnectionState::Disconnected)
        },
        (ConnectionState::Connected, ConnectionEvent::DisconnectRequest) => Transition {
            close: true,
            clear_live: true,
            reset_all: true,
            ..only(ConnectionState::Disconnected)
        },
        (ConnectionState::Connecting, ConnectionEvent::DisconnectRequest) => Transition {
            close: true,
            clear_live: true,
            reset_all: true,
            ..only(ConnectionState::Disconnected)
        },
        (s, _) => only(s),
    }
}

/// Decides the next state and the actions for an event.
pub fn next_transition(state: ConnectionState, event: ConnectionEvent) -> (r: Transition)
    ensures
        r == transition_spec(state, event),
{
    let stay = Transition { next: state, connect: false, run_setup: false, close: false, clear_live: false, reset_all: false, reconnect: false };
    match (state, event) {
        (ConnectionState::Disconnected, ConnectionEvent::ConnectRequest) => Transition {
            next: ConnectionState::Connecting,
            connect: true,
            ..stay
        },
        (ConnectionState::Connected, ConnectionEvent::ConnectRequest) => Transition {
            next: ConnectionState::Connecting,
            connect: true,
            close: true,
            clear_live: true,
            ..stay
        },
        (ConnectionState::Connecting, ConnectionEvent::Succeeded) => Transition {
            next: ConnectionState::Connected,
            run_setup: true,
            ..stay
        },
        (ConnectionState::Connecting, ConnectionEvent::Failed) | (ConnectionState::Connected, ConnectionEvent::NetworkError) => Transition {
            next: ConnectionState::Disconnected,
            close: true,
            clear_live: true,
            reconnect: true,
            ..stay
        },
        (ConnectionState::Connected, ConnectionEvent::DisconnectRequest) | (ConnectionState::Connecting, ConnectionEvent::DisconnectRequest) => Transition {
            next: ConnectionState::Disconnected,
            close: true,
            clear_live: true,
            reset_all: true,
            ..stay
        },
        _ => stay,
    }
}

/// A network error or a failed attempt leaves the state `Disconnected` with
/// the live view cleared and the inventory kept, and asks for an immediate
/// reconnect, which opens a fresh connection and reaches `Connecting`. Only
/// an explicit disconnect resets everything, and it never reconnects.
pub proof fn lemma_lifecycle_recovery(state: ConnectionState, event: ConnectionEvent)
    ensures
        (state == ConnectionState::Connected && event == ConnectionEvent::NetworkError)
            || (state == ConnectionState::Connecting && event == ConnectionEvent::Failed) ==> {
            let t = transition_spec(state, event);
            &&& t.next == ConnectionState::Disconnected
            &&& t.close && t.clear_live && t.reconnect && !t.reset_all
            &&& transition_spec(t.next, ConnectionEvent::ConnectRequest).next == ConnectionState::Connecting
            &&& transition_spec(t.next, ConnectionEvent::ConnectRequest).connect
        },
        transition_spec(state, event).reset_all ==> event == ConnectionEvent::DisconnectRequest && !transition_spec(state, event).reconnect,
        event == ConnectionEvent::DisconnectRequest ==> transition_spec(state, event).next == ConnectionState::Disconnected,
        transition_spec(state, event).run_setup ==> transition_spec(state, event).next == ConnectionState::Connected,
{
}

} // verus!
