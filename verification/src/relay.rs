//! The relay of a proxied WebSocket: frames pass from each side to the
//! other until one side closes or fails, and then both are closed.

use vstd::prelude::*;

verus! {

/// One end of a relayed connection.
#[derive(Clone, Copy, Debug, PartialEq, Eq, Structural)]
pub enum Side {
    /// The browser that asked for the connection.
    Client,
    /// The backend to which it is relayed.
    Upstream,
}

/// The state of a relay.
#[derive(Clone, Copy, Debug, PartialEq, Eq, Structural)]
pub enum RelayState {
    /// Both sides are connected.
    Relaying,
    /// Both sides are closed.
    Closed,
}

/// What can happen to a relay.
#[derive(Clone, Copy, Debug, PartialEq, Eq, Structural)]
pub enum RelayEvent {
    /// A frame arrived from this side.
    Frame(Side),
    /// This side closed the connection.
    Closed(Side),
    /// Reading from or writing to this side failed.
    Failed(Side),
}

/// What the relay's owner does next.
#[derive(Clone, Copy, Debug, PartialEq, Eq, Structural)]
pub enum RelayAction {
    /// Pass the frame on to this side.
    Forward { to: Side },
    /// Close both sides. Nothing is tried again.
    CloseBoth,
    /// Nothing: the relay is closed already.
    Nothing,
}

/// The side across from `side`.
pub open spec fn across(side: Side) -> Side {
    match side {
        Side::Client => Side::Upstream,
        Side::Upstream => Side::Client,
    }
}

/// One step of a relay. A frame goes to the other side and the relay goes
/// on; a close or a failure on either side ends it; a closed relay does
/// nothing.
pub open spec fn relay_step_of(state: RelayState, event: RelayEvent) -> (RelayState, RelayAction) {
    match state {
        RelayState::Closed => (RelayState::Closed, RelayAction::Nothing),
        RelayState::Relaying => match event {
            RelayEvent::Frame(from) => (
                RelayState::Relaying,
                RelayAction::Forward { to: across(from) },
            ),
            RelayEvent::Closed(_) => (RelayState::Closed, RelayAction::CloseBoth),
            RelayEvent::Failed(_) => (RelayState::Closed, RelayAction::CloseBoth),
        },
    }
}

/// Handles one event of a relay.
pub fn relay_step(state: RelayState, event: RelayEvent) -> (r: (RelayState, RelayAction))
    ensures
        r == relay_step_of(state, event),
{
    match state {
        RelayState::Closed => (RelayState::Closed, RelayAction::Nothing),
        RelayState::Relaying => match event {
            RelayEvent::Frame(from) => {
                let to = match from {
                    Side::Client => Side::Upstream,
                    Side::Upstream => Side::Client,
                };
                (RelayState::Relaying, RelayAction::Forward { to })
            },
            RelayEvent::Closed(_) => (RelayState::Closed, RelayAction::CloseBoth),
            RelayEvent::Failed(_) => (RelayState::Closed, RelayAction::CloseBoth),
        },
    }
}

} // verus!
