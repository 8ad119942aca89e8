use vstd::prelude::*;

verus! {

/// Where a viewer's connection stands.
#[derive(Debug, Clone, Copy, PartialEq, Eq, Structural)]
pub enum ConnState {
    /// The socket was upgraded; no subscription yet.
    Upgraded,
    /// Subscribed to the broadcast channel; nothing forwarded yet.
    Subscribed,
    /// Forwarding records as frames.
    Forwarding,
    /// The peer or the channel closed.
    Closed,
    /// A frame could not be sent.
    SendError,
    /// The subscriber fell behind the channel's capacity.
    Lagged,
}

/// What happened to a connection since its last step.
pub enum ConnEvent {
    /// The subscription to the broadcast channel was made.
    Subscribed,
    /// A record arrived from the channel.
    Received(String),
    /// The channel reported that records were dropped for this subscriber.
    Lagged,
    /// The channel has no sender left.
    ChannelClosed,
    /// The peer closed the socket.
    PeerClosed,
    /// The last frame was sent.
    Sent,
    /// The last frame could not be sent.
    SendFailed,
}

/// What the server is to do next for a connection.
pub enum ConnAction {
    /// Subscribe to the broadcast channel.
    Subscribe,
    /// Wait for the next record.
    AwaitRecord,
    /// Send this text as one frame.
    SendFrame(String),
    /// Drop the subscription and end the connection.
    Release,
}

pub open spec fn is_terminal(s: ConnState) -> bool {
    s == ConnState::Closed || s == ConnState::SendError || s == ConnState::Lagged
}

/// The state after `e` in state `s`. A terminal state is kept; a close ends
/// any other; events that do not fit the state leave it as it is.
pub open spec fn next_state(s: ConnState, e: ConnEvent) -> ConnState {
    if is_terminal(s) {
        s
    } else {
        match e {
            ConnEvent::PeerClosed | ConnEvent::ChannelClosed => ConnState::Closed,
            ConnEvent::Subscribed => if s == ConnState::Upgraded {
                ConnState::Subscribed
            } else {
                s
            },
            ConnEvent::Received(_) => if s == ConnState::Upgraded {
                s
            } else {
                ConnState::Forwarding
            },
            ConnEvent::Lagged => if s == ConnState::Upgraded {
                s
            } else {
                ConnState::Lagged
            },
            ConnEvent::Sent => s,
            ConnEvent::SendFailed => if s == ConnState::Forwarding {
                ConnState::SendError
            } else {
                s
            },
        }
    }
}

/// The action after `e` in state `s`: release on reaching a terminal state,
/// forward a received record, and otherwise wait for what the state needs.
pub open spec fn next_action(s: ConnState, e: ConnEvent) -> ConnAction {
    let n = next_state(s, e);
    if is_terminal(n) {
        ConnAction::Release
    } else if n == ConnState::Upgraded {
        ConnAction::Subscribe
    } else {
        match e {
            ConnEvent::Received(text) => ConnAction::SendFrame(text),
            _ => ConnAction::AwaitRecord,
        }
    }
}

/// A connection that was just upgraded, and what it does first.
pub fn on_upgrade() -> (r: (ConnState, ConnAction))
    ensures
        r.0 == ConnState::Upgraded,
        r.1 == ConnAction::Subscribe,
{
    (ConnState::Upgraded, ConnAction::Subscribe)
}

fn terminal(s: ConnState) -> (r: bool)
    ensures
        r == is_terminal(s),
{
    match s {
        ConnState::Closed | ConnState::SendError | ConnState::Lagged => true,
        _ => false,
    }
}

/// Takes a connection one step on: its next state and the server's next action.
pub fn step(s: ConnState, e: ConnEvent) -> (r: (ConnState, ConnAction))
    ensures
        r.0 == next_state(s, e),
        r.1 == next_action(s, e),
{
    let upgraded = match s {
        ConnState::Upgraded => true,
        _ => false,
    };
    let forwarding = match s {
        ConnState::Forwarding => true,
        _ => false,
    };
    if terminal(s) {
        return (s, ConnAction::Release);
    }
    match e {
        ConnEvent::PeerClosed | ConnEvent::ChannelClosed => (ConnState::Closed, ConnAction::Release),
        ConnEvent::Subscribed => if upgraded {
            (ConnState::Subscribed, ConnAction::AwaitRecord)
        } else {
            (s, ConnAction::AwaitRecord)
        },
        ConnEvent::Received(text) => if upgraded {
            (s, ConnAction::Subscribe)
        } else {
            (ConnState::Forwarding, ConnAction::SendFrame(text))
        },
        ConnEvent::Lagged => if upgraded {
            (s, ConnAction::Subscribe)
        } else {
            (ConnState::Lagged, ConnAction::Release)
        },
        ConnEvent::Sent => if upgraded {
            (s, ConnAction::Subscribe)
        } else {
            (s, ConnAction::AwaitRecord)
        },
        ConnEvent::SendFailed => if forwarding {
            (ConnState::SendError, ConnAction::Release)
        } else if upgraded {
            (s, ConnAction::Subscribe)
        } else {
            (s, ConnAction::AwaitRecord)
        },
    }
}

/// Once a connection has ended it stays ended and only releases.
pub proof fn lemma_terminal_absorbs(s: ConnState, e: ConnEvent)
    requires
        is_terminal(s),
    ensures
        next_state(s, e) == s,
        next_action(s, e) == ConnAction::Release,
{
}

} // verus!
