//! The life of a WebSocket bridge, from the dial to the origin to the end of
//! both directions.
//!
//! The I/O layer owns the two sockets. After each thing it has awaited it
//! reports what happened with [`advance`], and is told what to do next.

use crate::response::{bad_request, ShellResponse, BAD_REQUEST};
use crate::seqs::lemma_contains_last;
use vstd::prelude::*;

verus! {

/// One of the two directions in which frames cross a bridge.
#[derive(Clone, Copy, Debug, PartialEq, Eq, Structural)]
pub enum Direction {
    /// From the origin to the client.
    ToClient,
    /// From the client to the origin.
    ToOrigin,
}

/// Where a bridge stands.
#[derive(Clone, Copy, Debug, PartialEq, Eq, Structural)]
pub enum BridgeState {
    /// The origin is being dialled.
    Dialing,
    /// The origin has answered; the client's side of the upgrade is awaited.
    AwaitingClient,
    /// The client's side of the upgrade failed; the origin's socket is being
    /// closed.
    ClosingOrigin,
    /// Frames are pumped. Each flag tells whether that direction still runs,
    /// and at least one does.
    Pumping { to_client: bool, to_origin: bool },
    /// The bridge is gone.
    Closed,
}

/// What the I/O layer reports.
#[derive(Clone, Copy, Debug, PartialEq, Eq, Structural)]
pub enum BridgeEvent {
    /// The origin completed the handshake.
    Dialed,
    /// The origin could not be dialled, or refused the handshake.
    DialFailed,
    /// The client's connection became a WebSocket.
    ClientUpgraded,
    /// The client's connection did not become a WebSocket.
    ClientUpgradeFailed,
    /// The origin's socket was closed.
    OriginClosed,
    /// Closing the origin's socket failed.
    OriginCloseFailed,
    /// The handler of one direction returned: its stream ended or its sink
    /// failed.
    PumpEnded { direction: Direction },
}

/// What the I/O layer is to do next.
#[derive(Clone, Copy, Debug, PartialEq, Eq, Structural)]
pub enum BridgeAction {
    /// Answer the client with the handshake response of the origin, and wait
    /// in the background for the client's connection to become a WebSocket.
    Answer,
    /// Answer the client with `response`.
    Refuse { response: ShellResponse },
    /// Hand each direction to the handler, as a task of its own.
    StartPumps,
    /// Close the socket to the origin.
    CloseOrigin,
    /// Leave the direction that still runs alone.
    Wait,
    /// Let go of the bridge.
    Stop,
}

/// Something worth a line in the log.
#[derive(Clone, Copy, Debug, PartialEq, Eq, Structural)]
pub enum BridgeReport {
    /// The client's connection did not become a WebSocket.
    ClientUpgradeFailed,
    /// The origin's socket could not be closed after that.
    OriginCloseFailed,
}

/// One step of a bridge: where it stands now, what to do, and what to log.
#[derive(Clone, Copy, Debug, PartialEq, Eq, Structural)]
pub struct BridgeStep {
    /// The state after the step.
    pub state: BridgeState,
    /// What the I/O layer is to do.
    pub action: BridgeAction,
    /// What the I/O layer is to log, if anything.
    pub report: Option<BridgeReport>,
}

impl BridgeState {
    /// Frames are being pumped in `direction`.
    pub open spec fn runs(self, direction: Direction) -> bool {
        match self {
            BridgeState::Pumping { to_client, to_origin } => match direction {
                Direction::ToClient => to_client,
                Direction::ToOrigin => to_origin,
            },
            _ => false,
        }
    }
}

/// The state of a bridge on which `direction` has come to its end.
pub open spec fn without(to_client: bool, to_origin: bool, direction: Direction) -> BridgeState {
    let to_client = to_client && direction != Direction::ToClient;
    let to_origin = to_origin && direction != Direction::ToOrigin;
    if to_client || to_origin {
        BridgeState::Pumping { to_client, to_origin }
    } else {
        BridgeState::Closed
    }
}

/// The step that a bridge in `state` takes on `event`; `None` where the event
/// cannot occur in that state.
pub open spec fn next(state: BridgeState, event: BridgeEvent) -> Option<BridgeStep> {
    match (state, event) {
        (BridgeState::Dialing, BridgeEvent::Dialed) => Some(
            BridgeStep {
                state: BridgeState::AwaitingClient,
                action: BridgeAction::Answer,
                report: None,
            },
        ),
        (BridgeState::Dialing, BridgeEvent::DialFailed) => Some(
            BridgeStep {
                state: BridgeState::Closed,
                action: BridgeAction::Refuse { response: ShellResponse { status: BAD_REQUEST } },
                report: None,
            },
        ),
        (BridgeState::AwaitingClient, BridgeEvent::ClientUpgraded) => Some(
            BridgeStep {
                state: BridgeState::Pumping { to_client: true, to_origin: true },
                action: BridgeAction::StartPumps,
                report: None,
            },
        ),
        (BridgeState::AwaitingClient, BridgeEvent::ClientUpgradeFailed) => Some(
            BridgeStep {
                state: BridgeState::ClosingOrigin,
                action: BridgeAction::CloseOrigin,
                report: Some(BridgeReport::ClientUpgradeFailed),
            },
        ),
        (BridgeState::ClosingOrigin, BridgeEvent::OriginClosed) => Some(
            BridgeStep { state: BridgeState::Closed, action: BridgeAction::Stop, report: None },
        ),
        (BridgeState::ClosingOrigin, BridgeEvent::OriginCloseFailed) => Some(
            BridgeStep {
                state: BridgeState::Closed,
                action: BridgeAction::Stop,
                report: Some(BridgeReport::OriginCloseFailed),
            },
        ),
        (
            BridgeState::Pumping { to_client, to_origin },
            BridgeEvent::PumpEnded { direction },
        ) => if state.runs(direction) {
            let state = without(to_client, to_origin, direction);
            Some(
                BridgeStep {
                    state,
                    action: if state is Closed {
                        BridgeAction::Stop
                    } else {
                        BridgeAction::Wait
                    },
                    report: None,
                },
            )
        } else {
            None
        },
        _ => None,
    }
}

/// The state of a bridge whose upstream leg has been planned: the origin is
/// being dialled.
pub fn start() -> (state: BridgeState)
    ensures
        state == BridgeState::Dialing,
{
    BridgeState::Dialing
}

/// Takes a bridge one step further.
///
/// The answer is `None`, and the bridge stays where it is, when the event
/// cannot occur in the given state.
pub fn advance(state: BridgeState, event: BridgeEvent) -> (step: Option<BridgeStep>)
    ensures
        step == next(state, event),
{
    match state {
        BridgeState::Dialing => match event {
            BridgeEvent::Dialed => Some(
                BridgeStep {
                    state: BridgeState::AwaitingClient,
                    action: BridgeAction::Answer,
                    report: None,
                },
            ),
            BridgeEvent::DialFailed => Some(
                BridgeStep {
                    state: BridgeState::Closed,
                    action: BridgeAction::Refuse { response: bad_request() },
                    report: None,
                },
            ),
            _ => None,
        },
        BridgeState::AwaitingClient => match event {
            BridgeEvent::ClientUpgraded => Some(
                BridgeStep {
                    state: BridgeState::Pumping { to_client: true, to_origin: true },
                    action: BridgeAction::StartPumps,
                    report: None,
                },
            ),
            BridgeEvent::ClientUpgradeFailed => Some(
                BridgeStep {
                    state: BridgeState::ClosingOrigin,
                    action: BridgeAction::CloseOrigin,
                    report: Some(BridgeReport::ClientUpgradeFailed),
                },
            ),
            _ => None,
        },
        BridgeState::ClosingOrigin => match event {
            BridgeEvent::OriginClosed => Some(
                BridgeStep { state: BridgeState::Closed, action: BridgeAction::Stop, report: None },
            ),
            BridgeEvent::OriginCloseFailed => Some(
                BridgeStep {
                    state: BridgeState::Closed,
                    action: BridgeAction::Stop,
                    report: Some(BridgeReport::OriginCloseFailed),
                },
            ),
            _ => None,
        },
        BridgeState::Pumping { to_client, to_origin } => match event {
            BridgeEvent::PumpEnded { direction } => {
                let (ended, other) = match direction {
                    Direction::ToClient => (to_client, to_origin),
                    Direction::ToOrigin => (to_origin, to_client),
                };
                if !ended {
                    None
                } else if other {
                    let state = match direction {
                        Direction::ToClient => BridgeState::Pumping {
                            to_client: false,
                            to_origin: true,
                        },
                        Direction::ToOrigin => BridgeState::Pumping {
                            to_client: true,
                            to_origin: false,
                        },
                    };
                    Some(BridgeStep { state, action: BridgeAction::Wait, report: None })
                } else {
                    Some(
                        BridgeStep {
                            state: BridgeState::Closed,
                            action: BridgeAction::Stop,
                            report: None,
                        },
                    )
                }
            },
            _ => None,
        },
        BridgeState::Closed => None,
    }
}

/// The state that a fresh bridge reaches when `events` occur in this order;
/// `None` if one of them could not occur where the bridge stood.
pub open spec fn state_after(events: Seq<BridgeEvent>) -> Option<BridgeState>
    decreases events.len(),
{
    if events.len() == 0 {
        Some(BridgeState::Dialing)
    } else {
        match state_after(events.drop_last()) {
            Some(state) => match next(state, events.last()) {
                Some(step) => Some(step.state),
                None => None,
            },
            None => None,
        }
    }
}

/// The end of one direction stops that direction and leaves the other as it
/// was: running if it ran, and the bridge is let go of only when neither
/// runs any more.
pub proof fn law_directions_independent(state: BridgeState, ended: Direction, other: Direction)
    requires
        state is Pumping,
        state.runs(ended),
        other != ended,
    ensures
        next(state, BridgeEvent::PumpEnded { direction: ended }) is Some,
        !next(state, BridgeEvent::PumpEnded { direction: ended })->0.state.runs(ended),
        next(state, BridgeEvent::PumpEnded { direction: ended })->0.state.runs(other)
            == state.runs(other),
        next(state, BridgeEvent::PumpEnded { direction: ended })->0.action is Stop
            <==> !state.runs(other),
{
}

/// Once the pumps have started, a direction runs until the handler of that
/// very direction returns, whatever happens to the other one.
pub proof fn law_pump_runs_to_its_own_end(events: Seq<BridgeEvent>, direction: Direction)
    requires
        state_after(events) is Some,
        events.contains(BridgeEvent::ClientUpgraded),
    ensures
        state_after(events)->0 is Pumping || state_after(events)->0 is Closed,
        state_after(events)->0.runs(direction) <==> !events.contains(
            BridgeEvent::PumpEnded { direction },
        ),
    decreases events.len(),
{
    let before = events.drop_last();
    lemma_contains_last(events, BridgeEvent::ClientUpgraded);
    lemma_contains_last(events, BridgeEvent::PumpEnded { direction });
    if before.contains(BridgeEvent::ClientUpgraded) {
        law_pump_runs_to_its_own_end(before, direction);
    } else {
        lemma_not_pumping_before_upgrade(before);
    }
}

/// A bridge does not pump before the client's connection has become a
/// WebSocket, and no direction has ended by then.
proof fn lemma_not_pumping_before_upgrade(events: Seq<BridgeEvent>)
    requires
        state_after(events) is Some,
        !events.contains(BridgeEvent::ClientUpgraded),
    ensures
        !(state_after(events)->0 is Pumping),
        forall|direction: Direction| !events.contains(BridgeEvent::PumpEnded { direction }),
    decreases events.len(),
{
    if events.len() > 0 {
        let before = events.drop_last();
        lemma_contains_last(events, BridgeEvent::ClientUpgraded);
        lemma_not_pumping_before_upgrade(before);
        assert forall|direction: Direction|
            !events.contains(BridgeEvent::PumpEnded { direction }) by {
            lemma_contains_last(events, BridgeEvent::PumpEnded { direction });
        }
    }
}

} // verus!
