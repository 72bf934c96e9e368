//! The supervisor of the connection to the device-control endpoint: it
//! keeps trying, at a fixed interval, until the connection stands.

use vstd::prelude::*;

verus! {

/// The pause between two attempts to connect, in milliseconds.
pub const RETRY_INTERVAL_MS: u64 = 2000;

/// Where the supervisor stands.
#[derive(Copy, Clone, Debug, PartialEq, Eq, Structural)]
pub enum LinkState {
    /// No connection and no attempt under way; `failures` attempts have
    /// failed so far.
    Disconnected { failures: u64 },
    /// An attempt is under way; `failures` attempts have failed so far.
    Connecting { failures: u64 },
    /// The connection stands.
    Connected,
}

/// What the supervisor learns.
#[derive(Copy, Clone, Debug, PartialEq, Eq, Structural)]
pub enum LinkEvent {
    /// The supervisor was started, or the pause after a failure is over.
    Ready,
    /// The attempt under way succeeded.
    Established,
    /// The attempt under way failed.
    Failed,
}

/// What the supervisor does next.
#[derive(Copy, Clone, Debug, PartialEq, Eq, Structural)]
pub enum LinkAction {
    /// Try to connect.
    Connect,
    /// Pause for `millis` milliseconds, then report `Ready`.
    Wait { millis: u64 },
    /// The connection stands: start serving.
    Serve,
    /// Nothing to do: the event does not concern the present state.
    Nothing,
}

/// `failures` and one more, held at the largest count.
pub open spec fn one_more(failures: u64) -> u64 {
    if failures < u64::MAX {
        (failures + 1) as u64
    } else {
        failures
    }
}

/// The transition of the supervisor.
///
/// From `Disconnected`, `Ready` starts an attempt. An attempt that succeeds
/// leads to `Connected`; one that fails is counted and leads back to
/// `Disconnected` after the fixed pause, however many have failed before.
/// `Connected` is final. An event that does not fit the state changes
/// nothing.
pub open spec fn link_transition(state: LinkState, event: LinkEvent) -> (LinkState, LinkAction) {
    match (state, event) {
        (LinkState::Disconnected { failures }, LinkEvent::Ready) => (
            LinkState::Connecting { failures },
            LinkAction::Connect,
        ),
        (LinkState::Connecting { failures }, LinkEvent::Established) => (
            LinkState::Connected,
            LinkAction::Serve,
        ),
        (LinkState::Connecting { failures }, LinkEvent::Failed) => (
            LinkState::Disconnected { failures: one_more(failures) },
            LinkAction::Wait { millis: RETRY_INTERVAL_MS },
        ),
        _ => (state, LinkAction::Nothing),
    }
}

/// The supervisor before its first attempt.
pub fn link_start() -> (state: LinkState)
    ensures
        state == (LinkState::Disconnected { failures: 0 }),
{
    LinkState::Disconnected { failures: 0 }
}

/// Takes one step of the supervisor: see [`link_transition`].
pub fn link_step(state: LinkState, event: LinkEvent) -> (next: (LinkState, LinkAction))
    ensures
        next == link_transition(state, event),
{
    match state {
        LinkState::Disconnected { failures } => match event {
            LinkEvent::Ready => (LinkState::Connecting { failures }, LinkAction::Connect),
            _ => (state, LinkAction::Nothing),
        },
        LinkState::Connecting { failures } => match event {
            LinkEvent::Established => (LinkState::Connected, LinkAction::Serve),
            LinkEvent::Failed => {
                let counted: u64 = if failures < u64::MAX {
                    failures + 1
                } else {
                    failures
                };
                (
                    LinkState::Disconnected { failures: counted },
                    LinkAction::Wait { millis: RETRY_INTERVAL_MS },
                )
            },
            LinkEvent::Ready => (state, LinkAction::Nothing),
        },
        LinkState::Connected => (state, LinkAction::Nothing),
    }
}

/// The supervisor never gives up and never leaves a standing connection:
/// a failed attempt is always followed by the fixed pause and a return to
/// `Disconnected`, from where `Ready` starts the next attempt; and no event
/// moves it out of `Connected`.
pub proof fn lemma_link_retries_forever(failures: u64, event: LinkEvent)
    ensures
        link_transition(LinkState::Connecting { failures }, LinkEvent::Failed).1 == (
        LinkAction::Wait { millis: RETRY_INTERVAL_MS }),
        link_transition(LinkState::Connecting { failures }, LinkEvent::Failed).0
            is Disconnected,
        link_transition(
            link_transition(LinkState::Connecting { failures }, LinkEvent::Failed).0,
            LinkEvent::Ready,
        ).1 == LinkAction::Connect,
        link_transition(LinkState::Connected, event) == (LinkState::Connected, LinkAction::Nothing),
{
}

} // verus!
