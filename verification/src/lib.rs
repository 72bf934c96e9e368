//! Shared, exclusive, time-bounded control of one actuator.
//!
//! Many remote clients take turns at the controls of a pan/tilt/fire
//! actuator. This library holds the rules of that arrangement and proves
//! them; reading sockets, writing the serial line and keeping time-outs
//! running is left to the program around it.
//!
//! - [`queue`]: the waiting list and the active slot.
//! - [`session`], [`store`]: what is known of each connected client.
//! - [`notifier`]: which clients can be sent messages.
//! - [`state`]: the coordinator that holds the three, and the effects its
//!   operations ask for.
//! - [`arbiter`]: reconciliation, which expires holders and promotes
//!   waiters.
//! - [`router`]: what each message of the client protocol does.
//! - [`action`], [`sink`], [`device`], [`link`]: the commands, the rate
//!   limiter in front of the actuator, the device-control call, and the
//!   supervisor of the connection to the device.
//! - [`turn`], [`config`], [`decimal`]: credentials for the media relay.
//! - [`sdp`]: who may open a negotiation with the media relay.
//! - [`clock`]: where readings of time come from.
//!
//! Operations that go by the monotonic clock come in two forms. The form
//! named `..._at` takes the time as an argument and is specified exactly; the
//! form without the suffix reads the clock and does the same at that
//! reading. The wall clock, which only the relay's credentials go by, is
//! always read by the caller.

pub mod action;
pub mod arbiter;
pub mod clock;
pub mod config;
pub mod decimal;
pub mod device;
pub mod link;
pub mod message;
pub mod notifier;
pub mod queue;
pub mod router;
pub mod sdp;
pub mod session;
pub mod sink;
pub mod state;
pub mod store;
pub mod turn;
