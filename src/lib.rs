//! Typed events multiplexed over non-blocking datagram sockets: readiness
//! flags fed by a poller, a registry that routes each envelope to its type's
//! channel, and the per-tick dispatch and receive decisions.
use vstd::prelude::*;

pub mod channel;
pub mod dispatch;
pub mod readiness;
pub mod receive;
pub mod registry;
pub mod setup;
pub mod wire;

pub use channel::{ChannelClosed, Dispatcher, ReceiverQueue};
pub use dispatch::{DispatchStep, OutboundQueue, SendOutcome};
pub use readiness::{TokenStatus, TokenStatusMap};
pub use receive::{after_receive, ReceiveStep, RecvOutcome, BUFFER_SIZE};
pub use registry::{ReceiveError, ReceiverMap, RegistryError};
pub use setup::{
    Dispatch, NetworkCore, NetworkStage, Networked, NetworkedEventPlugins, Receive, SocketPlugin,
    SocketSetup,
};
pub use wire::{EnvelopeError, EventId, NetworkedEvent};

verus! {

} // verus!
