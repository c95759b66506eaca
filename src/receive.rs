//! The inbound side of a socket: what the receive cycle does with the
//! outcome of each read. The read itself is done by the caller, which goes on
//! while the socket is readable and the step says so.
use vstd::prelude::*;

use crate::readiness::TokenStatus;
use crate::registry::{ReceiveError, ReceiverMap};
use crate::wire::{envelope_id, envelope_tag, is_envelope, EventId};

verus! {

/// Size of the buffer that each datagram is read into; longer datagrams are
/// cut short by the transport and then fail to decode.
pub const BUFFER_SIZE: usize = 64;

/// How one read from the socket went.
#[derive(Debug, Clone)]
pub enum RecvOutcome {
    /// The bytes of one datagram.
    Datagram(Vec<u8>),
    WouldBlock,
    Failed,
}

/// What the receive cycle does after a read.
#[derive(Debug, PartialEq, Eq, Structural, Clone, Copy)]
pub enum ReceiveStep {
    /// The event went to the channel of its tag; go on reading.
    Delivered(EventId),
    /// The datagram was dropped, for the reason given; go on reading.
    Dropped(ReceiveError),
    /// Nothing more to read: the socket has been marked unreadable.
    Stop,
    /// A socket error other than would-block: give up on this socket.
    Fatal,
}

impl ReceiveStep {
    /// The cycle reads on after this step (while the socket stays readable).
    pub open spec fn goes_on(self) -> bool {
        self is Delivered || self is Dropped
    }

    pub fn reads_on(&self) -> (r: bool)
        ensures
            r == self.goes_on(),
    {
        match self {
            ReceiveStep::Delivered(_) => true,
            ReceiveStep::Dropped(_) => true,
            _ => false,
        }
    }
}

/// Takes in the outcome of one read: routes a datagram to the channel of
/// its tag, or drops it with the reason; on would-block marks the socket
/// unreadable and stops; on any other failure stops for good.
pub fn after_receive(map: &ReceiverMap, status: &TokenStatus, outcome: RecvOutcome) -> (r:
    ReceiveStep)
    requires
        map.wf(),
    ensures
        outcome is WouldBlock ==> r == ReceiveStep::Stop,
        outcome is Failed ==> r == ReceiveStep::Fatal,
        outcome matches RecvOutcome::Datagram(b) ==> {
            &&& r.goes_on()
            &&& !is_envelope(b@) <==> r == ReceiveStep::Dropped(ReceiveError::Malformed)
            &&& is_envelope(b@) && !map.tags().contains(envelope_tag(b@) as u64) ==> r
                == ReceiveStep::Dropped(ReceiveError::UnregisteredTag(envelope_id(b@)))
            &&& is_envelope(b@) && map.tags().contains(envelope_tag(b@) as u64) ==> (r
                == ReceiveStep::Delivered(envelope_id(b@)) || r == ReceiveStep::Dropped(
                ReceiveError::ChannelClosed(envelope_id(b@)),
            ))
        },
{
    match outcome {
        RecvOutcome::Datagram(bytes) => match map.route(bytes.as_slice()) {
            Ok(id) => ReceiveStep::Delivered(id),
            Err(e) => ReceiveStep::Dropped(e),
        },
        RecvOutcome::WouldBlock => {
            status.set_readable(false);
            ReceiveStep::Stop
        },
        RecvOutcome::Failed => ReceiveStep::Fatal,
    }
}

} // verus!
