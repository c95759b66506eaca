//! Typed channel endpoints: the hand-off between the socket cycle and the
//! per-type producers and consumers. The queues are crossbeam's unbounded
//! channels; what they hold is shared with the other end, so nothing is
//! stated of it here.
use std::marker::PhantomData;

use crossbeam_channel::{Receiver, Sender};
use vstd::prelude::*;

use crate::wire::NetworkedEvent;

verus! {

#[verifier::external_type_specification]
#[verifier::external_body]
#[verifier::reject_recursive_types(T)]
pub struct ExSender<T>(crossbeam_channel::Sender<T>);

#[verifier::external_type_specification]
#[verifier::external_body]
#[verifier::reject_recursive_types(T)]
pub struct ExReceiver<T>(crossbeam_channel::Receiver<T>);

/// Relies on crossbeam_channel::unbounded: a fresh channel whose two ends
/// are returned.
#[verifier::external_body]
pub(crate) fn open_channel() -> (Sender<NetworkedEvent>, Receiver<NetworkedEvent>) {
    crossbeam_channel::unbounded()
}

/// Relies on crossbeam_channel::Sender::try_send: enqueues without blocking;
/// `false` when the receiving end is gone.
#[verifier::external_body]
pub(crate) fn try_deliver(sender: &Sender<NetworkedEvent>, event: NetworkedEvent) -> (r: bool) {
    sender.try_send(event).is_ok()
}

/// Relies on crossbeam_channel::Receiver::try_iter: takes every event queued
/// at the moment, without blocking.
#[verifier::external_body]
pub(crate) fn take_queued(queue: &Receiver<NetworkedEvent>) -> Vec<NetworkedEvent> {
    queue.try_iter().collect()
}

/// The receiving end of the channel was dropped.
#[derive(Debug, PartialEq, Eq, Structural, Clone, Copy)]
pub struct ChannelClosed;

/// Consumer side of one event type's inbound channel.
pub struct ReceiverQueue<T> {
    pub marker: PhantomData<T>,
    pub queue: Receiver<NetworkedEvent>,
}

impl<T> ReceiverQueue<T> {
    pub fn new(queue: Receiver<NetworkedEvent>) -> (r: Self)
        ensures
            r.queue == queue,
    {
        ReceiverQueue { marker: PhantomData, queue }
    }

    /// Every event queued for this type at the moment of the call.
    pub fn drain(&self) -> Vec<NetworkedEvent> {
        take_queued(&self.queue)
    }
}

/// Producer side of a socket's outbound channel.
pub struct Dispatcher<S> {
    pub marker: PhantomData<S>,
    pub sender: Sender<NetworkedEvent>,
}

impl<S> Dispatcher<S> {
    pub fn new(sender: Sender<NetworkedEvent>) -> (r: Self)
        ensures
            r.sender == sender,
    {
        Dispatcher { marker: PhantomData, sender }
    }

    /// Enqueues an event without blocking; fails only when the socket side
    /// of the channel is gone.
    pub fn dispatch(&self, msg: NetworkedEvent) -> Result<(), ChannelClosed> {
        if try_deliver(&self.sender, msg) {
            Ok(())
        } else {
            Err(ChannelClosed)
        }
    }
}

} // verus!
