//! Setup: the phases of a tick, the typed event wrappers, socket
//! configuration, and the ordered construction of the readiness store and the
//! registry before any socket or event type is added.
use std::marker::PhantomData;

use crossbeam_channel::Receiver;
use vstd::prelude::*;

use crate::channel::{open_channel, Dispatcher};
use crate::dispatch::OutboundQueue;
use crate::readiness::TokenStatusMap;
use crate::registry::{ReceiverMap, RegistryError};
use crate::wire::{EventId, NetworkedEvent};

verus! {

/// The phases that the host runs in each tick: reading from the sockets,
/// consuming what was read, producing what is to be sent, and sending it.
#[derive(Debug, Hash, PartialEq, Eq, Structural, Clone, Copy)]
pub enum NetworkStage {
    Receive,
    PostReceive,
    PreDispatch,
    Dispatch,
}

/// A type of event that can travel between peers, under a stable tag of its
/// own.
pub trait Networked {
    fn event_id() -> EventId;
}

/// An event that a producer hands over to be sent.
#[derive(Debug)]
pub struct Dispatch<T: Networked>(pub T);

/// An event that arrived from a peer.
#[derive(Debug)]
pub struct Receive<T: Networked>(pub T);

/// Where a socket binds and which peers it sends to, as the host gives them.
pub struct SocketPlugin<T = ()> {
    marker: PhantomData<T>,
    addr: String,
    peer_addrs: Vec<String>,
}

impl<T> SocketPlugin<T> {
    pub closed spec fn spec_addr(&self) -> Seq<char> {
        self.addr@
    }

    pub closed spec fn spec_peer_addrs(&self) -> Seq<String> {
        self.peer_addrs@
    }

    pub fn addr(&self) -> (r: &String)
        ensures
            r@ == self.spec_addr(),
    {
        &self.addr
    }

    pub fn peer_addrs(&self) -> (r: &Vec<String>)
        ensures
            r@ == self.spec_peer_addrs(),
    {
        &self.peer_addrs
    }
}

impl SocketPlugin {
    pub fn new(addr: String, peer_addrs: Vec<String>) -> (r: Self)
        ensures
            r.spec_addr() == addr@,
            r.spec_peer_addrs() == peer_addrs@,
    {
        SocketPlugin { marker: PhantomData, addr, peer_addrs }
    }
}

/// One socket and one event type, set up together.
pub struct NetworkedEventPlugins<T> {
    marker: PhantomData<T>,
    addr: String,
    peer_addrs: Vec<String>,
}

impl<T: Networked> NetworkedEventPlugins<T> {
    pub closed spec fn spec_addr(&self) -> Seq<char> {
        self.addr@
    }

    pub closed spec fn spec_peer_addrs(&self) -> Seq<String> {
        self.peer_addrs@
    }

    pub fn new(addr: String, peer_addrs: Vec<String>) -> (r: Self)
        ensures
            r.spec_addr() == addr@,
            r.spec_peer_addrs() == peer_addrs@,
    {
        NetworkedEventPlugins { marker: PhantomData, addr, peer_addrs }
    }

    /// The configuration of the socket of the group.
    pub fn socket(&self) -> (r: SocketPlugin)
        ensures
            r.spec_addr() == self.spec_addr(),
            r.spec_peer_addrs() == self.spec_peer_addrs(),
    {
        SocketPlugin::new(self.addr.clone(), self.peer_addrs.clone())
    }
}

/// What a newly added socket needs for its cycles: its token, the producer
/// side of its outbound channel, the channel's other end, and an empty
/// outbound queue for its peers.
pub struct SocketSetup<S> {
    pub token: usize,
    pub dispatcher: Dispatcher<S>,
    pub outbound: Receiver<NetworkedEvent>,
    pub queue: OutboundQueue,
}

/// The readiness store and the registry, built first; sockets and event
/// types are then added to them.
pub struct NetworkCore {
    pub statuses: TokenStatusMap,
    pub receivers: ReceiverMap,
}

impl NetworkCore {
    pub open spec fn wf(&self) -> bool {
        self.receivers.wf()
    }

    pub fn new() -> (r: NetworkCore)
        ensures
            r.wf(),
            r.statuses.len() == 0,
            r.receivers.tags() == Seq::<u64>::empty(),
    {
        NetworkCore { statuses: TokenStatusMap::new(), receivers: ReceiverMap::new() }
    }

    /// Adds a socket with `peer_count` peers: a fresh token with cleared
    /// flags, and a new outbound channel.
    pub fn add_socket<S>(&mut self, peer_count: usize) -> (r: SocketSetup<S>)
        requires
            old(self).wf(),
        ensures
            final(self).wf(),
            r.token == old(self).statuses.len(),
            final(self).statuses.len() == old(self).statuses.len() + 1,
            final(self).receivers.tags() == old(self).receivers.tags(),
            r.queue.wf(),
            r.queue.peers() == peer_count,
            r.queue.pending().len() == 0,
    {
        let token = self.statuses.register();
        let (sender, outbound) = open_channel();
        SocketSetup {
            token,
            dispatcher: Dispatcher::new(sender),
            outbound,
            queue: OutboundQueue::new(peer_count),
        }
    }

    /// Adds an event type under `id`; the result is the receiving end of its
    /// inbound channel. Fails if `id` is taken, changing nothing.
    pub fn add_event_type(&mut self, id: EventId) -> (r: Result<
        Receiver<NetworkedEvent>,
        RegistryError,
    >)
        requires
            old(self).wf(),
        ensures
            final(self).wf(),
            final(self).statuses.len() == old(self).statuses.len(),
            r is Err <==> old(self).receivers.tags().contains(id.t),
            r is Err ==> final(self).receivers.tags() == old(self).receivers.tags(),
            r is Ok ==> final(self).receivers.tags() == old(self).receivers.tags().push(id.t),
    {
        self.receivers.add_event_type(id)
    }
}

} // verus!
