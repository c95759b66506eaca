//! The event type registry: one inbound channel per registered tag, and the
//! routing of received envelopes to them.
use crossbeam_channel::{Receiver, Sender};
use vstd::prelude::*;

use crate::channel::{open_channel, try_deliver};
use crate::wire::{envelope_id, envelope_payload, envelope_tag, is_envelope, EventId, NetworkedEvent};

verus! {

/// A tag was registered twice.
#[derive(Debug, PartialEq, Eq, Structural, Clone, Copy)]
pub enum RegistryError {
    Duplicate(EventId),
}

/// Why a received datagram was not handed to a consumer.
#[derive(Debug, PartialEq, Eq, Structural, Clone, Copy)]
pub enum ReceiveError {
    /// The bytes are not a whole envelope.
    Malformed,
    /// A well-formed envelope whose tag no type was registered under.
    UnregisteredTag(EventId),
    /// The consumer of this tag dropped its end of the channel.
    ChannelClosed(EventId),
}

/// Maps each registered tag to the sending end of its inbound channel.
pub struct ReceiverMap {
    ids: Vec<EventId>,
    senders: Vec<Sender<NetworkedEvent>>,
}

impl ReceiverMap {
    /// The registered tags, in order of registration.
    pub closed spec fn tags(&self) -> Seq<u64> {
        self.ids@.map_values(|e: EventId| e.t)
    }

    /// Each tag has one entry, and one channel.
    pub closed spec fn wf(&self) -> bool {
        &&& self.ids@.len() == self.senders@.len()
        &&& self.tags().no_duplicates()
    }

    pub fn new() -> (r: ReceiverMap)
        ensures
            r.wf(),
            r.tags() == Seq::<u64>::empty(),
    {
        let r = ReceiverMap { ids: Vec::new(), senders: Vec::new() };
        assert(r.tags() =~= Seq::<u64>::empty());
        r
    }

    /// The position of `id` among the registered tags, if it is there.
    pub fn lookup(&self, id: EventId) -> (r: Option<usize>)
        requires
            self.wf(),
        ensures
            r is None <==> !self.tags().contains(id.t),
            r matches Some(i) ==> i < self.tags().len() && self.tags()[i as int] == id.t,
    {
        let mut i: usize = 0;
        while i < self.ids.len()
            invariant
                i <= self.ids@.len(),
                forall|j: int| 0 <= j < i ==> self.tags()[j] != id.t,
            decreases self.ids@.len() - i,
        {
            if self.ids[i].t == id.t {
                assert(self.tags()[i as int] == id.t);
                return Some(i);
            }
            i = i + 1;
        }
        proof {
            if self.tags().contains(id.t) {
                let j = choose|j: int| 0 <= j < self.tags().len() && self.tags()[j] == id.t;
                assert(self.tags()[j] != id.t);
            }
        }
        None
    }

    /// Registers `sender` as the inbound channel of `id`; fails if `id` is
    /// registered already, leaving the registry as it was.
    pub fn register(&mut self, id: EventId, sender: Sender<NetworkedEvent>) -> (r: Result<
        (),
        RegistryError,
    >)
        requires
            old(self).wf(),
        ensures
            final(self).wf(),
            r is Err <==> old(self).tags().contains(id.t),
            r is Err ==> r == Err::<(), RegistryError>(RegistryError::Duplicate(id))
                && final(self).tags() == old(self).tags(),
            r is Ok ==> final(self).tags() == old(self).tags().push(id.t),
    {
        if self.lookup(id).is_some() {
            return Err(RegistryError::Duplicate(id));
        }
        self.ids.push(id);
        self.senders.push(sender);
        assert(self.tags() =~= old(self).tags().push(id.t));
        Ok(())
    }

    /// Opens the inbound channel of a new event type, registers its sending
    /// end under `id`, and returns the receiving end to the consumer.
    pub fn add_event_type(&mut self, id: EventId) -> (r: Result<
        Receiver<NetworkedEvent>,
        RegistryError,
    >)
        requires
            old(self).wf(),
        ensures
            final(self).wf(),
            r is Err <==> old(self).tags().contains(id.t),
            r is Err ==> final(self).tags() == old(self).tags(),
            r is Ok ==> final(self).tags() == old(self).tags().push(id.t),
    {
        let (sender, queue) = open_channel();
        match self.register(id, sender) {
            Ok(()) => Ok(queue),
            Err(e) => Err(e),
        }
    }

    /// Where the bytes of a datagram go: the position of its tag's channel,
    /// or why it goes nowhere.
    pub fn destination(&self, bytes: &[u8]) -> (r: Result<(usize, NetworkedEvent), ReceiveError>)
        requires
            self.wf(),
        ensures
            r == Err::<(usize, NetworkedEvent), ReceiveError>(ReceiveError::Malformed) <==> !is_envelope(bytes@),
            is_envelope(bytes@) && !self.tags().contains(envelope_tag(bytes@) as u64) ==> r
                == Err::<(usize, NetworkedEvent), ReceiveError>(
                ReceiveError::UnregisteredTag(envelope_id(bytes@)),
            ),
            r matches Ok((i, e)) ==> {
                &&& is_envelope(bytes@)
                &&& e.id.t == envelope_tag(bytes@)
                &&& e.data@ == envelope_payload(bytes@)
                &&& i < self.tags().len()
                &&& self.tags()[i as int] == e.id.t
            },
            is_envelope(bytes@) && self.tags().contains(envelope_tag(bytes@) as u64) ==> r is Ok,
    {
        match NetworkedEvent::decode(bytes) {
            Err(_) => Err(ReceiveError::Malformed),
            Ok(event) => {
                match self.lookup(event.id) {
                    None => Err(ReceiveError::UnregisteredTag(event.id)),
                    Some(i) => Ok((i, event)),
                }
            },
        }
    }

    /// Routes the bytes of one datagram to the channel of its tag.
    pub fn route(&self, bytes: &[u8]) -> (r: Result<EventId, ReceiveError>)
        requires
            self.wf(),
        ensures
            r == Err::<EventId, ReceiveError>(ReceiveError::Malformed) <==> !is_envelope(bytes@),
            is_envelope(bytes@) && !self.tags().contains(envelope_tag(bytes@) as u64) ==> r
                == Err::<EventId, ReceiveError>(
                ReceiveError::UnregisteredTag(envelope_id(bytes@)),
            ),
            is_envelope(bytes@) && self.tags().contains(envelope_tag(bytes@) as u64) ==> {
                let id = envelope_id(bytes@);
                r == Ok::<EventId, ReceiveError>(id) || r == Err::<EventId, ReceiveError>(
                    ReceiveError::ChannelClosed(id),
                )
            },
    {
        match self.destination(bytes) {
            Err(e) => Err(e),
            Ok((i, event)) => {
                let id = event.id;
                if try_deliver(&self.senders[i], event) {
                    Ok(id)
                } else {
                    Err(ReceiveError::ChannelClosed(id))
                }
            },
        }
    }
}

} // verus!
