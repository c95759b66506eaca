//! The outbound side of a socket: envelopes wait here until they have been
//! handed to the socket once for every peer. The socket I/O itself is done
//! by the caller, which asks for the next send and reports how it went.
use std::collections::VecDeque;

use crossbeam_channel::Receiver;
use vstd::prelude::*;

use crate::channel::take_queued;
use crate::readiness::TokenStatus;
use crate::wire::{envelope_bytes, NetworkedEvent};

verus! {

/// One send of `b` to each of the peers `0..n`, in peer order.
pub open spec fn peer_sends(b: Seq<u8>, n: nat) -> Seq<(Seq<u8>, nat)> {
    Seq::new(n, |p: int| (b, p as nat))
}

/// The envelope bytes of each event, in order.
pub open spec fn envelopes_of(events: Seq<NetworkedEvent>) -> Seq<Seq<u8>> {
    events.map_values(|e: NetworkedEvent| envelope_bytes(e.id.t, e.data@))
}

/// Every send that the items owe, item after item, each to every peer.
pub open spec fn schedule(items: Seq<Seq<u8>>, n: nat) -> Seq<(Seq<u8>, nat)>
    decreases items.len(),
{
    if items.len() == 0 {
        seq![]
    } else {
        peer_sends(items[0], n) + schedule(items.drop_first(), n)
    }
}

pub proof fn lemma_schedule_len(items: Seq<Seq<u8>>, n: nat)
    ensures
        schedule(items, n).len() == items.len() * n,
    decreases items.len(),
{
    if items.len() > 0 {
        lemma_schedule_len(items.drop_first(), n);
        assert(n + (items.len() - 1) * n == items.len() * n) by (nonlinear_arith);
    }
}

pub proof fn lemma_schedule_push(items: Seq<Seq<u8>>, x: Seq<u8>, n: nat)
    ensures
        schedule(items.push(x), n) == schedule(items, n) + peer_sends(x, n),
    decreases items.len(),
{
    if items.len() == 0 {
        assert(items.push(x).drop_first() =~= Seq::<Seq<u8>>::empty());
        assert(items.push(x)[0] == x);
        assert(schedule(Seq::<Seq<u8>>::empty(), n) =~= Seq::<(Seq<u8>, nat)>::empty());
        assert(schedule(items, n) =~= Seq::<(Seq<u8>, nat)>::empty());
        assert(schedule(items.push(x), n) =~= peer_sends(x, n));
    } else {
        assert(items.push(x).drop_first() =~= items.drop_first().push(x));
        lemma_schedule_push(items.drop_first(), x, n);
        assert(schedule(items.push(x), n) =~= schedule(items, n) + peer_sends(x, n));
    }
}

/// The schedule of a sequence of items holds the send of item `i` to peer
/// `p` exactly once, at place `i * n + p`: each item goes to every peer once,
/// and the items go out in the order in which they were enqueued.
pub proof fn lemma_schedule_each_once(items: Seq<Seq<u8>>, n: nat)
    ensures
        schedule(items, n).len() == items.len() * n,
        forall|i: int, p: int|
            0 <= i < items.len() && 0 <= p < n ==> #[trigger] schedule(items, n)[i * n + p] == (
            items[i],
            p as nat,
        ),
    decreases items.len(),
{
    lemma_schedule_len(items, n);
    if items.len() > 0 {
        let rest = items.drop_first();
        lemma_schedule_each_once(rest, n);
        let s = schedule(items, n);
        assert(s == peer_sends(items[0], n) + schedule(rest, n));
        assert forall|i: int, p: int| 0 <= i < items.len() && 0 <= p < n implies #[trigger] schedule(
            items,
            n,
        )[i * n + p] == (items[i], p as nat) by {
            if i == 0 {
                assert(i * n + p == p) by (nonlinear_arith)
                    requires
                        i == 0,
                ;
            } else {
                let k = (i - 1) * n + p;
                assert(i * n + p == n + k) by (nonlinear_arith)
                    requires
                        k == (i - 1) * n + p,
                ;
                assert(k < rest.len() * n) by (nonlinear_arith)
                    requires
                        k == (i - 1) * n + p,
                        0 <= p < n,
                        1 <= i < items.len(),
                        rest.len() == items.len() - 1,
                ;
                assert(0 <= k) by (nonlinear_arith)
                    requires
                        k == (i - 1) * n + p,
                        0 <= p,
                        1 <= i,
                ;
                assert(schedule(rest, n)[(i - 1) * n + p] == (rest[i - 1], p as nat));
                assert(s[n + k] == schedule(rest, n)[k]);
            }
        }
    }
}

/// How the send that `next_send` asked for went.
#[derive(Debug, PartialEq, Eq, Structural, Clone, Copy)]
pub enum SendOutcome {
    Sent,
    WouldBlock,
    Failed,
}

/// What the dispatch cycle does after a send.
#[derive(Debug, PartialEq, Eq, Structural, Clone, Copy)]
pub enum DispatchStep {
    /// Go on while the socket is writable.
    Continue,
    /// The socket would block: stop for this tick, nothing is lost.
    Yield,
    /// A socket error other than would-block: give up on this socket.
    Fatal,
}

/// Envelopes of one socket that still owe sends to some of its peers.
pub struct OutboundQueue {
    items: VecDeque<Vec<u8>>,
    cursor: usize,
    peer_count: usize,
}

impl OutboundQueue {
    closed spec fn item_bytes(&self) -> Seq<Seq<u8>> {
        self.items@.map_values(|v: Vec<u8>| v@)
    }

    /// The sends still owed, in the order in which they will be made: the
    /// bytes, and the index of the peer.
    pub closed spec fn pending(&self) -> Seq<(Seq<u8>, nat)> {
        schedule(self.item_bytes(), self.peer_count as nat).skip(self.cursor as int)
    }

    /// The number of peers that each envelope goes to.
    pub closed spec fn peers(&self) -> nat {
        self.peer_count as nat
    }

    pub closed spec fn wf(&self) -> bool {
        &&& self.peer_count == 0 ==> self.items@.len() == 0
        &&& self.items@.len() == 0 ==> self.cursor == 0
        &&& self.items@.len() > 0 ==> self.cursor < self.peer_count
    }

    proof fn lemma_pending_len(&self)
        requires
            self.wf(),
        ensures
            self.pending().len() == 0 <==> self.items@.len() == 0,
            self.items@.len() > 0 ==> self.pending()[0] == (self.item_bytes()[0], self.cursor as nat),
    {
        let ghost n = self.peer_count as nat;
        let s = schedule(self.item_bytes(), n);
        lemma_schedule_len(self.item_bytes(), n);
        if self.items@.len() > 0 {
            assert(self.item_bytes().len() * n >= n) by (nonlinear_arith)
                requires
                    self.item_bytes().len() >= 1,
            ;
            assert(s[self.cursor as int] == peer_sends(self.item_bytes()[0], n)[self.cursor as int]);
        }
    }

    pub fn new(peer_count: usize) -> (r: OutboundQueue)
        ensures
            r.wf(),
            r.peers() == peer_count,
            r.pending() == Seq::<(Seq<u8>, nat)>::empty(),
    {
        let r = OutboundQueue { items: VecDeque::new(), cursor: 0, peer_count };
        assert(r.item_bytes() =~= Seq::<Seq<u8>>::empty());
        assert(r.pending() =~= Seq::<(Seq<u8>, nat)>::empty());
        r
    }

    /// Nothing is owed to any peer.
    pub fn is_empty(&self) -> (r: bool)
        requires
            self.wf(),
        ensures
            r <==> self.pending().len() == 0,
    {
        proof {
            self.lemma_pending_len();
        }
        self.items.len() == 0
    }

    /// Adds one envelope's bytes: it owes one send to every peer, after all
    /// that is already pending.
    pub fn enqueue(&mut self, bytes: Vec<u8>)
        requires
            old(self).wf(),
        ensures
            final(self).wf(),
            final(self).peers() == old(self).peers(),
            final(self).pending() == old(self).pending() + peer_sends(bytes@, old(self).peers()),
    {
        let ghost n = self.peer_count as nat;
        if self.peer_count == 0 {
            assert(peer_sends(bytes@, n) =~= Seq::<(Seq<u8>, nat)>::empty());
            assert(self.pending() + peer_sends(bytes@, n) =~= self.pending());
            return;
        }
        let ghost before = self.item_bytes();
        self.items.push_back(bytes);
        assert(self.item_bytes() =~= before.push(bytes@));
        proof {
            lemma_schedule_push(before, bytes@, n);
            lemma_schedule_len(before, n);
            if before.len() > 0 {
                assert(before.len() * n >= n) by (nonlinear_arith)
                    requires
                        before.len() >= 1,
                ;
            }
            let s = schedule(before, n);
            assert((s + peer_sends(bytes@, n)).skip(self.cursor as int) =~= s.skip(
                self.cursor as int,
            ) + peer_sends(bytes@, n));
        }
    }

    /// Adds the envelope of `event`.
    pub fn enqueue_event(&mut self, event: &NetworkedEvent)
        requires
            old(self).wf(),
        ensures
            final(self).wf(),
            final(self).peers() == old(self).peers(),
            final(self).pending() == old(self).pending() + peer_sends(
                envelope_bytes(event.id.t, event.data@),
                old(self).peers(),
            ),
    {
        let bytes = event.encode();
        self.enqueue(bytes);
    }

    /// Adds the envelopes of `events`, in order: each owes one send to every
    /// peer, after all that is already pending.
    pub fn enqueue_all(&mut self, events: &Vec<NetworkedEvent>)
        requires
            old(self).wf(),
        ensures
            final(self).wf(),
            final(self).peers() == old(self).peers(),
            final(self).pending() == old(self).pending() + schedule(
                envelopes_of(events@),
                old(self).peers(),
            ),
    {
        let ghost n = self.peers();
        let mut i: usize = 0;
        assert(envelopes_of(events@.subrange(0, 0)) =~= Seq::<Seq<u8>>::empty());
        assert(old(self).pending() + schedule(Seq::<Seq<u8>>::empty(), n) =~= old(self).pending());
        while i < events.len()
            invariant
                self.wf(),
                self.peers() == n,
                n == old(self).peers(),
                i <= events@.len(),
                self.pending() == old(self).pending() + schedule(
                    envelopes_of(events@.subrange(0, i as int)),
                    n,
                ),
            decreases events@.len() - i,
        {
            let event = &events[i];
            let ghost done = envelopes_of(events@.subrange(0, i as int));
            let ghost bytes = envelope_bytes(event.id.t, event.data@);
            proof {
                lemma_schedule_push(done, bytes, n);
                assert(envelopes_of(events@.subrange(0, i + 1)) =~= done.push(bytes));
            }
            self.enqueue_event(event);
            i = i + 1;
        }
        assert(events@.subrange(0, events@.len() as int) =~= events@);
    }

    /// Moves every event waiting in the socket's outbound channel into the
    /// queue, as envelopes, in the order in which the channel yields them.
    /// What the channel holds is shared with its producers, so the events
    /// are whatever it yielded; each of them, and nothing else, now owes one
    /// send to every peer.
    pub fn pull(&mut self, queue: &Receiver<NetworkedEvent>)
        requires
            old(self).wf(),
        ensures
            final(self).wf(),
            final(self).peers() == old(self).peers(),
            exists|events: Seq<NetworkedEvent>|
                final(self).pending() == old(self).pending() + schedule(
                    #[trigger] envelopes_of(events),
                    old(self).peers(),
                ),
    {
        let events = take_queued(queue);
        self.enqueue_all(&events);
        assert(self.pending() == old(self).pending() + schedule(
            envelopes_of(events@),
            old(self).peers(),
        ));
    }

    /// The send to make next: the bytes at the head of the queue and the
    /// peer that they go to. There is none when the socket is not writable,
    /// or when nothing is pending.
    pub fn next_send(&self, writable: bool) -> (r: Option<(&Vec<u8>, usize)>)
        requires
            self.wf(),
        ensures
            r is Some <==> writable && self.pending().len() > 0,
            r matches Some((b, p)) ==> self.pending()[0] == (b@, p as nat) && p < self.peers(),
    {
        proof {
            self.lemma_pending_len();
        }
        if !writable || self.items.len() == 0 {
            None
        } else {
            Some((&self.items[0], self.cursor))
        }
    }

    /// The send at the head of the queue was handed to the socket: it is
    /// owed no more, and nothing else changes.
    pub fn sent(&mut self)
        requires
            old(self).wf(),
            old(self).pending().len() > 0,
        ensures
            final(self).wf(),
            final(self).peers() == old(self).peers(),
            final(self).pending() == old(self).pending().drop_first(),
    {
        proof {
            self.lemma_pending_len();
        }
        let ghost n = self.peer_count as nat;
        let ghost before = self.item_bytes();
        let ghost s = schedule(before, n);
        let ghost c = self.cursor as int;
        self.cursor = self.cursor + 1;
        if self.cursor == self.peer_count {
            self.items.pop_front();
            self.cursor = 0;
            assert(self.item_bytes() =~= before.drop_first());
            assert(s =~= peer_sends(before[0], n) + schedule(before.drop_first(), n));
            assert(schedule(self.item_bytes(), n).skip(0) =~= s.skip(c).drop_first());
        } else {
            assert(s.skip(c + 1) =~= s.skip(c).drop_first());
        }
    }

    /// Takes in how the send that `next_send` asked for went. A completed
    /// send is owed no more; on would-block the socket is marked unwritable
    /// and all stays pending for a later tick; on any other failure all
    /// stays pending and the cycle stops for good.
    pub fn after_send(&mut self, status: &TokenStatus, outcome: SendOutcome) -> (r: DispatchStep)
        requires
            old(self).wf(),
            old(self).pending().len() > 0,
        ensures
            final(self).wf(),
            final(self).peers() == old(self).peers(),
            outcome == SendOutcome::Sent ==> r == DispatchStep::Continue && final(self).pending()
                == old(self).pending().drop_first(),
            outcome == SendOutcome::WouldBlock ==> r == DispatchStep::Yield && final(self).pending()
                == old(self).pending(),
            outcome == SendOutcome::Failed ==> r == DispatchStep::Fatal && final(self).pending()
                == old(self).pending(),
    {
        match outcome {
            SendOutcome::Sent => {
                self.sent();
                DispatchStep::Continue
            },
            SendOutcome::WouldBlock => {
                status.set_writable(false);
                DispatchStep::Yield
            },
            SendOutcome::Failed => DispatchStep::Fatal,
        }
    }
}

} // verus!
