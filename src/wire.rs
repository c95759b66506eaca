//! The wire envelope: one datagram carries one event, framed as
//! `[tag: 8 bytes LE][payload length: 8 bytes LE][payload bytes]`.
use vstd::prelude::*;

verus! {

/// `256^n`.
pub open spec fn pow256(n: nat) -> nat
    decreases n,
{
    if n == 0 {
        1
    } else {
        256 * pow256((n - 1) as nat)
    }
}

/// The `n` low-order bytes of `x`, least significant first.
pub open spec fn le_bytes(x: nat, n: nat) -> Seq<u8>
    decreases n,
{
    if n == 0 {
        seq![]
    } else {
        seq![(x % 256) as u8] + le_bytes(x / 256, (n - 1) as nat)
    }
}

/// The number that the bytes `s` spell, least significant first.
pub open spec fn le_value(s: Seq<u8>) -> nat
    decreases s.len(),
{
    if s.len() == 0 {
        0
    } else {
        s[0] as nat + 256 * le_value(s.drop_first())
    }
}

/// Size of the fixed header: the tag and the payload length.
pub const HEADER_LEN: usize = 16;

/// The bytes of an envelope with this tag and payload.
pub open spec fn envelope_bytes(tag: u64, payload: Seq<u8>) -> Seq<u8> {
    le_bytes(tag as nat, 8) + le_bytes(payload.len(), 8) + payload
}

/// The bytes hold a whole envelope: a header, then exactly as many payload
/// bytes as the header announces.
pub open spec fn is_envelope(b: Seq<u8>) -> bool {
    b.len() >= 16 && le_value(b.subrange(8, 16)) == b.len() - 16
}

/// The tag that the header of `b` carries.
pub open spec fn envelope_tag(b: Seq<u8>) -> nat {
    le_value(b.subrange(0, 8))
}

/// The event identifier that the header of `b` carries.
pub open spec fn envelope_id(b: Seq<u8>) -> EventId {
    EventId { t: envelope_tag(b) as u64 }
}

/// The payload that follows the header of `b`.
pub open spec fn envelope_payload(b: Seq<u8>) -> Seq<u8> {
    b.subrange(16, b.len() as int)
}

pub proof fn lemma_pow256_monotone(a: nat, b: nat)
    requires
        a <= b,
    ensures
        pow256(a) <= pow256(b),
    decreases b,
{
    if a < b {
        lemma_pow256_monotone(a, (b - 1) as nat);
    }
}

pub proof fn lemma_le_value_bound(s: Seq<u8>)
    ensures
        le_value(s) < pow256(s.len()),
    decreases s.len(),
{
    if s.len() > 0 {
        let t = s.drop_first();
        lemma_le_value_bound(t);
        let v = le_value(t);
        let p = pow256(t.len());
        let b = s[0] as nat;
        assert(b + 256 * v < 256 * p) by (nonlinear_arith)
            requires
                v < p,
                b < 256,
        ;
    }
}

/// Reading back the bytes of a number gives the number, when it fits.
pub proof fn lemma_le_round_trip(x: nat, n: nat)
    requires
        x < pow256(n),
    ensures
        le_value(le_bytes(x, n)) == x,
        le_bytes(x, n).len() == n,
    decreases n,
{
    if n > 0 {
        let m = (n - 1) as nat;
        let q = x / 256;
        assert(q < pow256(m)) by (nonlinear_arith)
            requires
                x < 256 * pow256(m),
                q == x / 256,
        ;
        lemma_le_round_trip(q, m);
        let s = le_bytes(x, n);
        assert(s.drop_first() =~= le_bytes(q, m));
    }
}

/// Writing the number that some bytes spell gives those bytes back.
pub proof fn lemma_le_bytes_of_value(s: Seq<u8>)
    ensures
        le_bytes(le_value(s), s.len()) == s,
    decreases s.len(),
{
    if s.len() > 0 {
        let t = s.drop_first();
        lemma_le_bytes_of_value(t);
        let x = le_value(s);
        let v = le_value(t);
        assert(x % 256 == s[0] as nat && x / 256 == v) by (nonlinear_arith)
            requires
                x == s[0] as nat + 256 * v,
                s[0] < 256,
        ;
        assert(le_bytes(x, s.len()) =~= s);
    }
}

pub proof fn lemma_pow256_8()
    ensures
        pow256(8) == 0x1_0000_0000_0000_0000,
        pow256(7) == 0x100_0000_0000_0000,
{
    reveal_with_fuel(pow256, 9);
}

/// Appends the eight bytes of `x`, least significant first.
fn push_u64_le(out: &mut Vec<u8>, x: u64)
    ensures
        final(out)@ == old(out)@ + le_bytes(x as nat, 8),
{
    let mut v: u64 = x;
    let mut i: usize = 0;
    while i < 8
        invariant
            i <= 8,
            out@ + le_bytes(v as nat, (8 - i) as nat) == old(out)@ + le_bytes(x as nat, 8),
        decreases 8 - i,
    {
        let ghost before = out@;
        let ghost rest = le_bytes((v / 256) as nat, (8 - i - 1) as nat);
        assert(le_bytes(v as nat, (8 - i) as nat) == seq![(v % 256) as u8] + rest);
        out.push((v % 256) as u8);
        assert(out@ + rest =~= before + (seq![(v % 256) as u8] + rest));
        v = v / 256;
        i = i + 1;
    }
    assert(le_bytes(v as nat, 0) =~= Seq::<u8>::empty());
    assert(out@ =~= out@ + le_bytes(v as nat, 0));
}

/// The number spelled by the eight bytes at `start`, least significant first.
fn read_u64_le(b: &[u8], start: usize) -> (r: u64)
    requires
        start + 8 <= b@.len(),
    ensures
        r as nat == le_value(b@.subrange(start as int, start + 8)),
{
    let n = b.len();
    let mut v: u64 = 0;
    let mut i: usize = 8;
    proof {
        lemma_pow256_8();
    }
    assert(b@.subrange(start + 8, start + 8) =~= Seq::<u8>::empty());
    while i > 0
        invariant
            i <= 8,
            start + 8 <= b@.len(),
            n == b@.len(),
            v as nat == le_value(b@.subrange(start + i, start + 8)),
            pow256(7) == 0x100_0000_0000_0000,
        decreases i,
    {
        i = i - 1;
        let ghost tail = b@.subrange(start + i + 1, start + 8);
        let ghost whole = b@.subrange(start + i, start + 8);
        assert(whole.drop_first() =~= tail);
        proof {
            lemma_le_value_bound(tail);
            lemma_pow256_monotone(tail.len(), 7);
        }
        let byte = b[start + i];
        assert(v * 256 + byte <= 0xffff_ffff_ffff_ffff) by (nonlinear_arith)
            requires
                v < 0x100_0000_0000_0000,
                byte < 256,
        ;
        v = v * 256 + byte as u64;
    }
    v
}

/// A stable identifier of a registered event type; it travels as the tag of
/// every envelope that carries an event of that type.
#[derive(Debug, PartialEq, Eq, Structural, Hash, Clone, Copy)]
pub struct EventId {
    pub t: u64,
}

impl EventId {
    pub fn new(t: u64) -> (r: EventId)
        ensures
            r.t == t,
    {
        EventId { t }
    }
}

/// An event in transit: its type's tag and its serialized payload.
#[derive(Debug, Clone)]
pub struct NetworkedEvent {
    pub id: EventId,
    pub data: Vec<u8>,
}

/// The bytes received do not form an envelope (cut short, or corrupt).
#[derive(Debug, PartialEq, Eq, Structural, Clone, Copy)]
pub enum EnvelopeError {
    Malformed,
}

impl NetworkedEvent {
    pub fn new(id: EventId, data: Vec<u8>) -> (r: NetworkedEvent)
        ensures
            r.id == id,
            r.data@ == data@,
    {
        NetworkedEvent { id, data }
    }

    /// The envelope's bytes as they go out in one datagram.
    pub fn encode(&self) -> (r: Vec<u8>)
        ensures
            r@ == envelope_bytes(self.id.t, self.data@),
    {
        let mut out: Vec<u8> = Vec::new();
        push_u64_le(&mut out, self.id.t);
        push_u64_le(&mut out, self.data.len() as u64);
        let mut i: usize = 0;
        let ghost head = out@;
        while i < self.data.len()
            invariant
                i <= self.data@.len(),
                out@ == head + self.data@.subrange(0, i as int),
            decreases self.data@.len() - i,
        {
            out.push(self.data[i]);
            assert(self.data@.subrange(0, i + 1) =~= self.data@.subrange(0, i as int).push(
                self.data@[i as int],
            ));
            i = i + 1;
        }
        assert(self.data@.subrange(0, self.data@.len() as int) =~= self.data@);
        out
    }

    /// Reads one envelope from the bytes of a datagram. It fails exactly when
    /// the bytes are not a whole envelope.
    pub fn decode(bytes: &[u8]) -> (r: Result<NetworkedEvent, EnvelopeError>)
        ensures
            r is Ok <==> is_envelope(bytes@),
            r matches Ok(e) ==> e.id.t == envelope_tag(bytes@) && e.data@ == envelope_payload(
                bytes@,
            ),
    {
        if bytes.len() < HEADER_LEN {
            return Err(EnvelopeError::Malformed);
        }
        let tag = read_u64_le(bytes, 0);
        let len = read_u64_le(bytes, 8);
        if len as u128 != bytes.len() as u128 - 16 {
            return Err(EnvelopeError::Malformed);
        }
        let mut data: Vec<u8> = Vec::new();
        let mut i: usize = HEADER_LEN;
        while i < bytes.len()
            invariant
                HEADER_LEN <= i <= bytes@.len(),
                data@ == bytes@.subrange(16, i as int),
            decreases bytes@.len() - i,
        {
            data.push(bytes[i]);
            assert(bytes@.subrange(16, i + 1) =~= bytes@.subrange(16, i as int).push(
                bytes@[i as int],
            ));
            i = i + 1;
        }
        Ok(NetworkedEvent { id: EventId { t: tag }, data })
    }
}

/// Decoding the bytes of an encoded envelope gives back its tag and payload,
/// and the bytes of a well-formed envelope are those that its tag and payload
/// encode to.
pub proof fn lemma_envelope_round_trip(tag: u64, payload: Seq<u8>)
    requires
        payload.len() <= u64::MAX,
    ensures
        is_envelope(envelope_bytes(tag, payload)),
        envelope_tag(envelope_bytes(tag, payload)) == tag,
        envelope_payload(envelope_bytes(tag, payload)) == payload,
{
    lemma_pow256_8();
    lemma_le_round_trip(tag as nat, 8);
    lemma_le_round_trip(payload.len(), 8);
    let b = envelope_bytes(tag, payload);
    assert(b.subrange(0, 8) =~= le_bytes(tag as nat, 8));
    assert(b.subrange(8, 16) =~= le_bytes(payload.len(), 8));
    assert(b.subrange(16, b.len() as int) =~= payload);
}

/// A well-formed envelope is exactly the encoding of the tag and payload
/// that decoding reads from it.
pub proof fn lemma_envelope_unique(b: Seq<u8>)
    requires
        is_envelope(b),
    ensures
        envelope_tag(b) <= u64::MAX,
        b == envelope_bytes(envelope_tag(b) as u64, envelope_payload(b)),
{
    lemma_le_value_bound(b.subrange(0, 8));
    lemma_pow256_8();
    lemma_le_bytes_of_value(b.subrange(0, 8));
    lemma_le_bytes_of_value(b.subrange(8, 16));
    assert(b =~= b.subrange(0, 8) + b.subrange(8, 16) + b.subrange(16, b.len() as int));
}

} // verus!
