//! The wire format of one transmission.
//!
//! A data payload is the raw byte image of a full buffer: two bytes per
//! sample, little-endian, with no framing header, length prefix or
//! checksum. The keepalive payload is the literal four ASCII bytes `PING`.
//! The remote collector tells the two apart by size and content alone;
//! that simplification is deliberate and documented, not corrected here.

use vstd::prelude::*;

verus! {

/// The byte image of a sample sequence: for each sample its low byte, then
/// its high byte.
pub open spec fn wire_bytes(samples: Seq<u16>) -> Seq<u8>
    decreases samples.len(),
{
    if samples.len() == 0 {
        Seq::<u8>::empty()
    } else {
        seq![(samples[0] % 256) as u8, (samples[0] / 256) as u8]
            + wire_bytes(samples.drop_first())
    }
}

/// The keepalive payload: the four ASCII bytes of `PING`.
pub open spec fn keepalive_bytes() -> Seq<u8> {
    seq![80u8, 73u8, 78u8, 71u8]
}

/// Appending a sample appends exactly its two little-endian bytes.
proof fn lemma_wire_bytes_push(samples: Seq<u16>, v: u16)
    ensures
        wire_bytes(samples.push(v))
            == wire_bytes(samples) + seq![(v % 256) as u8, (v / 256) as u8],
    decreases samples.len(),
{
    if samples.len() == 0 {
        let one = seq![v];
        assert(samples.push(v) =~= one);
        assert(one.drop_first() =~= Seq::<u16>::empty());
        assert(wire_bytes(one.drop_first()) =~= Seq::<u8>::empty());
        assert(wire_bytes(samples.push(v))
            =~= wire_bytes(samples) + seq![(v % 256) as u8, (v / 256) as u8]);
    } else {
        lemma_wire_bytes_push(samples.drop_first(), v);
        assert(samples.push(v)[0] == samples[0]);
        assert(samples.push(v).drop_first() =~= samples.drop_first().push(v));
        assert(wire_bytes(samples.push(v))
            =~= wire_bytes(samples) + seq![(v % 256) as u8, (v / 256) as u8]);
    }
}

/// Every sample becomes exactly two bytes.
pub proof fn lemma_wire_bytes_len(samples: Seq<u16>)
    ensures
        wire_bytes(samples).len() == 2 * samples.len(),
    decreases samples.len(),
{
    if samples.len() > 0 {
        lemma_wire_bytes_len(samples.drop_first());
    }
}

/// Encodes samples into their wire bytes, oldest sample first.
pub fn encode_samples(samples: &Vec<u16>) -> (payload: Vec<u8>)
    ensures
        payload@ == wire_bytes(samples@),
        payload@.len() == 2 * samples@.len(),
{
    let mut payload: Vec<u8> = Vec::new();
    let mut i: usize = 0;
    while i < samples.len()
        invariant
            i <= samples@.len(),
            payload@ == wire_bytes(samples@.take(i as int)),
            payload@.len() == 2 * i,
        decreases samples@.len() - i,
    {
        let v: u16 = samples[i];
        payload.push((v % 256) as u8);
        payload.push((v / 256) as u8);
        proof {
            lemma_wire_bytes_push(samples@.take(i as int), v);
            assert(samples@.take(i + 1) =~= samples@.take(i as int).push(samples@[i as int]));
        }
        i = i + 1;
    }
    proof {
        assert(samples@.take(samples@.len() as int) =~= samples@);
    }
    payload
}

/// Builds the keepalive payload.
pub fn keepalive_payload() -> (payload: Vec<u8>)
    ensures
        payload@ == keepalive_bytes(),
        payload@.len() == 4,
{
    let mut payload: Vec<u8> = Vec::new();
    payload.push(80);
    payload.push(73);
    payload.push(78);
    payload.push(71);
    proof {
        assert(payload@ =~= keepalive_bytes());
    }
    payload
}

} // verus!
