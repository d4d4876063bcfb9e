//! Little-endian encoding and decoding of the 64-bit counter value.
//!
//! The counter buffer holds exactly 8 bytes, least-significant byte first.
//! The spec functions below define what an 8-byte sequence means as a number
//! and what a number looks like as bytes; the executable pair is proved
//! against them, and the round-trip lemmas tie the two directions together.

use vstd::prelude::*;

verus! {

/// The unsigned 64-bit value stored in an 8-byte little-endian sequence.
pub open spec fn u64_of_le_bytes(s: Seq<u8>) -> u64
    recommends
        s.len() == 8,
{
    (s[0] as u64) | (s[1] as u64) << 8 | (s[2] as u64) << 16 | (s[3] as u64) << 24
        | (s[4] as u64) << 32 | (s[5] as u64) << 40 | (s[6] as u64) << 48 | (s[7] as u64) << 56
}

/// The 8-byte little-endian encoding of an unsigned 64-bit value.
pub open spec fn le_bytes_of_u64(x: u64) -> Seq<u8> {
    seq![
        (x & 0xff) as u8,
        ((x >> 8) & 0xff) as u8,
        ((x >> 16) & 0xff) as u8,
        ((x >> 24) & 0xff) as u8,
        ((x >> 32) & 0xff) as u8,
        ((x >> 40) & 0xff) as u8,
        ((x >> 48) & 0xff) as u8,
        ((x >> 56) & 0xff) as u8,
    ]
}

/// Reads the counter value out of a buffer known to hold exactly 8 bytes.
pub fn decode_u64_le(buf: &Vec<u8>) -> (x: u64)
    requires
        buf@.len() == 8,
    ensures
        x == u64_of_le_bytes(buf@),
{
    (buf[0] as u64) | (buf[1] as u64) << 8u64 | (buf[2] as u64) << 16u64
        | (buf[3] as u64) << 24u64 | (buf[4] as u64) << 32u64 | (buf[5] as u64) << 40u64
        | (buf[6] as u64) << 48u64 | (buf[7] as u64) << 56u64
}

/// Writes a counter value as a fresh buffer of exactly 8 bytes.
pub fn encode_u64_le(x: u64) -> (buf: Vec<u8>)
    ensures
        buf@ == le_bytes_of_u64(x),
        buf@.len() == 8,
{
    proof {
        assert({
            &&& x & 0xff < 256
            &&& (x >> 8) & 0xff < 256
            &&& (x >> 16) & 0xff < 256
            &&& (x >> 24) & 0xff < 256
            &&& (x >> 32) & 0xff < 256
            &&& (x >> 40) & 0xff < 256
            &&& (x >> 48) & 0xff < 256
            &&& (x >> 56) & 0xff < 256
        }) by (bit_vector);
    }
    let mut buf: Vec<u8> = Vec::new();
    buf.push((x & 0xff) as u8);
    buf.push(((x >> 8u64) & 0xff) as u8);
    buf.push(((x >> 16u64) & 0xff) as u8);
    buf.push(((x >> 24u64) & 0xff) as u8);
    buf.push(((x >> 32u64) & 0xff) as u8);
    buf.push(((x >> 40u64) & 0xff) as u8);
    buf.push(((x >> 48u64) & 0xff) as u8);
    buf.push(((x >> 56u64) & 0xff) as u8);
    proof {
        assert(buf@ =~= le_bytes_of_u64(x));
    }
    buf
}

/// Decoding the encoding of a value gives the value back.
pub proof fn lemma_le_bytes_round_trip(x: u64)
    ensures
        le_bytes_of_u64(x).len() == 8,
        u64_of_le_bytes(le_bytes_of_u64(x)) == x,
{
    let b0 = (x & 0xff) as u8;
    let b1 = ((x >> 8) & 0xff) as u8;
    let b2 = ((x >> 16) & 0xff) as u8;
    let b3 = ((x >> 24) & 0xff) as u8;
    let b4 = ((x >> 32) & 0xff) as u8;
    let b5 = ((x >> 40) & 0xff) as u8;
    let b6 = ((x >> 48) & 0xff) as u8;
    let b7 = ((x >> 56) & 0xff) as u8;
    assert((b0 as u64) | (b1 as u64) << 8 | (b2 as u64) << 16 | (b3 as u64) << 24
        | (b4 as u64) << 32 | (b5 as u64) << 40 | (b6 as u64) << 48 | (b7 as u64) << 56 == x)
        by (bit_vector)
        requires
            b0 == (x & 0xff) as u8,
            b1 == ((x >> 8) & 0xff) as u8,
            b2 == ((x >> 16) & 0xff) as u8,
            b3 == ((x >> 24) & 0xff) as u8,
            b4 == ((x >> 32) & 0xff) as u8,
            b5 == ((x >> 40) & 0xff) as u8,
            b6 == ((x >> 48) & 0xff) as u8,
            b7 == ((x >> 56) & 0xff) as u8,
    ;
}

/// Encoding the value read out of an 8-byte buffer reproduces the buffer.
pub proof fn lemma_le_bytes_of_decoded(s: Seq<u8>)
    requires
        s.len() == 8,
    ensures
        le_bytes_of_u64(u64_of_le_bytes(s)) == s,
{
    let x = u64_of_le_bytes(s);
    let b0 = s[0];
    let b1 = s[1];
    let b2 = s[2];
    let b3 = s[3];
    let b4 = s[4];
    let b5 = s[5];
    let b6 = s[6];
    let b7 = s[7];
    assert({
        &&& (x & 0xff) as u8 == b0
        &&& ((x >> 8) & 0xff) as u8 == b1
        &&& ((x >> 16) & 0xff) as u8 == b2
        &&& ((x >> 24) & 0xff) as u8 == b3
        &&& ((x >> 32) & 0xff) as u8 == b4
        &&& ((x >> 40) & 0xff) as u8 == b5
        &&& ((x >> 48) & 0xff) as u8 == b6
        &&& ((x >> 56) & 0xff) as u8 == b7
    }) by (bit_vector)
        requires
            x == (b0 as u64) | (b1 as u64) << 8 | (b2 as u64) << 16 | (b3 as u64) << 24
                | (b4 as u64) << 32 | (b5 as u64) << 40 | (b6 as u64) << 48 | (b7 as u64) << 56,
    ;
    assert(le_bytes_of_u64(u64_of_le_bytes(s)) =~= s);
}

} // verus!
