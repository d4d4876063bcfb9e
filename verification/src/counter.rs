//! The counter mutation itself: validate the buffer list, then increment.
//!
//! The operation receives the ordered list of byte buffers that the host
//! supplied for one invocation. It demands exactly one buffer of exactly
//! 8 bytes, reads those bytes as an unsigned 64-bit little-endian counter,
//! and writes the incremented value back over the same 8 bytes. Every
//! failure is reported before anything is written, so a failing call never
//! changes a buffer. The checks run in a fixed order: buffer count first,
//! then buffer length, then overflow.

use crate::codec::{
    decode_u64_le, encode_u64_le, le_bytes_of_u64, lemma_le_bytes_round_trip, u64_of_le_bytes,
};
use vstd::prelude::*;

verus! {

/// The number of bytes a counter buffer must hold.
pub const COUNTER_SIZE: usize = 8;

/// The amount a successful invocation adds to the counter.
pub const INCREMENT: u64 = 1;

/// Why an invocation failed. Each variant is detected before any write, so
/// a caller that sees one of these knows the buffers are untouched.
#[derive(Clone, Copy, Debug, PartialEq, Eq, Structural)]
pub enum ErrorKind {
    /// The buffer list did not hold exactly one buffer.
    WrongAccountCount,
    /// The single buffer's length was not exactly 8 bytes.
    InvalidBufferLayout,
    /// The counter already held the maximum 64-bit value.
    ArithmeticOverflow,
}

/// The byte contents of each buffer in a list, in order.
pub open spec fn buffer_views(bufs: Seq<Vec<u8>>) -> Seq<Seq<u8>> {
    Seq::new(bufs.len(), |i: int| bufs[i]@)
}

/// The outcome an invocation owes for a given buffer list: the first check
/// that fails decides the error, and only a list of one 8-byte buffer below
/// the maximum counter value succeeds.
pub open spec fn increment_outcome(bufs: Seq<Seq<u8>>) -> Result<(), ErrorKind> {
    if bufs.len() != 1 {
        Err(ErrorKind::WrongAccountCount)
    } else if bufs[0].len() != COUNTER_SIZE {
        Err(ErrorKind::InvalidBufferLayout)
    } else if u64_of_le_bytes(bufs[0]) == u64::MAX {
        Err(ErrorKind::ArithmeticOverflow)
    } else {
        Ok(())
    }
}

/// The buffer list after an invocation: on success the single buffer holds
/// the incremented counter, little-endian; on failure nothing changes.
pub open spec fn increment_result(bufs: Seq<Seq<u8>>) -> Seq<Seq<u8>> {
    if increment_outcome(bufs) is Ok {
        seq![le_bytes_of_u64((u64_of_le_bytes(bufs[0]) + INCREMENT) as u64)]
    } else {
        bufs
    }
}

/// Validates the buffer list and increments the counter in place.
///
/// Exactly one buffer must be supplied, and it must hold exactly 8 bytes;
/// otherwise the matching error comes back and no buffer changes. The 8
/// bytes are read as an unsigned 64-bit little-endian integer and the
/// successor is written back over the same 8 bytes with checked arithmetic:
/// at the maximum value the call fails instead of wrapping, again without
/// writing.
pub fn increment(accounts: &mut Vec<Vec<u8>>) -> (r: Result<(), ErrorKind>)
    ensures
        r == increment_outcome(buffer_views(old(accounts)@)),
        buffer_views(final(accounts)@) == increment_result(buffer_views(old(accounts)@)),
{
    if accounts.len() != 1 {
        return Err(ErrorKind::WrongAccountCount);
    }
    if accounts[0].len() != COUNTER_SIZE {
        return Err(ErrorKind::InvalidBufferLayout);
    }
    let current: u64 = decode_u64_le(&accounts[0]);
    match current.checked_add(INCREMENT) {
        None => Err(ErrorKind::ArithmeticOverflow),
        Some(next) => {
            let encoded: Vec<u8> = encode_u64_le(next);
            accounts.set(0, encoded);
            proof {
                assert(buffer_views(accounts@) =~~= increment_result(
                    buffer_views(old(accounts)@),
                ));
            }
            Ok(())
        },
    }
}

/// Law: on a list of one 8-byte buffer whose counter is below the maximum,
/// the invocation succeeds and afterwards the one buffer holds the old
/// counter plus one, in the same 8-byte little-endian layout.
pub proof fn lemma_increment_succeeds(bufs: Seq<Seq<u8>>)
    requires
        bufs.len() == 1,
        bufs[0].len() == 8,
        u64_of_le_bytes(bufs[0]) < u64::MAX,
    ensures
        increment_outcome(bufs) == Ok::<(), ErrorKind>(()),
        increment_result(bufs).len() == 1,
        increment_result(bufs)[0].len() == 8,
        u64_of_le_bytes(increment_result(bufs)[0]) == u64_of_le_bytes(bufs[0]) + 1,
{
    lemma_le_bytes_round_trip((u64_of_le_bytes(bufs[0]) + 1) as u64);
}

/// Law: a failing invocation leaves every buffer unchanged, and repeating it
/// on the unchanged buffers yields the very same failure again.
pub proof fn lemma_failure_is_idempotent(bufs: Seq<Seq<u8>>)
    requires
        increment_outcome(bufs) is Err,
    ensures
        increment_result(bufs) == bufs,
        increment_outcome(increment_result(bufs)) == increment_outcome(bufs),
{
}

/// Law: a success is not idempotent. After one success, invoking again on
/// the updated buffer succeeds too and advances the counter by exactly one
/// more, as long as the counter starts at least two below the maximum.
pub proof fn lemma_success_then_success(bufs: Seq<Seq<u8>>)
    requires
        bufs.len() == 1,
        bufs[0].len() == 8,
        u64_of_le_bytes(bufs[0]) + 1 < u64::MAX,
    ensures
        increment_outcome(bufs) == Ok::<(), ErrorKind>(()),
        increment_outcome(increment_result(bufs)) == Ok::<(), ErrorKind>(()),
        u64_of_le_bytes(increment_result(increment_result(bufs))[0]) == u64_of_le_bytes(
            bufs[0],
        ) + 2,
{
    let v = u64_of_le_bytes(bufs[0]);
    lemma_le_bytes_round_trip((v + 1) as u64);
    lemma_le_bytes_round_trip((v + 2) as u64);
}

/// Law: the count check strictly precedes the layout check. With any number
/// of buffers other than one, the failure is `WrongAccountCount`, whatever
/// bytes each buffer holds — even when every buffer also has the wrong
/// length.
pub proof fn lemma_count_check_precedes_layout(bufs: Seq<Seq<u8>>)
    requires
        bufs.len() != 1,
    ensures
        increment_outcome(bufs) == Err::<(), ErrorKind>(ErrorKind::WrongAccountCount),
{
}

} // verus!
