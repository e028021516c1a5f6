//! A sharded in-memory byte store together with the protocol model of the
//! per-lane task executor that serves it: fixed worker lanes, an atomic
//! status latch per task, and reference-counted wake callbacks.

pub mod affinity;
pub mod cache;
pub mod item;
pub mod local_set;
pub mod runtime;
pub mod task;
pub mod threading;

use vstd::prelude::*;

verus! {

/// Wrapping sum of a sequence of bytes, the checksum the load drivers
/// stamp onto every batch.
pub open spec fn sum_bytes(s: Seq<u8>) -> int
    decreases s.len(),
{
    if s.len() == 0 {
        0
    } else {
        (sum_bytes(s.drop_last()) + s.last()) % 256
    }
}

/// The checksum transform: the wrapping sum of all bytes is folded into the
/// first byte; the rest of the sequence is untouched.
pub open spec fn spec_calculation(s: Seq<u8>) -> Seq<u8> {
    s.update(0, (((s[0] + sum_bytes(s)) % 256) as u8))
}

/// Stamp the checksum of `bytes` onto its first byte.
pub fn calculation(bytes: Vec<u8>) -> (r: Vec<u8>)
    requires
        bytes@.len() >= 1,
    ensures
        r@ == spec_calculation(bytes@),
{
    let mut bytes = bytes;
    let mut sum: u8 = 0;
    let mut i: usize = 0;
    while i < bytes.len()
        invariant
            i <= bytes@.len(),
            sum == sum_bytes(bytes@.take(i as int)),
        decreases bytes@.len() - i,
    {
        proof {
            assert(bytes@.take(i + 1).drop_last() =~= bytes@.take(i as int));
        }
        sum = sum.wrapping_add(bytes[i]);
        i = i + 1;
    }
    proof {
        assert(bytes@.take(bytes@.len() as int) =~= bytes@);
    }
    let first = bytes[0].wrapping_add(sum);
    bytes.set(0, first);
    bytes
}

} // verus!
