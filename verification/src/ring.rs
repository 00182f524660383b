//! Ring identifiers for group-call ring notifications.
//!
//! A [`RingId`] is derived deterministically from an externally supplied era
//! identifier string by a stable 64-bit hash over its UTF-8 bytes, so that
//! every device derives the same id for the same era and rings can be
//! deduplicated and cancelled by id.

use vstd::prelude::*;
use vstd::string::StringSliceAdditionalSpecFns;

verus! {

/// Offset basis of the 64-bit hash.
pub const RING_HASH_BASIS: u64 = 0xcbf2_9ce4_8422_2325;

/// Multiplicative constant of the 64-bit hash.
pub const RING_HASH_PRIME: u64 = 0x0000_0100_0000_01b3;

/// One step of the hash: fold the next byte into the accumulator.
pub open spec fn ring_hash_step(h: u64, byte: u8) -> u64 {
    (h ^ (byte as u64)).wrapping_mul(RING_HASH_PRIME)
}

/// The hash of a byte sequence, folding bytes left to right from the basis.
/// A mathematical function of the bytes alone, so the derivation is
/// deterministic across devices and processes.
pub open spec fn ring_hash(bytes: Seq<u8>) -> u64
    decreases bytes.len(),
{
    if bytes.len() == 0 {
        RING_HASH_BASIS
    } else {
        ring_hash_step(ring_hash(bytes.drop_last()), bytes.last())
    }
}

/// Identifier deduplicating and cancelling group ring notifications.
/// Immutable once derived.
#[derive(Clone, Copy, PartialEq, Eq, Structural, Debug)]
pub struct RingId {
    pub value: u64,
}

impl RingId {
    /// Derives the ring id for an era identifier string.  The result is
    /// exactly [`ring_hash`] of the string's UTF-8 bytes, hence identical
    /// strings always yield identical ids.
    pub fn from_era_id(era_id: &str) -> (r: RingId)
        ensures
            r.value == ring_hash(era_id.spec_bytes()),
    {
        let bytes = era_id.as_bytes();
        let mut h: u64 = RING_HASH_BASIS;
        let mut i: usize = 0;
        while i < bytes.len()
            invariant
                i <= bytes@.len(),
                bytes@ == era_id.spec_bytes(),
                h == ring_hash(bytes@.take(i as int)),
            decreases bytes@.len() - i,
        {
            let b = bytes[i];
            proof {
                assert(bytes@.take(i + 1).drop_last() =~= bytes@.take(i as int));
                assert(bytes@.take(i + 1).last() == bytes@[i as int]);
            }
            h = (h ^ (b as u64)).wrapping_mul(RING_HASH_PRIME);
            i = i + 1;
        }
        proof {
            assert(bytes@.take(bytes@.len() as int) =~= bytes@);
        }
        RingId { value: h }
    }
}

} // verus!
