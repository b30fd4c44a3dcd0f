//! The CRC-32 that seals a frame.

use vstd::prelude::*;

verus! {

/// The CRC-32 of `data`: IEEE polynomial, reflected, all ones as the initial
/// value and as the final mask. The frame layer needs only that it is a
/// function of the bytes; which function it is, is left to `crc32fast`.
pub uninterp spec fn crc32_ieee(data: Seq<u8>) -> u32;

/// `crc32fast::hash` makes a fresh hasher, feeds it the whole slice and
/// returns the finished checksum. Claimed, not proved: the value depends on
/// the bytes alone, whichever of the crate's implementations the processor
/// selects, and is the one that `crc32_ieee` names.
pub assume_specification[ crc32fast::hash ](buf: &[u8]) -> (crc: u32)
    ensures
        crc == crc32_ieee(buf@),
;

} // verus!
