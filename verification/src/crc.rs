//! The CRC-16/ARC integrity digest guarding each frame.

use vstd::prelude::*;

verus! {

/// The CRC-16/ARC digest (polynomial 0xA001 reflected, initial value 0) of
/// a byte sequence.  The digest is a function of the bytes alone.
pub uninterp spec fn crc16_arc_of(data: Seq<u8>) -> u16;

/// Relies on `crc16::State::<crc16::ARC>::calculate`: the CRC-16/ARC
/// digest of the given bytes, a function of the bytes alone.
#[verifier::external_body]
pub(crate) fn crc16_arc(data: &[u8]) -> (r: u16)
    ensures
        r == crc16_arc_of(data@),
{
    crc16::State::<crc16::ARC>::calculate(data)
}

} // verus!
