//! Four-byte tags carried as unsigned 32-bit numbers, most significant byte
//! first.

use vstd::prelude::*;

verus! {

/// The number that carries the tag with the given bytes.
pub open spec fn tag_value(bytes: Seq<u8>) -> u32
    recommends
        bytes.len() == 4,
{
    ((bytes[0] as u32) << 24) | ((bytes[1] as u32) << 16) | ((bytes[2] as u32) << 8) | (
    bytes[3] as u32)
}

/// The bytes of the tag that `tag` carries, in file order.
pub fn tag_bytes(tag: u32) -> (bytes: [u8; 4])
    ensures
        bytes@.len() == 4,
        bytes@[0] == (tag >> 24) as u8,
        bytes@[1] == ((tag >> 16) & 0xff) as u8,
        bytes@[2] == ((tag >> 8) & 0xff) as u8,
        bytes@[3] == (tag & 0xff) as u8,
        tag_value(bytes@) == tag,
{
    let b0: u8 = (tag >> 24) as u8;
    let b1: u8 = ((tag >> 16) & 0xff) as u8;
    let b2: u8 = ((tag >> 8) & 0xff) as u8;
    let b3: u8 = (tag & 0xff) as u8;
    assert(((b0 as u32) << 24) | ((b1 as u32) << 16) | ((b2 as u32) << 8) | (b3 as u32) == tag)
        by (bit_vector)
        requires
            b0 == (tag >> 24) as u8,
            b1 == ((tag >> 16) & 0xff) as u8,
            b2 == ((tag >> 8) & 0xff) as u8,
            b3 == (tag & 0xff) as u8,
    ;
    [b0, b1, b2, b3]
}

} // verus!
