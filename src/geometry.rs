//! Sizes and index arithmetic of the detection network's input buffer.
use vstd::prelude::*;

verus! {

/// Alignment that the detection network needs on both axes.
pub const ALIGN: u32 = 32;

/// The smallest multiple of 32 that is at least `len`.
pub open spec fn padded(len: nat) -> nat {
    if len % 32 == 0 {
        len
    } else {
        (len + (32 - len % 32)) as nat
    }
}

/// Rounds a dimension up to the next multiple of 32 (unchanged when it
/// already is one).
pub fn get_pad_length(length: u32) -> (r: u32)
    requires
        length <= u32::MAX - 31,
    ensures
        r == padded(length as nat),
        r % 32 == 0,
        length <= r < length + 32,
{
    let i: u32 = length % ALIGN;
    if i == 0 {
        length
    } else {
        length + (ALIGN - i)
    }
}

} // verus!
