//! Helpers that the instructions share.

use vstd::prelude::*;

verus! {

/// An account that the instruction creates, together with the bump seed that
/// its address was derived with.
#[derive(Clone, Debug)]
pub struct Empty<T: Clone> {
    pub account: T,
    pub bump: Option<u8>,
}

/// Where `index` points in a sequence of `len` items, counting a negative
/// index (and zero) back from the end.
pub open spec fn spec_wrapped_index(len: int, index: int) -> int {
    if index > 0 {
        index
    } else {
        index + len
    }
}

/// Turns a possibly negative index into a position: a positive index is kept,
/// any other is counted from `len`, the length of the sequence.
pub fn wrapped_index(len: usize, index: i128) -> (position: usize)
    requires
        0 <= spec_wrapped_index(len as int, index as int) <= usize::MAX,
    ensures
        position as int == spec_wrapped_index(len as int, index as int),
{
    if index > 0 {
        return index as usize;
    }
    let wrapped: i128 = index + len as i128;
    wrapped as usize
}

} // verus!
