//! Byte order of transaction identifiers.

use vstd::prelude::*;

verus! {

/// Turns a transaction id from the byte order in which the node hands it out
/// into the order in which block explorers and node tooling show it and look
/// it up: the same bytes, last one first.
pub fn display_order(internal: &[u8]) -> (shown: Vec<u8>)
    ensures
        shown@ == internal@.reverse(),
{
    let mut shown: Vec<u8> = Vec::with_capacity(internal.len());
    let mut left: usize = internal.len();
    while left > 0
        invariant
            left <= internal@.len(),
            shown@.len() == internal@.len() - left,
            forall|k: int|
                0 <= k < shown@.len() ==> shown@[k] == internal@[internal@.len() - 1 - k],
        decreases left,
    {
        left = left - 1;
        shown.push(internal[left]);
    }
    shown
}

} // verus!
