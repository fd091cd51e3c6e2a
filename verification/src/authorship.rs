//! Whose turn it is to author a block.

use vstd::prelude::*;

verus! {

/// The place, among `authorities` authorities that take turns slot by slot,
/// of the author of `slot`.
pub fn author_index(slot: u64, authorities: usize) -> (index: usize)
    requires
        authorities > 0,
    ensures
        index == slot % (authorities as u64),
        index < authorities,
{
    (slot % (authorities as u64)) as usize
}

} // verus!
