//! The rule by which the storage of an array grows.

use vstd::prelude::*;

verus! {

/// Number of slots in the block that replaces a full one: a single slot where there was
/// none, and otherwise twice the number of live elements.
pub open spec fn grown_capacity(len: nat, capacity: nat) -> nat {
    if capacity == 0 {
        1
    } else {
        2 * len
    }
}

/// Capacity of an array once one more element has been appended to its `len` live
/// elements: the block is replaced only when it is full.
pub open spec fn capacity_after_push(len: nat, capacity: nat) -> nat {
    if len == capacity {
        grown_capacity(len, capacity)
    } else {
        capacity
    }
}

/// Number of elements that an append moves into a new block: all the live ones where it
/// finds the block full, and none where it finds room.
pub open spec fn moved_by_push(len: nat, capacity: nat) -> nat {
    if len == capacity {
        len
    } else {
        0
    }
}

} // verus!
