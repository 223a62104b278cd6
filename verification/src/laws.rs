//! What the contracts of the array imply for runs of appends and reads.

use crate::array::ToyVec;
use crate::growth::{capacity_after_push, moved_by_push};
use vstd::prelude::*;

verus! {

/// The live elements of an array that held `start` once the elements of `items` have been
/// appended to it one by one, in their order.
pub open spec fn pushed_all<T>(start: Seq<T>, items: Seq<T>) -> Seq<T>
    decreases items.len(),
{
    if items.len() == 0 {
        start
    } else {
        pushed_all(start, items.drop_last()).push(items.last())
    }
}

/// The capacity of an array of `len` live elements and `capacity` slots once `count` more
/// elements have been appended to it.
pub open spec fn capacity_after_pushes(len: nat, capacity: nat, count: nat) -> nat
    decreases count,
{
    if count == 0 {
        capacity
    } else {
        capacity_after_push(
            len + (count - 1) as nat,
            capacity_after_pushes(len, capacity, (count - 1) as nat),
        )
    }
}

/// The number of elements moved into new blocks while `count` elements are appended to an
/// array of `len` live elements and `capacity` slots.
pub open spec fn moved_by_pushes(len: nat, capacity: nat, count: nat) -> nat
    decreases count,
{
    if count == 0 {
        0
    } else {
        moved_by_pushes(len, capacity, (count - 1) as nat) + moved_by_push(
            len + (count - 1) as nat,
            capacity_after_pushes(len, capacity, (count - 1) as nat),
        )
    }
}

/// Appending one by one puts the new elements behind the old ones, in the order in which
/// they came.
pub proof fn lemma_pushed_all<T>(start: Seq<T>, items: Seq<T>)
    ensures
        pushed_all(start, items) == start + items,
    decreases items.len(),
{
    if items.len() > 0 {
        lemma_pushed_all(start, items.drop_last());
        assert(start + items == (start + items.drop_last()).push(items.last()));
    }
}

/// An array that holds no element answers every read with `None`, whatever its capacity.
pub proof fn lemma_read_of_empty<T: Default>(v: ToyVec<T>, index: usize)
    requires
        v.len() == 0,
    ensures
        v.get(index) is None,
{
}

/// After the elements of `items` have been appended in order to an array that held
/// nothing, the array holds them and nothing else: its length is their number, a read below
/// the length finds the element appended at that place, and a read at or beyond it finds
/// nothing.
pub proof fn lemma_read_after_pushes<T: Default>(v: ToyVec<T>, items: Seq<T>, index: usize)
    requires
        v.wf(),
        v@ == pushed_all(Seq::<T>::empty(), items),
    ensures
        v.len() == items.len(),
        index < items.len() ==> v.get(index) == Some(&items[index as int]),
        index >= items.len() ==> v.get(index) is None,
{
    lemma_pushed_all(Seq::<T>::empty(), items);
    assert(Seq::<T>::empty() + items == items);
}

/// An append keeps every element that was live before it at its place, and puts the new
/// one directly behind them.
pub proof fn lemma_push_keeps_elements<T>(live: Seq<T>, element: T)
    ensures
        live.push(element).len() == live.len() + 1,
        live.push(element).take(live.len() as int) == live,
        live.push(element).last() == element,
        forall|i: int| 0 <= i < live.len() ==> live.push(element)[i] == live[i],
{
}

/// The capacity never shrinks under an append, and is left strictly greater by an append
/// that found the block full. Afterwards there is room for every live element.
pub proof fn lemma_capacity_grows<T: Default>(v: ToyVec<T>)
    requires
        v.wf(),
    ensures
        capacity_after_push(v.len() as nat, v.capacity() as nat) >= v.capacity(),
        capacity_after_push(v.len() as nat, v.capacity() as nat) >= v.len() + 1,
        v.len() == v.capacity() ==> capacity_after_push(v.len() as nat, v.capacity() as nat)
            > v.capacity(),
        v.len() < v.capacity() ==> capacity_after_push(v.len() as nat, v.capacity() as nat)
            == v.capacity(),
{
}

/// The first append to an array without slots leaves it with exactly one.
pub proof fn lemma_growth_from_nothing<T: Default>(v: ToyVec<T>)
    requires
        v.wf(),
        v.capacity() == 0,
    ensures
        capacity_after_push(v.len() as nat, v.capacity() as nat) == 1,
{
}

/// An append to a full array that has slots leaves it with twice as many slots as it had
/// live elements.
pub proof fn lemma_growth_doubles<T: Default>(v: ToyVec<T>)
    requires
        v.wf(),
        v.capacity() > 0,
        v.len() == v.capacity(),
    ensures
        capacity_after_push(v.len() as nat, v.capacity() as nat) == 2 * v.len(),
{
}

/// However many elements are appended, the capacity never falls and never is below the
/// number of live elements; and it exceeds twice that number only where the array was
/// created with more slots.
pub proof fn lemma_capacity_after_pushes(len: nat, capacity: nat, count: nat)
    requires
        len <= capacity,
    ensures
        capacity_after_pushes(len, capacity, count) >= capacity,
        capacity_after_pushes(len, capacity, count) >= len + count,
        capacity_after_pushes(len, capacity, count) <= capacity || capacity_after_pushes(
            len,
            capacity,
            count,
        ) <= 2 * (len + count),
    decreases count,
{
    if count > 0 {
        lemma_capacity_after_pushes(len, capacity, (count - 1) as nat);
    }
}

/// Growth costs little over a run of appends: no more elements are moved into new blocks
/// than slots are gained, and so never more than twice the elements that are live in the
/// end.
pub proof fn lemma_moved_by_pushes(len: nat, capacity: nat, count: nat)
    requires
        len <= capacity,
    ensures
        moved_by_pushes(len, capacity, count) + capacity <= capacity_after_pushes(
            len,
            capacity,
            count,
        ),
        moved_by_pushes(len, capacity, count) <= 2 * (len + count),
    decreases count,
{
    lemma_capacity_after_pushes(len, capacity, count);
    if count > 0 {
        lemma_moved_by_pushes(len, capacity, (count - 1) as nat);
        lemma_capacity_after_pushes(len, capacity, (count - 1) as nat);
    }
}

} // verus!
