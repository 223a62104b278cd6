//! The array and its operations.

use crate::growth::{capacity_after_push, grown_capacity};
use crate::iter::Iter;
use vstd::prelude::*;

verus! {

/// A growable array of `T`.
///
/// The model of an array is the sequence of its slots, [`ToyVec::storage`], and the number
/// of its live elements, [`ToyVec::spec_len`]. Its view is the sequence of the live
/// elements, in the order in which they were appended.
pub struct ToyVec<T: Default> {
    elements: Box<[T]>,
    length: usize,
}

impl<T: Default> View for ToyVec<T> {
    type V = Seq<T>;

    open spec fn view(&self) -> Seq<T> {
        self.storage().take(self.spec_len() as int)
    }
}

/// Calls `Vec::into_boxed_slice`, which turns a vector into a block of exactly as many
/// slots as the vector has elements. Trusted, not proved: the block holds the elements of
/// `slots`, in their order, and nothing else.
#[verifier::external_body]
fn into_boxed_slice<T>(slots: Vec<T>) -> (block: Box<[T]>)
    ensures
        block@ == slots@,
{
    slots.into_boxed_slice()
}

impl<T: Default> ToyVec<T> {
    /// All the slots of the block, live or not.
    pub closed spec fn storage(&self) -> Seq<T> {
        self.elements@
    }

    /// The number of live elements.
    pub closed spec fn spec_len(&self) -> usize {
        self.length
    }

    /// The number of slots.
    pub open spec fn spec_capacity(&self) -> usize {
        self.storage().len() as usize
    }

    /// What a read at `index` finds.
    pub open spec fn spec_get(&self, index: usize) -> Option<&T> {
        if index < self@.len() {
            Some(&self@[index as int])
        } else {
            None
        }
    }

    /// The traversal that starts at the first live element.
    pub closed spec fn spec_iter(&self) -> Iter<'_, T> {
        Iter::spec_new(&self.elements, self.length)
    }

    /// The live elements are a prefix of the block, and every slot behind them holds a
    /// default value of `T`.
    #[verifier::type_invariant]
    pub open spec fn wf(self) -> bool {
        &&& self.spec_len() <= self.storage().len() <= usize::MAX
        &&& forall|i: int|
            self.spec_len() <= i < self.storage().len() ==> T::default.ensures(
                (),
                #[trigger] self.storage()[i],
            )
    }

    /// A fresh traversal runs over the live elements and has handed out none.
    pub proof fn lemma_spec_iter(self)
        ensures
            self.spec_iter().items() == self@,
            self.spec_iter().cursor() == 0,
            self.spec_iter()@ == self@,
            self.wf() ==> self.spec_iter().wf(),
    {
        Iter::lemma_spec_new(&self.elements, self.length);
    }

    /// An array without slots.
    pub fn new() -> (v: Self)
        ensures
            v.len() == 0,
            v.capacity() == 0,
            v.storage().len() == 0,
    {
        Self::with_capacity(0)
    }

    /// An array of `size` slots, each holding a default value, none of them live.
    pub fn with_capacity(size: usize) -> (v: Self)
        ensures
            v.len() == 0,
            v.capacity() == size,
            v.storage().len() == size,
            forall|i: int| 0 <= i < size ==> T::default.ensures((), #[trigger] v.storage()[i]),
    {
        Self { elements: Self::allocate_in_heap(size), length: 0 }
    }

    /// The number of live elements.
    #[verifier::when_used_as_spec(spec_len)]
    pub fn len(&self) -> (n: usize)
        ensures
            n == self.spec_len(),
            n == self@.len(),
    {
        proof {
            use_type_invariant(self);
        }
        self.length
    }

    /// The number of slots.
    #[verifier::when_used_as_spec(spec_capacity)]
    pub fn capacity(&self) -> (n: usize)
        ensures
            n == self.spec_capacity(),
            n == self.storage().len(),
    {
        self.elements.len()
    }

    /// The live element at `index`, or `None` where `index` is not below the length.
    #[verifier::when_used_as_spec(spec_get)]
    pub fn get(&self, index: usize) -> (r: Option<&T>)
        ensures
            r == self.spec_get(index),
    {
        proof {
            use_type_invariant(self);
        }
        if self.length <= index {
            return None;
        }
        Some(&self.elements[index])
    }

    /// Appends `element` behind the live elements. A full block is first replaced by a
    /// larger one, which keeps the live elements as they are.
    ///
    /// The length of a full block must be such that its double is still a `usize`.
    pub fn push(&mut self, element: T)
        requires
            old(self).len() == old(self).capacity() ==> 2 * old(self).len() <= usize::MAX,
        ensures
            final(self)@ == old(self)@.push(element),
            final(self).len() == old(self).len() + 1,
            final(self).capacity() == capacity_after_push(
                old(self).len() as nat,
                old(self).capacity() as nat,
            ),
            old(self).len() < old(self).capacity() ==> final(self).storage() == old(
                self,
            ).storage().update(old(self).len() as int, element),
    {
        proof {
            use_type_invariant(&*self);
        }
        if self.length == self.capacity() {
            self.grow();
        }
        proof {
            use_type_invariant(&*self);
        }
        // The length is raised first, so that every slot at or behind it still holds a
        // default value when the element is written.
        let slot: usize = self.length;
        self.length = slot + 1;
        self.elements[slot] = element;
    }

    /// A traversal of the live elements, from the first on.
    #[verifier::when_used_as_spec(spec_iter)]
    pub fn iter(&self) -> (it: Iter<'_, T>)
        ensures
            it == self.spec_iter(),
            it.items() == self@,
            it.cursor() == 0,
    {
        proof {
            use_type_invariant(self);
            self.lemma_spec_iter();
        }
        Iter::new(&self.elements, self.length)
    }

    /// A block of `size` slots, each holding a default value.
    fn allocate_in_heap(size: usize) -> (block: Box<[T]>)
        ensures
            block@.len() == size,
            forall|i: int| 0 <= i < size ==> T::default.ensures((), #[trigger] block@[i]),
    {
        let mut slots: Vec<T> = Vec::with_capacity(size);
        while slots.len() < size
            invariant
                slots@.len() <= size,
                forall|i: int|
                    0 <= i < slots@.len() ==> T::default.ensures((), #[trigger] slots@[i]),
            decreases size - slots@.len(),
        {
            slots.push(T::default());
        }
        into_boxed_slice(slots)
    }

    /// Replaces the full block by a larger one and moves the live elements over.
    fn grow(&mut self)
        requires
            old(self).len() == old(self).capacity(),
            2 * old(self).len() <= usize::MAX,
        ensures
            final(self)@ == old(self)@,
            final(self).len() == old(self).len(),
            final(self).capacity() == grown_capacity(
                old(self).len() as nat,
                old(self).capacity() as nat,
            ),
    {
        proof {
            use_type_invariant(&*self);
        }
        if self.capacity() == 0 {
            self.elements = Self::allocate_in_heap(1);
            return;
        }
        let ghost live = self@;
        let mut block = Self::allocate_in_heap(self.length * 2);
        // From here on `block` is the full block, and the array holds the larger one.
        std::mem::swap(&mut self.elements, &mut block);
        let mut i: usize = 0;
        for element in moved: block.into_vec()
            invariant
                i == moved.index(),
                moved.seq() == live,
                self.length == live.len(),
                self.elements@.len() == 2 * live.len(),
                forall|j: int| 0 <= j < i ==> self.elements@[j] == live[j],
                forall|j: int|
                    live.len() <= j < 2 * live.len() ==> T::default.ensures(
                        (),
                        #[trigger] self.elements@[j],
                    ),
        {
            self.elements[i] = element;
            i += 1;
        }
    }
}

} // verus!
