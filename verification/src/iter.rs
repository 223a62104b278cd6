//! Read-only traversal of an array.

use crate::array::ToyVec;
use vstd::prelude::*;
use vstd::std_specs::iter::IteratorSpecImpl;

verus! {

/// A forward, single-pass traversal of the elements that an array held when the traversal
/// was created.
///
/// It borrows the array for as long as it lives, so the compiler refuses an append
/// while a traversal is still in use. Its model is the sequence of the elements it runs
/// over, [`Iter::items`], and the number of those already handed out, [`Iter::cursor`];
/// its view is the sequence of the elements still to come.
pub struct Iter<'vec, T> {
    elements: &'vec Box<[T]>,
    len: usize,
    pos: usize,
}

impl<'vec, T> View for Iter<'vec, T> {
    type V = Seq<T>;

    open spec fn view(&self) -> Seq<T> {
        self.items().skip(self.cursor() as int)
    }
}

impl<'vec, T> Iter<'vec, T> {
    /// The elements that the traversal runs over, in their order.
    pub closed spec fn items(&self) -> Seq<T> {
        self.elements@.take(self.len as int)
    }

    /// How many of them have been handed out.
    pub closed spec fn cursor(&self) -> nat {
        self.pos as nat
    }

    /// The cursor has not passed the last of the elements, and these lie within the block.
    #[verifier::type_invariant]
    pub closed spec fn wf(self) -> bool {
        self.pos <= self.len <= self.elements@.len()
    }

    /// The traversal of the first `len` slots of `elements` that has handed out none.
    pub(crate) closed spec fn spec_new(elements: &'vec Box<[T]>, len: usize) -> Self {
        Iter { elements, len, pos: 0 }
    }

    /// Such a traversal runs over the first `len` slots and stands before the first.
    pub(crate) proof fn lemma_spec_new(elements: &'vec Box<[T]>, len: usize)
        ensures
            Self::spec_new(elements, len).items() == elements@.take(len as int),
            Self::spec_new(elements, len).cursor() == 0,
            len <= elements@.len() ==> Self::spec_new(elements, len).wf(),
    {
    }

    /// The elements still to come are those from the cursor on: there are as many as lie
    /// between the cursor and the end, and each stands as far behind the cursor as it
    /// stands from the head of the view.
    pub proof fn lemma_remaining(self)
        requires
            self.wf(),
        ensures
            self.cursor() <= self.items().len(),
            self@.len() == self.items().len() - self.cursor(),
            forall|k: int| 0 <= k < self@.len() ==> self@[k] == self.items()[self.cursor() + k],
    {
    }

    /// A traversal of the first `len` slots of `elements`, from the first on.
    pub(crate) fn new(elements: &'vec Box<[T]>, len: usize) -> (it: Self)
        requires
            len <= elements@.len(),
        ensures
            it == Self::spec_new(elements, len),
    {
        Iter { elements, len, pos: 0 }
    }
}

impl<'vec, T> Iterator for Iter<'vec, T> {
    type Item = &'vec T;

    /// Hands out the element under the cursor and moves the cursor on by one. At the end
    /// it answers `None` and stays where it is, however often it is asked.
    fn next(&mut self) -> (ret: Option<&'vec T>)
        ensures
            final(self).items() == old(self).items(),
            old(self).cursor() < old(self).items().len() ==> {
                &&& ret == Some(&old(self).items()[old(self).cursor() as int])
                &&& final(self).cursor() == old(self).cursor() + 1
            },
            old(self).cursor() >= old(self).items().len() ==> {
                &&& ret is None
                &&& final(self).cursor() == old(self).cursor()
            },
    {
        proof {
            use_type_invariant(&*self);
        }
        if self.pos == self.len {
            None
        } else {
            let res = Some(&self.elements[self.pos]);
            self.pos += 1;
            res
        }
    }
}

impl<'vec, T> IteratorSpecImpl for Iter<'vec, T> {
    open spec fn obeys_prophetic_iter_laws(&self) -> bool {
        true
    }

    /// References to the elements still to come.
    open spec fn remaining(&self) -> Seq<&'vec T> {
        Seq::new(self@.len(), |k: int| &self@[k])
    }

    open spec fn will_return_none(&self) -> bool {
        true
    }

    open spec fn decrease(&self) -> Option<nat> {
        Some(self@.len())
    }

    /// A traversal stands in this relation to the one it started as when both run over the
    /// same elements from the same place.
    open spec fn initial_value_relation(&self, init: &Self) -> bool {
        &&& self.items() == init.items()
        &&& self.cursor() == init.cursor()
    }

    open spec fn peek(&self, index: int) -> Option<&'vec T> {
        if 0 <= index < self@.len() {
            Some(&self@[index])
        } else {
            None
        }
    }
}

impl<'vec, T: Default> IntoIterator for &'vec ToyVec<T> {
    type Item = &'vec T;

    type IntoIter = Iter<'vec, T>;

    /// The traversal that a `for` loop over a borrowed array runs: the very one that
    /// [`ToyVec::iter`] gives.
    fn into_iter(self) -> (it: Iter<'vec, T>)
        ensures
            it == self.spec_iter(),
            it.items() == self@,
            it.cursor() == 0,
    {
        self.iter()
    }
}

} // verus!
