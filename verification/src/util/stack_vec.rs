//! A vector of bounded length.

use vstd::prelude::*;

verus! {

/// A vector that holds at most `N` elements.
pub struct StackVec<T, const N: usize> {
    data: Vec<T>,
}

impl<T, const N: usize> View for StackVec<T, N> {
    type V = Seq<T>;

    closed spec fn view(&self) -> Seq<T> {
        self.data@
    }
}

impl<T, const N: usize> StackVec<T, N> {
    /// The vector holds no more than it may.
    pub open spec fn wf(&self) -> bool {
        self@.len() <= N
    }

    /// An empty vector.
    pub fn new() -> (vec: Self)
        ensures
            vec@ == Seq::<T>::empty(),
            vec.wf(),
    {
        StackVec { data: Vec::new() }
    }

    /// A vector that holds `items`, which must not be more than it can hold.
    pub fn from_vec(items: Vec<T>) -> (vec: Self)
        requires
            items@.len() <= N,
        ensures
            vec@ == items@,
            vec.wf(),
    {
        StackVec { data: items }
    }

    /// How many elements the vector holds.
    pub fn len(&self) -> (len: usize)
        ensures
            len == self@.len(),
    {
        self.data.len()
    }

    /// How many elements the vector can hold.
    pub fn capacity(&self) -> (capacity: usize)
        ensures
            capacity == N,
    {
        N
    }

    /// Adds an element at the end of a vector that is not full.
    pub fn push(&mut self, value: T)
        requires
            old(self)@.len() < N,
        ensures
            final(self)@ == old(self)@.push(value),
            final(self).wf(),
    {
        self.data.push(value);
    }

    /// Takes the last element off, if there is one.
    pub fn pop(&mut self) -> (value: Option<T>)
        ensures
            match value {
                Some(last) => old(self)@.len() > 0 && last == old(self)@.last() && final(self)@
                    == old(self)@.drop_last(),
                None => old(self)@.len() == 0 && final(self)@ == old(self)@,
            },
            old(self).wf() ==> final(self).wf(),
    {
        self.data.pop()
    }

    /// The elements, first to last.
    pub fn as_slice(&self) -> (slice: &[T])
        ensures
            slice@ == self@,
    {
        self.data.as_slice()
    }

    /// The elements, first to last, to be changed in place.
    pub fn as_mut_slice(&mut self) -> (slice: &mut [T])
        ensures
            slice@ == old(self)@,
            final(slice)@ == final(self)@,
    {
        self.data.as_mut_slice()
    }
}

impl<T, const N: usize> Default for StackVec<T, N> {
    fn default() -> (vec: Self)
        ensures
            vec@ == Seq::<T>::empty(),
            vec.wf(),
    {
        StackVec::new()
    }
}

} // verus!
