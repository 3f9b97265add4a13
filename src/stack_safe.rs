//! A fixed-capacity stack whose storage is a `Vec` that never grows past the
//! capacity chosen at construction.
use vstd::prelude::*;

verus! {

/// A last-in-first-out stack holding at most `capacity` elements.
pub struct FixedStack<T> {
    buffer: Vec<T>,
    capacity: usize,
}

impl<T> View for FixedStack<T> {
    type V = Seq<T>;

    /// The elements held, from the bottom (index 0) to the top (last).
    closed spec fn view(&self) -> Seq<T> {
        self.buffer@
    }
}

impl<T> FixedStack<T> {
    /// The capacity fixed at construction.
    pub closed spec fn spec_capacity(&self) -> nat {
        self.capacity as nat
    }

    /// The capacity is positive and never exceeded.
    pub closed spec fn wf(&self) -> bool {
        &&& self.capacity > 0
        &&& self.buffer@.len() <= self.capacity
    }

    /// Creates an empty stack that can hold `capacity` elements.
    pub fn new(capacity: usize) -> (s: Self)
        requires
            capacity > 0,
        ensures
            s.wf(),
            s@ == Seq::<T>::empty(),
            s.spec_capacity() == capacity,
    {
        FixedStack { buffer: Vec::with_capacity(capacity), capacity }
    }

    /// Places `value` on top of the stack.
    pub fn push(&mut self, value: T)
        requires
            old(self).wf(),
            old(self)@.len() < old(self).spec_capacity(),
        ensures
            final(self).wf(),
            final(self)@ == old(self)@.push(value),
            final(self).spec_capacity() == old(self).spec_capacity(),
    {
        self.buffer.push(value);
    }

    /// Removes and returns the top element, or `None` when the stack is empty.
    pub fn pop(&mut self) -> (r: Option<T>)
        requires
            old(self).wf(),
        ensures
            final(self).wf(),
            final(self).spec_capacity() == old(self).spec_capacity(),
            old(self)@.len() == 0 ==> r is None && final(self)@ == old(self)@,
            old(self)@.len() > 0 ==> r == Some(old(self)@.last()) && final(self)@
                == old(self)@.drop_last(),
    {
        self.buffer.pop()
    }

    /// Whether the stack holds no element.
    pub fn is_empty(&self) -> (r: bool)
        ensures
            r == (self@.len() == 0),
    {
        self.buffer.is_empty()
    }

    /// The number of elements held.
    pub fn len(&self) -> (r: usize)
        ensures
            r == self@.len(),
    {
        self.buffer.len()
    }

    /// The capacity fixed at construction.
    pub fn capacity(&self) -> (r: usize)
        ensures
            r == self.spec_capacity(),
    {
        self.capacity
    }
}

} // verus!
