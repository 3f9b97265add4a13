//! A fixed-capacity stack over exactly `capacity` slots allocated once at
//! construction. The count `top` of initialized slots is the single source of
//! truth: slots `[0, top)` each hold one live element, slots `[top, capacity)`
//! hold none and are never read.
//!
//! An uninitialized slot is `None`, so when the stack is dropped the slots
//! are dropped with it: each element in `[0, top)` is destroyed exactly once,
//! the empty slots own nothing, and then the storage is released.
use vstd::prelude::*;

verus! {

/// A last-in-first-out stack holding at most `capacity` elements.
pub struct FixedStack<T> {
    slots: Vec<Option<T>>,
    capacity: usize,
    top: usize,
}

impl<T> View for FixedStack<T> {
    type V = Seq<T>;

    /// The elements in the initialized slots, from the bottom (index 0) to
    /// the top (last).
    closed spec fn view(&self) -> Seq<T> {
        Seq::new(self.top as nat, |i: int| self.slots@[i]->0)
    }
}

impl<T> FixedStack<T> {
    /// The capacity fixed at construction.
    pub closed spec fn spec_capacity(&self) -> nat {
        self.capacity as nat
    }

    /// There are exactly `capacity` slots; those below `top` are initialized
    /// and the others are not.
    pub closed spec fn wf(&self) -> bool {
        &&& self.capacity > 0
        &&& self.slots@.len() == self.capacity
        &&& self.top <= self.capacity
        &&& forall|i: int| 0 <= i < self.top ==> (#[trigger] self.slots@[i]) is Some
        &&& forall|i: int| self.top <= i < self.capacity ==> (#[trigger] self.slots@[i]) is None
    }

    /// Creates an empty stack with room for exactly `capacity` elements.
    pub fn new(capacity: usize) -> (s: Self)
        requires
            capacity > 0,
        ensures
            s.wf(),
            s@ == Seq::<T>::empty(),
            s.spec_capacity() == capacity,
    {
        let mut slots: Vec<Option<T>> = Vec::with_capacity(capacity);
        let mut n: usize = 0;
        while n < capacity
            invariant
                n <= capacity,
                slots@.len() == n,
                forall|i: int| 0 <= i < n ==> (#[trigger] slots@[i]) is None,
            decreases capacity - n,
        {
            slots.push(None);
            n += 1;
        }
        let s = FixedStack { slots, capacity, top: 0 };
        assert(s@ =~= Seq::<T>::empty());
        s
    }

    /// Writes `value` into the first uninitialized slot and counts it as
    /// initialized.
    pub fn push(&mut self, value: T)
        requires
            old(self).wf(),
            old(self)@.len() < old(self).spec_capacity(),
        ensures
            final(self).wf(),
            final(self)@ == old(self)@.push(value),
            final(self).spec_capacity() == old(self).spec_capacity(),
    {
        let mut slot: Option<T> = Some(value);
        std::mem::swap(&mut self.slots[self.top], &mut slot);
        self.top = self.top + 1;
        assert(self@ =~= old(self)@.push(value));
    }

    /// Moves the top element out of its slot, which becomes uninitialized,
    /// and returns it; returns `None` when the stack is empty.
    pub fn pop(&mut self) -> (r: Option<T>)
        requires
            old(self).wf(),
        ensures
            final(self).wf(),
            final(self).spec_capacity() == old(self).spec_capacity(),
            old(self)@.len() == 0 ==> r is None && final(self)@ == old(self)@,
            old(self)@.len() > 0 ==> r == Some(old(self)@.last()) && final(self)@
                == old(self)@.drop_last(),
    {
        if self.top == 0 {
            None
        } else {
            self.top = self.top - 1;
            let mut slot: Option<T> = None;
            std::mem::swap(&mut self.slots[self.top], &mut slot);
            assert(self@ =~= old(self)@.drop_last());
            slot
        }
    }

    /// The number of elements held.
    pub fn len(&self) -> (r: usize)
        ensures
            r == self@.len(),
    {
        self.top
    }

    /// Whether the stack holds no element.
    pub fn is_empty(&self) -> (r: bool)
        ensures
            r == (self@.len() == 0),
    {
        self.len() == 0
    }

    /// The capacity fixed at construction.
    pub fn capacity(&self) -> (r: usize)
        ensures
            r == self.spec_capacity(),
    {
        self.capacity
    }
}

} // verus!
