//! A container for one value with an overwrite and a copy-out operation.

use vstd::prelude::*;

verus! {

/// Holds exactly one value of type `T` in a slot that stays in place for as
/// long as the container lives.
///
/// Writing needs exclusive access to the container, so there is at most one
/// writer and no reader beside it at any instant; nothing is locked and
/// nothing is checked while the program runs. Reading goes through a shared
/// reference, and any number of handles may read the same container.
pub struct Cell<T> {
    value: T,
}

impl<T> View for Cell<T> {
    type V = T;

    /// The value that the slot holds now.
    closed spec fn view(&self) -> T {
        self.value
    }
}

impl<T> Cell<T> {
    /// The container that `new` makes for `value`.
    pub closed spec fn holding(value: T) -> Self {
        Cell { value }
    }

    /// The container that results from overwriting the slot of `self` with
    /// `value`: the one transition that a container has.
    pub closed spec fn written(self, value: T) -> Self {
        Cell { value }
    }

    /// Makes a container that holds `value`.
    pub fn new(value: T) -> (c: Self)
        ensures
            c == Self::holding(value),
            c@ == value,
    {
        Cell { value }
    }

    /// Overwrites the stored value; what was stored before is dropped.
    pub fn set(&mut self, value: T)
        ensures
            *final(self) == old(self).written(value),
            final(self)@ == value,
    {
        self.value = value;
    }

    /// Copies the stored value out. The container is left as it was.
    pub fn get(&self) -> (v: T) where T: Copy
        ensures
            v == self@,
    {
        self.value
    }

    /// A new container holds the value that it was made with.
    pub proof fn lemma_new_then_get(v: T)
        ensures
            Self::holding(v)@ == v,
    {
    }

    /// After a write the container holds the value written, whatever it was
    /// made with.
    pub proof fn lemma_set_then_get(v1: T, v2: T)
        ensures
            Self::holding(v1).written(v2)@ == v2,
    {
    }

    /// Two handles on one container read the same value: once a write of `v`
    /// to the container has returned, each of them reads `v`.
    pub proof fn lemma_handles_agree(before: Self, v: T, h1: &Self, h2: &Self)
        requires
            *h1 == before.written(v),
            *h2 == *h1,
        ensures
            h1@ == v,
            h2@ == v,
    {
    }
}

} // verus!
