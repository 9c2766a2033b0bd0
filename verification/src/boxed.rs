use vstd::prelude::*;

verus! {

/// A unique-owner box: one value with exactly one owner. The single heap
/// cell is a directly owned field, so allocation and deallocation follow
/// the owner's lifetime by construction.
#[derive(PartialEq, Eq, Debug)]
pub struct Box<T> {
    value: T,
}

impl<T> View for Box<T> {
    type V = T;

    closed spec fn view(&self) -> T {
        self.value
    }
}

impl<T> Box<T> {
    /// Places a value under unique ownership.
    pub fn new(value: T) -> (boxed: Self)
        ensures
            boxed@ == value,
    {
        Box { value }
    }

    /// Read access to the owned value.
    pub fn get(&self) -> (value: &T)
        ensures
            *value == self@,
    {
        &self.value
    }

    /// Replaces the owned value.
    pub fn set(&mut self, value: T)
        ensures
            final(self)@ == value,
    {
        self.value = value;
    }
}

} // verus!
