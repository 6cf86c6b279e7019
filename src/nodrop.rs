use vstd::prelude::*;
use std::mem::ManuallyDrop;

verus! {

/// A value whose destructor is never run: dropping a `NoDrop` leaks what it holds.
pub struct NoDrop<T> {
    inner: ManuallyDrop<T>,
}

impl<T> NoDrop<T> {
    /// The value held.
    pub closed spec fn view(&self) -> T {
        self.inner@
    }

    pub fn new(val: T) -> (r: NoDrop<T>)
        ensures
            r.view() == val,
    {
        NoDrop { inner: ManuallyDrop::new(val) }
    }

    /// A reference to the value held.
    pub fn get(&self) -> (r: &T)
        ensures
            *r == self.view(),
    {
        &*self.inner
    }

    /// Takes the value out; from here on it is dropped as usual.
    pub fn into_inner(self) -> (r: T)
        ensures
            r == self.view(),
    {
        ManuallyDrop::into_inner(self.inner)
    }
}

} // verus!
