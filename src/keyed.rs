use vstd::prelude::*;

verus! {

/// A value that is built from a key.
pub trait Keyed: Sized {
    type Key;

    /// `self` is what `from_key(key)` builds.
    spec fn keyed_by(&self, key: Self::Key) -> bool;

    fn from_key(key: Self::Key) -> (r: Self)
        ensures
            r.keyed_by(key),
    ;
}

} // verus!
