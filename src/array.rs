use vstd::prelude::*;

verus! {

/// A container of exactly `N` values of `T`.
///
/// The length is part of the type and never changes: `push` and `append`
/// consume their operands and build a longer array.
pub struct Array<T, const N: usize> {
    data: Vec<T>,
}

impl<T, const N: usize> Array<T, N> {
    #[verifier::type_invariant]
    spec fn inv(&self) -> bool {
        self.data.len() == N
    }

    /// The values held, in order.
    pub closed spec fn view(&self) -> Seq<T> {
        self.data@
    }

    /// Builds the array from a vector of its exact length.
    pub fn from_vec(data: Vec<T>) -> (r: Array<T, N>)
        requires
            data.len() == N,
        ensures
            r.view() == data@,
            r.view().len() == N,
    {
        Array { data }
    }

    pub fn len(&self) -> (r: usize)
        ensures
            r == N,
            self.view().len() == N,
    {
        proof {
            use_type_invariant(self);
        }
        self.data.len()
    }

    pub fn get(&self, i: usize) -> (r: &T)
        requires
            i < N,
        ensures
            *r == self.view()[i as int],
    {
        proof {
            use_type_invariant(self);
        }
        &self.data[i]
    }

    pub fn as_slice(&self) -> (r: &[T])
        ensures
            r@ == self.view(),
            r@.len() == N,
    {
        proof {
            use_type_invariant(self);
        }
        self.data.as_slice()
    }

    /// The array with `val` added at the end.
    pub fn push<const M: usize>(self, val: T) -> (r: Array<T, M>)
        requires
            M == N + 1,
        ensures
            r.view() == self.view().push(val),
            r.view().len() == M,
    {
        proof {
            use_type_invariant(&self);
        }
        let mut data = self.data;
        data.push(val);
        Array { data }
    }

    /// The values of `self` followed by those of `other`.
    pub fn append<const K: usize, const M: usize>(self, other: Array<T, K>) -> (r: Array<T, M>)
        requires
            M == N + K,
        ensures
            r.view() == self.view() + other.view(),
            r.view().len() == M,
    {
        proof {
            use_type_invariant(&self);
            use_type_invariant(&other);
        }
        let mut data = self.data;
        let mut rest = other.data;
        data.append(&mut rest);
        Array { data }
    }

    /// Applies `f` to every value, keeping the order.
    pub fn map<U, F: Fn(T) -> U>(self, f: F) -> (r: Array<U, N>)
        requires
            forall|i: int| 0 <= i < N ==> f.requires((self.view()[i],)),
        ensures
            r.view().len() == N,
            forall|i: int| 0 <= i < N ==> f.ensures((self.view()[i],), #[trigger] r.view()[i]),
    {
        proof {
            use_type_invariant(&self);
        }
        let ghost old_data = self.data@;
        assert(forall|j: int| 0 <= j < N ==> f.requires((old_data[j],))) by {
            assert(old_data == self.view());
        }
        let mut data = self.data;
        let mut out: Vec<U> = Vec::new();
        let mut i: usize = 0;
        while i < N
            invariant
                old_data.len() == N,
                i <= N,
                out.len() == i,
                data@ == old_data.subrange(i as int, N as int),
                forall|j: int| 0 <= j < N ==> f.requires((old_data[j],)),
                forall|j: int| 0 <= j < i ==> f.ensures((old_data[j],), #[trigger] out@[j]),
            decreases N - i,
        {
            let x = data.remove(0);
            assert(x == old_data[i as int]);
            let y = f(x);
            out.push(y);
            assert(data@ =~= old_data.subrange(i as int + 1, N as int));
            i = i + 1;
        }
        Array { data: out }
    }
}

impl<T> Array<T, 0> {
    /// The empty array.
    pub fn new() -> (r: Array<T, 0>)
        ensures
            r.view() == Seq::<T>::empty(),
    {
        Array { data: Vec::new() }
    }
}

} // verus!
