use vstd::prelude::*;
use crate::secret::Secret;

verus! {

broadcast use crate::secret::group_secret;

/// A keyed transformation of blocks of one type.
pub trait BlockFn {
    type Block;

    /// What `encrypt` returns for `block`.
    spec fn encrypt_spec(&self, block: Self::Block) -> Self::Block;

    fn encrypt(&self, block: Self::Block) -> (r: Self::Block)
        ensures
            r == self.encrypt_spec(block),
    ;
}

/// A block function that can be undone.
pub trait BlockCipher: BlockFn {
    /// What `decrypt` returns for `block`.
    spec fn decrypt_spec(&self, block: Self::Block) -> Self::Block;

    fn decrypt(&self, block: Self::Block) -> (r: Self::Block)
        ensures
            r == self.decrypt_spec(block),
    ;
}

/// One half of a Feistel block: a value with an XOR that undoes itself.
pub trait HalfBlock: Copy {
    spec fn xor_spec(self, other: Self) -> Self;

    fn xor(self, other: Self) -> (r: Self)
        ensures
            r == self.xor_spec(other),
    ;

    proof fn lemma_xor_cancel(a: Self, b: Self)
        ensures
            a.xor_spec(b).xor_spec(b) == a,
    ;
}

impl HalfBlock for Secret<u8> {
    open spec fn xor_spec(self, other: Secret<u8>) -> Secret<u8> {
        Secret::wrap(self@ ^ other@)
    }

    fn xor(self, other: Secret<u8>) -> Secret<u8> {
        self ^ other
    }

    proof fn lemma_xor_cancel(a: Secret<u8>, b: Secret<u8>) {
        let (x, y) = (a@, b@);
        assert((x ^ y) ^ y == x) by (bit_vector);
    }
}

impl HalfBlock for Secret<u16> {
    open spec fn xor_spec(self, other: Secret<u16>) -> Secret<u16> {
        Secret::wrap(self@ ^ other@)
    }

    fn xor(self, other: Secret<u16>) -> Secret<u16> {
        self ^ other
    }

    proof fn lemma_xor_cancel(a: Secret<u16>, b: Secret<u16>) {
        let (x, y) = (a@, b@);
        assert((x ^ y) ^ y == x) by (bit_vector);
    }
}

impl HalfBlock for Secret<u32> {
    open spec fn xor_spec(self, other: Secret<u32>) -> Secret<u32> {
        Secret::wrap(self@ ^ other@)
    }

    fn xor(self, other: Secret<u32>) -> Secret<u32> {
        self ^ other
    }

    proof fn lemma_xor_cancel(a: Secret<u32>, b: Secret<u32>) {
        let (x, y) = (a@, b@);
        assert((x ^ y) ^ y == x) by (bit_vector);
    }
}

impl HalfBlock for Secret<u64> {
    open spec fn xor_spec(self, other: Secret<u64>) -> Secret<u64> {
        Secret::wrap(self@ ^ other@)
    }

    fn xor(self, other: Secret<u64>) -> Secret<u64> {
        self ^ other
    }

    proof fn lemma_xor_cancel(a: Secret<u64>, b: Secret<u64>) {
        let (x, y) = (a@, b@);
        assert((x ^ y) ^ y == x) by (bit_vector);
    }
}

} // verus!
