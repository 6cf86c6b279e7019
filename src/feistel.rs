use vstd::prelude::*;
use crate::array::Array;
use crate::block::{BlockCipher, BlockFn, HalfBlock};
use crate::keyed::Keyed;

verus! {

/// A Feistel network of `N` rounds over pairs of half-blocks.
pub struct Feistel<R, const N: usize> {
    rounds: Array<R, N>,
}

/// The pair `(left, right)` after the rounds of `rounds`, first to last: each
/// turns `(l, r)` into `(r, l ^ f(r))`.
pub open spec fn feistel_rounds<R: BlockFn>(rounds: Seq<R>, left: R::Block, right: R::Block) -> (
    R::Block,
    R::Block,
) where R::Block: HalfBlock
    decreases rounds.len(),
{
    if rounds.len() == 0 {
        (left, right)
    } else {
        feistel_rounds(rounds.drop_first(), right, left.xor_spec(rounds[0].encrypt_spec(right)))
    }
}

impl<R, const N: usize> Feistel<R, N> {
    /// The round functions, first to last.
    pub closed spec fn rounds(&self) -> Seq<R> {
        self.rounds.view()
    }
}

impl<R: BlockFn, const N: usize> BlockFn for Feistel<R, N> where R::Block: HalfBlock {
    type Block = (R::Block, R::Block);

    open spec fn encrypt_spec(&self, block: Self::Block) -> Self::Block {
        let (l, r) = feistel_rounds(self.rounds(), block.0, block.1);
        (r, l)
    }

    fn encrypt(&self, block: Self::Block) -> (r: Self::Block) {
        let (mut left, mut right) = block;
        let n = self.rounds.len();
        let ghost rs = self.rounds();
        let mut i: usize = 0;
        assert(rs.subrange(0, N as int) =~= rs);
        while i < n
            invariant
                n == N,
                rs == self.rounds(),
                rs.len() == N,
                i <= N,
                feistel_rounds(rs, block.0, block.1) == feistel_rounds(
                    rs.subrange(i as int, N as int),
                    left,
                    right,
                ),
            decreases N - i,
        {
            let round = self.rounds.get(i);
            let mixed = left.xor(round.encrypt(right));
            assert(rs.subrange(i as int, N as int).drop_first() =~= rs.subrange(i + 1, N as int));
            left = right;
            right = mixed;
            i = i + 1;
        }
        assert(rs.subrange(N as int, N as int) =~= Seq::<R>::empty());
        (right, left)
    }
}

impl<R: BlockFn, const N: usize> BlockCipher for Feistel<R, N> where R::Block: HalfBlock {
    open spec fn decrypt_spec(&self, block: Self::Block) -> Self::Block {
        let (l, r) = feistel_rounds(self.rounds().reverse(), block.0, block.1);
        (r, l)
    }

    fn decrypt(&self, block: Self::Block) -> (r: Self::Block) {
        let (mut left, mut right) = block;
        let n = self.rounds.len();
        let ghost rev = self.rounds().reverse();
        let mut i: usize = n;
        assert(rev.subrange(0, N as int) =~= rev);
        while i > 0
            invariant
                n == N,
                rev == self.rounds().reverse(),
                rev.len() == N,
                i <= N,
                feistel_rounds(rev, block.0, block.1) == feistel_rounds(
                    rev.subrange(N - i, N as int),
                    left,
                    right,
                ),
            decreases i,
        {
            let round = self.rounds.get(i - 1);
            assert(rev[N - i] == self.rounds()[i - 1]);
            let mixed = left.xor(round.encrypt(right));
            assert(rev.subrange(N - i, N as int).drop_first() =~= rev.subrange(N - i + 1, N as int));
            left = right;
            right = mixed;
            i = i - 1;
        }
        assert(rev.subrange(N as int, N as int) =~= Seq::<R>::empty());
        (right, left)
    }
}

impl<R: Keyed, const N: usize> Keyed for Feistel<R, N> {
    type Key = Array<R::Key, N>;

    open spec fn keyed_by(&self, key: Array<R::Key, N>) -> bool {
        &&& self.rounds().len() == N
        &&& forall|i: int| 0 <= i < N ==> #[trigger] self.rounds()[i].keyed_by(key.view()[i])
    }

    /// Round `i` is built from entry `i` of the key.
    fn from_key(key: Array<R::Key, N>) -> (r: Feistel<R, N>) {
        let rounds = key.map(|k: R::Key| -> (r: R)
            ensures
                r.keyed_by(k),
            { R::from_key(k) });
        Feistel { rounds }
    }
}

/// The rounds of `rounds` run on `(l, r)`, then again in reverse order on the
/// result with its halves swapped, give back `(r, l)`.
pub proof fn lemma_rounds_reverse<R: BlockFn>(rounds: Seq<R>, l: R::Block, r: R::Block)
    where R::Block: HalfBlock
    ensures
        ({
            let (a, b) = feistel_rounds(rounds, l, r);
            feistel_rounds(rounds.reverse(), b, a) == (r, l)
        }),
    decreases rounds.len(),
{
    if rounds.len() > 0 {
        let x = rounds[0];
        let ys = rounds.drop_first();
        let l2 = l.xor_spec(x.encrypt_spec(r));
        lemma_rounds_reverse(ys, r, l2);
        assert(rounds.reverse() =~= ys.reverse().push(x));
        let (a, b) = feistel_rounds(ys, r, l2);
        lemma_rounds_push(ys.reverse(), x, b, a);
        R::Block::lemma_xor_cancel(l, x.encrypt_spec(r));
    }
}

/// Adding a round at the end applies it to the pair the others produced.
proof fn lemma_rounds_push<R: BlockFn>(rounds: Seq<R>, x: R, l: R::Block, r: R::Block)
    where R::Block: HalfBlock
    ensures
        ({
            let (a, b) = feistel_rounds(rounds, l, r);
            feistel_rounds(rounds.push(x), l, r) == (b, a.xor_spec(x.encrypt_spec(b)))
        }),
    decreases rounds.len(),
{
    if rounds.len() == 0 {
        assert(rounds.push(x).drop_first() =~= Seq::<R>::empty());
        reveal_with_fuel(feistel_rounds, 2);
    } else {
        assert(rounds.push(x).drop_first() =~= rounds.drop_first().push(x));
        lemma_rounds_push(rounds.drop_first(), x, r, l.xor_spec(rounds[0].encrypt_spec(r)));
    }
}

/// Decrypting what a Feistel network encrypted gives the block back, whatever
/// its round functions compute.
pub proof fn lemma_feistel_involution<R: BlockFn, const N: usize>(
    f: &Feistel<R, N>,
    block: (R::Block, R::Block),
)
    where R::Block: HalfBlock
    ensures
        f.decrypt_spec(f.encrypt_spec(block)) == block,
{
    lemma_rounds_reverse(f.rounds(), block.0, block.1);
}

} // verus!
