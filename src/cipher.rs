use vstd::prelude::*;
use crate::block::{BlockCipher, BlockFn};
use crate::des::{
    expand, final_permute, final_spec, initial_permute, initial_spec, join_block, join_spec,
    key_schedule, lemma_initial_final_inverse, lemma_split_join, permute, round_spec,
    split_block, split_spec, subkey, substitute,
};
use crate::feistel::{feistel_rounds, lemma_rounds_reverse, Feistel};
use crate::keyed::Keyed;
use crate::secret::Secret;

verus! {

broadcast use crate::secret::group_secret;

/// One DES round: the round function under one subkey.
pub struct DesRound {
    key: Secret<u64>,
}

impl DesRound {
    /// The subkey of this round.
    pub closed spec fn subkey(&self) -> u64 {
        self.key@
    }
}

impl BlockFn for DesRound {
    type Block = Secret<u32>;

    open spec fn encrypt_spec(&self, block: Secret<u32>) -> Secret<u32> {
        Secret::wrap(round_spec(self.subkey(), block@))
    }

    fn encrypt(&self, block: Secret<u32>) -> (r: Secret<u32>) {
        permute(substitute(expand(block) ^ self.key))
    }
}

impl Keyed for DesRound {
    type Key = Secret<u64>;

    open spec fn keyed_by(&self, key: Secret<u64>) -> bool {
        self.subkey() == key@
    }

    fn from_key(key: Secret<u64>) -> (r: DesRound) {
        DesRound { key }
    }
}

/// The round of subkey `k`.
closed spec fn round_of(k: u64) -> DesRound {
    DesRound { key: Secret::wrap(k) }
}

/// The Feistel rounds of DES on plain halves `(l, r)`, one per subkey of
/// `keys`, first to last.
pub open spec fn des_rounds(keys: Seq<u64>, l: u32, r: u32) -> (u32, u32)
    decreases keys.len(),
{
    if keys.len() == 0 {
        (l, r)
    } else {
        des_rounds(keys.drop_first(), r, l ^ round_spec(keys[0], r))
    }
}

/// The sixteen subkeys derived from `key`.
pub open spec fn schedule_spec(key: u64) -> Seq<u64> {
    Seq::new(16, |i: int| subkey(key, i as nat))
}

/// DES on `block` with the round subkeys `keys`, in that order.
pub open spec fn des_with(keys: Seq<u64>, block: u64) -> u64 {
    let (l, r) = split_spec(initial_spec(block));
    let (a, b) = des_rounds(keys, l, r);
    final_spec(join_spec(b, a))
}

/// DES encryption of `block` under `key`.
pub open spec fn des_encrypt(key: u64, block: u64) -> u64 {
    des_with(schedule_spec(key), block)
}

/// DES decryption of `block` under `key`: the subkeys in reverse order.
pub open spec fn des_decrypt(key: u64, block: u64) -> u64 {
    des_with(schedule_spec(key).reverse(), block)
}

/// The subkeys of a sequence of rounds.
pub open spec fn subkeys_of(rounds: Seq<DesRound>) -> Seq<u64> {
    rounds.map_values(|d: DesRound| d.subkey())
}

/// The generic network over rounds of DES computes `des_rounds` over their subkeys.
proof fn lemma_rounds_plain(rounds: Seq<DesRound>, l: u32, r: u32)
    ensures
        ({
            let (a, b) = des_rounds(subkeys_of(rounds), l, r);
            feistel_rounds(rounds, Secret::wrap(l), Secret::wrap(r)) == (
                Secret::wrap(a),
                Secret::wrap(b),
            )
        }),
    decreases rounds.len(),
{
    if rounds.len() > 0 {
        let l2 = l ^ round_spec(rounds[0].subkey(), r);
        assert(subkeys_of(rounds).drop_first() =~= subkeys_of(rounds.drop_first()));
        lemma_rounds_plain(rounds.drop_first(), r, l2);
    }
}

/// The DES cipher.
pub struct Des {
    inner: Feistel<DesRound, 16>,
}

impl Des {
    /// The round subkeys, in order.
    pub closed spec fn subkeys(&self) -> Seq<u64> {
        subkeys_of(self.inner.rounds())
    }
}

impl BlockFn for Des {
    type Block = Secret<u64>;

    open spec fn encrypt_spec(&self, block: Secret<u64>) -> Secret<u64> {
        Secret::wrap(des_with(self.subkeys(), block@))
    }

    fn encrypt(&self, block: Secret<u64>) -> (r: Secret<u64>) {
        let halves = split_block(initial_permute(block));
        let out = self.inner.encrypt(halves);
        proof {
            lemma_rounds_plain(self.inner.rounds(), halves.0@, halves.1@);
        }
        final_permute(join_block(out))
    }
}

impl BlockCipher for Des {
    open spec fn decrypt_spec(&self, block: Secret<u64>) -> Secret<u64> {
        Secret::wrap(des_with(self.subkeys().reverse(), block@))
    }

    fn decrypt(&self, block: Secret<u64>) -> (r: Secret<u64>) {
        let halves = split_block(initial_permute(block));
        let out = self.inner.decrypt(halves);
        proof {
            let rs = self.inner.rounds();
            assert(subkeys_of(rs.reverse()) =~= subkeys_of(rs).reverse());
            lemma_rounds_plain(rs.reverse(), halves.0@, halves.1@);
        }
        final_permute(join_block(out))
    }
}

impl Keyed for Des {
    type Key = Secret<u64>;

    /// The parity bits of the key are not checked: they take no part in the cipher.
    open spec fn keyed_by(&self, key: Secret<u64>) -> bool {
        self.subkeys() == schedule_spec(key@)
    }

    fn from_key(key: Secret<u64>) -> (r: Des) {
        let schedule = key_schedule(key);
        let inner = Feistel::<DesRound, 16>::from_key(schedule);
        let r = Des { inner };
        proof {
            assert forall|i: int| 0 <= i < 16 implies #[trigger] r.subkeys()[i] == schedule_spec(
                key@,
            )[i] by {
                assert(inner.rounds()[i].keyed_by(schedule.view()[i]));
            }
            assert(r.subkeys() =~= schedule_spec(key@));
        }
        r
    }
}

/// A cipher built from `key` encrypts and decrypts as DES under `key`.
pub proof fn lemma_des_keyed(des: &Des, key: Secret<u64>, block: Secret<u64>)
    requires
        des.keyed_by(key),
    ensures
        des.encrypt_spec(block)@ == des_encrypt(key@, block@),
        des.decrypt_spec(block)@ == des_decrypt(key@, block@),
{
}

/// Whatever its key, a DES cipher decrypts what it encrypted back to the block.
pub proof fn lemma_des_cipher_involution(des: &Des, block: Secret<u64>)
    ensures
        des.decrypt_spec(des.encrypt_spec(block)) == block,
{
    lemma_des_involution(des.subkeys(), block@);
}

/// Decrypting with the subkeys in reverse order undoes encrypting with them,
/// whatever the subkeys are.
pub proof fn lemma_des_involution(keys: Seq<u64>, block: u64)
    ensures
        des_with(keys.reverse(), des_with(keys, block)) == block,
{
    let rounds = Seq::new(keys.len(), |i: int| round_of(keys[i]));
    assert(subkeys_of(rounds) =~= keys);
    assert(subkeys_of(rounds.reverse()) =~= keys.reverse());
    let x = initial_spec(block);
    let (l, r) = split_spec(x);
    let (a, b) = des_rounds(keys, l, r);
    lemma_rounds_plain(rounds, l, r);
    lemma_rounds_reverse(rounds, Secret::wrap(l), Secret::wrap(r));
    lemma_rounds_plain(rounds.reverse(), b, a);
    let y = join_spec(b, a);
    lemma_initial_final_inverse(y);
    lemma_split_join(y, b, a);
    lemma_split_join(x, l, r);
    lemma_initial_final_inverse(block);
}

/// DES decryption under a key undoes DES encryption under it.
pub proof fn lemma_des_decrypt_encrypt(key: u64, block: u64)
    ensures
        des_decrypt(key, des_encrypt(key, block)) == block,
{
    lemma_des_involution(schedule_spec(key), block);
}

} // verus!
