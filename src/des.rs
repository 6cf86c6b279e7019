use vstd::prelude::*;
use crate::array::Array;
use crate::des_tables::{
    EXPANSION_PERMUTATION, FINAL_PERMUTATION, INITIAL_PERMUTATION, KEY_SCHEDULE_ROTATIONS,
    PERMUTED_CHOICE_1, PERMUTED_CHOICE_2, ROUND_PERMUTATION, SUBSTITUTIONS,
};
use crate::secret::Secret;
use crate::signs::{ToSigned, ToUnsigned};
use crate::truncate::Truncate;
use crate::wrapping::WrappingSub;

verus! {

broadcast use crate::secret::group_secret;

// ---------------------------------------------------------------------------
// The cipher as mathematics. Bits are numbered from 1, most significant first,
// within a word of `insize` (input) or `outsize` (output) bits.

/// The first `n` output bits of a table-driven permutation: output bit `i`
/// (from 0) is input bit `table[i]`.
pub open spec fn gather(table: Seq<u8>, val: u64, insize: u32, outsize: u32, n: nat) -> u64
    decreases n,
{
    if n == 0 {
        0
    } else {
        gather(table, val, insize, outsize, (n - 1) as nat) | (((val >> ((insize - table[n
            - 1]) as u32)) & 1) << ((outsize - n) as u32))
    }
}

/// `val` permuted by `table`: an `outsize`-bit word whose bit `i` is bit `table[i]` of `val`.
pub open spec fn permute_bits(table: Seq<u8>, val: u64, insize: u32, outsize: u32) -> u64 {
    gather(table, val, insize, outsize, table.len())
}

/// Every entry of `table` names a bit of the input, and there is room for every output bit.
pub open spec fn valid_table(table: Seq<u8>, insize: u32, outsize: u32) -> bool {
    &&& insize <= 64
    &&& outsize <= 64
    &&& table.len() <= outsize
    &&& forall|i: int| 0 <= i < table.len() ==> 1 <= #[trigger] table[i] <= insize
}

/// Entry `x` of `table`, or 0 past its end.
pub open spec fn lookup(table: Seq<u8>, x: u8) -> u8 {
    if (x as int) < table.len() {
        table[x as int]
    } else {
        0
    }
}

pub open spec fn initial_spec(block: u64) -> u64 {
    permute_bits(INITIAL_PERMUTATION@, block, 64, 64)
}

pub open spec fn final_spec(block: u64) -> u64 {
    permute_bits(FINAL_PERMUTATION@, block, 64, 64)
}

pub open spec fn expand_spec(half: u32) -> u64 {
    permute_bits(EXPANSION_PERMUTATION@, half as u64, 32, 48)
}

pub open spec fn permute_spec(half: u32) -> u32 {
    permute_bits(ROUND_PERMUTATION@, half as u64, 32, 32) as u32
}

/// The S-box outputs of the `n` low 6-bit chunks of `block`; chunk `i` (from
/// the least significant) goes through S-box `8 - i` and lands at bit `4 * i`.
pub open spec fn substitute_chunks(block: u64, n: nat) -> u32
    decreases n,
{
    if n == 0 {
        0
    } else {
        let i = (n - 1) as nat;
        substitute_chunks(block, i) | ((lookup(
            SUBSTITUTIONS@[7 - i]@,
            ((block >> ((6 * i) as u32)) & 0x3F) as u8,
        ) as u32) << ((4 * i) as u32))
    }
}

pub open spec fn substitute_spec(block: u64) -> u32 {
    substitute_chunks(block, 8)
}

/// The round function on a half-block under a 48-bit subkey.
pub open spec fn round_spec(subkey: u64, half: u32) -> u32 {
    permute_spec(substitute_spec(expand_spec(half) ^ subkey))
}

pub open spec fn split_spec(block: u64) -> (u32, u32) {
    ((block >> 32u32) as u32, block as u32)
}

pub open spec fn join_spec(high: u32, low: u32) -> u64 {
    ((high as u64) << 32u32) | (low as u64)
}

/// A 28-bit word rotated left by `n` places.
pub open spec fn rotate28(x: u64, n: u32) -> u64 {
    (x >> ((28 - n) as u32)) | ((x << n) & 0x0FFF_FFFF)
}

/// The two 28-bit key halves after `n` rounds of the key schedule.
pub open spec fn schedule_halves(key: u64, n: nat) -> (u64, u64)
    decreases n,
{
    if n == 0 {
        (
            permute_bits(PERMUTED_CHOICE_1@[0]@, key, 64, 28),
            permute_bits(PERMUTED_CHOICE_1@[1]@, key, 64, 28),
        )
    } else {
        let (c, d) = schedule_halves(key, (n - 1) as nat);
        let s = KEY_SCHEDULE_ROTATIONS@[n - 1];
        (rotate28(c, s), rotate28(d, s))
    }
}

/// The subkey of round `i` (from 0).
pub open spec fn subkey(key: u64, i: nat) -> u64 {
    let (c, d) = schedule_halves(key, i + 1);
    permute_bits(PERMUTED_CHOICE_2@, (c << 28u32) | d, 56, 48)
}

/// One butterfly step: the bits of `block` under `mask` trade places with
/// those `offset` places to their right.
pub open spec fn swap_step(block: u64, mask: u64, offset: u32) -> u64 {
    let t = ((block << offset) ^ block) & mask;
    (block ^ t) ^ (t >> offset)
}

pub open spec fn initial_network(v: u64) -> u64 {
    let v = swap_step(v, 0xF0F0F0F000000000, 36);
    let v = swap_step(v, 0xCCCC0000CCCC0000, 18);
    let v = swap_step(v, 0xFF000000FF000000, 24);
    let v = swap_step(v, 0xFFFF000000000000, 48);
    swap_step(v, 0xAAAAAAAA00000000, 33)
}

pub open spec fn final_network(v: u64) -> u64 {
    let v = swap_step(v, 0xAAAAAAAA00000000, 33);
    let v = swap_step(v, 0xFFFF000000000000, 48);
    let v = swap_step(v, 0xFF000000FF000000, 24);
    let v = swap_step(v, 0xCCCC0000CCCC0000, 18);
    swap_step(v, 0xF0F0F0F000000000, 36)
}

pub open spec fn expand_network(h: u64) -> u64 {
    (h & 1) << 47u32 | (h & 0x80000000) >> 31u32 | (h & 0xF8000000) << 15u32 | (h & 0x1F800000)
        << 13u32 | (h & 0x01F80000) << 11u32 | (h & 0x001F8000) << 9u32 | (h & 0x0001F800) << 7u32
        | (h & 0x00001F80) << 5u32 | (h & 0x000001F8) << 3u32 | (h & 0x0000001F) << 1u32
}

/// The initial permutation written out bit by bit.
spec fn initial_gathered(v: u64) -> u64 {
    0u64
        | ((v >> 6u32) & 1) << 63u32
        | ((v >> 14u32) & 1) << 62u32
        | ((v >> 22u32) & 1) << 61u32
        | ((v >> 30u32) & 1) << 60u32
        | ((v >> 38u32) & 1) << 59u32
        | ((v >> 46u32) & 1) << 58u32
        | ((v >> 54u32) & 1) << 57u32
        | ((v >> 62u32) & 1) << 56u32
        | ((v >> 4u32) & 1) << 55u32
        | ((v >> 12u32) & 1) << 54u32
        | ((v >> 20u32) & 1) << 53u32
        | ((v >> 28u32) & 1) << 52u32
        | ((v >> 36u32) & 1) << 51u32
        | ((v >> 44u32) & 1) << 50u32
        | ((v >> 52u32) & 1) << 49u32
        | ((v >> 60u32) & 1) << 48u32
        | ((v >> 2u32) & 1) << 47u32
        | ((v >> 10u32) & 1) << 46u32
        | ((v >> 18u32) & 1) << 45u32
        | ((v >> 26u32) & 1) << 44u32
        | ((v >> 34u32) & 1) << 43u32
        | ((v >> 42u32) & 1) << 42u32
        | ((v >> 50u32) & 1) << 41u32
        | ((v >> 58u32) & 1) << 40u32
        | ((v >> 0u32) & 1) << 39u32
        | ((v >> 8u32) & 1) << 38u32
        | ((v >> 16u32) & 1) << 37u32
        | ((v >> 24u32) & 1) << 36u32
        | ((v >> 32u32) & 1) << 35u32
        | ((v >> 40u32) & 1) << 34u32
        | ((v >> 48u32) & 1) << 33u32
        | ((v >> 56u32) & 1) << 32u32
        | ((v >> 7u32) & 1) << 31u32
        | ((v >> 15u32) & 1) << 30u32
        | ((v >> 23u32) & 1) << 29u32
        | ((v >> 31u32) & 1) << 28u32
        | ((v >> 39u32) & 1) << 27u32
        | ((v >> 47u32) & 1) << 26u32
        | ((v >> 55u32) & 1) << 25u32
        | ((v >> 63u32) & 1) << 24u32
        | ((v >> 5u32) & 1) << 23u32
        | ((v >> 13u32) & 1) << 22u32
        | ((v >> 21u32) & 1) << 21u32
        | ((v >> 29u32) & 1) << 20u32
        | ((v >> 37u32) & 1) << 19u32
        | ((v >> 45u32) & 1) << 18u32
        | ((v >> 53u32) & 1) << 17u32
        | ((v >> 61u32) & 1) << 16u32
        | ((v >> 3u32) & 1) << 15u32
        | ((v >> 11u32) & 1) << 14u32
        | ((v >> 19u32) & 1) << 13u32
        | ((v >> 27u32) & 1) << 12u32
        | ((v >> 35u32) & 1) << 11u32
        | ((v >> 43u32) & 1) << 10u32
        | ((v >> 51u32) & 1) << 9u32
        | ((v >> 59u32) & 1) << 8u32
        | ((v >> 1u32) & 1) << 7u32
        | ((v >> 9u32) & 1) << 6u32
        | ((v >> 17u32) & 1) << 5u32
        | ((v >> 25u32) & 1) << 4u32
        | ((v >> 33u32) & 1) << 3u32
        | ((v >> 41u32) & 1) << 2u32
        | ((v >> 49u32) & 1) << 1u32
        | ((v >> 57u32) & 1) << 0u32
}

/// The final permutation written out bit by bit.
spec fn final_gathered(v: u64) -> u64 {
    0u64
        | ((v >> 24u32) & 1) << 63u32
        | ((v >> 56u32) & 1) << 62u32
        | ((v >> 16u32) & 1) << 61u32
        | ((v >> 48u32) & 1) << 60u32
        | ((v >> 8u32) & 1) << 59u32
        | ((v >> 40u32) & 1) << 58u32
        | ((v >> 0u32) & 1) << 57u32
        | ((v >> 32u32) & 1) << 56u32
        | ((v >> 25u32) & 1) << 55u32
        | ((v >> 57u32) & 1) << 54u32
        | ((v >> 17u32) & 1) << 53u32
        | ((v >> 49u32) & 1) << 52u32
        | ((v >> 9u32) & 1) << 51u32
        | ((v >> 41u32) & 1) << 50u32
        | ((v >> 1u32) & 1) << 49u32
        | ((v >> 33u32) & 1) << 48u32
        | ((v >> 26u32) & 1) << 47u32
        | ((v >> 58u32) & 1) << 46u32
        | ((v >> 18u32) & 1) << 45u32
        | ((v >> 50u32) & 1) << 44u32
        | ((v >> 10u32) & 1) << 43u32
        | ((v >> 42u32) & 1) << 42u32
        | ((v >> 2u32) & 1) << 41u32
        | ((v >> 34u32) & 1) << 40u32
        | ((v >> 27u32) & 1) << 39u32
        | ((v >> 59u32) & 1) << 38u32
        | ((v >> 19u32) & 1) << 37u32
        | ((v >> 51u32) & 1) << 36u32
        | ((v >> 11u32) & 1) << 35u32
        | ((v >> 43u32) & 1) << 34u32
        | ((v >> 3u32) & 1) << 33u32
        | ((v >> 35u32) & 1) << 32u32
        | ((v >> 28u32) & 1) << 31u32
        | ((v >> 60u32) & 1) << 30u32
        | ((v >> 20u32) & 1) << 29u32
        | ((v >> 52u32) & 1) << 28u32
        | ((v >> 12u32) & 1) << 27u32
        | ((v >> 44u32) & 1) << 26u32
        | ((v >> 4u32) & 1) << 25u32
        | ((v >> 36u32) & 1) << 24u32
        | ((v >> 29u32) & 1) << 23u32
        | ((v >> 61u32) & 1) << 22u32
        | ((v >> 21u32) & 1) << 21u32
        | ((v >> 53u32) & 1) << 20u32
        | ((v >> 13u32) & 1) << 19u32
        | ((v >> 45u32) & 1) << 18u32
        | ((v >> 5u32) & 1) << 17u32
        | ((v >> 37u32) & 1) << 16u32
        | ((v >> 30u32) & 1) << 15u32
        | ((v >> 62u32) & 1) << 14u32
        | ((v >> 22u32) & 1) << 13u32
        | ((v >> 54u32) & 1) << 12u32
        | ((v >> 14u32) & 1) << 11u32
        | ((v >> 46u32) & 1) << 10u32
        | ((v >> 6u32) & 1) << 9u32
        | ((v >> 38u32) & 1) << 8u32
        | ((v >> 31u32) & 1) << 7u32
        | ((v >> 63u32) & 1) << 6u32
        | ((v >> 23u32) & 1) << 5u32
        | ((v >> 55u32) & 1) << 4u32
        | ((v >> 15u32) & 1) << 3u32
        | ((v >> 47u32) & 1) << 2u32
        | ((v >> 7u32) & 1) << 1u32
        | ((v >> 39u32) & 1) << 0u32
}

/// The expansion written out bit by bit.
spec fn expand_gathered(v: u64) -> u64 {
    0u64
        | ((v >> 0u32) & 1) << 47u32
        | ((v >> 31u32) & 1) << 46u32
        | ((v >> 30u32) & 1) << 45u32
        | ((v >> 29u32) & 1) << 44u32
        | ((v >> 28u32) & 1) << 43u32
        | ((v >> 27u32) & 1) << 42u32
        | ((v >> 28u32) & 1) << 41u32
        | ((v >> 27u32) & 1) << 40u32
        | ((v >> 26u32) & 1) << 39u32
        | ((v >> 25u32) & 1) << 38u32
        | ((v >> 24u32) & 1) << 37u32
        | ((v >> 23u32) & 1) << 36u32
        | ((v >> 24u32) & 1) << 35u32
        | ((v >> 23u32) & 1) << 34u32
        | ((v >> 22u32) & 1) << 33u32
        | ((v >> 21u32) & 1) << 32u32
        | ((v >> 20u32) & 1) << 31u32
        | ((v >> 19u32) & 1) << 30u32
        | ((v >> 20u32) & 1) << 29u32
        | ((v >> 19u32) & 1) << 28u32
        | ((v >> 18u32) & 1) << 27u32
        | ((v >> 17u32) & 1) << 26u32
        | ((v >> 16u32) & 1) << 25u32
        | ((v >> 15u32) & 1) << 24u32
        | ((v >> 16u32) & 1) << 23u32
        | ((v >> 15u32) & 1) << 22u32
        | ((v >> 14u32) & 1) << 21u32
        | ((v >> 13u32) & 1) << 20u32
        | ((v >> 12u32) & 1) << 19u32
        | ((v >> 11u32) & 1) << 18u32
        | ((v >> 12u32) & 1) << 17u32
        | ((v >> 11u32) & 1) << 16u32
        | ((v >> 10u32) & 1) << 15u32
        | ((v >> 9u32) & 1) << 14u32
        | ((v >> 8u32) & 1) << 13u32
        | ((v >> 7u32) & 1) << 12u32
        | ((v >> 8u32) & 1) << 11u32
        | ((v >> 7u32) & 1) << 10u32
        | ((v >> 6u32) & 1) << 9u32
        | ((v >> 5u32) & 1) << 8u32
        | ((v >> 4u32) & 1) << 7u32
        | ((v >> 3u32) & 1) << 6u32
        | ((v >> 4u32) & 1) << 5u32
        | ((v >> 3u32) & 1) << 4u32
        | ((v >> 2u32) & 1) << 3u32
        | ((v >> 1u32) & 1) << 2u32
        | ((v >> 0u32) & 1) << 1u32
        | ((v >> 31u32) & 1) << 0u32
}

proof fn lemma_tables_valid()
    ensures
        valid_table(INITIAL_PERMUTATION@, 64, 64),
        valid_table(FINAL_PERMUTATION@, 64, 64),
        valid_table(EXPANSION_PERMUTATION@, 32, 48),
        valid_table(ROUND_PERMUTATION@, 32, 32),
        valid_table(PERMUTED_CHOICE_1@[0]@, 64, 28),
        valid_table(PERMUTED_CHOICE_1@[1]@, 64, 28),
        valid_table(PERMUTED_CHOICE_2@, 56, 48),
        forall|i: int| 0 <= i < 16 ==> #[trigger] KEY_SCHEDULE_ROTATIONS@[i] <= 2,
{
    assert forall|i: int| 0 <= i < 64 implies 1 <= #[trigger] INITIAL_PERMUTATION@[i] <= 64 by {
        assert(i == 0 || i == 1 || i == 2 || i == 3 || i == 4 || i == 5 || i == 6 || i == 7 || i == 8 || i == 9 || i == 10 || i == 11 || i == 12 || i == 13 || i == 14 || i == 15 || i == 16 || i == 17 || i == 18 || i == 19 || i == 20 || i == 21 || i == 22 || i == 23 || i == 24 || i == 25 || i == 26 || i == 27 || i == 28 || i == 29 || i == 30 || i == 31 || i == 32 || i == 33 || i == 34 || i == 35 || i == 36 || i == 37 || i == 38 || i == 39 || i == 40 || i == 41 || i == 42 || i == 43 || i == 44 || i == 45 || i == 46 || i == 47 || i == 48 || i == 49 || i == 50 || i == 51 || i == 52 || i == 53 || i == 54 || i == 55 || i == 56 || i == 57 || i == 58 || i == 59 || i == 60 || i == 61 || i == 62 || i == 63);
    }
    assert forall|i: int| 0 <= i < 64 implies 1 <= #[trigger] FINAL_PERMUTATION@[i] <= 64 by {
        assert(i == 0 || i == 1 || i == 2 || i == 3 || i == 4 || i == 5 || i == 6 || i == 7 || i == 8 || i == 9 || i == 10 || i == 11 || i == 12 || i == 13 || i == 14 || i == 15 || i == 16 || i == 17 || i == 18 || i == 19 || i == 20 || i == 21 || i == 22 || i == 23 || i == 24 || i == 25 || i == 26 || i == 27 || i == 28 || i == 29 || i == 30 || i == 31 || i == 32 || i == 33 || i == 34 || i == 35 || i == 36 || i == 37 || i == 38 || i == 39 || i == 40 || i == 41 || i == 42 || i == 43 || i == 44 || i == 45 || i == 46 || i == 47 || i == 48 || i == 49 || i == 50 || i == 51 || i == 52 || i == 53 || i == 54 || i == 55 || i == 56 || i == 57 || i == 58 || i == 59 || i == 60 || i == 61 || i == 62 || i == 63);
    }
    assert forall|i: int| 0 <= i < 48 implies 1 <= #[trigger] EXPANSION_PERMUTATION@[i] <= 32 by {
        assert(i == 0 || i == 1 || i == 2 || i == 3 || i == 4 || i == 5 || i == 6 || i == 7 || i == 8 || i == 9 || i == 10 || i == 11 || i == 12 || i == 13 || i == 14 || i == 15 || i == 16 || i == 17 || i == 18 || i == 19 || i == 20 || i == 21 || i == 22 || i == 23 || i == 24 || i == 25 || i == 26 || i == 27 || i == 28 || i == 29 || i == 30 || i == 31 || i == 32 || i == 33 || i == 34 || i == 35 || i == 36 || i == 37 || i == 38 || i == 39 || i == 40 || i == 41 || i == 42 || i == 43 || i == 44 || i == 45 || i == 46 || i == 47);
    }
    assert forall|i: int| 0 <= i < 32 implies 1 <= #[trigger] ROUND_PERMUTATION@[i] <= 32 by {
        assert(i == 0 || i == 1 || i == 2 || i == 3 || i == 4 || i == 5 || i == 6 || i == 7 || i == 8 || i == 9 || i == 10 || i == 11 || i == 12 || i == 13 || i == 14 || i == 15 || i == 16 || i == 17 || i == 18 || i == 19 || i == 20 || i == 21 || i == 22 || i == 23 || i == 24 || i == 25 || i == 26 || i == 27 || i == 28 || i == 29 || i == 30 || i == 31);
    }
    assert forall|i: int| 0 <= i < 28 implies 1 <= #[trigger] PERMUTED_CHOICE_1@[0]@[i] <= 64 by {
        assert(i == 0 || i == 1 || i == 2 || i == 3 || i == 4 || i == 5 || i == 6 || i == 7 || i == 8 || i == 9 || i == 10 || i == 11 || i == 12 || i == 13 || i == 14 || i == 15 || i == 16 || i == 17 || i == 18 || i == 19 || i == 20 || i == 21 || i == 22 || i == 23 || i == 24 || i == 25 || i == 26 || i == 27);
    }
    assert forall|i: int| 0 <= i < 28 implies 1 <= #[trigger] PERMUTED_CHOICE_1@[1]@[i] <= 64 by {
        assert(i == 0 || i == 1 || i == 2 || i == 3 || i == 4 || i == 5 || i == 6 || i == 7 || i == 8 || i == 9 || i == 10 || i == 11 || i == 12 || i == 13 || i == 14 || i == 15 || i == 16 || i == 17 || i == 18 || i == 19 || i == 20 || i == 21 || i == 22 || i == 23 || i == 24 || i == 25 || i == 26 || i == 27);
    }
    assert forall|i: int| 0 <= i < 48 implies 1 <= #[trigger] PERMUTED_CHOICE_2@[i] <= 56 by {
        assert(i == 0 || i == 1 || i == 2 || i == 3 || i == 4 || i == 5 || i == 6 || i == 7 || i == 8 || i == 9 || i == 10 || i == 11 || i == 12 || i == 13 || i == 14 || i == 15 || i == 16 || i == 17 || i == 18 || i == 19 || i == 20 || i == 21 || i == 22 || i == 23 || i == 24 || i == 25 || i == 26 || i == 27 || i == 28 || i == 29 || i == 30 || i == 31 || i == 32 || i == 33 || i == 34 || i == 35 || i == 36 || i == 37 || i == 38 || i == 39 || i == 40 || i == 41 || i == 42 || i == 43 || i == 44 || i == 45 || i == 46 || i == 47);
    }
    assert forall|i: int| 0 <= i < 16 implies #[trigger] KEY_SCHEDULE_ROTATIONS@[i] <= 2 by {
        assert(i == 0 || i == 1 || i == 2 || i == 3 || i == 4 || i == 5 || i == 6 || i == 7 || i == 8 || i == 9 || i == 10 || i == 11 || i == 12 || i == 13 || i == 14 || i == 15);
    }
}

/// The swap networks compute the table-driven permutations of the standard.
pub proof fn lemma_networks_match_tables(v: u64)
    ensures
        initial_network(v) == initial_spec(v),
        final_network(v) == final_spec(v),
        v < 0x1_0000_0000 ==> expand_network(v) == expand_spec(v as u32),
{
    let a1 = swap_step(v, 0xF0F0F0F000000000, 36);
    let a2 = swap_step(a1, 0xCCCC0000CCCC0000, 18);
    let a3 = swap_step(a2, 0xFF000000FF000000, 24);
    let a4 = swap_step(a3, 0xFFFF000000000000, 48);
    let a5 = swap_step(a4, 0xAAAAAAAA00000000, 33);
    assert(a5 == initial_gathered(v)) by (bit_vector)
        requires
            a1 == swap_step(v, 0xF0F0F0F000000000, 36),
            a2 == swap_step(a1, 0xCCCC0000CCCC0000, 18),
            a3 == swap_step(a2, 0xFF000000FF000000, 24),
            a4 == swap_step(a3, 0xFFFF000000000000, 48),
            a5 == swap_step(a4, 0xAAAAAAAA00000000, 33),
    ;
    let b1 = swap_step(v, 0xAAAAAAAA00000000, 33);
    let b2 = swap_step(b1, 0xFFFF000000000000, 48);
    let b3 = swap_step(b2, 0xFF000000FF000000, 24);
    let b4 = swap_step(b3, 0xCCCC0000CCCC0000, 18);
    let b5 = swap_step(b4, 0xF0F0F0F000000000, 36);
    assert(b5 == final_gathered(v)) by (bit_vector)
        requires
            b1 == swap_step(v, 0xAAAAAAAA00000000, 33),
            b2 == swap_step(b1, 0xFFFF000000000000, 48),
            b3 == swap_step(b2, 0xFF000000FF000000, 24),
            b4 == swap_step(b3, 0xCCCC0000CCCC0000, 18),
            b5 == swap_step(b4, 0xF0F0F0F000000000, 36),
    ;
    assert(v < 0x1_0000_0000 ==> expand_network(v) == expand_gathered(v)) by (bit_vector);
    assert(v < 0x1_0000_0000 ==> v as u32 as u64 == v) by (bit_vector);
    reveal_with_fuel(gather, 65);
}

/// Each butterfly step of the networks undoes itself.
proof fn lemma_swap_steps_self_inverse(v: u64)
    ensures
        swap_step(swap_step(v, 0xF0F0F0F000000000, 36), 0xF0F0F0F000000000, 36) == v,
        swap_step(swap_step(v, 0xCCCC0000CCCC0000, 18), 0xCCCC0000CCCC0000, 18) == v,
        swap_step(swap_step(v, 0xFF000000FF000000, 24), 0xFF000000FF000000, 24) == v,
        swap_step(swap_step(v, 0xFFFF000000000000, 48), 0xFFFF000000000000, 48) == v,
        swap_step(swap_step(v, 0xAAAAAAAA00000000, 33), 0xAAAAAAAA00000000, 33) == v,
{
    let s1 = swap_step(v, 0xF0F0F0F000000000, 36);
    assert(swap_step(s1, 0xF0F0F0F000000000, 36) == v) by (bit_vector)
        requires
            s1 == swap_step(v, 0xF0F0F0F000000000, 36),
    ;
    let s2 = swap_step(v, 0xCCCC0000CCCC0000, 18);
    assert(swap_step(s2, 0xCCCC0000CCCC0000, 18) == v) by (bit_vector)
        requires
            s2 == swap_step(v, 0xCCCC0000CCCC0000, 18),
    ;
    let s3 = swap_step(v, 0xFF000000FF000000, 24);
    assert(swap_step(s3, 0xFF000000FF000000, 24) == v) by (bit_vector)
        requires
            s3 == swap_step(v, 0xFF000000FF000000, 24),
    ;
    let s4 = swap_step(v, 0xFFFF000000000000, 48);
    assert(swap_step(s4, 0xFFFF000000000000, 48) == v) by (bit_vector)
        requires
            s4 == swap_step(v, 0xFFFF000000000000, 48),
    ;
    let s5 = swap_step(v, 0xAAAAAAAA00000000, 33);
    assert(swap_step(s5, 0xAAAAAAAA00000000, 33) == v) by (bit_vector)
        requires
            s5 == swap_step(v, 0xAAAAAAAA00000000, 33),
    ;
}

/// The final permutation undoes the initial one, and the other way round.
pub proof fn lemma_initial_final_inverse(v: u64)
    ensures
        final_spec(initial_spec(v)) == v,
        initial_spec(final_spec(v)) == v,
{
    lemma_networks_match_tables(v);
    lemma_networks_match_tables(initial_network(v));
    lemma_networks_match_tables(final_network(v));
    let a1 = swap_step(v, 0xF0F0F0F000000000, 36);
    let a2 = swap_step(a1, 0xCCCC0000CCCC0000, 18);
    let a3 = swap_step(a2, 0xFF000000FF000000, 24);
    let a4 = swap_step(a3, 0xFFFF000000000000, 48);
    lemma_swap_steps_self_inverse(a4);
    lemma_swap_steps_self_inverse(a3);
    lemma_swap_steps_self_inverse(a2);
    lemma_swap_steps_self_inverse(a1);
    lemma_swap_steps_self_inverse(v);
    let b1 = swap_step(v, 0xAAAAAAAA00000000, 33);
    let b2 = swap_step(b1, 0xFFFF000000000000, 48);
    let b3 = swap_step(b2, 0xFF000000FF000000, 24);
    let b4 = swap_step(b3, 0xCCCC0000CCCC0000, 18);
    lemma_swap_steps_self_inverse(b4);
    lemma_swap_steps_self_inverse(b3);
    lemma_swap_steps_self_inverse(b2);
    lemma_swap_steps_self_inverse(b1);
}

/// A permutation to `outsize` bits leaves the bits above them clear.
pub proof fn lemma_permute_bits_width(table: Seq<u8>, val: u64, insize: u32, outsize: u32, n: nat)
    requires
        valid_table(table, insize, outsize),
        outsize < 64,
        n <= table.len(),
    ensures
        gather(table, val, insize, outsize, n) >> outsize == 0,
    decreases n,
{
    if n > 0 {
        lemma_permute_bits_width(table, val, insize, outsize, (n - 1) as nat);
        let g = gather(table, val, insize, outsize, (n - 1) as nat);
        let s = (insize - table[n - 1]) as u32;
        let k = (outsize - n) as u32;
        assert(((g | (((val >> s) & 1) << k)) >> outsize) == 0) by (bit_vector)
            requires
                g >> outsize == 0,
                k < outsize,
                outsize < 64,
        ;
    } else {
        assert(0u64 >> outsize == 0) by (bit_vector);
    }
}

/// Splitting a joined block gives its halves back, and joining the halves of
/// a split block gives the block back.
pub proof fn lemma_split_join(block: u64, high: u32, low: u32)
    ensures
        join_spec(split_spec(block).0, split_spec(block).1) == block,
        split_spec(join_spec(high, low)) == (high, low),
{
    assert(((((block >> 32u32) as u32) as u64) << 32u32) | ((block as u32) as u64) == block)
        by (bit_vector);
    assert((((((high as u64) << 32u32) | (low as u64)) >> 32u32) as u32) == high) by (bit_vector);
    assert(((((high as u64) << 32u32) | (low as u64)) as u32) == low) by (bit_vector);
}

// ---------------------------------------------------------------------------
// The cipher in constant time.

/// The table-driven bit permutation: output bit `i` of `outsize` is pulled
/// from input bit `perm[i]` of `insize`.
pub fn run_permutation(perm: &[u8], val: Secret<u64>, insize: u32, outsize: u32) -> (r: Secret<
    u64,
>)
    requires
        valid_table(perm@, insize, outsize),
    ensures
        r@ == permute_bits(perm@, val@, insize, outsize),
{
    let mut out = Secret::new(0u64);
    let mut i: usize = 0;
    while i < perm.len()
        invariant
            valid_table(perm@, insize, outsize),
            i <= perm.len(),
            out@ == gather(perm@, val@, insize, outsize, i as nat),
        decreases perm.len() - i,
    {
        let src = perm[i];
        let bit = (val >> (insize - src as u32)) & 1u64;
        out = out | (bit << (outsize - 1 - i as u32));
        i = i + 1;
    }
    out
}

/// The mask that `run_substitution` builds is all ones exactly when `c` is 0.
proof fn lemma_select_mask(c: u8, sub: u8, out: u8)
    requires
        c < 128,
    ensures
        c == 0 ==> ((c.wrapping_sub(1) as i8) >> 7u32) as u8 & sub == sub,
        c != 0 ==> ((c.wrapping_sub(1) as i8) >> 7u32) as u8 & sub == 0,
        out | 0 == out,
        0u8 | sub == sub,
{
    assert(c < 128 ==> (c == 0 ==> ((c.wrapping_sub(1) as i8) >> 7u32) as u8 & sub == sub))
        by (bit_vector);
    assert(c < 128 ==> (c != 0 ==> ((c.wrapping_sub(1) as i8) >> 7u32) as u8 & sub == 0))
        by (bit_vector);
    assert(out | 0 == out) by (bit_vector);
    assert(0u8 | sub == sub) by (bit_vector);
}

/// Looks `val` up in `subs` in constant time: every entry is read, and all but
/// the one at `val` are masked out.
pub fn run_substitution(subs: &[u8], val: Secret<u8>) -> (r: Secret<u8>)
    requires
        subs.len() <= 128,
        val@ < 128,
    ensures
        r@ == lookup(subs@, val@),
{
    let mut out = Secret::new(0u8);
    let mut i: usize = 0;
    while i < subs.len()
        invariant
            subs.len() <= 128,
            val@ < 128,
            i <= subs.len(),
            out@ == if (val@ as int) < i {
                subs@[val@ as int]
            } else {
                0
            },
        decreases subs.len() - i,
    {
        let sub = subs[i];
        let correct = val ^ (i as u8);
        let mask = (correct.wrapping_sub(1u8).to_signed() >> 7u32).to_unsigned();
        proof {
            let (x, y) = (val@, i as u8);
            assert(x < 128 && y < 128 ==> x ^ y < 128) by (bit_vector);
            assert((x ^ y == 0) == (x == y)) by (bit_vector);
            lemma_select_mask(correct@, sub, out@);
        }
        out = out | (mask & sub);
        i = i + 1;
    }
    out
}

/// One butterfly step of the swap networks, done in place.
pub fn do_swap(block: &mut Secret<u64>, location: u64, offset: u32)
    requires
        offset < 64,
    ensures
        final(block)@ == swap_step(old(block)@, location, offset),
{
    let temp = ((*block << offset) ^ *block) & location;
    *block = *block ^ temp;
    *block = *block ^ (temp >> offset);
}

/// The initial permutation, as five butterfly steps.
///
/// The table maps the 8x8 grid of bits to its reflection across the
/// anti-diagonal followed by a reordering of rows; the steps reflect blocks
/// of 4x4, then 2x2 bits, and then move whole rows.
pub fn initial_permute(block: Secret<u64>) -> (r: Secret<u64>)
    ensures
        r@ == initial_spec(block@),
{
    let ghost v = block@;
    let mut block = block;
    do_swap(&mut block, 0xF0F0F0F000000000, 36);
    do_swap(&mut block, 0xCCCC0000CCCC0000, 18);
    do_swap(&mut block, 0xFF000000FF000000, 24);
    do_swap(&mut block, 0xFFFF000000000000, 48);
    do_swap(&mut block, 0xAAAAAAAA00000000, 33);
    proof {
        lemma_networks_match_tables(v);
    }
    block
}

/// The final permutation: the steps of `initial_permute` in reverse order,
/// each of which undoes itself.
pub fn final_permute(block: Secret<u64>) -> (r: Secret<u64>)
    ensures
        r@ == final_spec(block@),
{
    let ghost v = block@;
    let mut block = block;
    do_swap(&mut block, 0xAAAAAAAA00000000, 33);
    do_swap(&mut block, 0xFFFF000000000000, 48);
    do_swap(&mut block, 0xFF000000FF000000, 24);
    do_swap(&mut block, 0xCCCC0000CCCC0000, 18);
    do_swap(&mut block, 0xF0F0F0F000000000, 36);
    proof {
        lemma_networks_match_tables(v);
    }
    block
}

/// The expansion of a half-block to 48 bits. It copies runs of six input bits
/// side by side, so a few masked shifts do the work of the table.
pub fn expand(half_block: Secret<u32>) -> (r: Secret<u64>)
    ensures
        r@ == expand_spec(half_block@),
{
    let half_block = Secret::<u64>::from(half_block);
    let r = (half_block & 1u64) << 47 | (half_block & 0x80000000u64) >> 31 | (half_block
        & 0xF8000000u64) << 15 | (half_block & 0x1F800000u64) << 13 | (half_block & 0x01F80000u64)
        << 11 | (half_block & 0x001F8000u64) << 9 | (half_block & 0x0001F800u64) << 7 | (half_block
        & 0x00001F80u64) << 5 | (half_block & 0x000001F8u64) << 3 | (half_block & 0x0000001Fu64)
        << 1;
    proof {
        let x = half_block@;
        assert(x < 0x1_0000_0000);
        lemma_networks_match_tables(x);
    }
    r
}

/// The S-box layer: eight 6-bit chunks in, eight 4-bit outputs out.
pub fn substitute(block: Secret<u64>) -> (r: Secret<u32>)
    ensures
        r@ == substitute_spec(block@),
{
    let mut out = Secret::new(0u32);
    let mut i: u32 = 0;
    while i < 8
        invariant
            i <= 8,
            out@ == substitute_chunks(block@, i as nat),
        decreases 8 - i,
    {
        let chunk: Secret<u8> = ((block >> (i * 6)) & 0x3Fu64).truncate();
        proof {
            let (x, s) = (block@, (i * 6) as u32);
            assert((((x >> s) & 0x3F) as u8) < 128) by (bit_vector);
        }
        let res = run_substitution(&SUBSTITUTIONS[(7 - i) as usize], chunk);
        out = out | (Secret::<u32>::from(res) << (i * 4));
        i = i + 1;
    }
    out
}

/// The permutation that ends each round.
pub fn permute(block: Secret<u32>) -> (r: Secret<u32>)
    ensures
        r@ == permute_spec(block@),
{
    proof {
        lemma_tables_valid();
    }
    run_permutation(&ROUND_PERMUTATION, Secret::<u64>::from(block), 32, 32).truncate()
}

/// The high and the low 32 bits of a block.
pub fn split_block(block: Secret<u64>) -> (r: (Secret<u32>, Secret<u32>))
    ensures
        (r.0@, r.1@) == split_spec(block@),
{
    ((block >> 32).truncate(), block.truncate())
}

/// The block whose high and low 32 bits are the two parts.
pub fn join_block(parts: (Secret<u32>, Secret<u32>)) -> (r: Secret<u64>)
    ensures
        r@ == join_spec(parts.0@, parts.1@),
{
    Secret::<u64>::from(parts.0) << 32 | Secret::<u64>::from(parts.1)
}

/// The sixteen round subkeys derived from a 64-bit key.
pub fn key_schedule(key: Secret<u64>) -> (r: Array<Secret<u64>, 16>)
    ensures
        r.view().len() == 16,
        forall|i: int| 0 <= i < 16 ==> (#[trigger] r.view()[i])@ == subkey(key@, i as nat),
        forall|i: int| 0 <= i < 16 ==> (#[trigger] r.view()[i])@ >> 48u32 == 0,
{
    proof {
        lemma_tables_valid();
    }
    let mut left = run_permutation(&PERMUTED_CHOICE_1[0], key, 64, 28);
    let mut right = run_permutation(&PERMUTED_CHOICE_1[1], key, 64, 28);
    let mut keys: Vec<Secret<u64>> = Vec::new();
    let mut i: usize = 0;
    while i < 16
        invariant
            i <= 16,
            keys.len() == i,
            (left@, right@) == schedule_halves(key@, i as nat),
            forall|j: int| 0 <= j < i ==> (#[trigger] keys@[j])@ == subkey(key@, j as nat),
            forall|j: int| 0 <= j < i ==> (#[trigger] keys@[j])@ >> 48u32 == 0,
            forall|j: int| 0 <= j < 16 ==> #[trigger] KEY_SCHEDULE_ROTATIONS@[j] <= 2,
            valid_table(PERMUTED_CHOICE_2@, 56, 48),
        decreases 16 - i,
    {
        let rotation = KEY_SCHEDULE_ROTATIONS[i];
        // A rotation of 28 bits held in a wider word.
        left = left >> (28 - rotation) | (left << rotation) & 0x0FFF_FFFFu64;
        right = right >> (28 - rotation) | (right << rotation) & 0x0FFF_FFFFu64;
        let joined = left << 28 | right;
        let subkey = run_permutation(&PERMUTED_CHOICE_2, joined, 56, 48);
        proof {
            lemma_permute_bits_width(PERMUTED_CHOICE_2@, joined@, 56, 48, 48);
        }
        keys.push(subkey);
        i = i + 1;
    }
    Array::from_vec(keys)
}

} // verus!
