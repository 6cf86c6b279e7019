use vstd::prelude::*;
use crate::rotate::{rotl_u32, rotl_u64, rotr_u32, rotr_u64, RotateLeft, RotateRight};

verus! {

/// A word kept as two halves: `evens` holds its bits at even places and
/// `odds` those at odd places, so that a rotation of the whole is two
/// rotations of the halves.
#[derive(Clone, Copy, PartialEq, Eq)]
pub struct Interleaved<T> {
    pub evens: T,
    pub odds: T,
}

impl<T: RotateLeft<u32, Output = T>> RotateLeft<u32> for Interleaved<T> {
    type Output = Interleaved<T>;

    open spec fn rotate_left_spec(self, rhs: u32) -> Interleaved<T> {
        if rhs & 1 == 0 {
            Interleaved {
                evens: self.evens.rotate_left_spec(rhs >> 1),
                odds: self.odds.rotate_left_spec(rhs >> 1),
            }
        } else {
            Interleaved {
                evens: self.odds.rotate_left_spec((1 + (rhs >> 1)) as u32),
                odds: self.evens.rotate_left_spec(rhs >> 1),
            }
        }
    }

    fn rotate_left(self, rhs: u32) -> Interleaved<T> {
        if rhs & 1 == 0 {
            Interleaved {
                evens: self.evens.rotate_left(rhs >> 1),
                odds: self.odds.rotate_left(rhs >> 1),
            }
        } else {
            proof {
                assert(rhs >> 1 < 0x8000_0000) by (bit_vector);
            }
            Interleaved {
                evens: self.odds.rotate_left(1 + (rhs >> 1)),
                odds: self.evens.rotate_left(rhs >> 1),
            }
        }
    }
}

impl<T: RotateRight<u32, Output = T>> RotateRight<u32> for Interleaved<T> {
    type Output = Interleaved<T>;

    open spec fn rotate_right_spec(self, rhs: u32) -> Interleaved<T> {
        if rhs & 1 == 0 {
            Interleaved {
                evens: self.evens.rotate_right_spec(rhs >> 1),
                odds: self.odds.rotate_right_spec(rhs >> 1),
            }
        } else {
            Interleaved {
                evens: self.odds.rotate_right_spec(rhs >> 1),
                odds: self.evens.rotate_right_spec((1 + (rhs >> 1)) as u32),
            }
        }
    }

    fn rotate_right(self, rhs: u32) -> Interleaved<T> {
        if rhs & 1 == 0 {
            Interleaved {
                evens: self.evens.rotate_right(rhs >> 1),
                odds: self.odds.rotate_right(rhs >> 1),
            }
        } else {
            proof {
                assert(rhs >> 1 < 0x8000_0000) by (bit_vector);
            }
            Interleaved {
                evens: self.odds.rotate_right(rhs >> 1),
                odds: self.evens.rotate_right(1 + (rhs >> 1)),
            }
        }
    }
}

/// The bits of `x` spread to the even places of a 64-bit word.
pub open spec fn spread(x: u32) -> u64 {
    ((((((((((((((((((((((((((((((((0u64 | (((x >> 0u32) & 1) as u64) << 0u64) | (((x >> 1u32) & 1) as u64) << 2u64) | (((x >> 2u32) & 1) as u64) << 4u64) | (((x >> 3u32) & 1) as u64) << 6u64) | (((x >> 4u32) & 1) as u64) << 8u64) | (((x >> 5u32) & 1) as u64) << 10u64) | (((x >> 6u32) & 1) as u64) << 12u64) | (((x >> 7u32) & 1) as u64) << 14u64) | (((x >> 8u32) & 1) as u64) << 16u64) | (((x >> 9u32) & 1) as u64) << 18u64) | (((x >> 10u32) & 1) as u64) << 20u64) | (((x >> 11u32) & 1) as u64) << 22u64) | (((x >> 12u32) & 1) as u64) << 24u64) | (((x >> 13u32) & 1) as u64) << 26u64) | (((x >> 14u32) & 1) as u64) << 28u64) | (((x >> 15u32) & 1) as u64) << 30u64) | (((x >> 16u32) & 1) as u64) << 32u64) | (((x >> 17u32) & 1) as u64) << 34u64) | (((x >> 18u32) & 1) as u64) << 36u64) | (((x >> 19u32) & 1) as u64) << 38u64) | (((x >> 20u32) & 1) as u64) << 40u64) | (((x >> 21u32) & 1) as u64) << 42u64) | (((x >> 22u32) & 1) as u64) << 44u64) | (((x >> 23u32) & 1) as u64) << 46u64) | (((x >> 24u32) & 1) as u64) << 48u64) | (((x >> 25u32) & 1) as u64) << 50u64) | (((x >> 26u32) & 1) as u64) << 52u64) | (((x >> 27u32) & 1) as u64) << 54u64) | (((x >> 28u32) & 1) as u64) << 56u64) | (((x >> 29u32) & 1) as u64) << 58u64) | (((x >> 30u32) & 1) as u64) << 60u64) | (((x >> 31u32) & 1) as u64) << 62u64)
}

/// The 64-bit word that two interleaved 32-bit halves stand for.
pub open spec fn merged(w: Interleaved<u32>) -> u64 {
    spread(w.evens) | (spread(w.odds) << 1u64)
}

/// Rotating the halves rotates the word they stand for.
pub proof fn lemma_interleaved_rotation(w: Interleaved<u32>, n: u32)
    requires
        n < 64,
    ensures
        merged(w.rotate_left_spec(n)) == rotl_u64(merged(w), n),
        merged(w.rotate_right_spec(n)) == rotr_u64(merged(w), n),
{
    let (e, o) = (w.evens, w.odds);
    let h = n >> 1;
    assert(h < 32 && (n & 1 == 0 ==> n == 2 * h) && (n & 1 != 0 ==> n == 2 * h + 1)) by (bit_vector)
        requires
            n < 64,
            h == n >> 1,
    ;
    if n & 1 == 0 {
        let (e2, o2) = (rotl_u32(e, h), rotl_u32(o, h));
        assert(spread(e2) | (spread(o2) << 1u64) == rotl_u64(spread(e) | (spread(o) << 1u64), n))
            by (bit_vector)
            requires
                e2 == rotl_u32(e, h),
                o2 == rotl_u32(o, h),
                h < 32,
                n == 2 * h,
        ;
        let (e3, o3) = (rotr_u32(e, h), rotr_u32(o, h));
        assert(spread(e3) | (spread(o3) << 1u64) == rotr_u64(spread(e) | (spread(o) << 1u64), n))
            by (bit_vector)
            requires
                e3 == rotr_u32(e, h),
                o3 == rotr_u32(o, h),
                h < 32,
                n == 2 * h,
        ;
    } else {
        let (e2, o2) = (rotl_u32(o, (h + 1) as u32), rotl_u32(e, h));
        assert(spread(e2) | (spread(o2) << 1u64) == rotl_u64(spread(e) | (spread(o) << 1u64), n))
            by (bit_vector)
            requires
                e2 == rotl_u32(o, (h + 1) as u32),
                o2 == rotl_u32(e, h),
                h < 32,
                n == 2 * h + 1,
        ;
        let (e3, o3) = (rotr_u32(o, h), rotr_u32(e, (h + 1) as u32));
        assert(spread(e3) | (spread(o3) << 1u64) == rotr_u64(spread(e) | (spread(o) << 1u64), n))
            by (bit_vector)
            requires
                e3 == rotr_u32(o, h),
                o3 == rotr_u32(e, (h + 1) as u32),
                h < 32,
                n == 2 * h + 1,
        ;
    }
}

} // verus!
