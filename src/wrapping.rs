use vstd::prelude::*;
use vstd::std_specs::ops::AddSpecImpl;
use vstd::std_specs::ops::SubSpecImpl;

verus! {

/// A word whose `+` and `-` wrap around instead of overflowing.
pub struct Wrapping<T>(pub T);

/// Addition modulo the width of the word.
pub trait WrappingAdd<Rhs> {
    type Output;

    spec fn wrapping_add_spec(self, rhs: Rhs) -> Self::Output;

    fn wrapping_add(self, rhs: Rhs) -> (r: Self::Output)
        ensures
            r == self.wrapping_add_spec(rhs),
    ;
}

/// Subtraction modulo the width of the word.
pub trait WrappingSub<Rhs> {
    type Output;

    spec fn wrapping_sub_spec(self, rhs: Rhs) -> Self::Output;

    fn wrapping_sub(self, rhs: Rhs) -> (r: Self::Output)
        ensures
            r == self.wrapping_sub_spec(rhs),
    ;
}

impl<Lhs: WrappingAdd<Rhs>, Rhs> core::ops::Add<Wrapping<Rhs>> for Wrapping<Lhs> {
    type Output = Wrapping<<Lhs as WrappingAdd<Rhs>>::Output>;

    fn add(self, rhs: Wrapping<Rhs>) -> Self::Output {
        Wrapping(self.0.wrapping_add(rhs.0))
    }
}

impl<Lhs: WrappingAdd<Rhs>, Rhs> AddSpecImpl<Wrapping<Rhs>> for Wrapping<Lhs> {
    open spec fn obeys_add_spec() -> bool {
        true
    }

    open spec fn add_req(self, rhs: Wrapping<Rhs>) -> bool {
        true
    }

    open spec fn add_spec(self, rhs: Wrapping<Rhs>) -> Self::Output {
        Wrapping(self.0.wrapping_add_spec(rhs.0))
    }
}

impl<Lhs: WrappingSub<Rhs>, Rhs> core::ops::Sub<Wrapping<Rhs>> for Wrapping<Lhs> {
    type Output = Wrapping<<Lhs as WrappingSub<Rhs>>::Output>;

    fn sub(self, rhs: Wrapping<Rhs>) -> Self::Output {
        Wrapping(self.0.wrapping_sub(rhs.0))
    }
}

impl<Lhs: WrappingSub<Rhs>, Rhs> SubSpecImpl<Wrapping<Rhs>> for Wrapping<Lhs> {
    open spec fn obeys_sub_spec() -> bool {
        true
    }

    open spec fn sub_req(self, rhs: Wrapping<Rhs>) -> bool {
        true
    }

    open spec fn sub_spec(self, rhs: Wrapping<Rhs>) -> Self::Output {
        Wrapping(self.0.wrapping_sub_spec(rhs.0))
    }
}

impl WrappingAdd<u8> for u8 {
    type Output = u8;

    open spec fn wrapping_add_spec(self, rhs: u8) -> u8 {
        self.wrapping_add(rhs)
    }

    fn wrapping_add(self, rhs: u8) -> u8 {
        self.wrapping_add(rhs)
    }
}

impl WrappingSub<u8> for u8 {
    type Output = u8;

    open spec fn wrapping_sub_spec(self, rhs: u8) -> u8 {
        self.wrapping_sub(rhs)
    }

    fn wrapping_sub(self, rhs: u8) -> u8 {
        self.wrapping_sub(rhs)
    }
}

impl WrappingAdd<u16> for u16 {
    type Output = u16;

    open spec fn wrapping_add_spec(self, rhs: u16) -> u16 {
        self.wrapping_add(rhs)
    }

    fn wrapping_add(self, rhs: u16) -> u16 {
        self.wrapping_add(rhs)
    }
}

impl WrappingSub<u16> for u16 {
    type Output = u16;

    open spec fn wrapping_sub_spec(self, rhs: u16) -> u16 {
        self.wrapping_sub(rhs)
    }

    fn wrapping_sub(self, rhs: u16) -> u16 {
        self.wrapping_sub(rhs)
    }
}

impl WrappingAdd<u32> for u32 {
    type Output = u32;

    open spec fn wrapping_add_spec(self, rhs: u32) -> u32 {
        self.wrapping_add(rhs)
    }

    fn wrapping_add(self, rhs: u32) -> u32 {
        self.wrapping_add(rhs)
    }
}

impl WrappingSub<u32> for u32 {
    type Output = u32;

    open spec fn wrapping_sub_spec(self, rhs: u32) -> u32 {
        self.wrapping_sub(rhs)
    }

    fn wrapping_sub(self, rhs: u32) -> u32 {
        self.wrapping_sub(rhs)
    }
}

impl WrappingAdd<u64> for u64 {
    type Output = u64;

    open spec fn wrapping_add_spec(self, rhs: u64) -> u64 {
        self.wrapping_add(rhs)
    }

    fn wrapping_add(self, rhs: u64) -> u64 {
        self.wrapping_add(rhs)
    }
}

impl WrappingSub<u64> for u64 {
    type Output = u64;

    open spec fn wrapping_sub_spec(self, rhs: u64) -> u64 {
        self.wrapping_sub(rhs)
    }

    fn wrapping_sub(self, rhs: u64) -> u64 {
        self.wrapping_sub(rhs)
    }
}

impl WrappingAdd<usize> for usize {
    type Output = usize;

    open spec fn wrapping_add_spec(self, rhs: usize) -> usize {
        self.wrapping_add(rhs)
    }

    fn wrapping_add(self, rhs: usize) -> usize {
        self.wrapping_add(rhs)
    }
}

impl WrappingSub<usize> for usize {
    type Output = usize;

    open spec fn wrapping_sub_spec(self, rhs: usize) -> usize {
        self.wrapping_sub(rhs)
    }

    fn wrapping_sub(self, rhs: usize) -> usize {
        self.wrapping_sub(rhs)
    }
}

impl WrappingAdd<i8> for i8 {
    type Output = i8;

    open spec fn wrapping_add_spec(self, rhs: i8) -> i8 {
        self.wrapping_add(rhs)
    }

    fn wrapping_add(self, rhs: i8) -> i8 {
        self.wrapping_add(rhs)
    }
}

impl WrappingSub<i8> for i8 {
    type Output = i8;

    open spec fn wrapping_sub_spec(self, rhs: i8) -> i8 {
        self.wrapping_sub(rhs)
    }

    fn wrapping_sub(self, rhs: i8) -> i8 {
        self.wrapping_sub(rhs)
    }
}

impl WrappingAdd<i16> for i16 {
    type Output = i16;

    open spec fn wrapping_add_spec(self, rhs: i16) -> i16 {
        self.wrapping_add(rhs)
    }

    fn wrapping_add(self, rhs: i16) -> i16 {
        self.wrapping_add(rhs)
    }
}

impl WrappingSub<i16> for i16 {
    type Output = i16;

    open spec fn wrapping_sub_spec(self, rhs: i16) -> i16 {
        self.wrapping_sub(rhs)
    }

    fn wrapping_sub(self, rhs: i16) -> i16 {
        self.wrapping_sub(rhs)
    }
}

impl WrappingAdd<i32> for i32 {
    type Output = i32;

    open spec fn wrapping_add_spec(self, rhs: i32) -> i32 {
        self.wrapping_add(rhs)
    }

    fn wrapping_add(self, rhs: i32) -> i32 {
        self.wrapping_add(rhs)
    }
}

impl WrappingSub<i32> for i32 {
    type Output = i32;

    open spec fn wrapping_sub_spec(self, rhs: i32) -> i32 {
        self.wrapping_sub(rhs)
    }

    fn wrapping_sub(self, rhs: i32) -> i32 {
        self.wrapping_sub(rhs)
    }
}

impl WrappingAdd<i64> for i64 {
    type Output = i64;

    open spec fn wrapping_add_spec(self, rhs: i64) -> i64 {
        self.wrapping_add(rhs)
    }

    fn wrapping_add(self, rhs: i64) -> i64 {
        self.wrapping_add(rhs)
    }
}

impl WrappingSub<i64> for i64 {
    type Output = i64;

    open spec fn wrapping_sub_spec(self, rhs: i64) -> i64 {
        self.wrapping_sub(rhs)
    }

    fn wrapping_sub(self, rhs: i64) -> i64 {
        self.wrapping_sub(rhs)
    }
}

impl WrappingAdd<isize> for isize {
    type Output = isize;

    open spec fn wrapping_add_spec(self, rhs: isize) -> isize {
        self.wrapping_add(rhs)
    }

    fn wrapping_add(self, rhs: isize) -> isize {
        self.wrapping_add(rhs)
    }
}

impl WrappingSub<isize> for isize {
    type Output = isize;

    open spec fn wrapping_sub_spec(self, rhs: isize) -> isize {
        self.wrapping_sub(rhs)
    }

    fn wrapping_sub(self, rhs: isize) -> isize {
        self.wrapping_sub(rhs)
    }
}

} // verus!
