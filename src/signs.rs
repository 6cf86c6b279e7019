use vstd::prelude::*;

verus! {

/// Reinterpretation of an unsigned word as the signed word of the same width.
pub trait ToSigned: Sized {
    type Output;

    spec fn to_signed_spec(self) -> Self::Output;

    fn to_signed(self) -> (r: Self::Output)
        ensures
            r == self.to_signed_spec(),
    ;
}

/// Reinterpretation of a signed word as the unsigned word of the same width.
pub trait ToUnsigned: Sized {
    type Output;

    spec fn to_unsigned_spec(self) -> Self::Output;

    fn to_unsigned(self) -> (r: Self::Output)
        ensures
            r == self.to_unsigned_spec(),
    ;
}

impl ToSigned for u8 {
    type Output = i8;

    open spec fn to_signed_spec(self) -> i8 {
        self as i8
    }

    fn to_signed(self) -> i8 {
        self as i8
    }
}

impl ToUnsigned for i8 {
    type Output = u8;

    open spec fn to_unsigned_spec(self) -> u8 {
        self as u8
    }

    fn to_unsigned(self) -> u8 {
        self as u8
    }
}

impl ToSigned for u16 {
    type Output = i16;

    open spec fn to_signed_spec(self) -> i16 {
        self as i16
    }

    fn to_signed(self) -> i16 {
        self as i16
    }
}

impl ToUnsigned for i16 {
    type Output = u16;

    open spec fn to_unsigned_spec(self) -> u16 {
        self as u16
    }

    fn to_unsigned(self) -> u16 {
        self as u16
    }
}

impl ToSigned for u32 {
    type Output = i32;

    open spec fn to_signed_spec(self) -> i32 {
        self as i32
    }

    fn to_signed(self) -> i32 {
        self as i32
    }
}

impl ToUnsigned for i32 {
    type Output = u32;

    open spec fn to_unsigned_spec(self) -> u32 {
        self as u32
    }

    fn to_unsigned(self) -> u32 {
        self as u32
    }
}

impl ToSigned for u64 {
    type Output = i64;

    open spec fn to_signed_spec(self) -> i64 {
        self as i64
    }

    fn to_signed(self) -> i64 {
        self as i64
    }
}

impl ToUnsigned for i64 {
    type Output = u64;

    open spec fn to_unsigned_spec(self) -> u64 {
        self as u64
    }

    fn to_unsigned(self) -> u64 {
        self as u64
    }
}

} // verus!
