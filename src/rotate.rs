use vstd::prelude::*;

verus! {

/// Rotation of the bits of a word to the left by a public amount.
pub trait RotateLeft<Rhs> {
    type Output;

    spec fn rotate_left_spec(self, rhs: Rhs) -> Self::Output;

    fn rotate_left(self, rhs: Rhs) -> (r: Self::Output)
        ensures
            r == self.rotate_left_spec(rhs),
    ;
}

/// Rotation of the bits of a word to the right by a public amount.
pub trait RotateRight<Rhs> {
    type Output;

    spec fn rotate_right_spec(self, rhs: Rhs) -> Self::Output;

    fn rotate_right(self, rhs: Rhs) -> (r: Self::Output)
        ensures
            r == self.rotate_right_spec(rhs),
    ;
}

/// `x` rotated left by `n` places on a 8-bit word.
pub open spec fn rotl_u8(x: u8, n: u32) -> u8 {
    let s = n % 8;
    if s == 0 {
        x
    } else {
        x << s | x >> ((8 - s) as u32)
    }
}

/// `x` rotated right by `n` places on a 8-bit word.
pub open spec fn rotr_u8(x: u8, n: u32) -> u8 {
    let s = n % 8;
    if s == 0 {
        x
    } else {
        x >> s | x << ((8 - s) as u32)
    }
}

impl RotateLeft<u32> for u8 {
    type Output = u8;

    open spec fn rotate_left_spec(self, rhs: u32) -> u8 {
        rotl_u8(self, rhs)
    }

    fn rotate_left(self, rhs: u32) -> u8 {
        let s: u32 = rhs % 8;
        if s == 0 {
            self
        } else {
            self << s | self >> (8 - s)
        }
    }
}

impl RotateRight<u32> for u8 {
    type Output = u8;

    open spec fn rotate_right_spec(self, rhs: u32) -> u8 {
        rotr_u8(self, rhs)
    }

    fn rotate_right(self, rhs: u32) -> u8 {
        let s: u32 = rhs % 8;
        if s == 0 {
            self
        } else {
            self >> s | self << (8 - s)
        }
    }
}

impl RotateLeft<u32> for i8 {
    type Output = i8;

    open spec fn rotate_left_spec(self, rhs: u32) -> i8 {
        rotl_u8(self as u8, rhs) as i8
    }

    fn rotate_left(self, rhs: u32) -> i8 {
        RotateLeft::rotate_left(self as u8, rhs) as i8
    }
}

impl RotateRight<u32> for i8 {
    type Output = i8;

    open spec fn rotate_right_spec(self, rhs: u32) -> i8 {
        rotr_u8(self as u8, rhs) as i8
    }

    fn rotate_right(self, rhs: u32) -> i8 {
        RotateRight::rotate_right(self as u8, rhs) as i8
    }
}

/// `x` rotated left by `n` places on a 16-bit word.
pub open spec fn rotl_u16(x: u16, n: u32) -> u16 {
    let s = n % 16;
    if s == 0 {
        x
    } else {
        x << s | x >> ((16 - s) as u32)
    }
}

/// `x` rotated right by `n` places on a 16-bit word.
pub open spec fn rotr_u16(x: u16, n: u32) -> u16 {
    let s = n % 16;
    if s == 0 {
        x
    } else {
        x >> s | x << ((16 - s) as u32)
    }
}

impl RotateLeft<u32> for u16 {
    type Output = u16;

    open spec fn rotate_left_spec(self, rhs: u32) -> u16 {
        rotl_u16(self, rhs)
    }

    fn rotate_left(self, rhs: u32) -> u16 {
        let s: u32 = rhs % 16;
        if s == 0 {
            self
        } else {
            self << s | self >> (16 - s)
        }
    }
}

impl RotateRight<u32> for u16 {
    type Output = u16;

    open spec fn rotate_right_spec(self, rhs: u32) -> u16 {
        rotr_u16(self, rhs)
    }

    fn rotate_right(self, rhs: u32) -> u16 {
        let s: u32 = rhs % 16;
        if s == 0 {
            self
        } else {
            self >> s | self << (16 - s)
        }
    }
}

impl RotateLeft<u32> for i16 {
    type Output = i16;

    open spec fn rotate_left_spec(self, rhs: u32) -> i16 {
        rotl_u16(self as u16, rhs) as i16
    }

    fn rotate_left(self, rhs: u32) -> i16 {
        RotateLeft::rotate_left(self as u16, rhs) as i16
    }
}

impl RotateRight<u32> for i16 {
    type Output = i16;

    open spec fn rotate_right_spec(self, rhs: u32) -> i16 {
        rotr_u16(self as u16, rhs) as i16
    }

    fn rotate_right(self, rhs: u32) -> i16 {
        RotateRight::rotate_right(self as u16, rhs) as i16
    }
}

/// `x` rotated left by `n` places on a 32-bit word.
pub open spec fn rotl_u32(x: u32, n: u32) -> u32 {
    let s = n % 32;
    if s == 0 {
        x
    } else {
        x << s | x >> ((32 - s) as u32)
    }
}

/// `x` rotated right by `n` places on a 32-bit word.
pub open spec fn rotr_u32(x: u32, n: u32) -> u32 {
    let s = n % 32;
    if s == 0 {
        x
    } else {
        x >> s | x << ((32 - s) as u32)
    }
}

impl RotateLeft<u32> for u32 {
    type Output = u32;

    open spec fn rotate_left_spec(self, rhs: u32) -> u32 {
        rotl_u32(self, rhs)
    }

    fn rotate_left(self, rhs: u32) -> u32 {
        let s: u32 = rhs % 32;
        if s == 0 {
            self
        } else {
            self << s | self >> (32 - s)
        }
    }
}

impl RotateRight<u32> for u32 {
    type Output = u32;

    open spec fn rotate_right_spec(self, rhs: u32) -> u32 {
        rotr_u32(self, rhs)
    }

    fn rotate_right(self, rhs: u32) -> u32 {
        let s: u32 = rhs % 32;
        if s == 0 {
            self
        } else {
            self >> s | self << (32 - s)
        }
    }
}

impl RotateLeft<u32> for i32 {
    type Output = i32;

    open spec fn rotate_left_spec(self, rhs: u32) -> i32 {
        rotl_u32(self as u32, rhs) as i32
    }

    fn rotate_left(self, rhs: u32) -> i32 {
        RotateLeft::rotate_left(self as u32, rhs) as i32
    }
}

impl RotateRight<u32> for i32 {
    type Output = i32;

    open spec fn rotate_right_spec(self, rhs: u32) -> i32 {
        rotr_u32(self as u32, rhs) as i32
    }

    fn rotate_right(self, rhs: u32) -> i32 {
        RotateRight::rotate_right(self as u32, rhs) as i32
    }
}

/// `x` rotated left by `n` places on a 64-bit word.
pub open spec fn rotl_u64(x: u64, n: u32) -> u64 {
    let s = n % 64;
    if s == 0 {
        x
    } else {
        x << s | x >> ((64 - s) as u32)
    }
}

/// `x` rotated right by `n` places on a 64-bit word.
pub open spec fn rotr_u64(x: u64, n: u32) -> u64 {
    let s = n % 64;
    if s == 0 {
        x
    } else {
        x >> s | x << ((64 - s) as u32)
    }
}

impl RotateLeft<u32> for u64 {
    type Output = u64;

    open spec fn rotate_left_spec(self, rhs: u32) -> u64 {
        rotl_u64(self, rhs)
    }

    fn rotate_left(self, rhs: u32) -> u64 {
        let s: u32 = rhs % 64;
        if s == 0 {
            self
        } else {
            self << s | self >> (64 - s)
        }
    }
}

impl RotateRight<u32> for u64 {
    type Output = u64;

    open spec fn rotate_right_spec(self, rhs: u32) -> u64 {
        rotr_u64(self, rhs)
    }

    fn rotate_right(self, rhs: u32) -> u64 {
        let s: u32 = rhs % 64;
        if s == 0 {
            self
        } else {
            self >> s | self << (64 - s)
        }
    }
}

impl RotateLeft<u32> for i64 {
    type Output = i64;

    open spec fn rotate_left_spec(self, rhs: u32) -> i64 {
        rotl_u64(self as u64, rhs) as i64
    }

    fn rotate_left(self, rhs: u32) -> i64 {
        RotateLeft::rotate_left(self as u64, rhs) as i64
    }
}

impl RotateRight<u32> for i64 {
    type Output = i64;

    open spec fn rotate_right_spec(self, rhs: u32) -> i64 {
        rotr_u64(self as u64, rhs) as i64
    }

    fn rotate_right(self, rhs: u32) -> i64 {
        RotateRight::rotate_right(self as u64, rhs) as i64
    }
}

} // verus!
