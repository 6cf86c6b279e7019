use vstd::prelude::*;

verus! {

/// Narrowing of a word to a smaller width, keeping its low bits.
pub trait Truncate<T> {
    spec fn truncate_spec(self) -> T;

    fn truncate(self) -> (r: T)
        ensures
            r == self.truncate_spec(),
    ;
}

impl Truncate<u32> for u64 {
    open spec fn truncate_spec(self) -> u32 {
        self as u32
    }

    fn truncate(self) -> u32 {
        self as u32
    }
}

impl Truncate<u16> for u64 {
    open spec fn truncate_spec(self) -> u16 {
        self as u16
    }

    fn truncate(self) -> u16 {
        self as u16
    }
}

impl Truncate<u8> for u64 {
    open spec fn truncate_spec(self) -> u8 {
        self as u8
    }

    fn truncate(self) -> u8 {
        self as u8
    }
}

impl Truncate<u16> for u32 {
    open spec fn truncate_spec(self) -> u16 {
        self as u16
    }

    fn truncate(self) -> u16 {
        self as u16
    }
}

impl Truncate<u8> for u32 {
    open spec fn truncate_spec(self) -> u8 {
        self as u8
    }

    fn truncate(self) -> u8 {
        self as u8
    }
}

impl Truncate<u8> for u16 {
    open spec fn truncate_spec(self) -> u8 {
        self as u8
    }

    fn truncate(self) -> u8 {
        self as u8
    }
}

impl Truncate<i32> for i64 {
    open spec fn truncate_spec(self) -> i32 {
        self as i32
    }

    fn truncate(self) -> i32 {
        self as i32
    }
}

impl Truncate<i16> for i64 {
    open spec fn truncate_spec(self) -> i16 {
        self as i16
    }

    fn truncate(self) -> i16 {
        self as i16
    }
}

impl Truncate<i8> for i64 {
    open spec fn truncate_spec(self) -> i8 {
        self as i8
    }

    fn truncate(self) -> i8 {
        self as i8
    }
}

impl Truncate<i16> for i32 {
    open spec fn truncate_spec(self) -> i16 {
        self as i16
    }

    fn truncate(self) -> i16 {
        self as i16
    }
}

impl Truncate<i8> for i32 {
    open spec fn truncate_spec(self) -> i8 {
        self as i8
    }

    fn truncate(self) -> i8 {
        self as i8
    }
}

impl Truncate<i8> for i16 {
    open spec fn truncate_spec(self) -> i8 {
        self as i8
    }

    fn truncate(self) -> i8 {
        self as i8
    }
}

} // verus!
