use ctcrypto::interleaved::Interleaved;
use ctcrypto::nodrop::NoDrop;
use ctcrypto::rotate::{RotateLeft, RotateRight};
use ctcrypto::secret::Secret;
use ctcrypto::signs::{ToSigned, ToUnsigned};
use ctcrypto::truncate::Truncate;
use ctcrypto::wrapping::{WrappingAdd, WrappingSub};

#[test]
fn secret_round_trip() {
    assert_eq!(Secret::new(42u8).expose(), 42);
    assert_eq!(Secret::new(-7i64).expose(), -7);
}

#[test]
fn secret_bitwise_operations() {
    let a = Secret::new(0b1100u8);
    let b = Secret::new(0b1010u8);
    assert_eq!((a & b).expose(), 0b1000);
    assert_eq!((a | b).expose(), 0b1110);
    assert_eq!((a ^ b).expose(), 0b0110);
    assert_eq!((a & 0b0100u8).expose(), 0b0100);
    assert_eq!((!a).expose(), 0b1111_0011);
    assert_eq!((Secret::new(1u64) << 63).expose(), 1 << 63);
    assert_eq!((Secret::new(-128i8) >> 7).expose(), -1);
    assert_eq!((Secret::new(0x80u8) >> 7).expose(), 1);
}

#[test]
fn secret_conversions() {
    let wide: Secret<u64> = Secret::new(0x1234_5678_9ABC_DEF0u64);
    let narrow: Secret<u32> = wide.truncate();
    assert_eq!(narrow.expose(), 0x9ABC_DEF0);
    let back = Secret::<u64>::from(narrow);
    assert_eq!(back.expose(), 0x9ABC_DEF0);
    assert_eq!(Secret::new(0xFFu8).to_signed().expose(), -1);
    assert_eq!(Secret::new(-1i16).to_unsigned().expose(), 0xFFFF);
    assert_eq!(Secret::<i64>::from(Secret::new(-3i8)).expose(), -3);
}

#[test]
fn secret_wrapping_arithmetic() {
    let x = Secret::new(0u8);
    assert_eq!(x.wrapping_sub(1u8).expose(), 255);
    assert_eq!(Secret::new(200u8).wrapping_add(Secret::new(100u8)).expose(), 44);
}

#[test]
fn rotations() {
    assert_eq!(RotateLeft::rotate_left(0x8000_0001u32, 1), 0x0000_0003);
    assert_eq!(RotateRight::rotate_right(0x8000_0001u32, 1), 0xC000_0000);
    assert_eq!(RotateLeft::rotate_left(0x12u8, 8), 0x12);
    assert_eq!(RotateLeft::rotate_left(0x12u8, 12), 0x21);
    assert_eq!(RotateLeft::rotate_left(-128i8, 1), 1);
    assert_eq!(RotateRight::rotate_right(1u64, 0), 1);
    assert_eq!(Secret::new(1u16).rotate_right(1).expose(), 0x8000);
    assert_eq!(Secret::new(0xF0u8).rotate_left(4).expose(), 0x0F);
}

#[test]
fn truncation_keeps_low_bits() {
    assert_eq!(Truncate::<u8>::truncate(0x1234u16), 0x34);
    assert_eq!(Truncate::<i8>::truncate(-2i64), -2);
    assert_eq!(Truncate::<u16>::truncate(0xDEAD_BEEFu32), 0xBEEF);
    assert_eq!(ToSigned::to_signed(0x80u8), -128);
    assert_eq!(ToUnsigned::to_unsigned(-1i32), u32::MAX);
}

#[test]
fn no_drop_holds_its_value() {
    let n = NoDrop::new(vec![1, 2, 3]);
    assert_eq!(n.get().len(), 3);
    assert_eq!(n.into_inner(), vec![1, 2, 3]);
}

#[test]
fn interleaved_rotation_moves_bits_between_halves() {
    // The word 0b10: its bit 1 is bit 0 of the odd half.
    let w = Interleaved { evens: 0u32, odds: 1u32 };
    let l = RotateLeft::rotate_left(w, 1);
    assert!(l == Interleaved { evens: 2, odds: 0 });
    let l2 = RotateLeft::rotate_left(w, 2);
    assert!(l2 == Interleaved { evens: 0, odds: 2 });
    let r = RotateRight::rotate_right(w, 1);
    assert!(r == Interleaved { evens: 1, odds: 0 });
    // Bit 63 (odd half, bit 31) rotated left by one lands on bit 0.
    let top = Interleaved { evens: 0u32, odds: 0x8000_0000u32 };
    assert!(RotateLeft::rotate_left(top, 1) == Interleaved { evens: 1, odds: 0 });
}
