use ctcrypto::wrapping::{Wrapping, WrappingAdd, WrappingSub};

#[test]
fn no_loop() {
    assert_eq!(WrappingAdd::wrapping_add(0u8, 0u8), 0);
    assert_eq!(WrappingAdd::wrapping_add(0u16, 0u16), 0);
    assert_eq!(WrappingAdd::wrapping_add(0u32, 0u32), 0);
    assert_eq!(WrappingAdd::wrapping_add(0u64, 0u64), 0);
    assert_eq!(WrappingAdd::wrapping_add(0usize, 0usize), 0);
    assert_eq!(WrappingAdd::wrapping_add(0i8, 0i8), 0);
    assert_eq!(WrappingAdd::wrapping_add(0i16, 0i16), 0);
    assert_eq!(WrappingAdd::wrapping_add(0i32, 0i32), 0);
    assert_eq!(WrappingAdd::wrapping_add(0i64, 0i64), 0);
    assert_eq!(WrappingAdd::wrapping_add(0isize, 0isize), 0);

    assert_eq!(WrappingSub::wrapping_sub(0u8, 0u8), 0);
    assert_eq!(WrappingSub::wrapping_sub(0u16, 0u16), 0);
    assert_eq!(WrappingSub::wrapping_sub(0u32, 0u32), 0);
    assert_eq!(WrappingSub::wrapping_sub(0u64, 0u64), 0);
    assert_eq!(WrappingSub::wrapping_sub(0usize, 0usize), 0);
    assert_eq!(WrappingSub::wrapping_sub(0i8, 0i8), 0);
    assert_eq!(WrappingSub::wrapping_sub(0i16, 0i16), 0);
    assert_eq!(WrappingSub::wrapping_sub(0i32, 0i32), 0);
    assert_eq!(WrappingSub::wrapping_sub(0i64, 0i64), 0);
    assert_eq!(WrappingSub::wrapping_sub(0isize, 0isize), 0);
}

#[test]
fn wrapping_arithmetic_wraps_around() {
    assert_eq!(WrappingAdd::wrapping_add(250u8, 10u8), 4);
    assert_eq!(WrappingSub::wrapping_sub(0u8, 1u8), 255);
    assert_eq!(WrappingAdd::wrapping_add(127i8, 1i8), -128);
    assert_eq!(WrappingSub::wrapping_sub(-128i8, 1i8), 127);
    assert_eq!(WrappingAdd::wrapping_add(u64::MAX, 2u64), 1);
    let Wrapping(sum) = Wrapping(u32::MAX) + Wrapping(1u32);
    assert_eq!(sum, 0);
    let Wrapping(diff) = Wrapping(3u16) - Wrapping(5u16);
    assert_eq!(diff, 65534);
}
