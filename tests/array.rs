use ctcrypto::array::Array;

#[test]
fn test_push() {
    let arr = Array::<i32, 0>::new()
        .push::<1>(1)
        .push::<2>(2)
        .push::<3>(3)
        .push::<4>(4)
        .push::<5>(5);
    assert_eq!(arr.as_slice(), [1, 2, 3, 4, 5]);
}

#[test]
fn test_append() {
    let arr1 = Array::<i32, 0>::new().push::<1>(1).push::<2>(2).push::<3>(3);
    let arr2 = Array::<i32, 0>::new().push::<1>(4).push::<2>(5);
    assert_eq!(arr1.append::<2, 5>(arr2).as_slice(), [1, 2, 3, 4, 5]);
}

#[test]
fn growth_keeps_order_and_sums_lengths() {
    let a = Array::<u8, 0>::new().push::<1>(7).push::<2>(8);
    let empty = Array::<u8, 0>::new();
    let a = a.append::<0, 2>(empty);
    assert_eq!(a.len(), 2);
    let b = Array::<u8, 0>::new().push::<1>(9);
    let c = a.append::<1, 3>(b).push::<4>(10);
    assert_eq!(c.len(), 4);
    assert_eq!(c.as_slice(), [7, 8, 9, 10]);
    assert_eq!(*c.get(2), 9);
}

#[test]
fn map_applies_in_order() {
    let a = Array::<u32, 3>::from_vec(vec![1, 2, 3]);
    let b = a.map(|x: u32| x * 10);
    assert_eq!(b.as_slice(), [10, 20, 30]);
}

#[test]
fn empty_array_has_no_values() {
    let a = Array::<u64, 0>::new();
    assert_eq!(a.len(), 0);
    assert!(a.as_slice().is_empty());
}
