use one_based::{
    NonZeroU128, NonZeroU16, NonZeroU32, NonZeroU64, NonZeroU8, NonZeroUsize, OneBasedError,
    OneBasedU128, OneBasedU16, OneBasedU32, OneBasedU64, OneBasedU8, OneBasedUsize,
};

#[test]
fn one_based_gives_one_less_counted_from_zero_for_every_u8() {
    for v in 1..=u8::MAX {
        let index = OneBasedU8::from_one_based(v).unwrap();
        assert_eq!(index.as_zero_based(), v - 1);
        assert_eq!(index.as_one_based().get(), v);
    }
}

#[test]
fn zero_based_gives_one_more_counted_from_one_for_every_u8() {
    for v in 0..u8::MAX {
        let index = OneBasedU8::from_zero_based(v).unwrap();
        assert_eq!(index.as_one_based().get(), v + 1);
        assert_eq!(index.as_zero_based(), v);
    }
}

#[test]
fn one_based_at_the_ends_of_each_width() {
    assert_eq!(OneBasedU16::from_one_based(1).unwrap().as_zero_based(), 0);
    assert_eq!(OneBasedU16::from_one_based(u16::MAX).unwrap().as_zero_based(), 65534);
    assert_eq!(OneBasedU32::from_one_based(1).unwrap().as_zero_based(), 0);
    assert_eq!(OneBasedU32::from_one_based(u32::MAX).unwrap().as_zero_based(), 4294967294);
    assert_eq!(OneBasedU64::from_one_based(1).unwrap().as_zero_based(), 0);
    assert_eq!(
        OneBasedU64::from_one_based(u64::MAX).unwrap().as_zero_based(),
        18446744073709551614
    );
    assert_eq!(OneBasedU128::from_one_based(1).unwrap().as_zero_based(), 0);
    assert_eq!(
        OneBasedU128::from_one_based(u128::MAX).unwrap().as_zero_based(),
        340282366920938463463374607431768211454
    );
    assert_eq!(OneBasedUsize::from_one_based(1).unwrap().as_zero_based(), 0);
    assert_eq!(
        OneBasedUsize::from_one_based(usize::MAX).unwrap().as_zero_based(),
        usize::MAX - 1
    );
}

#[test]
fn zero_based_at_the_ends_of_each_width() {
    assert_eq!(OneBasedU16::from_zero_based(0).unwrap().as_one_based().get(), 1);
    assert_eq!(OneBasedU16::from_zero_based(65534).unwrap().as_one_based().get(), 65535);
    assert_eq!(OneBasedU32::from_zero_based(0).unwrap().as_one_based().get(), 1);
    assert_eq!(
        OneBasedU32::from_zero_based(4294967294).unwrap().as_one_based().get(),
        4294967295
    );
    assert_eq!(OneBasedU64::from_zero_based(0).unwrap().as_one_based().get(), 1);
    assert_eq!(
        OneBasedU64::from_zero_based(u64::MAX - 1).unwrap().as_one_based().get(),
        u64::MAX
    );
    assert_eq!(OneBasedU128::from_zero_based(0).unwrap().as_one_based().get(), 1);
    assert_eq!(
        OneBasedU128::from_zero_based(u128::MAX - 1).unwrap().as_one_based().get(),
        u128::MAX
    );
    assert_eq!(OneBasedUsize::from_zero_based(0).unwrap().as_one_based().get(), 1);
    assert_eq!(
        OneBasedUsize::from_zero_based(usize::MAX - 1).unwrap().as_one_based().get(),
        usize::MAX
    );
}

#[test]
fn zero_is_no_one_based_index_of_usize() {
    assert_eq!(Err(OneBasedError::ZeroIndex), OneBasedUsize::from_one_based(0));
}

#[test]
fn max_is_no_zero_based_index_of_usize() {
    assert_eq!(
        Err(OneBasedError::OverflowIndex),
        OneBasedUsize::from_zero_based(usize::MAX)
    );
}

#[test]
fn the_two_errors_differ() {
    assert_ne!(OneBasedError::ZeroIndex, OneBasedError::OverflowIndex);
    assert_eq!(OneBasedU8::from_one_based(0).unwrap_err(), OneBasedError::ZeroIndex);
    assert_eq!(OneBasedU8::from_zero_based(255).unwrap_err(), OneBasedError::OverflowIndex);
    assert!(OneBasedU8::from_zero_based(0).is_ok());
    assert!(OneBasedU8::from_one_based(255).is_ok());
}

#[test]
fn error_text() {
    assert_eq!(OneBasedError::ZeroIndex.to_string(), "0 passed as 1-based index");
    assert_eq!(
        OneBasedError::OverflowIndex.to_string(),
        "unsigned::MAX cannot be used as 0-based index"
    );
}

#[test]
fn unchecked_constructors_agree_with_the_checked_ones() {
    assert_eq!(
        OneBasedU8::from_one_based_unchecked(5),
        OneBasedU8::from_one_based(5).unwrap()
    );
    assert_eq!(OneBasedU8::from_one_based_unchecked(5).as_zero_based(), 4);
    assert_eq!(
        OneBasedU8::from_zero_based_unchecked(4),
        OneBasedU8::from_zero_based(4).unwrap()
    );
    assert_eq!(OneBasedU8::from_zero_based_unchecked(4).as_one_based().get(), 5);
    assert_eq!(OneBasedU16::from_one_based_unchecked(u16::MAX).as_zero_based(), 65534);
    assert_eq!(OneBasedU16::from_zero_based_unchecked(0).as_one_based().get(), 1);
    assert_eq!(OneBasedU32::from_one_based_unchecked(7).as_zero_based(), 6);
    assert_eq!(OneBasedU32::from_zero_based_unchecked(7).as_one_based().get(), 8);
    assert_eq!(OneBasedU64::from_one_based_unchecked(7).as_zero_based(), 6);
    assert_eq!(OneBasedU64::from_zero_based_unchecked(7).as_one_based().get(), 8);
    assert_eq!(OneBasedU128::from_one_based_unchecked(7).as_zero_based(), 6);
    assert_eq!(OneBasedU128::from_zero_based_unchecked(7).as_one_based().get(), 8);
    assert_eq!(OneBasedUsize::from_one_based_unchecked(7).as_zero_based(), 6);
    assert_eq!(OneBasedUsize::from_zero_based_unchecked(7).as_one_based().get(), 8);
}

#[test]
fn nonzero_constructor_rewraps() {
    let five = NonZeroU8::new(5).unwrap();
    assert_eq!(OneBasedU8::from_one_based_nonzero(five).as_one_based(), five);
    assert_eq!(OneBasedU8::from_one_based_nonzero(five).as_zero_based(), 4);
    assert_eq!(
        OneBasedU16::from_one_based_nonzero(NonZeroU16::new(300).unwrap()).as_zero_based(),
        299
    );
    assert_eq!(
        OneBasedU32::from_one_based_nonzero(NonZeroU32::new(70000).unwrap()).as_zero_based(),
        69999
    );
    assert_eq!(
        OneBasedU64::from_one_based_nonzero(NonZeroU64::new(u64::MAX).unwrap()).as_zero_based(),
        u64::MAX - 1
    );
    assert_eq!(
        OneBasedU128::from_one_based_nonzero(NonZeroU128::new(u128::MAX).unwrap())
            .as_zero_based(),
        u128::MAX - 1
    );
    assert_eq!(
        OneBasedUsize::from_one_based_nonzero(NonZeroUsize::new(2).unwrap()).as_zero_based(),
        1
    );
}

#[test]
fn nonzero_keeps_zero_out() {
    assert_eq!(NonZeroU8::new(0), None);
    assert_eq!(NonZeroU16::new(0), None);
    assert_eq!(NonZeroU32::new(0), None);
    assert_eq!(NonZeroU64::new(0), None);
    assert_eq!(NonZeroU128::new(0), None);
    assert_eq!(NonZeroUsize::new(0), None);
    for n in 1..=u8::MAX {
        assert_eq!(NonZeroU8::new(n).unwrap().get(), n);
    }
    assert_eq!(NonZeroU16::new(u16::MAX).unwrap().get(), 65535);
    assert_eq!(NonZeroU32::new(1).unwrap().get(), 1);
    assert_eq!(NonZeroU64::new(12).unwrap().get(), 12);
    assert_eq!(NonZeroU128::new(u128::MAX).unwrap().get(), u128::MAX);
    assert_eq!(NonZeroUsize::new(usize::MAX).unwrap().get(), usize::MAX);
    assert_eq!(NonZeroU8::new_unchecked(9), NonZeroU8::new(9).unwrap());
    assert_eq!(NonZeroU64::new_unchecked(9).get(), 9);
}

#[test]
fn order_follows_the_value_in_either_convention() {
    for a in 1..=u8::MAX {
        for b in 1..=u8::MAX {
            let x = OneBasedU8::from_one_based(a).unwrap();
            let y = OneBasedU8::from_one_based(b).unwrap();
            assert_eq!(x < y, x.as_zero_based() < y.as_zero_based());
            assert_eq!(x < y, x.as_one_based() < y.as_one_based());
            assert_eq!(x < y, a < b);
            assert_eq!(x <= y, a <= b);
            assert_eq!(x > y, a > b);
            assert_eq!(x >= y, a >= b);
            assert_eq!(x == y, a == b);
            assert_eq!(x == y, x.as_zero_based() == y.as_zero_based());
            assert_eq!(x == y, x.as_one_based() == y.as_one_based());
            assert_eq!(x.partial_cmp(&y), a.partial_cmp(&b));
            assert_eq!(x.cmp(&y), a.cmp(&b));
        }
    }
}

#[test]
fn order_of_the_wider_indices() {
    let low = OneBasedU128::from_one_based(1).unwrap();
    let high = OneBasedU128::from_one_based(u128::MAX).unwrap();
    assert!(low < high);
    assert!(high > low);
    assert!(low <= low);
    assert_eq!(low.max(high), high);
    let low = OneBasedUsize::from_zero_based(0).unwrap();
    let high = OneBasedUsize::from_zero_based(1).unwrap();
    assert!(low < high);
    assert!(low.as_one_based() < high.as_one_based());
    let mut indices = vec![
        OneBasedU32::from_one_based(30).unwrap(),
        OneBasedU32::from_one_based(10).unwrap(),
        OneBasedU32::from_one_based(20).unwrap(),
    ];
    indices.sort();
    let sorted: Vec<u32> = indices.iter().map(|index| index.as_zero_based()).collect();
    assert_eq!(sorted, vec![9, 19, 29]);
}

#[test]
fn indices_are_plain_values() {
    let index = OneBasedU64::from_one_based(42).unwrap();
    let copy = index;
    assert_eq!(index, copy);
    assert_eq!(index.clone(), copy);
    let mut seen = std::collections::HashSet::new();
    assert!(seen.insert(index));
    assert!(!seen.insert(copy));
    assert!(seen.insert(OneBasedU64::from_one_based(43).unwrap()));
}
