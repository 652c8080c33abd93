use core::convert::TryFrom;
use core::convert::TryInto;

use one_based::{
    OneBasedU128, OneBasedU16, OneBasedU32, OneBasedU64, OneBasedU8, OneBasedUsize,
};

#[test]
fn every_u8_index_widens_and_comes_back() {
    for v in 1..=u8::MAX {
        let index = OneBasedU8::from_one_based(v).unwrap();

        let in16 = OneBasedU16::from(index);
        assert_eq!(in16.as_zero_based(), u16::from(v) - 1);
        assert_eq!(OneBasedU8::try_from(in16).unwrap(), index);

        let in32 = OneBasedU32::from(index);
        assert_eq!(in32.as_zero_based(), u32::from(v) - 1);
        assert_eq!(OneBasedU8::try_from(in32).unwrap(), index);

        let in64 = OneBasedU64::from(index);
        assert_eq!(in64.as_zero_based(), u64::from(v) - 1);
        assert_eq!(OneBasedU8::try_from(in64).unwrap(), index);

        let in128 = OneBasedU128::from(index);
        assert_eq!(in128.as_zero_based(), u128::from(v) - 1);
        assert_eq!(OneBasedU8::try_from(in128).unwrap(), index);

        let back64: OneBasedU64 = in128.try_into().unwrap();
        assert_eq!(back64, in64);
        let back32: OneBasedU32 = back64.try_into().unwrap();
        assert_eq!(back32, in32);
        let back16: OneBasedU16 = back32.try_into().unwrap();
        assert_eq!(back16, in16);
        let back8: OneBasedU8 = back16.try_into().unwrap();
        assert_eq!(back8, index);
    }
}

#[test]
fn widening_keeps_the_largest_value() {
    let index = OneBasedU16::from_one_based(u16::MAX).unwrap();
    assert_eq!(OneBasedU32::from(index).as_one_based().get(), 65535);
    assert_eq!(OneBasedU64::from(index).as_one_based().get(), 65535);
    assert_eq!(OneBasedU128::from(index).as_one_based().get(), 65535);
    assert_eq!(OneBasedU16::try_from(OneBasedU128::from(index)).unwrap(), index);

    let index = OneBasedU32::from_one_based(u32::MAX).unwrap();
    assert_eq!(OneBasedU64::from(index).as_one_based().get(), 4294967295);
    assert_eq!(OneBasedU128::from(index).as_one_based().get(), 4294967295);
    assert_eq!(OneBasedU32::try_from(OneBasedU64::from(index)).unwrap(), index);

    let index = OneBasedU64::from_one_based(u64::MAX).unwrap();
    assert_eq!(OneBasedU128::from(index).as_one_based().get(), 18446744073709551615);
    assert_eq!(OneBasedU64::try_from(OneBasedU128::from(index)).unwrap(), index);
}

#[test]
fn narrowing_fails_just_above_the_target() {
    let fits = OneBasedU16::from_one_based(255).unwrap();
    let too_large = OneBasedU16::from_one_based(256).unwrap();
    assert_eq!(OneBasedU8::try_from(fits).unwrap().as_one_based().get(), 255);
    assert!(OneBasedU8::try_from(too_large).is_err());

    let fits = OneBasedU32::from_one_based(65535).unwrap();
    let too_large = OneBasedU32::from_one_based(65536).unwrap();
    assert_eq!(OneBasedU16::try_from(fits).unwrap().as_one_based().get(), 65535);
    assert!(OneBasedU16::try_from(too_large).is_err());
    assert!(OneBasedU8::try_from(fits).is_err());

    let fits = OneBasedU64::from_one_based(4294967295).unwrap();
    let too_large = OneBasedU64::from_one_based(4294967296).unwrap();
    assert_eq!(OneBasedU32::try_from(fits).unwrap().as_one_based().get(), 4294967295);
    assert!(OneBasedU32::try_from(too_large).is_err());
    assert!(OneBasedU16::try_from(fits).is_err());
    assert!(OneBasedU8::try_from(fits).is_err());

    let fits = OneBasedU128::from_one_based(18446744073709551615).unwrap();
    let too_large = OneBasedU128::from_one_based(18446744073709551616).unwrap();
    assert_eq!(OneBasedU64::try_from(fits).unwrap().as_one_based().get(), u64::MAX);
    assert!(OneBasedU64::try_from(too_large).is_err());
    assert!(OneBasedU32::try_from(fits).is_err());
    assert!(OneBasedU16::try_from(fits).is_err());
    assert!(OneBasedU8::try_from(fits).is_err());
}

#[test]
fn narrowing_from_the_largest_value_fails() {
    assert!(OneBasedU8::try_from(OneBasedU16::from_one_based(u16::MAX).unwrap()).is_err());
    assert!(OneBasedU16::try_from(OneBasedU32::from_one_based(u32::MAX).unwrap()).is_err());
    assert!(OneBasedU32::try_from(OneBasedU64::from_one_based(u64::MAX).unwrap()).is_err());
    assert!(OneBasedU64::try_from(OneBasedU128::from_one_based(u128::MAX).unwrap()).is_err());
}

#[test]
fn narrowing_keeps_a_value_that_fits() {
    let index = OneBasedU128::from_one_based(200).unwrap();
    assert_eq!(OneBasedU64::try_from(index).unwrap().as_zero_based(), 199);
    assert_eq!(OneBasedU32::try_from(index).unwrap().as_zero_based(), 199);
    assert_eq!(OneBasedU16::try_from(index).unwrap().as_zero_based(), 199);
    assert_eq!(OneBasedU8::try_from(index).unwrap().as_zero_based(), 199);
    assert_eq!(OneBasedUsize::try_from(index).unwrap().as_zero_based(), 199);
}

#[test]
fn to_the_word_size() {
    assert_eq!(
        OneBasedUsize::try_from(OneBasedU8::from_one_based(255).unwrap())
            .unwrap()
            .as_one_based()
            .get(),
        255
    );
    assert_eq!(
        OneBasedUsize::try_from(OneBasedU16::from_one_based(65535).unwrap())
            .unwrap()
            .as_one_based()
            .get(),
        65535
    );
    assert_eq!(
        OneBasedUsize::try_from(OneBasedU32::from_one_based(70000).unwrap())
            .unwrap()
            .as_one_based()
            .get(),
        70000
    );
    assert_eq!(
        OneBasedUsize::try_from(OneBasedU64::from_one_based(70000).unwrap())
            .unwrap()
            .as_one_based()
            .get(),
        70000
    );
    let word_max = OneBasedU128::from_one_based(usize::MAX as u128).unwrap();
    assert_eq!(OneBasedUsize::try_from(word_max).unwrap().as_one_based().get(), usize::MAX);
    let above = OneBasedU128::from_one_based(usize::MAX as u128 + 1).unwrap();
    assert!(OneBasedUsize::try_from(above).is_err());
    assert!(OneBasedUsize::try_from(OneBasedU128::from_one_based(u128::MAX).unwrap()).is_err());
}

#[test]
fn from_the_word_size() {
    let index = OneBasedUsize::from_one_based(255).unwrap();
    assert_eq!(OneBasedU8::try_from(index).unwrap().as_one_based().get(), 255);
    assert_eq!(OneBasedU16::try_from(index).unwrap().as_one_based().get(), 255);
    assert_eq!(OneBasedU32::try_from(index).unwrap().as_one_based().get(), 255);
    assert_eq!(OneBasedU64::try_from(index).unwrap().as_one_based().get(), 255);
    assert_eq!(OneBasedU128::try_from(index).unwrap().as_one_based().get(), 255);

    let index = OneBasedUsize::from_one_based(256).unwrap();
    assert!(OneBasedU8::try_from(index).is_err());
    assert_eq!(OneBasedU16::try_from(index).unwrap().as_zero_based(), 255);

    let index = OneBasedUsize::from_one_based(65536).unwrap();
    assert!(OneBasedU8::try_from(index).is_err());
    assert!(OneBasedU16::try_from(index).is_err());
    assert_eq!(OneBasedU32::try_from(index).unwrap().as_zero_based(), 65535);

    let index = OneBasedUsize::from_one_based(usize::MAX).unwrap();
    assert!(OneBasedU8::try_from(index).is_err());
    assert!(OneBasedU16::try_from(index).is_err());
    assert_eq!(
        OneBasedU128::try_from(index).unwrap().as_one_based().get(),
        usize::MAX as u128
    );
}
