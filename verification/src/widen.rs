//! Conversions to a wider index. They cannot fail: the wider type holds
//! every value of the narrower one.

use vstd::prelude::*;
use vstd::std_specs::convert::FromSpec;
use vstd::std_specs::convert::TryFromSpec;
use core::num::TryFromIntError;
use crate::index_u128::OneBasedU128;
use crate::index_u16::OneBasedU16;
use crate::index_u32::OneBasedU32;
use crate::index_u64::OneBasedU64;
use crate::index_u8::OneBasedU8;

verus! {

impl From<OneBasedU8> for OneBasedU16 {
    /// Widens the index. Its value stays.
    fn from(value: OneBasedU8) -> (index: OneBasedU16)
        ensures
            index@ == value@,
    {
        OneBasedU16::from_one_based_unchecked(u16::from(value.as_one_based().get()))
    }
}

/// What widening `OneBasedU8` to `OneBasedU16` gives.
impl vstd::std_specs::convert::FromSpecImpl<OneBasedU8> for OneBasedU16 {
    open spec fn obeys_from_spec() -> bool {
        true
    }

    open spec fn from_spec(value: OneBasedU8) -> OneBasedU16 {
        OneBasedU16::with_one_based(value@)
    }
}

impl From<OneBasedU8> for OneBasedU32 {
    /// Widens the index. Its value stays.
    fn from(value: OneBasedU8) -> (index: OneBasedU32)
        ensures
            index@ == value@,
    {
        OneBasedU32::from_one_based_unchecked(u32::from(value.as_one_based().get()))
    }
}

/// What widening `OneBasedU8` to `OneBasedU32` gives.
impl vstd::std_specs::convert::FromSpecImpl<OneBasedU8> for OneBasedU32 {
    open spec fn obeys_from_spec() -> bool {
        true
    }

    open spec fn from_spec(value: OneBasedU8) -> OneBasedU32 {
        OneBasedU32::with_one_based(value@)
    }
}

impl From<OneBasedU8> for OneBasedU64 {
    /// Widens the index. Its value stays.
    fn from(value: OneBasedU8) -> (index: OneBasedU64)
        ensures
            index@ == value@,
    {
        OneBasedU64::from_one_based_unchecked(u64::from(value.as_one_based().get()))
    }
}

/// What widening `OneBasedU8` to `OneBasedU64` gives.
impl vstd::std_specs::convert::FromSpecImpl<OneBasedU8> for OneBasedU64 {
    open spec fn obeys_from_spec() -> bool {
        true
    }

    open spec fn from_spec(value: OneBasedU8) -> OneBasedU64 {
        OneBasedU64::with_one_based(value@)
    }
}

impl From<OneBasedU8> for OneBasedU128 {
    /// Widens the index. Its value stays.
    fn from(value: OneBasedU8) -> (index: OneBasedU128)
        ensures
            index@ == value@,
    {
        OneBasedU128::from_one_based_unchecked(u128::from(value.as_one_based().get()))
    }
}

/// What widening `OneBasedU8` to `OneBasedU128` gives.
impl vstd::std_specs::convert::FromSpecImpl<OneBasedU8> for OneBasedU128 {
    open spec fn obeys_from_spec() -> bool {
        true
    }

    open spec fn from_spec(value: OneBasedU8) -> OneBasedU128 {
        OneBasedU128::with_one_based(value@)
    }
}

impl From<OneBasedU16> for OneBasedU32 {
    /// Widens the index. Its value stays.
    fn from(value: OneBasedU16) -> (index: OneBasedU32)
        ensures
            index@ == value@,
    {
        OneBasedU32::from_one_based_unchecked(u32::from(value.as_one_based().get()))
    }
}

/// What widening `OneBasedU16` to `OneBasedU32` gives.
impl vstd::std_specs::convert::FromSpecImpl<OneBasedU16> for OneBasedU32 {
    open spec fn obeys_from_spec() -> bool {
        true
    }

    open spec fn from_spec(value: OneBasedU16) -> OneBasedU32 {
        OneBasedU32::with_one_based(value@)
    }
}

impl From<OneBasedU16> for OneBasedU64 {
    /// Widens the index. Its value stays.
    fn from(value: OneBasedU16) -> (index: OneBasedU64)
        ensures
            index@ == value@,
    {
        OneBasedU64::from_one_based_unchecked(u64::from(value.as_one_based().get()))
    }
}

/// What widening `OneBasedU16` to `OneBasedU64` gives.
impl vstd::std_specs::convert::FromSpecImpl<OneBasedU16> for OneBasedU64 {
    open spec fn obeys_from_spec() -> bool {
        true
    }

    open spec fn from_spec(value: OneBasedU16) -> OneBasedU64 {
        OneBasedU64::with_one_based(value@)
    }
}

impl From<OneBasedU16> for OneBasedU128 {
    /// Widens the index. Its value stays.
    fn from(value: OneBasedU16) -> (index: OneBasedU128)
        ensures
            index@ == value@,
    {
        OneBasedU128::from_one_based_unchecked(u128::from(value.as_one_based().get()))
    }
}

/// What widening `OneBasedU16` to `OneBasedU128` gives.
impl vstd::std_specs::convert::FromSpecImpl<OneBasedU16> for OneBasedU128 {
    open spec fn obeys_from_spec() -> bool {
        true
    }

    open spec fn from_spec(value: OneBasedU16) -> OneBasedU128 {
        OneBasedU128::with_one_based(value@)
    }
}

impl From<OneBasedU32> for OneBasedU64 {
    /// Widens the index. Its value stays.
    fn from(value: OneBasedU32) -> (index: OneBasedU64)
        ensures
            index@ == value@,
    {
        OneBasedU64::from_one_based_unchecked(u64::from(value.as_one_based().get()))
    }
}

/// What widening `OneBasedU32` to `OneBasedU64` gives.
impl vstd::std_specs::convert::FromSpecImpl<OneBasedU32> for OneBasedU64 {
    open spec fn obeys_from_spec() -> bool {
        true
    }

    open spec fn from_spec(value: OneBasedU32) -> OneBasedU64 {
        OneBasedU64::with_one_based(value@)
    }
}

impl From<OneBasedU32> for OneBasedU128 {
    /// Widens the index. Its value stays.
    fn from(value: OneBasedU32) -> (index: OneBasedU128)
        ensures
            index@ == value@,
    {
        OneBasedU128::from_one_based_unchecked(u128::from(value.as_one_based().get()))
    }
}

/// What widening `OneBasedU32` to `OneBasedU128` gives.
impl vstd::std_specs::convert::FromSpecImpl<OneBasedU32> for OneBasedU128 {
    open spec fn obeys_from_spec() -> bool {
        true
    }

    open spec fn from_spec(value: OneBasedU32) -> OneBasedU128 {
        OneBasedU128::with_one_based(value@)
    }
}

impl From<OneBasedU64> for OneBasedU128 {
    /// Widens the index. Its value stays.
    fn from(value: OneBasedU64) -> (index: OneBasedU128)
        ensures
            index@ == value@,
    {
        OneBasedU128::from_one_based_unchecked(u128::from(value.as_one_based().get()))
    }
}

/// What widening `OneBasedU64` to `OneBasedU128` gives.
impl vstd::std_specs::convert::FromSpecImpl<OneBasedU64> for OneBasedU128 {
    open spec fn obeys_from_spec() -> bool {
        true
    }

    open spec fn from_spec(value: OneBasedU64) -> OneBasedU128 {
        OneBasedU128::with_one_based(value@)
    }
}

/// Widening from `u8` to `u16` keeps the value in either convention, and
/// narrowing the result gives the index back.
pub proof fn lemma_widen_u8_u16(index: OneBasedU8)
    requires
        index@ >= 1,
    ensures
        ({
            let wide = OneBasedU16::from_spec(index);
            &&& wide@ == index@
            &&& wide.as_zero_based() == index.as_zero_based()
            &&& OneBasedU8::try_from_spec(wide) == Ok::<OneBasedU8, TryFromIntError>(index)
        }),
{
    index.lemma_view();
    OneBasedU16::lemma_with_one_based(index@);
}

/// Widening from `u8` to `u32` keeps the value in either convention, and
/// narrowing the result gives the index back.
pub proof fn lemma_widen_u8_u32(index: OneBasedU8)
    requires
        index@ >= 1,
    ensures
        ({
            let wide = OneBasedU32::from_spec(index);
            &&& wide@ == index@
            &&& wide.as_zero_based() == index.as_zero_based()
            &&& OneBasedU8::try_from_spec(wide) == Ok::<OneBasedU8, TryFromIntError>(index)
        }),
{
    index.lemma_view();
    OneBasedU32::lemma_with_one_based(index@);
}

/// Widening from `u8` to `u64` keeps the value in either convention, and
/// narrowing the result gives the index back.
pub proof fn lemma_widen_u8_u64(index: OneBasedU8)
    requires
        index@ >= 1,
    ensures
        ({
            let wide = OneBasedU64::from_spec(index);
            &&& wide@ == index@
            &&& wide.as_zero_based() == index.as_zero_based()
            &&& OneBasedU8::try_from_spec(wide) == Ok::<OneBasedU8, TryFromIntError>(index)
        }),
{
    index.lemma_view();
    OneBasedU64::lemma_with_one_based(index@);
}

/// Widening from `u8` to `u128` keeps the value in either convention, and
/// narrowing the result gives the index back.
pub proof fn lemma_widen_u8_u128(index: OneBasedU8)
    requires
        index@ >= 1,
    ensures
        ({
            let wide = OneBasedU128::from_spec(index);
            &&& wide@ == index@
            &&& wide.as_zero_based() == index.as_zero_based()
            &&& OneBasedU8::try_from_spec(wide) == Ok::<OneBasedU8, TryFromIntError>(index)
        }),
{
    index.lemma_view();
    OneBasedU128::lemma_with_one_based(index@);
}

/// Widening from `u16` to `u32` keeps the value in either convention, and
/// narrowing the result gives the index back.
pub proof fn lemma_widen_u16_u32(index: OneBasedU16)
    requires
        index@ >= 1,
    ensures
        ({
            let wide = OneBasedU32::from_spec(index);
            &&& wide@ == index@
            &&& wide.as_zero_based() == index.as_zero_based()
            &&& OneBasedU16::try_from_spec(wide) == Ok::<OneBasedU16, TryFromIntError>(index)
        }),
{
    index.lemma_view();
    OneBasedU32::lemma_with_one_based(index@);
}

/// Widening from `u16` to `u64` keeps the value in either convention, and
/// narrowing the result gives the index back.
pub proof fn lemma_widen_u16_u64(index: OneBasedU16)
    requires
        index@ >= 1,
    ensures
        ({
            let wide = OneBasedU64::from_spec(index);
            &&& wide@ == index@
            &&& wide.as_zero_based() == index.as_zero_based()
            &&& OneBasedU16::try_from_spec(wide) == Ok::<OneBasedU16, TryFromIntError>(index)
        }),
{
    index.lemma_view();
    OneBasedU64::lemma_with_one_based(index@);
}

/// Widening from `u16` to `u128` keeps the value in either convention, and
/// narrowing the result gives the index back.
pub proof fn lemma_widen_u16_u128(index: OneBasedU16)
    requires
        index@ >= 1,
    ensures
        ({
            let wide = OneBasedU128::from_spec(index);
            &&& wide@ == index@
            &&& wide.as_zero_based() == index.as_zero_based()
            &&& OneBasedU16::try_from_spec(wide) == Ok::<OneBasedU16, TryFromIntError>(index)
        }),
{
    index.lemma_view();
    OneBasedU128::lemma_with_one_based(index@);
}

/// Widening from `u32` to `u64` keeps the value in either convention, and
/// narrowing the result gives the index back.
pub proof fn lemma_widen_u32_u64(index: OneBasedU32)
    requires
        index@ >= 1,
    ensures
        ({
            let wide = OneBasedU64::from_spec(index);
            &&& wide@ == index@
            &&& wide.as_zero_based() == index.as_zero_based()
            &&& OneBasedU32::try_from_spec(wide) == Ok::<OneBasedU32, TryFromIntError>(index)
        }),
{
    index.lemma_view();
    OneBasedU64::lemma_with_one_based(index@);
}

/// Widening from `u32` to `u128` keeps the value in either convention, and
/// narrowing the result gives the index back.
pub proof fn lemma_widen_u32_u128(index: OneBasedU32)
    requires
        index@ >= 1,
    ensures
        ({
            let wide = OneBasedU128::from_spec(index);
            &&& wide@ == index@
            &&& wide.as_zero_based() == index.as_zero_based()
            &&& OneBasedU32::try_from_spec(wide) == Ok::<OneBasedU32, TryFromIntError>(index)
        }),
{
    index.lemma_view();
    OneBasedU128::lemma_with_one_based(index@);
}

/// Widening from `u64` to `u128` keeps the value in either convention, and
/// narrowing the result gives the index back.
pub proof fn lemma_widen_u64_u128(index: OneBasedU64)
    requires
        index@ >= 1,
    ensures
        ({
            let wide = OneBasedU128::from_spec(index);
            &&& wide@ == index@
            &&& wide.as_zero_based() == index.as_zero_based()
            &&& OneBasedU64::try_from_spec(wide) == Ok::<OneBasedU64, TryFromIntError>(index)
        }),
{
    index.lemma_view();
    OneBasedU128::lemma_with_one_based(index@);
}

/// An index of `u8`, widened step by step to `u128`, comes back step by
/// step to the index it was. At every stage its value counted from zero is
/// the one it started with, and widening in one step gives the same as
/// widening in four.
pub proof fn lemma_up_and_back_down(index: OneBasedU8)
    requires
        index@ >= 1,
    ensures
        ({
            let in16 = OneBasedU16::from_spec(index);
            let in32 = OneBasedU32::from_spec(in16);
            let in64 = OneBasedU64::from_spec(in32);
            let in128 = OneBasedU128::from_spec(in64);
            &&& in16.as_zero_based() == index.as_zero_based()
            &&& in32.as_zero_based() == index.as_zero_based()
            &&& in64.as_zero_based() == index.as_zero_based()
            &&& in128.as_zero_based() == index.as_zero_based()
            &&& in128 == OneBasedU128::from_spec(index)
            &&& OneBasedU64::try_from_spec(in128) == Ok::<OneBasedU64, TryFromIntError>(in64)
            &&& OneBasedU32::try_from_spec(in64) == Ok::<OneBasedU32, TryFromIntError>(in32)
            &&& OneBasedU16::try_from_spec(in32) == Ok::<OneBasedU16, TryFromIntError>(in16)
            &&& OneBasedU8::try_from_spec(in16) == Ok::<OneBasedU8, TryFromIntError>(index)
        }),
{
    let in16 = OneBasedU16::from_spec(index);
    let in32 = OneBasedU32::from_spec(in16);
    let in64 = OneBasedU64::from_spec(in32);
    lemma_widen_u8_u16(index);
    lemma_widen_u16_u32(in16);
    lemma_widen_u32_u64(in32);
    lemma_widen_u64_u128(in64);
}

} // verus!
