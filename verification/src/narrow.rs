//! Conversions to an index of another width that may not hold the value.
//! They fail exactly when the 1-based value is more than the largest value
//! of the target.

use vstd::prelude::*;
use core::num::TryFromIntError;
use crate::index_u128::OneBasedU128;
use crate::index_u16::OneBasedU16;
use crate::index_u32::OneBasedU32;
use crate::index_u64::OneBasedU64;
use crate::index_u8::OneBasedU8;
use crate::index_usize::OneBasedUsize;

verus! {

impl TryFrom<OneBasedU8> for OneBasedUsize {
    type Error = TryFromIntError;

    /// Converts the index. Fails if and only if its 1-based value is more
    /// than `usize::MAX`; an index that converts keeps its value.
    fn try_from(value: OneBasedU8) -> (r: Result<OneBasedUsize, TryFromIntError>)
        ensures
            r is Ok <==> value@ <= usize::MAX,
            r matches Ok(index) ==> index@ == value@,
    {
        Ok(OneBasedUsize::from_one_based_unchecked(usize::from(value.as_one_based().get())))
    }
}

/// What converting `OneBasedU8` to `OneBasedUsize` gives.
impl vstd::std_specs::convert::TryFromSpecImpl<OneBasedU8> for OneBasedUsize {
    open spec fn obeys_try_from_spec() -> bool {
        true
    }

    open spec fn try_from_spec(value: OneBasedU8) -> Result<OneBasedUsize, TryFromIntError> {
        if value@ <= usize::MAX {
            Ok(OneBasedUsize::with_one_based(value@))
        } else {
            Err(arbitrary())
        }
    }
}

impl TryFrom<OneBasedU16> for OneBasedUsize {
    type Error = TryFromIntError;

    /// Converts the index. Fails if and only if its 1-based value is more
    /// than `usize::MAX`; an index that converts keeps its value.
    fn try_from(value: OneBasedU16) -> (r: Result<OneBasedUsize, TryFromIntError>)
        ensures
            r is Ok <==> value@ <= usize::MAX,
            r matches Ok(index) ==> index@ == value@,
    {
        Ok(OneBasedUsize::from_one_based_unchecked(usize::from(value.as_one_based().get())))
    }
}

/// What converting `OneBasedU16` to `OneBasedUsize` gives.
impl vstd::std_specs::convert::TryFromSpecImpl<OneBasedU16> for OneBasedUsize {
    open spec fn obeys_try_from_spec() -> bool {
        true
    }

    open spec fn try_from_spec(value: OneBasedU16) -> Result<OneBasedUsize, TryFromIntError> {
        if value@ <= usize::MAX {
            Ok(OneBasedUsize::with_one_based(value@))
        } else {
            Err(arbitrary())
        }
    }
}

impl TryFrom<OneBasedU16> for OneBasedU8 {
    type Error = TryFromIntError;

    /// Converts the index. Fails if and only if its 1-based value is more
    /// than `u8::MAX`; an index that converts keeps its value.
    fn try_from(value: OneBasedU16) -> (r: Result<OneBasedU8, TryFromIntError>)
        ensures
            r is Ok <==> value@ <= u8::MAX,
            r matches Ok(index) ==> index@ == value@,
    {
        match u8::try_from(value.as_one_based().get()) {
            Ok(v) => Ok(OneBasedU8::from_one_based_unchecked(v)),
            Err(e) => Err(e),
        }
    }
}

/// What converting `OneBasedU16` to `OneBasedU8` gives.
impl vstd::std_specs::convert::TryFromSpecImpl<OneBasedU16> for OneBasedU8 {
    open spec fn obeys_try_from_spec() -> bool {
        true
    }

    open spec fn try_from_spec(value: OneBasedU16) -> Result<OneBasedU8, TryFromIntError> {
        if value@ <= u8::MAX {
            Ok(OneBasedU8::with_one_based(value@))
        } else {
            Err(arbitrary())
        }
    }
}

impl TryFrom<OneBasedU32> for OneBasedUsize {
    type Error = TryFromIntError;

    /// Converts the index. Fails if and only if its 1-based value is more
    /// than `usize::MAX`; an index that converts keeps its value.
    fn try_from(value: OneBasedU32) -> (r: Result<OneBasedUsize, TryFromIntError>)
        ensures
            r is Ok <==> value@ <= usize::MAX,
            r matches Ok(index) ==> index@ == value@,
    {
        match usize::try_from(value.as_one_based().get()) {
            Ok(v) => Ok(OneBasedUsize::from_one_based_unchecked(v)),
            Err(e) => Err(e),
        }
    }
}

/// What converting `OneBasedU32` to `OneBasedUsize` gives.
impl vstd::std_specs::convert::TryFromSpecImpl<OneBasedU32> for OneBasedUsize {
    open spec fn obeys_try_from_spec() -> bool {
        true
    }

    open spec fn try_from_spec(value: OneBasedU32) -> Result<OneBasedUsize, TryFromIntError> {
        if value@ <= usize::MAX {
            Ok(OneBasedUsize::with_one_based(value@))
        } else {
            Err(arbitrary())
        }
    }
}

impl TryFrom<OneBasedU32> for OneBasedU8 {
    type Error = TryFromIntError;

    /// Converts the index. Fails if and only if its 1-based value is more
    /// than `u8::MAX`; an index that converts keeps its value.
    fn try_from(value: OneBasedU32) -> (r: Result<OneBasedU8, TryFromIntError>)
        ensures
            r is Ok <==> value@ <= u8::MAX,
            r matches Ok(index) ==> index@ == value@,
    {
        match u8::try_from(value.as_one_based().get()) {
            Ok(v) => Ok(OneBasedU8::from_one_based_unchecked(v)),
            Err(e) => Err(e),
        }
    }
}

/// What converting `OneBasedU32` to `OneBasedU8` gives.
impl vstd::std_specs::convert::TryFromSpecImpl<OneBasedU32> for OneBasedU8 {
    open spec fn obeys_try_from_spec() -> bool {
        true
    }

    open spec fn try_from_spec(value: OneBasedU32) -> Result<OneBasedU8, TryFromIntError> {
        if value@ <= u8::MAX {
            Ok(OneBasedU8::with_one_based(value@))
        } else {
            Err(arbitrary())
        }
    }
}

impl TryFrom<OneBasedU32> for OneBasedU16 {
    type Error = TryFromIntError;

    /// Converts the index. Fails if and only if its 1-based value is more
    /// than `u16::MAX`; an index that converts keeps its value.
    fn try_from(value: OneBasedU32) -> (r: Result<OneBasedU16, TryFromIntError>)
        ensures
            r is Ok <==> value@ <= u16::MAX,
            r matches Ok(index) ==> index@ == value@,
    {
        match u16::try_from(value.as_one_based().get()) {
            Ok(v) => Ok(OneBasedU16::from_one_based_unchecked(v)),
            Err(e) => Err(e),
        }
    }
}

/// What converting `OneBasedU32` to `OneBasedU16` gives.
impl vstd::std_specs::convert::TryFromSpecImpl<OneBasedU32> for OneBasedU16 {
    open spec fn obeys_try_from_spec() -> bool {
        true
    }

    open spec fn try_from_spec(value: OneBasedU32) -> Result<OneBasedU16, TryFromIntError> {
        if value@ <= u16::MAX {
            Ok(OneBasedU16::with_one_based(value@))
        } else {
            Err(arbitrary())
        }
    }
}

impl TryFrom<OneBasedU64> for OneBasedUsize {
    type Error = TryFromIntError;

    /// Converts the index. Fails if and only if its 1-based value is more
    /// than `usize::MAX`; an index that converts keeps its value.
    fn try_from(value: OneBasedU64) -> (r: Result<OneBasedUsize, TryFromIntError>)
        ensures
            r is Ok <==> value@ <= usize::MAX,
            r matches Ok(index) ==> index@ == value@,
    {
        match usize::try_from(value.as_one_based().get()) {
            Ok(v) => Ok(OneBasedUsize::from_one_based_unchecked(v)),
            Err(e) => Err(e),
        }
    }
}

/// What converting `OneBasedU64` to `OneBasedUsize` gives.
impl vstd::std_specs::convert::TryFromSpecImpl<OneBasedU64> for OneBasedUsize {
    open spec fn obeys_try_from_spec() -> bool {
        true
    }

    open spec fn try_from_spec(value: OneBasedU64) -> Result<OneBasedUsize, TryFromIntError> {
        if value@ <= usize::MAX {
            Ok(OneBasedUsize::with_one_based(value@))
        } else {
            Err(arbitrary())
        }
    }
}

impl TryFrom<OneBasedU64> for OneBasedU8 {
    type Error = TryFromIntError;

    /// Converts the index. Fails if and only if its 1-based value is more
    /// than `u8::MAX`; an index that converts keeps its value.
    fn try_from(value: OneBasedU64) -> (r: Result<OneBasedU8, TryFromIntError>)
        ensures
            r is Ok <==> value@ <= u8::MAX,
            r matches Ok(index) ==> index@ == value@,
    {
        match u8::try_from(value.as_one_based().get()) {
            Ok(v) => Ok(OneBasedU8::from_one_based_unchecked(v)),
            Err(e) => Err(e),
        }
    }
}

/// What converting `OneBasedU64` to `OneBasedU8` gives.
impl vstd::std_specs::convert::TryFromSpecImpl<OneBasedU64> for OneBasedU8 {
    open spec fn obeys_try_from_spec() -> bool {
        true
    }

    open spec fn try_from_spec(value: OneBasedU64) -> Result<OneBasedU8, TryFromIntError> {
        if value@ <= u8::MAX {
            Ok(OneBasedU8::with_one_based(value@))
        } else {
            Err(arbitrary())
        }
    }
}

impl TryFrom<OneBasedU64> for OneBasedU16 {
    type Error = TryFromIntError;

    /// Converts the index. Fails if and only if its 1-based value is more
    /// than `u16::MAX`; an index that converts keeps its value.
    fn try_from(value: OneBasedU64) -> (r: Result<OneBasedU16, TryFromIntError>)
        ensures
            r is Ok <==> value@ <= u16::MAX,
            r matches Ok(index) ==> index@ == value@,
    {
        match u16::try_from(value.as_one_based().get()) {
            Ok(v) => Ok(OneBasedU16::from_one_based_unchecked(v)),
            Err(e) => Err(e),
        }
    }
}

/// What converting `OneBasedU64` to `OneBasedU16` gives.
impl vstd::std_specs::convert::TryFromSpecImpl<OneBasedU64> for OneBasedU16 {
    open spec fn obeys_try_from_spec() -> bool {
        true
    }

    open spec fn try_from_spec(value: OneBasedU64) -> Result<OneBasedU16, TryFromIntError> {
        if value@ <= u16::MAX {
            Ok(OneBasedU16::with_one_based(value@))
        } else {
            Err(arbitrary())
        }
    }
}

impl TryFrom<OneBasedU64> for OneBasedU32 {
    type Error = TryFromIntError;

    /// Converts the index. Fails if and only if its 1-based value is more
    /// than `u32::MAX`; an index that converts keeps its value.
    fn try_from(value: OneBasedU64) -> (r: Result<OneBasedU32, TryFromIntError>)
        ensures
            r is Ok <==> value@ <= u32::MAX,
            r matches Ok(index) ==> index@ == value@,
    {
        match u32::try_from(value.as_one_based().get()) {
            Ok(v) => Ok(OneBasedU32::from_one_based_unchecked(v)),
            Err(e) => Err(e),
        }
    }
}

/// What converting `OneBasedU64` to `OneBasedU32` gives.
impl vstd::std_specs::convert::TryFromSpecImpl<OneBasedU64> for OneBasedU32 {
    open spec fn obeys_try_from_spec() -> bool {
        true
    }

    open spec fn try_from_spec(value: OneBasedU64) -> Result<OneBasedU32, TryFromIntError> {
        if value@ <= u32::MAX {
            Ok(OneBasedU32::with_one_based(value@))
        } else {
            Err(arbitrary())
        }
    }
}

impl TryFrom<OneBasedU128> for OneBasedUsize {
    type Error = TryFromIntError;

    /// Converts the index. Fails if and only if its 1-based value is more
    /// than `usize::MAX`; an index that converts keeps its value.
    fn try_from(value: OneBasedU128) -> (r: Result<OneBasedUsize, TryFromIntError>)
        ensures
            r is Ok <==> value@ <= usize::MAX,
            r matches Ok(index) ==> index@ == value@,
    {
        match usize::try_from(value.as_one_based().get()) {
            Ok(v) => Ok(OneBasedUsize::from_one_based_unchecked(v)),
            Err(e) => Err(e),
        }
    }
}

/// What converting `OneBasedU128` to `OneBasedUsize` gives.
impl vstd::std_specs::convert::TryFromSpecImpl<OneBasedU128> for OneBasedUsize {
    open spec fn obeys_try_from_spec() -> bool {
        true
    }

    open spec fn try_from_spec(value: OneBasedU128) -> Result<OneBasedUsize, TryFromIntError> {
        if value@ <= usize::MAX {
            Ok(OneBasedUsize::with_one_based(value@))
        } else {
            Err(arbitrary())
        }
    }
}

impl TryFrom<OneBasedU128> for OneBasedU8 {
    type Error = TryFromIntError;

    /// Converts the index. Fails if and only if its 1-based value is more
    /// than `u8::MAX`; an index that converts keeps its value.
    fn try_from(value: OneBasedU128) -> (r: Result<OneBasedU8, TryFromIntError>)
        ensures
            r is Ok <==> value@ <= u8::MAX,
            r matches Ok(index) ==> index@ == value@,
    {
        match u8::try_from(value.as_one_based().get()) {
            Ok(v) => Ok(OneBasedU8::from_one_based_unchecked(v)),
            Err(e) => Err(e),
        }
    }
}

/// What converting `OneBasedU128` to `OneBasedU8` gives.
impl vstd::std_specs::convert::TryFromSpecImpl<OneBasedU128> for OneBasedU8 {
    open spec fn obeys_try_from_spec() -> bool {
        true
    }

    open spec fn try_from_spec(value: OneBasedU128) -> Result<OneBasedU8, TryFromIntError> {
        if value@ <= u8::MAX {
            Ok(OneBasedU8::with_one_based(value@))
        } else {
            Err(arbitrary())
        }
    }
}

impl TryFrom<OneBasedU128> for OneBasedU16 {
    type Error = TryFromIntError;

    /// Converts the index. Fails if and only if its 1-based value is more
    /// than `u16::MAX`; an index that converts keeps its value.
    fn try_from(value: OneBasedU128) -> (r: Result<OneBasedU16, TryFromIntError>)
        ensures
            r is Ok <==> value@ <= u16::MAX,
            r matches Ok(index) ==> index@ == value@,
    {
        match u16::try_from(value.as_one_based().get()) {
            Ok(v) => Ok(OneBasedU16::from_one_based_unchecked(v)),
            Err(e) => Err(e),
        }
    }
}

/// What converting `OneBasedU128` to `OneBasedU16` gives.
impl vstd::std_specs::convert::TryFromSpecImpl<OneBasedU128> for OneBasedU16 {
    open spec fn obeys_try_from_spec() -> bool {
        true
    }

    open spec fn try_from_spec(value: OneBasedU128) -> Result<OneBasedU16, TryFromIntError> {
        if value@ <= u16::MAX {
            Ok(OneBasedU16::with_one_based(value@))
        } else {
            Err(arbitrary())
        }
    }
}

impl TryFrom<OneBasedU128> for OneBasedU32 {
    type Error = TryFromIntError;

    /// Converts the index. Fails if and only if its 1-based value is more
    /// than `u32::MAX`; an index that converts keeps its value.
    fn try_from(value: OneBasedU128) -> (r: Result<OneBasedU32, TryFromIntError>)
        ensures
            r is Ok <==> value@ <= u32::MAX,
            r matches Ok(index) ==> index@ == value@,
    {
        match u32::try_from(value.as_one_based().get()) {
            Ok(v) => Ok(OneBasedU32::from_one_based_unchecked(v)),
            Err(e) => Err(e),
        }
    }
}

/// What converting `OneBasedU128` to `OneBasedU32` gives.
impl vstd::std_specs::convert::TryFromSpecImpl<OneBasedU128> for OneBasedU32 {
    open spec fn obeys_try_from_spec() -> bool {
        true
    }

    open spec fn try_from_spec(value: OneBasedU128) -> Result<OneBasedU32, TryFromIntError> {
        if value@ <= u32::MAX {
            Ok(OneBasedU32::with_one_based(value@))
        } else {
            Err(arbitrary())
        }
    }
}

impl TryFrom<OneBasedU128> for OneBasedU64 {
    type Error = TryFromIntError;

    /// Converts the index. Fails if and only if its 1-based value is more
    /// than `u64::MAX`; an index that converts keeps its value.
    fn try_from(value: OneBasedU128) -> (r: Result<OneBasedU64, TryFromIntError>)
        ensures
            r is Ok <==> value@ <= u64::MAX,
            r matches Ok(index) ==> index@ == value@,
    {
        match u64::try_from(value.as_one_based().get()) {
            Ok(v) => Ok(OneBasedU64::from_one_based_unchecked(v)),
            Err(e) => Err(e),
        }
    }
}

/// What converting `OneBasedU128` to `OneBasedU64` gives.
impl vstd::std_specs::convert::TryFromSpecImpl<OneBasedU128> for OneBasedU64 {
    open spec fn obeys_try_from_spec() -> bool {
        true
    }

    open spec fn try_from_spec(value: OneBasedU128) -> Result<OneBasedU64, TryFromIntError> {
        if value@ <= u64::MAX {
            Ok(OneBasedU64::with_one_based(value@))
        } else {
            Err(arbitrary())
        }
    }
}

impl TryFrom<OneBasedUsize> for OneBasedU8 {
    type Error = TryFromIntError;

    /// Converts the index. Fails if and only if its 1-based value is more
    /// than `u8::MAX`; an index that converts keeps its value.
    fn try_from(value: OneBasedUsize) -> (r: Result<OneBasedU8, TryFromIntError>)
        ensures
            r is Ok <==> value@ <= u8::MAX,
            r matches Ok(index) ==> index@ == value@,
    {
        match u8::try_from(value.as_one_based().get()) {
            Ok(v) => Ok(OneBasedU8::from_one_based_unchecked(v)),
            Err(e) => Err(e),
        }
    }
}

/// What converting `OneBasedUsize` to `OneBasedU8` gives.
impl vstd::std_specs::convert::TryFromSpecImpl<OneBasedUsize> for OneBasedU8 {
    open spec fn obeys_try_from_spec() -> bool {
        true
    }

    open spec fn try_from_spec(value: OneBasedUsize) -> Result<OneBasedU8, TryFromIntError> {
        if value@ <= u8::MAX {
            Ok(OneBasedU8::with_one_based(value@))
        } else {
            Err(arbitrary())
        }
    }
}

impl TryFrom<OneBasedUsize> for OneBasedU16 {
    type Error = TryFromIntError;

    /// Converts the index. Fails if and only if its 1-based value is more
    /// than `u16::MAX`; an index that converts keeps its value.
    fn try_from(value: OneBasedUsize) -> (r: Result<OneBasedU16, TryFromIntError>)
        ensures
            r is Ok <==> value@ <= u16::MAX,
            r matches Ok(index) ==> index@ == value@,
    {
        match u16::try_from(value.as_one_based().get()) {
            Ok(v) => Ok(OneBasedU16::from_one_based_unchecked(v)),
            Err(e) => Err(e),
        }
    }
}

/// What converting `OneBasedUsize` to `OneBasedU16` gives.
impl vstd::std_specs::convert::TryFromSpecImpl<OneBasedUsize> for OneBasedU16 {
    open spec fn obeys_try_from_spec() -> bool {
        true
    }

    open spec fn try_from_spec(value: OneBasedUsize) -> Result<OneBasedU16, TryFromIntError> {
        if value@ <= u16::MAX {
            Ok(OneBasedU16::with_one_based(value@))
        } else {
            Err(arbitrary())
        }
    }
}

impl TryFrom<OneBasedUsize> for OneBasedU32 {
    type Error = TryFromIntError;

    /// Converts the index. Fails if and only if its 1-based value is more
    /// than `u32::MAX`; an index that converts keeps its value.
    fn try_from(value: OneBasedUsize) -> (r: Result<OneBasedU32, TryFromIntError>)
        ensures
            r is Ok <==> value@ <= u32::MAX,
            r matches Ok(index) ==> index@ == value@,
    {
        match u32::try_from(value.as_one_based().get()) {
            Ok(v) => Ok(OneBasedU32::from_one_based_unchecked(v)),
            Err(e) => Err(e),
        }
    }
}

/// What converting `OneBasedUsize` to `OneBasedU32` gives.
impl vstd::std_specs::convert::TryFromSpecImpl<OneBasedUsize> for OneBasedU32 {
    open spec fn obeys_try_from_spec() -> bool {
        true
    }

    open spec fn try_from_spec(value: OneBasedUsize) -> Result<OneBasedU32, TryFromIntError> {
        if value@ <= u32::MAX {
            Ok(OneBasedU32::with_one_based(value@))
        } else {
            Err(arbitrary())
        }
    }
}

impl TryFrom<OneBasedUsize> for OneBasedU64 {
    type Error = TryFromIntError;

    /// Converts the index. Fails if and only if its 1-based value is more
    /// than `u64::MAX`; an index that converts keeps its value.
    fn try_from(value: OneBasedUsize) -> (r: Result<OneBasedU64, TryFromIntError>)
        ensures
            r is Ok <==> value@ <= u64::MAX,
            r matches Ok(index) ==> index@ == value@,
    {
        match u64::try_from(value.as_one_based().get()) {
            Ok(v) => Ok(OneBasedU64::from_one_based_unchecked(v)),
            Err(e) => Err(e),
        }
    }
}

/// What converting `OneBasedUsize` to `OneBasedU64` gives.
impl vstd::std_specs::convert::TryFromSpecImpl<OneBasedUsize> for OneBasedU64 {
    open spec fn obeys_try_from_spec() -> bool {
        true
    }

    open spec fn try_from_spec(value: OneBasedUsize) -> Result<OneBasedU64, TryFromIntError> {
        if value@ <= u64::MAX {
            Ok(OneBasedU64::with_one_based(value@))
        } else {
            Err(arbitrary())
        }
    }
}

impl TryFrom<OneBasedUsize> for OneBasedU128 {
    type Error = TryFromIntError;

    /// Converts the index. Fails if and only if its 1-based value is more
    /// than `u128::MAX`; an index that converts keeps its value.
    fn try_from(value: OneBasedUsize) -> (r: Result<OneBasedU128, TryFromIntError>)
        ensures
            r is Ok <==> value@ <= u128::MAX,
            r matches Ok(index) ==> index@ == value@,
    {
        match u128::try_from(value.as_one_based().get()) {
            Ok(v) => Ok(OneBasedU128::from_one_based_unchecked(v)),
            Err(e) => Err(e),
        }
    }
}

/// What converting `OneBasedUsize` to `OneBasedU128` gives.
impl vstd::std_specs::convert::TryFromSpecImpl<OneBasedUsize> for OneBasedU128 {
    open spec fn obeys_try_from_spec() -> bool {
        true
    }

    open spec fn try_from_spec(value: OneBasedUsize) -> Result<OneBasedU128, TryFromIntError> {
        if value@ <= u128::MAX {
            Ok(OneBasedU128::with_one_based(value@))
        } else {
            Err(arbitrary())
        }
    }
}

} // verus!
