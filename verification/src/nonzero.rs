//! Integers that are never zero.
//!
//! A 1-based index is such a number. Each type here holds one unsigned
//! integer and keeps zero out: `new` tests for it, and `new_unchecked` leaves
//! the test to a caller that has proved it.

use vstd::prelude::*;
use core::cmp::Ordering;

verus! {

/// A `u8` that is never zero.
///
/// Its view is the number it holds, from one to `u8::MAX`.
#[derive(Clone, Copy, Debug, PartialEq, Eq, Structural, Ord, Hash)]
pub struct NonZeroU8 {
    value: u8,
}

impl View for NonZeroU8 {
    type V = nat;

    closed spec fn view(&self) -> nat {
        self.value as nat
    }
}

impl NonZeroU8 {
    #[verifier::type_invariant]
    spec fn is_nonzero(self) -> bool {
        self.value != 0
    }

    /// The value whose number is `n`, for `n` from one to `u8::MAX`.
    pub closed spec fn with_value(n: nat) -> Self {
        NonZeroU8 { value: n as u8 }
    }

    /// `with_value` makes the value whose view is the number given.
    pub proof fn lemma_with_value(n: nat)
        requires
            n <= u8::MAX,
        ensures
            Self::with_value(n)@ == n,
    {
    }

    /// A value is known by its view, and its view fits in a `u8`.
    pub proof fn lemma_view(self)
        ensures
            self@ <= u8::MAX,
            Self::with_value(self@) == self,
    {
    }

    /// What `new` returns.
    pub open spec fn spec_new(n: u8) -> Option<Self> {
        if n == 0 {
            None
        } else {
            Some(Self::with_value(n as nat))
        }
    }

    /// Takes `n` if it is not zero: `None` if and only if `n` is zero.
    #[verifier::when_used_as_spec(spec_new)]
    pub fn new(n: u8) -> (r: Option<Self>)
        ensures
            r == Self::spec_new(n),
            r matches Some(x) ==> x@ == n,
    {
        if n == 0 {
            None
        } else {
            Some(NonZeroU8 { value: n })
        }
    }

    /// Takes `n` without testing it.
    ///
    /// `n` must not be zero. Verified callers prove that; any other caller
    /// tests `n`, or calls `new`.
    pub fn new_unchecked(n: u8) -> (r: Self)
        requires
            n != 0,
        ensures
            r == Self::with_value(n as nat),
            r@ == n,
    {
        NonZeroU8 { value: n }
    }

    /// What `get` returns.
    pub open spec fn spec_get(self) -> u8 {
        self@ as u8
    }

    /// The value as a plain `u8`.
    #[verifier::when_used_as_spec(spec_get)]
    pub fn get(self) -> (n: u8)
        ensures
            n == self.spec_get(),
            n == self@,
            n != 0,
    {
        proof {
            use_type_invariant(&self);
        }
        self.value
    }
}

impl PartialOrd for NonZeroU8 {
    /// Orders two values as their numbers are ordered.
    fn partial_cmp(&self, other: &Self) -> (r: Option<Ordering>)
        ensures
            r == Some(Ordering::Less) <==> self@ < other@,
            r == Some(Ordering::Equal) <==> self@ == other@,
            r == Some(Ordering::Greater) <==> self@ > other@,
    {
        if self.value < other.value {
            Some(Ordering::Less)
        } else if self.value > other.value {
            Some(Ordering::Greater)
        } else {
            Some(Ordering::Equal)
        }
    }
}

/// What `<`, `<=`, `>` and `>=` mean between two values.
impl vstd::std_specs::cmp::PartialOrdSpecImpl for NonZeroU8 {
    open spec fn obeys_partial_cmp_spec() -> bool {
        true
    }

    open spec fn partial_cmp_spec(&self, other: &Self) -> Option<Ordering> {
        if self@ < other@ {
            Some(Ordering::Less)
        } else if self@ > other@ {
            Some(Ordering::Greater)
        } else {
            Some(Ordering::Equal)
        }
    }
}

/// A `u16` that is never zero.
///
/// Its view is the number it holds, from one to `u16::MAX`.
#[derive(Clone, Copy, Debug, PartialEq, Eq, Structural, Ord, Hash)]
pub struct NonZeroU16 {
    value: u16,
}

impl View for NonZeroU16 {
    type V = nat;

    closed spec fn view(&self) -> nat {
        self.value as nat
    }
}

impl NonZeroU16 {
    #[verifier::type_invariant]
    spec fn is_nonzero(self) -> bool {
        self.value != 0
    }

    /// The value whose number is `n`, for `n` from one to `u16::MAX`.
    pub closed spec fn with_value(n: nat) -> Self {
        NonZeroU16 { value: n as u16 }
    }

    /// `with_value` makes the value whose view is the number given.
    pub proof fn lemma_with_value(n: nat)
        requires
            n <= u16::MAX,
        ensures
            Self::with_value(n)@ == n,
    {
    }

    /// A value is known by its view, and its view fits in a `u16`.
    pub proof fn lemma_view(self)
        ensures
            self@ <= u16::MAX,
            Self::with_value(self@) == self,
    {
    }

    /// What `new` returns.
    pub open spec fn spec_new(n: u16) -> Option<Self> {
        if n == 0 {
            None
        } else {
            Some(Self::with_value(n as nat))
        }
    }

    /// Takes `n` if it is not zero: `None` if and only if `n` is zero.
    #[verifier::when_used_as_spec(spec_new)]
    pub fn new(n: u16) -> (r: Option<Self>)
        ensures
            r == Self::spec_new(n),
            r matches Some(x) ==> x@ == n,
    {
        if n == 0 {
            None
        } else {
            Some(NonZeroU16 { value: n })
        }
    }

    /// Takes `n` without testing it.
    ///
    /// `n` must not be zero. Verified callers prove that; any other caller
    /// tests `n`, or calls `new`.
    pub fn new_unchecked(n: u16) -> (r: Self)
        requires
            n != 0,
        ensures
            r == Self::with_value(n as nat),
            r@ == n,
    {
        NonZeroU16 { value: n }
    }

    /// What `get` returns.
    pub open spec fn spec_get(self) -> u16 {
        self@ as u16
    }

    /// The value as a plain `u16`.
    #[verifier::when_used_as_spec(spec_get)]
    pub fn get(self) -> (n: u16)
        ensures
            n == self.spec_get(),
            n == self@,
            n != 0,
    {
        proof {
            use_type_invariant(&self);
        }
        self.value
    }
}

impl PartialOrd for NonZeroU16 {
    /// Orders two values as their numbers are ordered.
    fn partial_cmp(&self, other: &Self) -> (r: Option<Ordering>)
        ensures
            r == Some(Ordering::Less) <==> self@ < other@,
            r == Some(Ordering::Equal) <==> self@ == other@,
            r == Some(Ordering::Greater) <==> self@ > other@,
    {
        if self.value < other.value {
            Some(Ordering::Less)
        } else if self.value > other.value {
            Some(Ordering::Greater)
        } else {
            Some(Ordering::Equal)
        }
    }
}

/// What `<`, `<=`, `>` and `>=` mean between two values.
impl vstd::std_specs::cmp::PartialOrdSpecImpl for NonZeroU16 {
    open spec fn obeys_partial_cmp_spec() -> bool {
        true
    }

    open spec fn partial_cmp_spec(&self, other: &Self) -> Option<Ordering> {
        if self@ < other@ {
            Some(Ordering::Less)
        } else if self@ > other@ {
            Some(Ordering::Greater)
        } else {
            Some(Ordering::Equal)
        }
    }
}

/// A `u32` that is never zero.
///
/// Its view is the number it holds, from one to `u32::MAX`.
#[derive(Clone, Copy, Debug, PartialEq, Eq, Structural, Ord, Hash)]
pub struct NonZeroU32 {
    value: u32,
}

impl View for NonZeroU32 {
    type V = nat;

    closed spec fn view(&self) -> nat {
        self.value as nat
    }
}

impl NonZeroU32 {
    #[verifier::type_invariant]
    spec fn is_nonzero(self) -> bool {
        self.value != 0
    }

    /// The value whose number is `n`, for `n` from one to `u32::MAX`.
    pub closed spec fn with_value(n: nat) -> Self {
        NonZeroU32 { value: n as u32 }
    }

    /// `with_value` makes the value whose view is the number given.
    pub proof fn lemma_with_value(n: nat)
        requires
            n <= u32::MAX,
        ensures
            Self::with_value(n)@ == n,
    {
    }

    /// A value is known by its view, and its view fits in a `u32`.
    pub proof fn lemma_view(self)
        ensures
            self@ <= u32::MAX,
            Self::with_value(self@) == self,
    {
    }

    /// What `new` returns.
    pub open spec fn spec_new(n: u32) -> Option<Self> {
        if n == 0 {
            None
        } else {
            Some(Self::with_value(n as nat))
        }
    }

    /// Takes `n` if it is not zero: `None` if and only if `n` is zero.
    #[verifier::when_used_as_spec(spec_new)]
    pub fn new(n: u32) -> (r: Option<Self>)
        ensures
            r == Self::spec_new(n),
            r matches Some(x) ==> x@ == n,
    {
        if n == 0 {
            None
        } else {
            Some(NonZeroU32 { value: n })
        }
    }

    /// Takes `n` without testing it.
    ///
    /// `n` must not be zero. Verified callers prove that; any other caller
    /// tests `n`, or calls `new`.
    pub fn new_unchecked(n: u32) -> (r: Self)
        requires
            n != 0,
        ensures
            r == Self::with_value(n as nat),
            r@ == n,
    {
        NonZeroU32 { value: n }
    }

    /// What `get` returns.
    pub open spec fn spec_get(self) -> u32 {
        self@ as u32
    }

    /// The value as a plain `u32`.
    #[verifier::when_used_as_spec(spec_get)]
    pub fn get(self) -> (n: u32)
        ensures
            n == self.spec_get(),
            n == self@,
            n != 0,
    {
        proof {
            use_type_invariant(&self);
        }
        self.value
    }
}

impl PartialOrd for NonZeroU32 {
    /// Orders two values as their numbers are ordered.
    fn partial_cmp(&self, other: &Self) -> (r: Option<Ordering>)
        ensures
            r == Some(Ordering::Less) <==> self@ < other@,
            r == Some(Ordering::Equal) <==> self@ == other@,
            r == Some(Ordering::Greater) <==> self@ > other@,
    {
        if self.value < other.value {
            Some(Ordering::Less)
        } else if self.value > other.value {
            Some(Ordering::Greater)
        } else {
            Some(Ordering::Equal)
        }
    }
}

/// What `<`, `<=`, `>` and `>=` mean between two values.
impl vstd::std_specs::cmp::PartialOrdSpecImpl for NonZeroU32 {
    open spec fn obeys_partial_cmp_spec() -> bool {
        true
    }

    open spec fn partial_cmp_spec(&self, other: &Self) -> Option<Ordering> {
        if self@ < other@ {
            Some(Ordering::Less)
        } else if self@ > other@ {
            Some(Ordering::Greater)
        } else {
            Some(Ordering::Equal)
        }
    }
}

/// A `u64` that is never zero.
///
/// Its view is the number it holds, from one to `u64::MAX`.
#[derive(Clone, Copy, Debug, PartialEq, Eq, Structural, Ord, Hash)]
pub struct NonZeroU64 {
    value: u64,
}

impl View for NonZeroU64 {
    type V = nat;

    closed spec fn view(&self) -> nat {
        self.value as nat
    }
}

impl NonZeroU64 {
    #[verifier::type_invariant]
    spec fn is_nonzero(self) -> bool {
        self.value != 0
    }

    /// The value whose number is `n`, for `n` from one to `u64::MAX`.
    pub closed spec fn with_value(n: nat) -> Self {
        NonZeroU64 { value: n as u64 }
    }

    /// `with_value` makes the value whose view is the number given.
    pub proof fn lemma_with_value(n: nat)
        requires
            n <= u64::MAX,
        ensures
            Self::with_value(n)@ == n,
    {
    }

    /// A value is known by its view, and its view fits in a `u64`.
    pub proof fn lemma_view(self)
        ensures
            self@ <= u64::MAX,
            Self::with_value(self@) == self,
    {
    }

    /// What `new` returns.
    pub open spec fn spec_new(n: u64) -> Option<Self> {
        if n == 0 {
            None
        } else {
            Some(Self::with_value(n as nat))
        }
    }

    /// Takes `n` if it is not zero: `None` if and only if `n` is zero.
    #[verifier::when_used_as_spec(spec_new)]
    pub fn new(n: u64) -> (r: Option<Self>)
        ensures
            r == Self::spec_new(n),
            r matches Some(x) ==> x@ == n,
    {
        if n == 0 {
            None
        } else {
            Some(NonZeroU64 { value: n })
        }
    }

    /// Takes `n` without testing it.
    ///
    /// `n` must not be zero. Verified callers prove that; any other caller
    /// tests `n`, or calls `new`.
    pub fn new_unchecked(n: u64) -> (r: Self)
        requires
            n != 0,
        ensures
            r == Self::with_value(n as nat),
            r@ == n,
    {
        NonZeroU64 { value: n }
    }

    /// What `get` returns.
    pub open spec fn spec_get(self) -> u64 {
        self@ as u64
    }

    /// The value as a plain `u64`.
    #[verifier::when_used_as_spec(spec_get)]
    pub fn get(self) -> (n: u64)
        ensures
            n == self.spec_get(),
            n == self@,
            n != 0,
    {
        proof {
            use_type_invariant(&self);
        }
        self.value
    }
}

impl PartialOrd for NonZeroU64 {
    /// Orders two values as their numbers are ordered.
    fn partial_cmp(&self, other: &Self) -> (r: Option<Ordering>)
        ensures
            r == Some(Ordering::Less) <==> self@ < other@,
            r == Some(Ordering::Equal) <==> self@ == other@,
            r == Some(Ordering::Greater) <==> self@ > other@,
    {
        if self.value < other.value {
            Some(Ordering::Less)
        } else if self.value > other.value {
            Some(Ordering::Greater)
        } else {
            Some(Ordering::Equal)
        }
    }
}

/// What `<`, `<=`, `>` and `>=` mean between two values.
impl vstd::std_specs::cmp::PartialOrdSpecImpl for NonZeroU64 {
    open spec fn obeys_partial_cmp_spec() -> bool {
        true
    }

    open spec fn partial_cmp_spec(&self, other: &Self) -> Option<Ordering> {
        if self@ < other@ {
            Some(Ordering::Less)
        } else if self@ > other@ {
            Some(Ordering::Greater)
        } else {
            Some(Ordering::Equal)
        }
    }
}

/// A `u128` that is never zero.
///
/// Its view is the number it holds, from one to `u128::MAX`.
#[derive(Clone, Copy, Debug, PartialEq, Eq, Structural, Ord, Hash)]
pub struct NonZeroU128 {
    value: u128,
}

impl View for NonZeroU128 {
    type V = nat;

    closed spec fn view(&self) -> nat {
        self.value as nat
    }
}

impl NonZeroU128 {
    #[verifier::type_invariant]
    spec fn is_nonzero(self) -> bool {
        self.value != 0
    }

    /// The value whose number is `n`, for `n` from one to `u128::MAX`.
    pub closed spec fn with_value(n: nat) -> Self {
        NonZeroU128 { value: n as u128 }
    }

    /// `with_value` makes the value whose view is the number given.
    pub proof fn lemma_with_value(n: nat)
        requires
            n <= u128::MAX,
        ensures
            Self::with_value(n)@ == n,
    {
    }

    /// A value is known by its view, and its view fits in a `u128`.
    pub proof fn lemma_view(self)
        ensures
            self@ <= u128::MAX,
            Self::with_value(self@) == self,
    {
    }

    /// What `new` returns.
    pub open spec fn spec_new(n: u128) -> Option<Self> {
        if n == 0 {
            None
        } else {
            Some(Self::with_value(n as nat))
        }
    }

    /// Takes `n` if it is not zero: `None` if and only if `n` is zero.
    #[verifier::when_used_as_spec(spec_new)]
    pub fn new(n: u128) -> (r: Option<Self>)
        ensures
            r == Self::spec_new(n),
            r matches Some(x) ==> x@ == n,
    {
        if n == 0 {
            None
        } else {
            Some(NonZeroU128 { value: n })
        }
    }

    /// Takes `n` without testing it.
    ///
    /// `n` must not be zero. Verified callers prove that; any other caller
    /// tests `n`, or calls `new`.
    pub fn new_unchecked(n: u128) -> (r: Self)
        requires
            n != 0,
        ensures
            r == Self::with_value(n as nat),
            r@ == n,
    {
        NonZeroU128 { value: n }
    }

    /// What `get` returns.
    pub open spec fn spec_get(self) -> u128 {
        self@ as u128
    }

    /// The value as a plain `u128`.
    #[verifier::when_used_as_spec(spec_get)]
    pub fn get(self) -> (n: u128)
        ensures
            n == self.spec_get(),
            n == self@,
            n != 0,
    {
        proof {
            use_type_invariant(&self);
        }
        self.value
    }
}

impl PartialOrd for NonZeroU128 {
    /// Orders two values as their numbers are ordered.
    fn partial_cmp(&self, other: &Self) -> (r: Option<Ordering>)
        ensures
            r == Some(Ordering::Less) <==> self@ < other@,
            r == Some(Ordering::Equal) <==> self@ == other@,
            r == Some(Ordering::Greater) <==> self@ > other@,
    {
        if self.value < other.value {
            Some(Ordering::Less)
        } else if self.value > other.value {
            Some(Ordering::Greater)
        } else {
            Some(Ordering::Equal)
        }
    }
}

/// What `<`, `<=`, `>` and `>=` mean between two values.
impl vstd::std_specs::cmp::PartialOrdSpecImpl for NonZeroU128 {
    open spec fn obeys_partial_cmp_spec() -> bool {
        true
    }

    open spec fn partial_cmp_spec(&self, other: &Self) -> Option<Ordering> {
        if self@ < other@ {
            Some(Ordering::Less)
        } else if self@ > other@ {
            Some(Ordering::Greater)
        } else {
            Some(Ordering::Equal)
        }
    }
}

/// A `usize` that is never zero.
///
/// Its view is the number it holds, from one to `usize::MAX`.
#[derive(Clone, Copy, Debug, PartialEq, Eq, Structural, Ord, Hash)]
pub struct NonZeroUsize {
    value: usize,
}

impl View for NonZeroUsize {
    type V = nat;

    closed spec fn view(&self) -> nat {
        self.value as nat
    }
}

impl NonZeroUsize {
    #[verifier::type_invariant]
    spec fn is_nonzero(self) -> bool {
        self.value != 0
    }

    /// The value whose number is `n`, for `n` from one to `usize::MAX`.
    pub closed spec fn with_value(n: nat) -> Self {
        NonZeroUsize { value: n as usize }
    }

    /// `with_value` makes the value whose view is the number given.
    pub proof fn lemma_with_value(n: nat)
        requires
            n <= usize::MAX,
        ensures
            Self::with_value(n)@ == n,
    {
    }

    /// A value is known by its view, and its view fits in a `usize`.
    pub proof fn lemma_view(self)
        ensures
            self@ <= usize::MAX,
            Self::with_value(self@) == self,
    {
    }

    /// What `new` returns.
    pub open spec fn spec_new(n: usize) -> Option<Self> {
        if n == 0 {
            None
        } else {
            Some(Self::with_value(n as nat))
        }
    }

    /// Takes `n` if it is not zero: `None` if and only if `n` is zero.
    #[verifier::when_used_as_spec(spec_new)]
    pub fn new(n: usize) -> (r: Option<Self>)
        ensures
            r == Self::spec_new(n),
            r matches Some(x) ==> x@ == n,
    {
        if n == 0 {
            None
        } else {
            Some(NonZeroUsize { value: n })
        }
    }

    /// Takes `n` without testing it.
    ///
    /// `n` must not be zero. Verified callers prove that; any other caller
    /// tests `n`, or calls `new`.
    pub fn new_unchecked(n: usize) -> (r: Self)
        requires
            n != 0,
        ensures
            r == Self::with_value(n as nat),
            r@ == n,
    {
        NonZeroUsize { value: n }
    }

    /// What `get` returns.
    pub open spec fn spec_get(self) -> usize {
        self@ as usize
    }

    /// The value as a plain `usize`.
    #[verifier::when_used_as_spec(spec_get)]
    pub fn get(self) -> (n: usize)
        ensures
            n == self.spec_get(),
            n == self@,
            n != 0,
    {
        proof {
            use_type_invariant(&self);
        }
        self.value
    }
}

impl PartialOrd for NonZeroUsize {
    /// Orders two values as their numbers are ordered.
    fn partial_cmp(&self, other: &Self) -> (r: Option<Ordering>)
        ensures
            r == Some(Ordering::Less) <==> self@ < other@,
            r == Some(Ordering::Equal) <==> self@ == other@,
            r == Some(Ordering::Greater) <==> self@ > other@,
    {
        if self.value < other.value {
            Some(Ordering::Less)
        } else if self.value > other.value {
            Some(Ordering::Greater)
        } else {
            Some(Ordering::Equal)
        }
    }
}

/// What `<`, `<=`, `>` and `>=` mean between two values.
impl vstd::std_specs::cmp::PartialOrdSpecImpl for NonZeroUsize {
    open spec fn obeys_partial_cmp_spec() -> bool {
        true
    }

    open spec fn partial_cmp_spec(&self, other: &Self) -> Option<Ordering> {
        if self@ < other@ {
            Some(Ordering::Less)
        } else if self@ > other@ {
            Some(Ordering::Greater)
        } else {
            Some(Ordering::Equal)
        }
    }
}

} // verus!
