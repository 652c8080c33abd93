//! The 1-based index held in a `u64`.

use vstd::prelude::*;
use vstd::std_specs::cmp::PartialOrdIs;
use core::cmp::Ordering;
use core::str::FromStr;
use crate::decimal::{
    decimal_text, decimal_value, format_decimal, is_canonical, lemma_parse_of_text,
    lemma_text_of_parse, parse_decimal, parse_nonzero,
};
use crate::error::{OneBasedError, ParseOneBasedError};
use crate::nonzero::NonZeroU64;

verus! {

/// A position counted from one, held in a `u64`.
///
/// The view of an index is its 1-based value, a number from one to
/// `u64::MAX`. It is never zero: every constructor keeps zero out, and nothing
/// changes an index once it is made. The 0-based value is the view less one.
///
/// Two indices are equal, and ordered, as their values are. The text of an
/// index is its 1-based value in decimal digits.
#[derive(Clone, Copy, Debug, PartialEq, Eq, Structural, Ord, Hash)]
pub struct OneBasedU64 {
    raw: NonZeroU64,
}

impl View for OneBasedU64 {
    type V = nat;

    closed spec fn view(&self) -> nat {
        self.raw@
    }
}

impl OneBasedU64 {
    /// The index whose 1-based value is `n`, for `n` from one to `u64::MAX`.
    pub closed spec fn with_one_based(n: nat) -> Self {
        OneBasedU64 { raw: NonZeroU64::with_value(n) }
    }

    /// `with_one_based` makes the index whose view is the number given.
    pub proof fn lemma_with_one_based(n: nat)
        requires
            n <= u64::MAX,
        ensures
            Self::with_one_based(n)@ == n,
    {
        NonZeroU64::lemma_with_value(n);
    }

    /// An index is known by its view, and its view fits in a `u64`.
    pub proof fn lemma_view(self)
        ensures
            self@ <= u64::MAX,
            Self::with_one_based(self@) == self,
    {
        self.raw.lemma_view();
    }

    /// What `from_one_based` returns.
    pub open spec fn spec_from_one_based(v: u64) -> Result<Self, OneBasedError> {
        if v == 0 {
            Err(OneBasedError::ZeroIndex)
        } else {
            Ok(Self::with_one_based(v as nat))
        }
    }

    /// Takes `v` as a 1-based index. Fails with `ZeroIndex` if and only if
    /// `v` is zero.
    #[verifier::when_used_as_spec(spec_from_one_based)]
    pub fn from_one_based(v: u64) -> (r: Result<Self, OneBasedError>)
        ensures
            r == Self::spec_from_one_based(v),
            r matches Ok(index) ==> index@ == v,
    {
        match NonZeroU64::new(v) {
            None => Err(OneBasedError::ZeroIndex),
            Some(raw) => Ok(OneBasedU64 { raw }),
        }
    }

    /// Takes `v` as a 1-based index without testing it.
    ///
    /// `v` must not be zero. Verified callers prove that. For any other
    /// caller this is a way to make an index of zero, which nothing in this
    /// library expects: test `v`, or call `from_one_based`.
    pub fn from_one_based_unchecked(v: u64) -> (index: Self)
        requires
            v != 0,
        ensures
            index == Self::with_one_based(v as nat),
            index@ == v,
    {
        OneBasedU64 { raw: NonZeroU64::new_unchecked(v) }
    }

    /// What `from_one_based_nonzero` returns.
    pub open spec fn spec_from_one_based_nonzero(v: NonZeroU64) -> Self {
        Self::with_one_based(v@)
    }

    /// Takes `v` as a 1-based index. This cannot fail: a number that is not
    /// zero is an index.
    #[verifier::when_used_as_spec(spec_from_one_based_nonzero)]
    pub fn from_one_based_nonzero(v: NonZeroU64) -> (index: Self)
        ensures
            index == Self::spec_from_one_based_nonzero(v),
            index@ == v@,
    {
        proof {
            v.lemma_view();
        }
        OneBasedU64 { raw: v }
    }

    /// What `from_zero_based` returns.
    pub open spec fn spec_from_zero_based(v: u64) -> Result<Self, OneBasedError> {
        if v == u64::MAX {
            Err(OneBasedError::OverflowIndex)
        } else {
            Ok(Self::with_one_based((v + 1) as nat))
        }
    }

    /// Takes `v` as a 0-based index. Fails with `OverflowIndex` if and only
    /// if `v` is `u64::MAX`, whose 1-based value does not fit in a `u64`.
    #[verifier::when_used_as_spec(spec_from_zero_based)]
    pub fn from_zero_based(v: u64) -> (r: Result<Self, OneBasedError>)
        ensures
            r == Self::spec_from_zero_based(v),
            r matches Ok(index) ==> index@ == v + 1,
    {
        if v == u64::MAX {
            return Err(OneBasedError::OverflowIndex);
        }
        Ok(Self::from_one_based_unchecked(v + 1))
    }

    /// Takes `v` as a 0-based index without testing it.
    ///
    /// `v` must not be `u64::MAX`: adding one to it overflows. Verified
    /// callers prove that. Any other caller tests `v`, or calls
    /// `from_zero_based`.
    pub fn from_zero_based_unchecked(v: u64) -> (index: Self)
        requires
            v != u64::MAX,
        ensures
            index == Self::with_one_based((v + 1) as nat),
            index@ == v + 1,
    {
        Self::from_one_based_unchecked(v + 1)
    }

    /// What `as_zero_based` returns.
    pub open spec fn spec_as_zero_based(&self) -> u64 {
        (self@ - 1) as u64
    }

    /// The index counted from zero: one less than its 1-based value.
    #[verifier::when_used_as_spec(spec_as_zero_based)]
    pub fn as_zero_based(&self) -> (v: u64)
        ensures
            v == self.spec_as_zero_based(),
            v == self@ - 1,
    {
        self.raw.get() - 1
    }

    /// What `as_one_based` returns.
    pub open spec fn spec_as_one_based(&self) -> NonZeroU64 {
        NonZeroU64::with_value(self@)
    }

    /// The index counted from one, as the non-zero number it is.
    #[verifier::when_used_as_spec(spec_as_one_based)]
    pub fn as_one_based(&self) -> (v: NonZeroU64)
        ensures
            v == self.spec_as_one_based(),
            v@ == self@,
    {
        proof {
            self.raw.lemma_view();
        }
        self.raw
    }

    /// What parsing the text `s` gives.
    ///
    /// The text is the 1-based value in decimal digits, with no sign. It may
    /// start with zeros.
    pub open spec fn parse(s: Seq<char>) -> Result<Self, ParseOneBasedError> {
        match parse_nonzero(s, u64::MAX as nat) {
            Ok(n) => Ok(Self::with_one_based(n)),
            Err(kind) => Err(ParseOneBasedError { kind }),
        }
    }

    /// The text of the index: its 1-based value in decimal digits.
    pub open spec fn text(&self) -> Seq<char> {
        decimal_text(self@)
    }

    /// Writes the 1-based value in decimal digits.
    pub fn to_string(&self) -> (text: String)
        ensures
            text@ == self.text(),
    {
        format_decimal(self.raw.get() as u128)
    }

    /// An index made from a 1-based value gives, counted from zero, one less.
    pub proof fn lemma_one_based_as_zero_based(v: u64)
        requires
            1 <= v,
        ensures
            Self::from_one_based(v) matches Ok(index) && index.as_zero_based() == v - 1,
    {
        Self::lemma_with_one_based(v as nat);
    }

    /// An index made from a 0-based value gives, counted from one, one more.
    pub proof fn lemma_zero_based_as_one_based(v: u64)
        requires
            v < u64::MAX,
        ensures
            Self::from_zero_based(v) matches Ok(index) && index.as_one_based().get() == v + 1,
    {
        Self::lemma_with_one_based((v + 1) as nat);
        NonZeroU64::lemma_with_value((v + 1) as nat);
    }

    /// Writing what was parsed gives the text back, for canonical text of a
    /// value that fits.
    pub proof fn lemma_parse_then_text(s: Seq<char>)
        requires
            is_canonical(s),
            decimal_value(s) <= u64::MAX,
        ensures
            Self::parse(s) matches Ok(index) && index.text() == s,
    {
        lemma_text_of_parse(s, u64::MAX as nat);
        Self::lemma_with_one_based(decimal_value(s));
    }

    /// Parsing what was written gives the index back.
    pub proof fn lemma_text_then_parse(self)
        requires
            self@ >= 1,
        ensures
            Self::parse(self.text()) == Ok::<Self, ParseOneBasedError>(self),
    {
        self.lemma_view();
        lemma_parse_of_text(self@, u64::MAX as nat);
    }

    /// Indices are ordered, and equal, as their values are, in either
    /// convention.
    pub proof fn lemma_order(self, other: Self)
        requires
            self@ >= 1,
            other@ >= 1,
        ensures
            self.is_lt(&other) <==> self.as_zero_based() < other.as_zero_based(),
            self.is_lt(&other) <==> self.as_one_based().is_lt(&other.as_one_based()),
            self == other <==> self.as_zero_based() == other.as_zero_based(),
            self == other <==> self.as_one_based() == other.as_one_based(),
    {
        self.lemma_view();
        other.lemma_view();
        NonZeroU64::lemma_with_value(self@);
        NonZeroU64::lemma_with_value(other@);
    }
}

impl FromStr for OneBasedU64 {
    type Err = ParseOneBasedError;

    /// Reads an index from its text: the 1-based value in decimal digits.
    /// A sign, or any other character that is no digit, is an invalid digit;
    /// zero is an error of its own kind.
    fn from_str(s: &str) -> (r: Result<Self, ParseOneBasedError>)
        ensures
            r == Self::parse(s@),
            r matches Ok(index) ==> index@ == decimal_value(s@),
    {
        match parse_decimal(s, u64::MAX as u128) {
            Ok(n) => Ok(Self::from_one_based_unchecked(n as u64)),
            Err(kind) => Err(ParseOneBasedError { kind }),
        }
    }
}

impl PartialOrd for OneBasedU64 {
    /// Orders two indices as their values are ordered.
    fn partial_cmp(&self, other: &Self) -> (r: Option<Ordering>)
        ensures
            r == Some(Ordering::Less) <==> self@ < other@,
            r == Some(Ordering::Equal) <==> self@ == other@,
            r == Some(Ordering::Greater) <==> self@ > other@,
    {
        self.raw.partial_cmp(&other.raw)
    }
}

/// What `<`, `<=`, `>` and `>=` mean between two indices.
impl vstd::std_specs::cmp::PartialOrdSpecImpl for OneBasedU64 {
    open spec fn obeys_partial_cmp_spec() -> bool {
        true
    }

    open spec fn partial_cmp_spec(&self, other: &Self) -> Option<Ordering> {
        if self@ < other@ {
            Some(Ordering::Less)
        } else if self@ > other@ {
            Some(Ordering::Greater)
        } else {
            Some(Ordering::Equal)
        }
    }
}

} // verus!
