//! Unsigned decimal text: what a run of digits denotes, how a number is
//! written, and how a non-zero number is read from text.

use vstd::prelude::*;
use vstd::string::StringExecFns;
use vstd::string::StrSliceExecFns;
use crate::error::IntErrorKind;

verus! {

/// `c` is one of `'0'` to `'9'`.
pub open spec fn is_digit(c: char) -> bool {
    '0' <= c && c <= '9'
}

/// The number that the digit `c` stands for.
pub open spec fn digit_value(c: char) -> nat
    recommends
        is_digit(c),
{
    (c as int - '0' as int) as nat
}

/// The digit that stands for `d`.
pub open spec fn digit_char(d: nat) -> char
    recommends
        d < 10,
{
    (d + '0' as nat) as char
}

/// Every character of `s` is a digit.
pub open spec fn all_digits(s: Seq<char>) -> bool {
    forall|i: int| 0 <= i < s.len() ==> is_digit(#[trigger] s[i])
}

/// The number that the digits `s` denote, most significant digit first.
/// The empty text denotes zero.
pub open spec fn decimal_value(s: Seq<char>) -> nat
    decreases s.len(),
{
    if s.len() == 0 {
        0
    } else {
        10 * decimal_value(s.drop_last()) + digit_value(s.last())
    }
}

/// The decimal text of `n`: no sign, no separators, no leading zero but for
/// zero itself.
pub open spec fn decimal_text(n: nat) -> Seq<char>
    decreases n,
{
    if n < 10 {
        seq![digit_char(n)]
    } else {
        decimal_text(n / 10).push(digit_char(n % 10))
    }
}

/// `s` is the way a positive number is written: digits only, at least one,
/// the first of them not `'0'`.
pub open spec fn is_canonical(s: Seq<char>) -> bool {
    s.len() > 0 && all_digits(s) && s[0] != '0'
}

/// Some run of leading digits of `s` denotes more than `max`.
pub open spec fn overflows(s: Seq<char>, max: nat) -> bool {
    exists|k: int|
        0 <= k <= s.len() && all_digits(#[trigger] s.take(k)) && decimal_value(s.take(k)) > max
}

/// What reading `s` as a non-zero number of at most `max` gives.
///
/// The text is read from the left, and the first thing wrong with it decides
/// the error: digits that already exceed `max` are reported as an overflow
/// even where a character that is no digit follows them.
pub open spec fn parse_nonzero(s: Seq<char>, max: nat) -> Result<nat, IntErrorKind> {
    if s.len() == 0 {
        Err(IntErrorKind::Empty)
    } else if overflows(s, max) {
        Err(IntErrorKind::PosOverflow)
    } else if !all_digits(s) {
        Err(IntErrorKind::InvalidDigit)
    } else if decimal_value(s) == 0 {
        Err(IntErrorKind::Zero)
    } else {
        Ok(decimal_value(s))
    }
}

/// Reading one more digit multiplies by ten and adds the digit.
pub proof fn lemma_value_step(s: Seq<char>, i: int)
    requires
        0 <= i < s.len(),
    ensures
        decimal_value(s.take(i + 1)) == 10 * decimal_value(s.take(i)) + digit_value(s[i]),
{
    assert(s.take(i + 1).drop_last() =~= s.take(i));
}

/// A longer run of leading characters denotes no less than a shorter one.
pub proof fn lemma_value_monotone(s: Seq<char>, k: int, i: int)
    requires
        0 <= k <= i <= s.len(),
    ensures
        decimal_value(s.take(k)) <= decimal_value(s.take(i)),
    decreases i - k,
{
    if k < i {
        lemma_value_monotone(s, k, i - 1);
        lemma_value_step(s, i - 1);
    }
}

/// Digits that denote at most `max` do not overflow.
pub proof fn lemma_no_overflow(s: Seq<char>, max: nat)
    requires
        decimal_value(s) <= max,
    ensures
        !overflows(s, max),
{
    assert forall|k: int| 0 <= k <= s.len() implies decimal_value(#[trigger] s.take(k)) <= max by {
        lemma_value_monotone(s, k, s.len() as int);
        assert(s.take(s.len() as int) =~= s);
    }
}

/// The decimal text of a number is made of digits, starts with `'0'` only
/// for zero, and denotes the number.
pub proof fn lemma_text_denotes(n: nat)
    ensures
        decimal_text(n).len() > 0,
        all_digits(decimal_text(n)),
        decimal_text(n)[0] == '0' <==> n == 0,
        decimal_value(decimal_text(n)) == n,
    decreases n,
{
    let text = decimal_text(n);
    if n < 10 {
        assert(decimal_value(text.drop_last()) == 0);
    } else {
        lemma_text_denotes(n / 10);
        assert(text.drop_last() =~= decimal_text(n / 10));
        assert(text[0] == decimal_text(n / 10)[0]);
    }
}

/// Canonical text denotes a positive number.
pub proof fn lemma_canonical_is_positive(s: Seq<char>)
    requires
        is_canonical(s),
    ensures
        decimal_value(s) >= 1,
    decreases s.len(),
{
    if s.len() > 1 {
        assert(s.drop_last()[0] == s[0]);
        lemma_canonical_is_positive(s.drop_last());
    }
}

/// Writing the number that canonical text denotes gives the text back.
pub proof fn lemma_text_of_value(s: Seq<char>)
    requires
        is_canonical(s),
    ensures
        decimal_text(decimal_value(s)) == s,
    decreases s.len(),
{
    if s.len() == 1 {
        assert(decimal_value(s.drop_last()) == 0);
    } else {
        let front = s.drop_last();
        assert(front[0] == s[0]);
        lemma_canonical_is_positive(front);
        lemma_text_of_value(front);
        assert(decimal_value(s) / 10 == decimal_value(front));
    }
}

/// Text that parses denotes the number it parses to, holds digits only,
/// and that number is between one and `max`.
pub proof fn lemma_parse_ok(s: Seq<char>, max: nat)
    ensures
        parse_nonzero(s, max) is Ok <==> s.len() > 0 && all_digits(s) && 1 <= decimal_value(s)
            <= max,
        parse_nonzero(s, max) is Ok ==> parse_nonzero(s, max) == Ok::<nat, IntErrorKind>(
            decimal_value(s),
        ),
{
    if decimal_value(s) <= max {
        lemma_no_overflow(s, max);
    } else if all_digits(s) {
        assert(s.take(s.len() as int) =~= s);
    }
}

/// Which error each kind of bad text gives: no text at all is empty; digits
/// that denote zero are zero; digits that denote more than `max` overflow;
/// text that starts with a character that is no digit, a sign among them,
/// holds an invalid digit.
pub proof fn lemma_parse_err(s: Seq<char>, max: nat)
    ensures
        parse_nonzero(s, max) == Err::<nat, IntErrorKind>(IntErrorKind::Empty) <==> s.len() == 0,
        parse_nonzero(s, max) == Err::<nat, IntErrorKind>(IntErrorKind::Zero) <==> s.len() > 0
            && all_digits(s) && decimal_value(s) == 0,
        all_digits(s) ==> (parse_nonzero(s, max) == Err::<nat, IntErrorKind>(
            IntErrorKind::PosOverflow,
        ) <==> decimal_value(s) > max),
        s.len() > 0 && !is_digit(s[0]) ==> parse_nonzero(s, max) == Err::<nat, IntErrorKind>(
            IntErrorKind::InvalidDigit,
        ),
{
    if decimal_value(s) <= max {
        lemma_no_overflow(s, max);
    } else if all_digits(s) {
        assert(s.take(s.len() as int) =~= s);
    }
    if s.len() > 0 && !is_digit(s[0]) {
        assert forall|k: int| 0 < k <= s.len() implies !all_digits(#[trigger] s.take(k)) by {
            assert(s.take(k)[0] == s[0]);
        }
    }
}

/// Reading what was written gives the number back: the text of a number
/// between one and `max` parses to that number.
pub proof fn lemma_parse_of_text(n: nat, max: nat)
    requires
        1 <= n <= max,
    ensures
        parse_nonzero(decimal_text(n), max) == Ok::<nat, IntErrorKind>(n),
{
    lemma_text_denotes(n);
    lemma_parse_ok(decimal_text(n), max);
}

/// Writing what was read gives the text back: canonical text of a number
/// of at most `max` parses, and the text of the parsed number is the text
/// that was read.
pub proof fn lemma_text_of_parse(s: Seq<char>, max: nat)
    requires
        is_canonical(s),
        decimal_value(s) <= max,
    ensures
        parse_nonzero(s, max) == Ok::<nat, IntErrorKind>(decimal_value(s)),
        decimal_text(decimal_value(s)) == s,
{
    lemma_canonical_is_positive(s);
    lemma_parse_ok(s, max);
    lemma_text_of_value(s);
}

/// Reads `s` as a non-zero number of at most `max`.
pub fn parse_decimal(s: &str, max: u128) -> (r: Result<u128, IntErrorKind>)
    ensures
        match r {
            Ok(n) => parse_nonzero(s@, max as nat) == Ok::<nat, IntErrorKind>(n as nat),
            Err(kind) => parse_nonzero(s@, max as nat) == Err::<nat, IntErrorKind>(kind),
        },
        r matches Ok(n) ==> 1 <= n <= max && n == decimal_value(s@),
{
    broadcast use vstd::string::group_string_axioms;

    if s.is_empty() {
        return Err(IntErrorKind::Empty);
    }
    let mut acc: u128 = 0;
    for c in it: s.chars()
        invariant
            it.seq() == s@,
            s@.len() > 0,
            all_digits(s@.take(it.index() as int)),
            acc == decimal_value(s@.take(it.index() as int)),
            acc <= max,
    {
        let ghost i = it.index() as int;
        if c < '0' || c > '9' {
            proof {
                assert forall|k: int|
                    0 <= k <= s@.len() && all_digits(#[trigger] s@.take(k)) implies decimal_value(
                    s@.take(k),
                ) <= max by {
                    if k > i {
                        assert(s@.take(k)[i] == s@[i]);
                    } else {
                        lemma_value_monotone(s@, k, i);
                    }
                }
            }
            return Err(IntErrorKind::InvalidDigit);
        }
        let d: u128 = (c as u32 - '0' as u32) as u128;
        proof {
            lemma_value_step(s@, i);
            assert forall|j: int| 0 <= j < i implies is_digit(#[trigger] s@.take(i + 1)[j]) by {
                assert(s@.take(i + 1)[j] == s@.take(i)[j]);
            }
        }
        let next: Option<u128> = match acc.checked_mul(10) {
            Some(tens) => tens.checked_add(d),
            None => None,
        };
        match next {
            Some(n) if n <= max => {
                acc = n;
            },
            _ => {
                return Err(IntErrorKind::PosOverflow);
            },
        }
    }
    proof {
        assert(s@.take(s@.len() as int) =~= s@);
        lemma_no_overflow(s@, max as nat);
    }
    if acc == 0 {
        Err(IntErrorKind::Zero)
    } else {
        Ok(acc)
    }
}

/// The digit that stands for `d`, as text.
fn digit_str(d: u8) -> (text: &'static str)
    requires
        d < 10,
    ensures
        text@ == seq![digit_char(d as nat)],
{
    let digits = "0123456789";
    proof {
        reveal_strlit("0123456789");
    }
    let from: usize = d as usize;
    let text = digits.substring_ascii(from, from + 1);
    text
}

/// Appends the decimal text of `n` to `out`.
pub fn push_decimal(out: &mut String, n: u128)
    ensures
        final(out)@ == old(out)@ + decimal_text(n as nat),
    decreases n,
{
    if n >= 10 {
        push_decimal(out, n / 10);
    }
    out.append(digit_str((n % 10) as u8));
}

/// Writes `n` as decimal text.
pub fn format_decimal(n: u128) -> (text: String)
    ensures
        text@ == decimal_text(n as nat),
{
    let mut text = String::new();
    push_decimal(&mut text, n);
    text
}

} // verus!
