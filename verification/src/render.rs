//! Decimal text rendering for the numeric values that appear in the
//! exposition format: integers, and exact rationals (used for fixed-point
//! quantities and derived bucket bounds).
//!
//! A rational `num / den` is rendered as an optional sign, the integer
//! part in decimal, and, when the remainder is non-zero, a point followed
//! by the digits of the decimal expansion, truncated after `FRAC_FUEL`
//! digits (the expansion of every value whose reduced denominator divides
//! a power of ten ends before that).

use vstd::prelude::*;

verus! {

/// Greatest number of digits emitted after the decimal point.
pub const FRAC_FUEL: usize = 18;

/// The decimal digit character for `d` in `0 ..= 9` (`'9'` past that).
pub open spec fn digit_char(d: int) -> char {
    if d == 0 {
        '0'
    } else if d == 1 {
        '1'
    } else if d == 2 {
        '2'
    } else if d == 3 {
        '3'
    } else if d == 4 {
        '4'
    } else if d == 5 {
        '5'
    } else if d == 6 {
        '6'
    } else if d == 7 {
        '7'
    } else if d == 8 {
        '8'
    } else {
        '9'
    }
}

/// Decimal text of a natural number, most significant digit first.
pub open spec fn spec_uint_str(n: nat) -> Seq<char>
    decreases n,
{
    if n < 10 {
        seq![digit_char(n as int)]
    } else {
        spec_uint_str(n / 10) + seq![digit_char((n % 10) as int)]
    }
}

/// Decimal text of an integer: a minus sign for negative values.
pub open spec fn spec_int_str(n: int) -> Seq<char> {
    if n < 0 {
        seq!['-'] + spec_uint_str((-n) as nat)
    } else {
        spec_uint_str(n as nat)
    }
}

/// Digits of the decimal expansion of `rem / den` (for `rem < den`),
/// ending at the first zero remainder or after `fuel` digits.
pub open spec fn spec_frac_str(rem: nat, den: nat, fuel: nat) -> Seq<char>
    decreases fuel,
{
    if rem == 0 || fuel == 0 || den == 0 {
        Seq::empty()
    } else {
        seq![digit_char(((rem as int) * 10) / (den as int))] + spec_frac_str(
            (((rem as int) * 10) % (den as int)) as nat,
            den,
            (fuel - 1) as nat,
        )
    }
}

/// Decimal text of the non-negative rational `a / den`: the integer part,
/// then a point and the fraction digits when the division is not exact.
pub open spec fn spec_pos_ratio_str(a: nat, den: nat) -> Seq<char> {
    if a % den == 0 {
        spec_uint_str(a / den)
    } else {
        spec_uint_str(a / den) + seq!['.'] + spec_frac_str(a % den, den, FRAC_FUEL as nat)
    }
}

/// Decimal text of the rational `num / den`, signed.
pub open spec fn spec_ratio_str(num: int, den: nat) -> Seq<char> {
    if num < 0 {
        seq!['-'] + spec_pos_ratio_str((-num) as nat, den)
    } else {
        spec_pos_ratio_str(num as nat, den)
    }
}

/// Relies on `String::push`: appends exactly the one given character.
#[verifier::external_body]
pub fn push_char(out: &mut String, c: char)
    ensures
        final(out)@ == old(out)@ + seq![c],
{
    out.push(c);
}

/// The character for one decimal digit.
pub fn digit_to_char(d: u8) -> (c: char)
    requires
        d < 10,
    ensures
        c == digit_char(d as int),
{
    if d == 0 {
        '0'
    } else if d == 1 {
        '1'
    } else if d == 2 {
        '2'
    } else if d == 3 {
        '3'
    } else if d == 4 {
        '4'
    } else if d == 5 {
        '5'
    } else if d == 6 {
        '6'
    } else if d == 7 {
        '7'
    } else if d == 8 {
        '8'
    } else {
        '9'
    }
}

/// Appends the decimal text of `n`.
pub fn append_uint(out: &mut String, n: u128)
    ensures
        final(out)@ == old(out)@ + spec_uint_str(n as nat),
    decreases n,
{
    if n < 10 {
        push_char(out, digit_to_char(n as u8));
    } else {
        append_uint(out, n / 10);
        push_char(out, digit_to_char((n % 10) as u8));
        assert(old(out)@ + spec_uint_str((n / 10) as nat) + seq![
            digit_char((n % 10) as int),
        ] =~= old(out)@ + spec_uint_str(n as nat));
    }
}

/// Appends the fraction digits of `rem / den`.
pub fn append_frac(out: &mut String, rem: u128, den: u128, fuel: usize)
    requires
        0 < den <= u128::MAX / 10,
        rem < den,
    ensures
        final(out)@ == old(out)@ + spec_frac_str(rem as nat, den as nat, fuel as nat),
    decreases fuel,
{
    if rem == 0 || fuel == 0 {
    } else {
        assert(rem * 10 <= u128::MAX) by (nonlinear_arith)
            requires
                rem < den && den <= u128::MAX / 10,
        ;
        let scaled: u128 = rem * 10;
        assert(scaled / den < 10) by (nonlinear_arith)
            requires
                scaled == rem * 10 && rem < den && den > 0,
        ;
        push_char(out, digit_to_char((scaled / den) as u8));
        append_frac(out, scaled % den, den, fuel - 1);
        assert(old(out)@ + seq![digit_char((scaled / den) as int)] + spec_frac_str(
            (scaled % den) as nat,
            den as nat,
            (fuel - 1) as nat,
        ) =~= old(out)@ + spec_frac_str(rem as nat, den as nat, fuel as nat));
    }
}

/// Appends the decimal text of the rational `num / den`.
pub fn append_ratio(out: &mut String, num: i128, den: u128)
    requires
        0 < den <= u128::MAX / 10,
        num > i128::MIN,
    ensures
        final(out)@ == old(out)@ + spec_ratio_str(num as int, den as nat),
{
    let a: u128 = if num < 0 {
        push_char(out, '-');
        (-num) as u128
    } else {
        num as u128
    };
    let q: u128 = a / den;
    let r: u128 = a % den;
    append_uint(out, q);
    if r != 0 {
        push_char(out, '.');
        append_frac(out, r, den, FRAC_FUEL);
    }
    assert(final(out)@ =~= old(out)@ + spec_ratio_str(num as int, den as nat));
}

/// Appends the decimal text of the integer `v`.
pub fn append_int(out: &mut String, v: i64)
    ensures
        final(out)@ == old(out)@ + spec_int_str(v as int),
{
    if v < 0 {
        push_char(out, '-');
        let mag: u128 = (-(v as i128)) as u128;
        append_uint(out, mag);
        assert(final(out)@ =~= old(out)@ + spec_int_str(v as int));
    } else {
        append_uint(out, v as u128);
    }
}

} // verus!
