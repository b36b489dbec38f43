//! Whole numbers in larger units, rounded as numbers in double precision are.

use crate::text::{decimal, digit, push_decimal, push_two_digits, two_digits};
use crate::text_laws::{all_digits, law_decimal_reads_back, law_two_digits_read_back, reading};
use vstd::arithmetic::div_mod::{
    lemma_fundamental_div_mod, lemma_fundamental_div_mod_converse, lemma_mod_bound,
};
use vstd::prelude::*;
use vstd::string::*;

verus! {

/// A gigabyte, in bytes.
pub const GIGABYTE: u64 = 1_073_741_824;

/// Up to here every whole number is a double.
pub const EXACT_DOUBLES: u64 = 9_007_199_254_740_992;

/// A quotient, rounded to the nearest whole number; halfway, to the even one.
pub open spec fn half_even(n: nat, d: nat) -> nat
    recommends
        d > 0,
{
    if 2 * (n % d) > d || (2 * (n % d) == d && (n / d) % 2 == 1) {
        n / d + 1
    } else {
        n / d
    }
}

/// How far apart the doubles around a whole number are: by one as long as every whole number is
/// one, and by twice as much from each further power of two on.
pub open spec fn spacing(n: nat) -> nat
    decreases n,
{
    if n < EXACT_DOUBLES {
        1
    } else {
        2 * spacing(n / 2)
    }
}

/// The double nearest to a whole number.
pub open spec fn nearest_double(n: nat) -> nat {
    half_even(n, spacing(n)) * spacing(n)
}

/// Bytes in hundredths of a gigabyte.
pub open spec fn hundredths(bytes: u64) -> nat {
    half_even(nearest_double(bytes as nat) * 100, GIGABYTE as nat)
}

/// Bytes in tenths of a gigabyte.
pub open spec fn tenths(bytes: u64) -> nat {
    half_even(nearest_double(bytes as nat) * 10, GIGABYTE as nat)
}

/// Bytes in gigabytes, with two decimals.
pub open spec fn with_hundredths(bytes: u64) -> Seq<char> {
    decimal(hundredths(bytes) / 100) + "."@ + two_digits(hundredths(bytes) % 100)
}

/// Bytes in gigabytes, with one decimal.
pub open spec fn with_tenths(bytes: u64) -> Seq<char> {
    decimal(tenths(bytes) / 10) + "."@ + seq![digit(tenths(bytes) % 10)]
}

/// Whether a part, as a double, is more than half of a whole; nothing is more than half of
/// nothing.
pub open spec fn over_half(part: u64, whole: u64) -> bool {
    whole > 0 && 2 * nearest_double(part as nat) > nearest_double(whole as nat)
}

/// A quotient, rounded to the nearest whole number; halfway, to the even one.
pub fn round_half_even(n: u128, d: u128) -> (rounded: u128)
    requires
        0 < d,
        n < u128::MAX,
    ensures
        rounded == half_even(n as nat, d as nat),
{
    let quotient: u128 = n / d;
    let rest: u128 = n % d;
    proof {
        lemma_fundamental_div_mod(n as int, d as int);
        assert(quotient <= n) by (nonlinear_arith)
            requires
                n == d * quotient + rest,
                d > 0,
        ;
    }
    if rest > d - rest || rest == d - rest && quotient % 2 == 1 {
        quotient + 1
    } else {
        quotient
    }
}

/// How far apart the doubles around a whole number are.
fn find_spacing(n: u64) -> (step: u64)
    ensures
        step == spacing(n as nat),
        step == 1 || step * 4_503_599_627_370_496 <= n,
        step > 0,
    decreases n,
{
    if n < EXACT_DOUBLES {
        1
    } else {
        2 * find_spacing(n / 2)
    }
}

/// The double nearest to a whole number.
pub fn to_double(n: u64) -> (double: u128)
    ensures
        double == nearest_double(n as nat),
        double <= n + 4096,
{
    let step: u64 = find_spacing(n);
    let count: u128 = round_half_even(n as u128, step as u128);
    proof {
        law_rounding_is_to_the_nearest(n as nat, step as nat);
        assert(count * step <= n + 4096) by (nonlinear_arith)
            requires
                2 * (count * step - n) <= step,
                step == 1 || step * 4_503_599_627_370_496 <= n,
                n <= u64::MAX,
        ;
    }
    count * step as u128
}

/// Bytes in gigabytes, with two decimals.
pub fn format_with_hundredths(bytes: u64) -> (text: String)
    ensures
        text@ == with_hundredths(bytes),
{
    let count: u128 = round_half_even(to_double(bytes) * 100, GIGABYTE as u128);
    let count: u64 = count as u64;
    let mut text = String::new();
    push_decimal(&mut text, count / 100);
    text.append(".");
    push_two_digits(&mut text, count % 100);
    assert(text@ =~= with_hundredths(bytes));
    text
}

/// Bytes in gigabytes, with one decimal.
pub fn format_with_tenths(bytes: u64) -> (text: String)
    ensures
        text@ == with_tenths(bytes),
{
    let count: u128 = round_half_even(to_double(bytes) * 10, GIGABYTE as u128);
    let count: u64 = count as u64;
    let mut text = String::new();
    push_decimal(&mut text, count / 10);
    text.append(".");
    push_decimal(&mut text, count % 10);
    assert(text@ =~= with_tenths(bytes));
    text
}

/// Whether a part is more than half of a whole.
pub fn is_over_half(part: u64, whole: u64) -> (over: bool)
    ensures
        over == over_half(part, whole),
{
    whole > 0 && 2 * to_double(part) > to_double(whole)
}

/// Rounding goes to the nearest whole number: the error is at most a half.
pub proof fn law_rounding_is_to_the_nearest(n: nat, d: nat)
    requires
        0 < d,
    ensures
        -(d as int) <= 2 * (half_even(n, d) * d - n) <= d,
{
    let quotient = (n / d) as int;
    let rest = (n % d) as int;
    lemma_fundamental_div_mod(n as int, d as int);
    lemma_mod_bound(n as int, d as int);
    assert((quotient + 1) * d == quotient * d + d) by (nonlinear_arith);
    assert(d * quotient == quotient * d) by (nonlinear_arith);
}

/// More rounds to no less.
pub proof fn law_rounding_is_monotone(less: nat, more: nat, d: nat)
    requires
        0 < d,
        less <= more,
    ensures
        half_even(less, d) <= half_even(more, d),
{
    let (p, q) = ((less / d) as int, (more / d) as int);
    lemma_fundamental_div_mod(less as int, d as int);
    lemma_fundamental_div_mod(more as int, d as int);
    lemma_mod_bound(less as int, d as int);
    lemma_mod_bound(more as int, d as int);
    if p > q {
        assert(d * p >= d * q + d) by (nonlinear_arith)
            requires
                p >= q + 1,
                d > 0,
        ;
    }
}

/// Around a larger number the doubles are as far apart, or at least twice as far.
proof fn lemma_spacing_grows(less: nat, more: nat)
    requires
        less <= more,
    ensures
        spacing(less) > 0,
        spacing(less) == spacing(more) || 2 * spacing(less) <= spacing(more),
    decreases more,
{
    if less >= EXACT_DOUBLES {
        lemma_spacing_grows(less / 2, more / 2);
    } else if more >= EXACT_DOUBLES {
        lemma_spacing_grows(0, more / 2);
    }
}

/// A whole number is less than the limit of exact doubles times its spacing, and at least half of
/// that unless the spacing is one.
proof fn lemma_spacing_bounds(n: nat)
    ensures
        spacing(n) > 0,
        n < EXACT_DOUBLES * spacing(n),
        spacing(n) == 1 || 2 * n >= EXACT_DOUBLES * spacing(n),
    decreases n,
{
    if n >= EXACT_DOUBLES {
        lemma_spacing_bounds(n / 2);
    }
}

/// A larger whole number has no smaller a double.
pub proof fn law_doubles_are_monotone(less: nat, more: nat)
    requires
        less <= more,
    ensures
        nearest_double(less) <= nearest_double(more),
{
    let (s, t) = (spacing(less), spacing(more));
    let (a, b) = (half_even(less, s) as int, half_even(more, t) as int);
    lemma_spacing_grows(less, more);
    lemma_spacing_bounds(less);
    lemma_spacing_bounds(more);
    if s == t {
        law_rounding_is_monotone(less, more, s);
        assert(a * s <= b * s) by (nonlinear_arith)
            requires
                a <= b,
                s > 0,
        ;
    } else {
        let half = EXACT_DOUBLES as int / 2;
        law_rounding_is_monotone(less, EXACT_DOUBLES as nat * s, s);
        law_rounding_is_monotone(half as nat * t, more, t);
        lemma_multiples_stay(EXACT_DOUBLES as nat, s);
        lemma_multiples_stay(half as nat, t);
        assert(a * s <= EXACT_DOUBLES * s) by (nonlinear_arith)
            requires
                a <= EXACT_DOUBLES,
                s > 0,
        ;
        assert(half * t <= b * t) by (nonlinear_arith)
            requires
                half <= b,
                t > 0,
        ;
        assert(EXACT_DOUBLES * s <= half * t) by (nonlinear_arith)
            requires
                2 * s <= t,
                EXACT_DOUBLES == 2 * half,
                half >= 0,
        ;
    }
}

/// A multiple needs no rounding.
proof fn lemma_multiples_stay(count: nat, d: nat)
    requires
        0 < d,
    ensures
        half_even(count * d, d) == count,
{
    lemma_fundamental_div_mod_converse((count * d) as int, d as int, count as int, 0);
}

/// Whole numbers below the limit of exact doubles are their own nearest double, so that for a
/// machine of any common size more than half of the bytes is more than half as a double.
pub proof fn law_small_numbers_are_exact(part: u64, whole: u64)
    requires
        part < EXACT_DOUBLES,
        whole < EXACT_DOUBLES,
    ensures
        nearest_double(part as nat) == part,
        over_half(part, whole) <==> whole > 0 && 2 * part > whole,
{
    assert(spacing(part as nat) == 1 && spacing(whole as nat) == 1);
    lemma_multiples_stay(part as nat, 1);
    lemma_multiples_stay(whole as nat, 1);
}

/// More bytes show as no fewer gigabytes.
pub proof fn law_more_bytes_show_no_less(less: u64, more: u64)
    requires
        less <= more,
    ensures
        hundredths(less) <= hundredths(more),
        tenths(less) <= tenths(more),
{
    law_doubles_are_monotone(less as nat, more as nat);
    let (a, b) = (nearest_double(less as nat), nearest_double(more as nat));
    law_rounding_is_monotone(a * 100, b * 100, GIGABYTE as nat);
    law_rounding_is_monotone(a * 10, b * 10, GIGABYTE as nat);
}

/// Halfway between two whole numbers rounding goes to the even one.
pub proof fn law_halves_round_to_even(n: nat, d: nat)
    requires
        0 < d,
    ensures
        2 * (half_even(n, d) * d - n) == d ==> half_even(n, d) % 2 == 0,
        2 * (half_even(n, d) * d - n) == -(d as int) ==> half_even(n, d) % 2 == 0,
{
    let quotient = (n / d) as int;
    let rest = (n % d) as int;
    lemma_fundamental_div_mod(n as int, d as int);
    lemma_mod_bound(n as int, d as int);
    assert((quotient + 1) * d == quotient * d + d) by (nonlinear_arith);
    assert(d * quotient == quotient * d) by (nonlinear_arith);
}

/// A power of two.
pub open spec fn power_of_two(exponent: nat) -> nat
    decreases exponent,
{
    if exponent == 0 {
        1
    } else {
        2 * power_of_two((exponent - 1) as nat)
    }
}

/// Whether the doubles around a whole number are a power of two apart: of 53 bits at most, the
/// last is worth that much.
pub open spec fn last_bit_is(n: nat, exponent: nat) -> bool {
    &&& n < 9_007_199_254_740_992 * power_of_two(exponent)
    &&& exponent > 0 ==> 4_503_599_627_370_496 * power_of_two(exponent) <= n
}

/// The spacing is what the last of 53 bits is worth.
proof fn lemma_spacing_is_a_power(n: nat, exponent: nat)
    requires
        last_bit_is(n, exponent),
    ensures
        spacing(n) == power_of_two(exponent),
        power_of_two(exponent) > 0,
    decreases exponent,
{
    reveal_with_fuel(power_of_two, 2);
    if exponent > 0 {
        let less = (exponent - 1) as nat;
        assert(last_bit_is(n / 2, less)) by {
            assert(power_of_two(exponent) == 2 * power_of_two(less));
        }
        lemma_spacing_is_a_power(n / 2, less);
    }
}

/// The double nearest to a whole number has at most 53 bits, and no other number of that form is
/// nearer: it is off by at most half of what its last bit is worth, and halfway that bit is even.
#[verifier::rlimit(30)]
pub proof fn law_nearest_double_is_nearest(n: nat, exponent: nat)
    requires
        last_bit_is(n, exponent),
    ensures
        ({
            let step = power_of_two(exponent) as int;
            let double = nearest_double(n) as int;
            exists|count: int|
                {
                    &&& double == #[trigger] (count * step)
                    &&& 0 <= count <= 9_007_199_254_740_992
                    &&& -step <= 2 * (double - n) <= step
                    &&& 2 * (double - n) == step || 2 * (double - n) == -step ==> count % 2 == 0
                }
        }),
{
    lemma_spacing_is_a_power(n, exponent);
    let step = power_of_two(exponent);
    let count = half_even(n, step) as int;
    law_rounding_is_to_the_nearest(n, step);
    law_halves_round_to_even(n, step);
    law_rounding_is_monotone(n, 9_007_199_254_740_992 * step, step);
    lemma_multiples_stay(9_007_199_254_740_992, step);
    assert(nearest_double(n) as int == count * (step as int));
}

/// Bytes are shown in the nearest hundredth and tenth of a gigabyte, of 2^30 bytes.
pub proof fn law_gigabytes_are_to_the_nearest(bytes: u64)
    ensures
        ({
            let exact = nearest_double(bytes as nat);
            &&& -1_073_741_824 <= 2 * (hundredths(bytes) * 1_073_741_824 - 100 * exact)
                <= 1_073_741_824
            &&& -1_073_741_824 <= 2 * (tenths(bytes) * 1_073_741_824 - 10 * exact)
                <= 1_073_741_824
        }),
{
    let exact = nearest_double(bytes as nat);
    law_rounding_is_to_the_nearest(exact * 100, GIGABYTE as nat);
    law_rounding_is_to_the_nearest(exact * 10, GIGABYTE as nat);
}

/// A number of gigabytes is written as its whole part, a point and its decimals: without the
/// point the digits read as the hundredths, or the tenths.
pub proof fn law_gigabytes_read_back(bytes: u64)
    ensures
        ({
            let text = with_hundredths(bytes);
            let point = text.len() - 3;
            &&& point > 0
            &&& text[point] == '.'
            &&& all_digits(text.take(point))
            &&& all_digits(text.skip(point + 1))
            &&& reading(text.take(point)) * 100 + reading(text.skip(point + 1)) == hundredths(bytes)
        }),
        ({
            let text = with_tenths(bytes);
            let point = text.len() - 2;
            &&& point > 0
            &&& text[point] == '.'
            &&& all_digits(text.take(point))
            &&& all_digits(text.skip(point + 1))
            &&& reading(text.take(point)) * 10 + reading(text.skip(point + 1)) == tenths(bytes)
        }),
{
    reveal_strlit(".");
    let text = with_hundredths(bytes);
    law_decimal_reads_back(hundredths(bytes) / 100);
    law_two_digits_read_back(hundredths(bytes) % 100);
    assert(text.take(text.len() - 3) =~= decimal(hundredths(bytes) / 100));
    assert(text.skip(text.len() - 2) =~= two_digits(hundredths(bytes) % 100));

    let text = with_tenths(bytes);
    let last = tenths(bytes) % 10;
    law_decimal_reads_back(tenths(bytes) / 10);
    law_decimal_reads_back(last);
    assert(decimal(last) =~= seq![digit(last)]);
    assert(text.take(text.len() - 2) =~= decimal(tenths(bytes) / 10));
    assert(text.skip(text.len() - 1) =~= decimal(last));
}

/// A part is more than half of a whole where twice the part is more, both as doubles; with more of
/// it so is a larger part.
pub proof fn law_more_than_half_stays_so(part: u64, more: u64, whole: u64)
    requires
        part <= more,
    ensures
        over_half(part, whole) ==> over_half(more, whole),
        over_half(part, whole) <==> 2 * nearest_double(part as nat) > nearest_double(whole as nat)
            && whole != 0,
        whole > 0 ==> over_half(whole, whole),
        !over_half(0, whole),
{
    law_doubles_are_monotone(part as nat, more as nat);
    if whole > 0 {
        law_doubles_are_monotone(1, whole as nat);
    }
    lemma_multiples_stay(1, 1);
    lemma_multiples_stay(0, 1);
    assert(spacing(0) == 1 && spacing(1) == 1);
}

} // verus!
