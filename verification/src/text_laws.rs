//! What holds of numbers and fields in text.

use crate::text::{decimal, pad_left, repeated, two_digits};
use vstd::prelude::*;

verus! {

/// The number that decimal digits stand for, each ten times as much as the one behind it.
pub open spec fn reading(digits: Seq<char>) -> int
    decreases digits.len(),
{
    if digits.len() == 0 {
        0
    } else {
        reading(digits.drop_last()) * 10 + (digits.last() as int - '0' as int)
    }
}

/// Whether a text is made of decimal digits alone.
pub open spec fn all_digits(s: Seq<char>) -> bool {
    forall|i: int| 0 <= i < s.len() ==> '0' <= #[trigger] s[i] <= '9'
}

/// A number in decimal reads as that number, in digits alone, and begins with a zero only where
/// the zero is all of it.
pub proof fn law_decimal_reads_back(n: nat)
    ensures
        reading(decimal(n)) == n,
        all_digits(decimal(n)),
        decimal(n).len() > 0,
        decimal(n)[0] == '0' ==> decimal(n).len() == 1,
        decimal(n)[0] == '0' <==> n == 0,
    decreases n,
{
    reveal_with_fuel(reading, 2);
    if n < 10 {
        assert(decimal(n).drop_last() =~= Seq::<char>::empty());
        assert(decimal(n).last() as int == 48 + n);
    } else {
        law_decimal_reads_back(n / 10);
        let s = decimal(n);
        assert(s.drop_last() =~= decimal(n / 10));
        assert(s.last() as int == 48 + n % 10);
        assert forall|i: int| 0 <= i < s.len() implies '0' <= #[trigger] s[i] <= '9' by {
            if i < s.len() - 1 {
                assert(s[i] == decimal(n / 10)[i]);
            }
        }
        assert(s[0] == decimal(n / 10)[0]);
    }
}

/// Two numbers that look the same in decimal are the same.
pub proof fn law_decimal_is_unique(a: nat, b: nat)
    requires
        decimal(a) == decimal(b),
    ensures
        a == b,
{
    law_decimal_reads_back(a);
    law_decimal_reads_back(b);
}

/// Two digits read as the number below a hundred that they stand for, with a zero before a small
/// one.
pub proof fn law_two_digits_read_back(n: nat)
    requires
        n < 100,
    ensures
        two_digits(n).len() == 2,
        all_digits(two_digits(n)),
        reading(two_digits(n)) == n,
        n < 10 ==> two_digits(n)[0] == '0',
{
    reveal_with_fuel(reading, 3);
    let s = two_digits(n);
    assert(s[0] as int == 48 + n / 10);
    assert(s[1] as int == 48 + n % 10);
    assert(s.drop_last() =~= seq![s[0]]);
    assert(s.drop_last().drop_last() =~= Seq::<char>::empty());
}

/// A padded text ends in the text, has spaces before it and nothing else, and is as long as the
/// width asks for, or as the text where that is longer.
pub proof fn law_padding_is_on_the_left(s: Seq<char>, width: nat)
    ensures
        ({
            let padded = pad_left(s, width);
            let before = padded.len() - s.len();
            &&& padded.len() == if s.len() < width {
                width
            } else {
                s.len()
            }
            &&& padded.skip(before) == s
            &&& forall|i: int| 0 <= i < before ==> #[trigger] padded[i] == ' '
        }),
{
    let padded = pad_left(s, width);
    assert(padded.skip(padded.len() - s.len()) =~= s);
}

/// Copies of a character are that character throughout, and as many as were asked for.
pub proof fn law_repeated_is_uniform(c: char, count: nat)
    ensures
        repeated(c, count).len() == count,
        forall|i: int| 0 <= i < count ==> #[trigger] repeated(c, count)[i] == c,
{
}

} // verus!
