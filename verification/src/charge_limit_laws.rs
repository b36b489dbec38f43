//! What holds of the charge limit that is read from the output of the system.

use crate::charge_limit::{
    CharClass, after_key, charge_limit, entry_limit, field, is_digit, is_manual, is_space,
    law_lowest_is_least, limit_printed, lowest, number, parsed_u8, pieces, prefix_len,
    stands_at, stands_first_at, trim_start, unsigned, value_of,
};
use crate::text::decimal;
use crate::text_laws::{all_digits, law_decimal_reads_back, reading};
use vstd::prelude::*;

verus! {

/// Pieces with a separator between each two.
pub open spec fn rejoined(pieces: Seq<Seq<char>>, separator: char) -> Seq<char>
    decreases pieces.len(),
{
    if pieces.len() == 0 {
        Seq::empty()
    } else if pieces.len() == 1 {
        pieces[0]
    } else {
        pieces[0] + seq![separator] + rejoined(pieces.skip(1), separator)
    }
}

/// How often a character stands in a text.
pub open spec fn occurrences(s: Seq<char>, c: char) -> nat
    decreases s.len(),
{
    if s.len() == 0 {
        0
    } else {
        occurrences(s.skip(1), c) + if s[0] == c {
            1nat
        } else {
            0
        }
    }
}

/// The characters of a class at the start of a text are all of them up to the first that is not
/// of the class.
pub proof fn law_prefix_is_the_longest(s: Seq<char>, class: CharClass)
    ensures
        prefix_len(s, class) <= s.len(),
        forall|i: int| 0 <= i < prefix_len(s, class) ==> class.has(#[trigger] s[i]),
        prefix_len(s, class) < s.len() ==> !class.has(s[prefix_len(s, class) as int]),
    decreases s.len(),
{
    if s.len() > 0 && class.has(s[0]) {
        let rest = s.skip(1);
        law_prefix_is_the_longest(rest, class);
        assert forall|i: int| 0 <= i < prefix_len(s, class) implies class.has(#[trigger] s[i]) by {
            if i > 0 {
                assert(s[i] == rest[i - 1]);
            }
        }
        if prefix_len(s, class) < s.len() {
            assert(s[prefix_len(s, class) as int] == rest[prefix_len(rest, class) as int]);
        }
    }
}

/// A prefix of a class that ends before another character, or with the text, is as long as there
/// are characters of the class at the start.
proof fn lemma_prefix_len(s: Seq<char>, class: CharClass, len: int)
    requires
        0 <= len <= s.len(),
        forall|i: int| 0 <= i < len ==> class.has(#[trigger] s[i]),
        len < s.len() ==> !class.has(s[len]),
    ensures
        prefix_len(s, class) == len,
{
    law_prefix_is_the_longest(s, class);
}

/// The pieces of a text are all of it: with the separator between each two they give the text
/// again. None of them holds the separator, so that there is one more of them than separators.
#[verifier::rlimit(30)]
pub proof fn law_pieces_are_the_text(s: Seq<char>, separator: char)
    ensures
        rejoined(pieces(s, separator), separator) == s,
        forall|i: int|
            0 <= i < pieces(s, separator).len() ==> !(#[trigger] pieces(s, separator)[i]).contains(
                separator,
            ),
        pieces(s, separator).len() == occurrences(s, separator) + 1,
    decreases s.len(),
{
    let class = CharClass::Not(separator);
    law_prefix_is_the_longest(s, class);
    let len = prefix_len(s, class) as int;
    let all = pieces(s, separator);
    if len < s.len() {
        let rest = s.skip(len + 1);
        law_pieces_are_the_text(rest, separator);
        assert(all =~= seq![s.take(len)] + pieces(rest, separator));
        assert(all.skip(1) =~= pieces(rest, separator));
        assert(s[len] == separator);
        assert(s =~= s.take(len) + seq![separator] + rest);
        assert forall|i: int| 0 <= i < all.len() implies !(#[trigger] all[i]).contains(
            separator,
        ) by {
            if i > 0 {
                assert(all[i] == pieces(rest, separator)[i - 1]);
            }
        }
        lemma_occurrences(s, separator, len);
        assert(s.skip(len).skip(1) =~= rest);
    } else {
        assert(all =~= seq![s]);
        lemma_occurrences(s, separator, len);
        assert(s.skip(len) =~= Seq::<char>::empty());
    }
}

/// Where a character does not stand in the first part of a text, all its places are in the rest.
proof fn lemma_occurrences(s: Seq<char>, c: char, len: int)
    requires
        0 <= len <= s.len(),
        forall|i: int| 0 <= i < len ==> #[trigger] s[i] != c,
    ensures
        occurrences(s, c) == occurrences(s.skip(len), c),
    decreases len,
{
    if len > 0 {
        let rest = s.skip(1);
        assert forall|i: int| 0 <= i < len - 1 implies #[trigger] rest[i] != c by {
            assert(rest[i] == s[i + 1]);
        }
        lemma_occurrences(rest, c, len - 1);
        assert(rest.skip(len - 1) =~= s.skip(len));
    } else {
        assert(s.skip(0) =~= s);
    }
}

/// There is only one way to cut a text at its separators: whatever parts give the text again, and
/// hold no separator, are its pieces. So every entry of a list is looked at, and no other.
pub proof fn law_parts_between_separators_are_the_pieces(
    parts: Seq<Seq<char>>,
    separator: char,
)
    requires
        parts.len() > 0,
        forall|i: int| 0 <= i < parts.len() ==> !(#[trigger] parts[i]).contains(separator),
    ensures
        pieces(rejoined(parts, separator), separator) == parts,
    decreases parts.len(),
{
    let s = rejoined(parts, separator);
    let class = CharClass::Not(separator);
    let first = parts[0];
    assert forall|i: int| 0 <= i < first.len() implies #[trigger] first[i] != separator by {
        assert(!parts[0].contains(separator));
    }
    if parts.len() == 1 {
        lemma_prefix_len(s, class, s.len() as int);
        assert(pieces(s, separator) =~= parts);
    } else {
        let rest = parts.skip(1);
        assert forall|i: int| 0 <= i < rest.len() implies !(#[trigger] rest[i]).contains(
            separator,
        ) by {
            assert(rest[i] == parts[i + 1]);
        }
        law_parts_between_separators_are_the_pieces(rest, separator);
        assert forall|i: int| 0 <= i < first.len() implies class.has(#[trigger] s[i]) by {
            assert(s[i] == first[i]);
        }
        assert(s[first.len() as int] == separator);
        lemma_prefix_len(s, class, first.len() as int);
        assert(s.take(first.len() as int) =~= first);
        assert(s.skip(first.len() + 1int) =~= rejoined(rest, separator));
        assert(pieces(s, separator) =~= seq![first] + rest);
        assert(parts =~= seq![first] + rest);
    }
}

/// White space is what Unicode calls so.
pub proof fn law_white_space_is_that_of_unicode(c: char)
    ensures
        is_space(c) <==> {
            let code = c as u32;
            ||| code == 32 || code == 133 || code == 160
            ||| 9 <= code && code <= 13
            ||| code == 5760 || code == 12288
            ||| 8192 <= code && code <= 8202
            ||| code == 8232 || code == 8233 || code == 8239 || code == 8287
        },
        CharClass::Space.has(c) <==> is_space(c),
        CharClass::Value.has(c) <==> !is_space(c) && c as u32 != 44 && c as u32 != 59,
{
}

/// Whether a text is white space alone.
pub open spec fn all_spaces(s: Seq<char>) -> bool {
    forall|i: int| 0 <= i < s.len() ==> is_space(#[trigger] s[i])
}

/// To leave out the white space at the start leaves out nothing else, and leaves none there.
pub proof fn law_trimmed_text_begins_with_no_space(spaces: Seq<char>, rest: Seq<char>)
    requires
        all_spaces(spaces),
        rest.len() > 0 ==> !is_space(rest[0]),
    ensures
        trim_start(spaces + rest) == rest,
{
    let s = spaces + rest;
    assert forall|i: int| 0 <= i < spaces.len() implies CharClass::Space.has(#[trigger] s[i]) by {
        assert(s[i] == spaces[i]);
    }
    if rest.len() > 0 {
        assert(s[spaces.len() as int] == rest[0]);
    }
    lemma_prefix_len(s, CharClass::Space, spaces.len() as int);
    assert(trim_start(s) =~= rest);
}

/// A value ends before the first semicolon, comma or white space.
pub proof fn law_value_ends_at_its_end(value: Seq<char>, rest: Seq<char>)
    requires
        forall|i: int|
            0 <= i < value.len() ==> !is_space(#[trigger] value[i]) && value[i] != ';' && value[i]
                != ',',
        rest.len() > 0 ==> is_space(rest[0]) || rest[0] == ';' || rest[0] == ',',
    ensures
        value_of(value + rest) == value,
{
    let s = value + rest;
    assert forall|i: int| 0 <= i < value.len() implies CharClass::Value.has(#[trigger] s[i]) by {
        assert(s[i] == value[i]);
    }
    if rest.len() > 0 {
        assert(s[value.len() as int] == rest[0]);
    }
    lemma_prefix_len(s, CharClass::Value, value.len() as int);
    assert(value_of(s) =~= value);
}

/// What follows a name is what stands behind its first place in a text.
pub proof fn law_name_is_found_where_it_first_stands(
    before: Seq<char>,
    key: Seq<char>,
    rest: Seq<char>,
)
    requires
        forall|at: int|
            0 <= at < before.len() ==> #[trigger] (before + key + rest).subrange(
                at,
                at + key.len(),
            ) != key,
    ensures
        after_key(before + key + rest, key) == Some(rest),
{
    let s = before + key + rest;
    let at = before.len() as int;
    assert(s.subrange(at, at + key.len()) =~= key);
    assert(stands_at(s, key, at));
    assert forall|earlier: int| 0 <= earlier < at implies !#[trigger] stands_at(
        s,
        key,
        earlier,
    ) by {}
    assert(stands_first_at(s, key, at));
    let first = choose|first: int| stands_first_at(s, key, first);
    assert(stands_at(s, key, first));
    assert(first == at);
    assert(s.skip(at + key.len()) =~= rest);
}

/// A name that stands nowhere in a text is not found, and one that is found stands there.
pub proof fn law_name_is_found_only_where_it_stands(s: Seq<char>, key: Seq<char>)
    ensures
        match after_key(s, key) {
            Some(rest) => s.len() >= key.len() + rest.len() && s.subrange(
                s.len() - rest.len() - key.len(),
                s.len() - rest.len(),
            ) == key && s.skip(s.len() - rest.len()) == rest,
            None => forall|at: int|
                0 <= at <= s.len() - key.len() ==> #[trigger] s.subrange(at, at + key.len()) != key,
        },
{
    if exists|at: int| stands_first_at(s, key, at) {
        let at = choose|at: int| stands_first_at(s, key, at);
        let rest = s.skip(at + key.len());
        assert(s.skip(s.len() - rest.len()) =~= rest);
    } else {
        assert forall|at: int| 0 <= at <= s.len() - key.len() implies #[trigger] s.subrange(
            at,
            at + key.len(),
        ) != key by {
            if stands_at(s, key, at) {
                lemma_there_is_a_first_place(s, key, at);
            }
        }
    }
}

/// Where a name stands somewhere it has a first place.
proof fn lemma_there_is_a_first_place(s: Seq<char>, key: Seq<char>, at: int)
    requires
        stands_at(s, key, at),
    ensures
        exists|first: int| stands_first_at(s, key, first),
    decreases at,
{
    if forall|earlier: int| 0 <= earlier < at ==> !#[trigger] stands_at(s, key, earlier) {
        assert(stands_first_at(s, key, at));
    } else {
        let earlier = choose|earlier: int|
            0 <= earlier < at && #[trigger] stands_at(s, key, earlier);
        lemma_there_is_a_first_place(s, key, earlier);
    }
}

/// The value of a field is what stands behind the first place of its name, behind an equals sign,
/// up to the next semicolon, comma or white space, whatever white space stands around the sign.
pub proof fn law_field_has_the_value_behind_its_sign(
    before: Seq<char>,
    key: Seq<char>,
    space: Seq<char>,
    more_space: Seq<char>,
    value: Seq<char>,
    rest: Seq<char>,
)
    requires
        all_spaces(space),
        all_spaces(more_space),
        forall|i: int|
            0 <= i < value.len() ==> !is_space(#[trigger] value[i]) && value[i] != ';' && value[i]
                != ',',
        rest.len() > 0 ==> is_space(rest[0]) || rest[0] == ';' || rest[0] == ',',
        value.len() == 0 && rest.len() > 0 ==> !is_space(rest[0]),
        ({
            let entry = before + key + (space + (seq!['='] + (more_space + (value + rest))));
            forall|at: int|
                0 <= at < before.len() ==> #[trigger] entry.subrange(at, at + key.len()) != key
        }),
    ensures
        field(before + key + (space + (seq!['='] + (more_space + (value + rest)))), key) == Some(
            value,
        ),
{
    let behind_sign = more_space + (value + rest);
    let behind_space = seq!['='] + behind_sign;
    let behind_key = space + behind_space;
    law_name_is_found_where_it_first_stands(before, key, behind_key);
    law_trimmed_text_begins_with_no_space(space, behind_space);
    assert(behind_space.skip(1) =~= behind_sign);
    if value.len() > 0 {
        assert((value + rest)[0] == value[0]);
    } else if rest.len() > 0 {
        assert((value + rest)[0] == rest[0]);
    }
    law_trimmed_text_begins_with_no_space(more_space, value + rest);
    law_value_ends_at_its_end(value, rest);
}

/// A name without an equals sign behind it, but for white space, has no value, and neither has
/// one that does not stand in the entry.
pub proof fn law_field_needs_its_sign(entry: Seq<char>, key: Seq<char>)
    ensures
        after_key(entry, key) is None ==> field(entry, key) is None,
        after_key(entry, key) is Some ==> {
            let behind = trim_start(after_key(entry, key)->0);
            field(entry, key) is Some <==> behind.len() > 0 && behind[0] == '='
        },
{
}

/// Digits read as the number they stand for.
pub proof fn law_number_is_the_reading(digits: Seq<char>)
    requires
        all_digits(digits),
    ensures
        number(digits) == reading(digits),
    decreases digits.len(),
{
    if digits.len() > 0 {
        assert forall|i: int| 0 <= i < digits.drop_last().len() implies '0'
            <= #[trigger] digits.drop_last()[i] <= '9' by {
            assert(digits.drop_last()[i] == digits[i]);
        }
        assert(digits.last() == digits[digits.len() - 1]);
        law_number_is_the_reading(digits.drop_last());
    }
}

/// A number up to 255 is read from its digits, whether zeros or a plus sign stand before it, and
/// nothing else is: not without digits, not with any other character, and not past 255.
pub proof fn law_numbers_are_read_from_digits(digits: Seq<char>)
    ensures
        all_digits(digits) && digits.len() > 0 ==> {
            &&& reading(digits) <= 255 ==> parsed_u8(digits) == Some(reading(digits) as u8)
                && parsed_u8(seq!['+'] + digits) == Some(reading(digits) as u8)
            &&& reading(digits) > 255 ==> parsed_u8(digits) is None && parsed_u8(
                seq!['+'] + digits,
            ) is None
        },
        !all_digits(digits) ==> parsed_u8(seq!['+'] + digits) is None,
        !all_digits(digits) && digits[0] != '+' ==> parsed_u8(digits) is None,
        digits.len() == 0 ==> parsed_u8(digits) is None && parsed_u8(seq!['+'] + digits) is None,
{
    let signed = seq!['+'] + digits;
    assert(unsigned(signed) =~= digits);
    if all_digits(digits) {
        law_number_is_the_reading(digits);
        if digits.len() > 0 {
            assert('0' <= digits[0] <= '9');
            assert(unsigned(digits) == digits);
        }
    } else {
        let at = choose|at: int|
            0 <= at < digits.len() && !('0' <= #[trigger] digits[at] <= '9');
        assert(!is_digit(digits[at]));
    }
}

/// Every number of one byte is read back from its decimal form.
pub proof fn law_decimal_numbers_are_read(n: u8)
    ensures
        parsed_u8(decimal(n as nat)) == Some(n),
{
    law_decimal_reads_back(n as nat);
    law_numbers_are_read_from_digits(decimal(n as nat));
}

/// Whether an entry is in force and sets a limit, by its fields.
pub open spec fn sets_limit(entry: Seq<char>, limit: u8) -> bool {
    &&& field(entry, "Terminated"@) == Some("0"@)
    &&& field(entry, "chargeSocLimitSoc"@) is Some
    &&& parsed_u8(field(entry, "chargeSocLimitSoc"@)->0) == Some(limit)
    &&& 80 <= limit <= 100
}

/// Whether an entry says that the user has set its limit.
pub open spec fn says_manual(entry: Seq<char>) -> bool {
    field(entry, "chargeSocLimitReason"@) == Some("manualChargeLimit"@)
}

/// An entry sets the limit that its fields say, where it is not terminated and the limit is from
/// 80 to 100.
pub proof fn law_entry_sets_what_its_fields_say(entry: Seq<char>, limit: u8)
    ensures
        entry_limit(entry) == Some(limit) <==> sets_limit(entry, limit),
        is_manual(entry) <==> says_manual(entry),
{
}

/// Whether a limit is the lowest that entries of one kind set.
pub open spec fn is_lowest(entries: Seq<Seq<char>>, manual: bool, limit: u8) -> bool {
    &&& exists|i: int|
        0 <= i < entries.len() && says_manual(#[trigger] entries[i]) == manual && sets_limit(
            entries[i],
            limit,
        )
    &&& forall|i: int, other: u8|
        0 <= i < entries.len() && says_manual(entries[i]) == manual && #[trigger] sets_limit(
            entries[i],
            other,
        ) ==> limit <= other
}

/// Whether no entry of one kind sets a limit.
pub open spec fn sets_none(entries: Seq<Seq<char>>, manual: bool) -> bool {
    forall|i: int, limit: u8|
        0 <= i < entries.len() && says_manual(entries[i]) == manual ==> !#[trigger] sets_limit(
            entries[i],
            limit,
        )
}

/// The limits of all entries decide, whatever entries a list has and in whatever order: the limit
/// in force is the lowest that the user has set; where the user has set none, the lowest of the
/// others; and there is none only where no entry sets any. The entries are what stands between
/// closing braces.
pub proof fn law_limit_in_force_is_that_of_all_entries(entries: Seq<Seq<char>>)
    requires
        entries.len() > 0,
        forall|i: int| 0 <= i < entries.len() ==> !(#[trigger] entries[i]).contains('}'),
    ensures
        match charge_limit(rejoined(entries, '}')) {
            Some(limit) => {
                ||| is_lowest(entries, true, limit)
                ||| sets_none(entries, true) && is_lowest(entries, false, limit)
            },
            None => sets_none(entries, true) && sets_none(entries, false),
        },
{
    law_parts_between_separators_are_the_pieces(entries, '}');
    law_lowest_is_least(entries, true);
    law_lowest_is_least(entries, false);
    lemma_lowest_by_fields(entries, true);
    lemma_lowest_by_fields(entries, false);
}

/// The lowest limit of a kind, by the fields of the entries.
proof fn lemma_lowest_by_fields(entries: Seq<Seq<char>>, manual: bool)
    ensures
        match lowest(entries, manual) {
            Some(limit) => is_lowest(entries, manual, limit),
            None => sets_none(entries, manual),
        },
{
    law_lowest_is_least(entries, manual);
    match lowest(entries, manual) {
        Some(limit) => {
            let found = choose|i: int|
                0 <= i < entries.len() && is_manual(#[trigger] entries[i]) == manual
                    && entry_limit(entries[i]) == Some(limit);
            law_entry_sets_what_its_fields_say(entries[found], limit);
            assert(says_manual(entries[found]) == manual && sets_limit(entries[found], limit));
            assert forall|i: int, other: u8|
                0 <= i < entries.len() && says_manual(entries[i]) == manual
                    && #[trigger] sets_limit(entries[i], other) implies limit <= other by {
                law_entry_sets_what_its_fields_say(entries[i], other);
                assert(is_manual(entries[i]) == manual);
            }
        },
        None => {
            assert forall|i: int, limit: u8|
                0 <= i < entries.len() && says_manual(entries[i])
                    == manual implies !#[trigger] sets_limit(entries[i], limit) by {
                law_entry_sets_what_its_fields_say(entries[i], limit);
                assert(is_manual(entries[i]) == manual);
            }
        },
    }
}

/// The order of the entries makes no difference, nor do entries that stand twice: lists with the
/// same entries have the same limit.
pub proof fn law_order_of_entries_makes_no_difference(a: Seq<Seq<char>>, b: Seq<Seq<char>>)
    requires
        a.len() > 0,
        b.len() > 0,
        forall|entry: Seq<char>| #[trigger] a.contains(entry) <==> b.contains(entry),
        forall|i: int| 0 <= i < a.len() ==> !(#[trigger] a[i]).contains('}'),
        forall|i: int| 0 <= i < b.len() ==> !(#[trigger] b[i]).contains('}'),
    ensures
        charge_limit(rejoined(a, '}')) == charge_limit(rejoined(b, '}')),
{
    law_parts_between_separators_are_the_pieces(a, '}');
    law_parts_between_separators_are_the_pieces(b, '}');
    lemma_lowest_of_the_same_entries(a, b, true);
    lemma_lowest_of_the_same_entries(a, b, false);
}

/// The lowest limit of a kind is the same in lists with the same entries.
proof fn lemma_lowest_of_the_same_entries(a: Seq<Seq<char>>, b: Seq<Seq<char>>, manual: bool)
    requires
        forall|entry: Seq<char>| #[trigger] a.contains(entry) <==> b.contains(entry),
    ensures
        lowest(a, manual) == lowest(b, manual),
{
    law_lowest_is_least(a, manual);
    law_lowest_is_least(b, manual);
    if lowest(a, manual) is Some {
        let i = choose|i: int|
            0 <= i < a.len() && is_manual(#[trigger] a[i]) == manual && entry_limit(a[i])
                == lowest(a, manual);
        assert(a.contains(a[i]));
        let j = choose|j: int| 0 <= j < b.len() && b[j] == a[i];
        assert(is_manual(b[j]) == manual && entry_limit(b[j]) == lowest(a, manual));
    }
    if lowest(b, manual) is Some {
        let i = choose|i: int|
            0 <= i < b.len() && is_manual(#[trigger] b[i]) == manual && entry_limit(b[i])
                == lowest(b, manual);
        assert(b.contains(b[i]));
        assert(a.contains(b[i]));
        let j = choose|j: int| 0 <= j < a.len() && a[j] == b[i];
        assert(is_manual(a[j]) == manual && entry_limit(a[j]) == lowest(b, manual));
    }
}

/// What a command that failed has printed sets no limit; what one has printed that did not fail
/// sets the limit in force, whichever entries stand in it.
pub proof fn law_failed_commands_set_no_limit(text: Seq<char>)
    ensures
        limit_printed(false, text) is None,
        limit_printed(true, text) == charge_limit(text),
{
}

} // verus!
