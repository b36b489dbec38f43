//! The charge limit that is configured in the system, as `pmset -g battlimit` prints it.
//!
//! The output is a list of entries, each of which ends in a brace and holds fields of the form
//! `name = value`, where a semicolon, a comma or white space ends the value.

use vstd::prelude::*;
use vstd::slice::slice_subrange;
use vstd::string::*;
use vstd::utf8::{decode_utf8, valid_utf8};

verus! {

/// Whether a character has the Unicode property `White_Space`.
pub open spec fn is_space(c: char) -> bool {
    ||| '\u{9}' <= c <= '\u{d}'
    ||| c == ' '
    ||| c == '\u{85}'
    ||| c == '\u{a0}'
    ||| c == '\u{1680}'
    ||| '\u{2000}' <= c <= '\u{200a}'
    ||| c == '\u{2028}'
    ||| c == '\u{2029}'
    ||| c == '\u{202f}'
    ||| c == '\u{205f}'
    ||| c == '\u{3000}'
}

/// Whether a character ends the value of a field.
pub open spec fn ends_value(c: char) -> bool {
    c == ';' || c == ',' || is_space(c)
}

/// A class of characters.
#[derive(Clone, Copy, Debug, PartialEq, Eq, Structural)]
pub enum CharClass {
    /// White space.
    Space,
    /// What can stand in the value of a field.
    Value,
    /// Every character but one.
    Not(char),
}

impl CharClass {
    /// Whether a character is of the class.
    pub open spec fn has(self, c: char) -> bool {
        match self {
            CharClass::Space => is_space(c),
            CharClass::Value => !ends_value(c),
            CharClass::Not(other) => c != other,
        }
    }
}

/// How many characters at the start of a text are of a class.
pub open spec fn prefix_len(s: Seq<char>, class: CharClass) -> nat
    decreases s.len(),
{
    if s.len() > 0 && class.has(s[0]) {
        1 + prefix_len(s.skip(1), class)
    } else {
        0
    }
}

/// A text without the white space at its start.
pub open spec fn trim_start(s: Seq<char>) -> Seq<char> {
    s.skip(prefix_len(s, CharClass::Space) as int)
}

/// A text up to the first character that ends a value.
pub open spec fn value_of(s: Seq<char>) -> Seq<char> {
    s.take(prefix_len(s, CharClass::Value) as int)
}

/// Whether `key` stands in `s` at position `at`.
pub open spec fn stands_at(s: Seq<char>, key: Seq<char>, at: int) -> bool {
    0 <= at && at + key.len() <= s.len() && s.subrange(at, at + key.len()) == key
}

/// Whether `at` is the first position at which `key` stands in `s`.
pub open spec fn stands_first_at(s: Seq<char>, key: Seq<char>, at: int) -> bool {
    &&& stands_at(s, key, at)
    &&& forall|earlier: int| 0 <= earlier < at ==> !#[trigger] stands_at(s, key, earlier)
}

/// What follows the first place at which `key` stands in `s`, if there is one.
pub open spec fn after_key(s: Seq<char>, key: Seq<char>) -> Option<Seq<char>> {
    if exists|at: int| stands_first_at(s, key, at) {
        let at = choose|at: int| stands_first_at(s, key, at);
        Some(s.skip(at + key.len()))
    } else {
        None
    }
}

/// The value of a field: what stands behind the first place where its name stands, behind an
/// equals sign, with white space around the sign left out.
pub open spec fn field(entry: Seq<char>, key: Seq<char>) -> Option<Seq<char>> {
    match after_key(entry, key) {
        Some(rest) => {
            let rest = trim_start(rest);
            if rest.len() > 0 && rest[0] == '=' {
                Some(value_of(trim_start(rest.skip(1))))
            } else {
                None
            }
        },
        None => None,
    }
}

/// The pieces of a text between the places where a character stands.
pub open spec fn pieces(s: Seq<char>, separator: char) -> Seq<Seq<char>>
    decreases s.len(),
{
    let len = prefix_len(s, CharClass::Not(separator)) as int;
    if 0 <= len < s.len() {
        seq![s.take(len)] + pieces(s.skip(len + 1), separator)
    } else {
        seq![s]
    }
}

/// Whether a character is a decimal digit.
pub open spec fn is_digit(c: char) -> bool {
    '0' <= c <= '9'
}

/// The number that decimal digits stand for.
pub open spec fn number(digits: Seq<char>) -> nat
    decreases digits.len(),
{
    if digits.len() == 0 {
        0
    } else {
        number(digits.drop_last()) * 10 + (digits.last() as nat - '0' as nat) as nat
    }
}

/// A number without the plus sign that may stand before it.
pub open spec fn unsigned(s: Seq<char>) -> Seq<char> {
    if s.len() > 0 && s[0] == '+' {
        s.skip(1)
    } else {
        s
    }
}

/// A text as a number of one byte: digits, with a plus sign before them or without.
pub open spec fn parsed_u8(s: Seq<char>) -> Option<u8> {
    let digits = unsigned(s);
    if digits.len() > 0 && (forall|i: int| 0 <= i < digits.len() ==> #[trigger] is_digit(digits[i]))
        && number(digits) <= u8::MAX {
        Some(number(digits) as u8)
    } else {
        None
    }
}

/// The limit that an entry sets: none where the entry is not in force, or where its limit is no
/// number from 80 to 100.
pub open spec fn entry_limit(entry: Seq<char>) -> Option<u8> {
    if field(entry, "Terminated"@) == Some("0"@) {
        match field(entry, "chargeSocLimitSoc"@) {
            Some(value) => match parsed_u8(value) {
                Some(limit) if 80 <= limit <= 100 => Some(limit),
                _ => None,
            },
            None => None,
        }
    } else {
        None
    }
}

/// Whether an entry is there because the user has set the limit.
pub open spec fn is_manual(entry: Seq<char>) -> bool {
    field(entry, "chargeSocLimitReason"@) == Some("manualChargeLimit"@)
}

/// The lower of two limits, where both are there, else the one that is.
pub open spec fn lower(a: Option<u8>, b: Option<u8>) -> Option<u8> {
    match (a, b) {
        (Some(x), Some(y)) => Some(
            if x <= y {
                x
            } else {
                y
            },
        ),
        (Some(x), None) => Some(x),
        (None, y) => y,
    }
}

/// The lowest limit that entries of one kind set.
pub open spec fn lowest(entries: Seq<Seq<char>>, manual: bool) -> Option<u8>
    decreases entries.len(),
{
    if entries.len() == 0 {
        None
    } else {
        let last = entries.last();
        lower(
            lowest(entries.drop_last(), manual),
            if is_manual(last) == manual {
                entry_limit(last)
            } else {
                None
            },
        )
    }
}

/// The limit in force: the lowest that the user has set, else the lowest there is.
pub open spec fn charge_limit(output: Seq<char>) -> Option<u8> {
    let entries = pieces(output, '}');
    match lowest(entries, true) {
        Some(limit) => Some(limit),
        None => lowest(entries, false),
    }
}

/// Whether a character has the Unicode property `White_Space`.
pub fn is_whitespace(c: char) -> (space: bool)
    ensures
        space == is_space(c),
{
    ('\u{9}' <= c && c <= '\u{d}') || c == ' ' || c == '\u{85}' || c == '\u{a0}' || c == '\u{1680}'
        || ('\u{2000}' <= c && c <= '\u{200a}') || c == '\u{2028}' || c == '\u{2029}' || c
        == '\u{202f}' || c == '\u{205f}' || c == '\u{3000}'
}

/// The characters of a text.
fn characters(s: &str) -> (chars: Vec<char>)
    ensures
        chars@ == s@,
{
    let mut chars: Vec<char> = Vec::new();
    for c in iter: s.chars()
        invariant
            chars@ == iter.seq().take(iter.index() as int),
            iter.seq() == s@,
    {
        chars.push(c);
    }
    chars
}

/// How many characters at the start of a text are of a class.
fn count_prefix(s: &[char], class: CharClass) -> (len: usize)
    ensures
        len == prefix_len(s@, class),
        len <= s@.len(),
        len < s@.len() ==> !class.has(s@[len as int]),
{
    let mut len: usize = 0;
    assert(s@.skip(0) =~= s@);
    while len < s.len()
        invariant
            len <= s@.len(),
            prefix_len(s@, class) == len + prefix_len(s@.skip(len as int), class),
        decreases s@.len() - len,
    {
        let c: char = s[len];
        let found: bool = match class {
            CharClass::Space => is_whitespace(c),
            CharClass::Value => !(c == ';' || c == ',' || is_whitespace(c)),
            CharClass::Not(other) => c != other,
        };
        if !found {
            return len;
        }
        assert(s@.skip(len as int).skip(1) =~= s@.skip(len + 1));
        len = len + 1;
    }
    len
}

/// Whether two texts are the same.
fn same(a: &[char], b: &[char]) -> (equal: bool)
    ensures
        equal == (a@ == b@),
{
    if a.len() != b.len() {
        return false;
    }
    let mut i: usize = 0;
    while i < a.len()
        invariant
            a@.len() == b@.len(),
            i <= a@.len(),
            forall|j: int| 0 <= j < i ==> a@[j] == b@[j],
        decreases a@.len() - i,
    {
        if a[i] != b[i] {
            return false;
        }
        i = i + 1;
    }
    assert(a@ =~= b@);
    true
}

/// What follows the first place at which `key` stands in `s`, if there is one.
fn find_after<'a>(s: &'a [char], key: &[char]) -> (rest: Option<&'a [char]>)
    ensures
        match rest {
            Some(rest) => after_key(s@, key@) == Some(rest@),
            None => after_key(s@, key@) is None,
        },
{
    if s.len() < key.len() {
        return None;
    }
    let last: usize = s.len() - key.len();
    let mut at: usize = 0;
    while at <= last
        invariant
            last == s@.len() - key@.len(),
            s@.len() <= usize::MAX,
            at <= last + 1,
            forall|earlier: int| 0 <= earlier < at ==> !#[trigger] stands_at(s@, key@, earlier),
        decreases last + 1 - at,
    {
        if same(slice_subrange(s, at, at + key.len()), key) {
            proof {
                assert(stands_first_at(s@, key@, at as int));
                let first = choose|first: int| stands_first_at(s@, key@, first);
                assert(stands_at(s@, key@, at as int));
                assert(stands_at(s@, key@, first));
                assert(first == at);
            }
            let rest = slice_subrange(s, at + key.len(), s.len());
            assert(rest@ =~= s@.skip(at + key@.len()));
            return Some(rest);
        }
        if at == last {
            assert forall|first: int| !stands_first_at(s@, key@, first) by {
                if stands_at(s@, key@, first) {
                    assert(0 <= first <= last);
                }
            }
            return None;
        }
        at = at + 1;
    }
    None
}

/// A text without the white space at its start.
fn without_leading_space<'a>(s: &'a [char]) -> (rest: &'a [char])
    ensures
        rest@ == trim_start(s@),
{
    let len: usize = count_prefix(s, CharClass::Space);
    let rest = slice_subrange(s, len, s.len());
    assert(rest@ =~= trim_start(s@));
    rest
}

/// The value of a field of an entry.
pub fn pmset_field<'a>(entry: &'a [char], key: &str) -> (value: Option<&'a [char]>)
    ensures
        match value {
            Some(value) => field(entry@, key@) == Some(value@),
            None => field(entry@, key@) is None,
        },
{
    let key = characters(key);
    let rest = match find_after(entry, key.as_slice()) {
        Some(rest) => without_leading_space(rest),
        None => {
            return None;
        },
    };
    if rest.len() == 0 || rest[0] != '=' {
        return None;
    }
    let rest = slice_subrange(rest, 1, rest.len());
    let value = without_leading_space(rest);
    let len: usize = count_prefix(value, CharClass::Value);
    let value = slice_subrange(value, 0, len);
    Some(value)
}

/// A text as a number of one byte.
fn parse_u8(s: &[char]) -> (parsed: Option<u8>)
    ensures
        parsed == parsed_u8(s@),
{
    let digits = if s.len() > 0 && s[0] == '+' {
        slice_subrange(s, 1, s.len())
    } else {
        s
    };
    if digits.len() == 0 {
        return None;
    }
    assert(digits@ =~= unsigned(s@));
    let mut value: u8 = 0;
    let mut i: usize = 0;
    while i < digits.len()
        invariant
            i <= digits@.len(),
            0 < digits@.len(),
            digits@ == unsigned(s@),
            value == number(digits@.take(i as int)),
            forall|j: int| 0 <= j < i ==> #[trigger] is_digit(digits@[j]),
        decreases digits@.len() - i,
    {
        let c: char = digits[i];
        assert(is_digit(digits@[i as int]) == ('0' <= c <= '9'));
        if !('0' <= c && c <= '9') {
            return None;
        }
        assert(digits@.take(i + 1).drop_last() =~= digits@.take(i as int));
        let wide: u32 = value as u32 * 10 + (c as u32 - '0' as u32);
        if wide > 255 {
            proof {
                lemma_number_grows(digits@, i + 1);
            }
            return None;
        }
        value = wide as u8;
        i = i + 1;
    }
    assert(digits@.take(i as int) =~= digits@);
    Some(value)
}

/// Further digits make a number no smaller.
proof fn lemma_number_grows(digits: Seq<char>, len: int)
    requires
        0 <= len <= digits.len(),
    ensures
        number(digits.take(len)) <= number(digits),
    decreases digits.len(),
{
    if len < digits.len() {
        lemma_number_grows(digits.drop_last(), len);
        assert(digits.drop_last().take(len) =~= digits.take(len));
    } else {
        assert(digits.take(len) =~= digits);
    }
}

/// The limit that an entry sets, if any.
fn limit_of(entry: &[char]) -> (limit: Option<u8>)
    ensures
        limit == entry_limit(entry@),
{
    if !field_is(entry, "Terminated", "0") {
        return None;
    }
    let limit: u8 = match pmset_field(entry, "chargeSocLimitSoc") {
        Some(value) => match parse_u8(value) {
            Some(limit) => limit,
            None => {
                return None;
            },
        },
        None => {
            return None;
        },
    };
    if 80 <= limit && limit <= 100 {
        Some(limit)
    } else {
        None
    }
}

/// Whether an entry has a field of the given value.
fn field_is(entry: &[char], key: &str, value: &str) -> (equal: bool)
    ensures
        equal == (field(entry@, key@) == Some(value@)),
{
    match pmset_field(entry, key) {
        Some(found) => same(found, characters(value).as_slice()),
        None => false,
    }
}

/// The lower of a limit so far, if there is one, and the next.
fn lower_of(current: Option<u8>, limit: u8) -> (result: Option<u8>)
    ensures
        result == lower(current, Some(limit)),
{
    match current {
        Some(current) => if current <= limit {
            Some(current)
        } else {
            Some(limit)
        },
        None => Some(limit),
    }
}

/// The charge limit in force.
pub fn parse_charge_limit(output: &str) -> (limit: Option<u8>)
    ensures
        limit == charge_limit(output@),
{
    let output = characters(output);
    let mut rest = output.as_slice();
    let mut manual: Option<u8> = None;
    let mut fallback: Option<u8> = None;
    let mut more: bool = true;
    let ghost mut done: Seq<Seq<char>> = Seq::empty();
    assert(done + pieces(rest@, '}') =~= pieces(output@, '}'));
    while more
        invariant
            more ==> done + pieces(rest@, '}') == pieces(output@, '}'),
            !more ==> done == pieces(output@, '}'),
            manual == lowest(done, true),
            fallback == lowest(done, false),
        decreases (if more { rest@.len() + 1 } else { 0 }),
    {
        let len: usize = count_prefix(rest, CharClass::Not('}'));
        let entry = slice_subrange(rest, 0, len);
        if let Some(limit) = limit_of(entry) {
            if field_is(entry, "chargeSocLimitReason", "manualChargeLimit") {
                manual = lower_of(manual, limit);
            } else {
                fallback = lower_of(fallback, limit);
            }
        }
        proof {
            let before = done;
            done = before.push(entry@);
            assert(done.drop_last() =~= before);
            assert(entry@ =~= rest@.take(len as int));
            if len == rest@.len() {
                assert(entry@ =~= rest@);
                assert(done =~= before + pieces(rest@, '}'));
            } else {
                assert(done + pieces(rest@.skip(len + 1), '}') =~= before + pieces(rest@, '}'));
            }
        }
        if len < rest.len() {
            let next = slice_subrange(rest, len + 1, rest.len());
            assert(next@ =~= rest@.skip(len + 1));
            rest = next;
        } else {
            more = false;
        }
    }
    if manual.is_some() {
        manual
    } else {
        fallback
    }
}

/// The text that `String::from_utf8_lossy` makes of bytes.
pub uninterp spec fn utf8_lossy(bytes: Seq<u8>) -> Seq<char>;

/// `String::from_utf8_lossy` reads bytes as UTF-8; where they are valid it decodes them as they
/// are, else it puts the replacement character in the place of what is not.
#[verifier::external_body]
fn from_utf8_lossy(bytes: &[u8]) -> (text: String)
    ensures
        text@ == utf8_lossy(bytes@),
        valid_utf8(bytes@) ==> text@ == decode_utf8(bytes@),
{
    String::from_utf8_lossy(bytes).into_owned()
}

/// The charge limit in force, by what a command has printed, if it did not fail.
pub open spec fn limit_printed(success: bool, text: Seq<char>) -> Option<u8> {
    if success {
        charge_limit(text)
    } else {
        None
    }
}

/// The charge limit in force, from what the command that lists the limits has printed; none
/// where the command failed.
pub fn configured_charge_limit(success: bool, stdout: &[u8]) -> (limit: Option<u8>)
    ensures
        limit == limit_printed(success, utf8_lossy(stdout@)),
        limit == if success {
            charge_limit(utf8_lossy(stdout@))
        } else {
            None
        },
        success && valid_utf8(stdout@) ==> limit == charge_limit(decode_utf8(stdout@)),
{
    if success {
        parse_charge_limit(from_utf8_lossy(stdout).as_str())
    } else {
        None
    }
}

/// The lowest limit of a kind is one that an entry of the kind sets, and none of them sets a
/// lower one; there is none only where none of them sets any.
pub proof fn law_lowest_is_least(entries: Seq<Seq<char>>, manual: bool)
    ensures
        match lowest(entries, manual) {
            Some(limit) => {
                &&& exists|i: int|
                    0 <= i < entries.len() && is_manual(#[trigger] entries[i]) == manual
                        && entry_limit(entries[i]) == Some(limit)
                &&& forall|i: int|
                    0 <= i < entries.len() && is_manual(#[trigger] entries[i]) == manual
                        && entry_limit(entries[i]) is Some ==> limit <= entry_limit(entries[i])->0
            },
            None => forall|i: int|
                0 <= i < entries.len() && is_manual(#[trigger] entries[i]) == manual
                    ==> entry_limit(entries[i]) is None,
        },
    decreases entries.len(),
{
    if entries.len() > 0 {
        let before = entries.drop_last();
        law_lowest_is_least(before, manual);
        assert forall|i: int| 0 <= i < before.len() implies entries[i] == before[i] by {}
        if lowest(before, manual) is Some {
            let found = choose|i: int|
                0 <= i < before.len() && is_manual(#[trigger] before[i]) == manual && entry_limit(
                    before[i],
                ) == Some(lowest(before, manual)->0);
            assert(entries[found] == before[found]);
        }
        assert(entries[entries.len() - 1] == entries.last());
    }
}

/// A limit that the user has set is in force before any other, and of several the lowest.
pub proof fn law_manual_limit_comes_first(output: Seq<char>, i: int)
    requires
        0 <= i < pieces(output, '}').len(),
        is_manual(pieces(output, '}')[i]),
        entry_limit(pieces(output, '}')[i]) is Some,
    ensures
        charge_limit(output) == lowest(pieces(output, '}'), true),
        charge_limit(output) is Some,
        charge_limit(output)->0 <= entry_limit(pieces(output, '}')[i])->0,
{
    law_lowest_is_least(pieces(output, '}'), true);
}

/// Whatever the output, a limit is a number from 80 to 100, and it is that of an entry in force.
pub proof fn law_limit_is_of_an_entry_in_force(output: Seq<char>)
    requires
        charge_limit(output) is Some,
    ensures
        80 <= charge_limit(output)->0 <= 100,
        exists|i: int|
            0 <= i < pieces(output, '}').len() && entry_limit(#[trigger] pieces(output, '}')[i])
                == charge_limit(output) && field(pieces(output, '}')[i], "Terminated"@) == Some(
                "0"@,
            ),
{
    law_lowest_is_least(pieces(output, '}'), true);
    law_lowest_is_least(pieces(output, '}'), false);
}

/// There is no limit exactly where no entry sets one.
pub proof fn law_no_limit_without_entries(output: Seq<char>)
    ensures
        charge_limit(output) is None <==> forall|i: int|
            0 <= i < pieces(output, '}').len() ==> entry_limit(#[trigger] pieces(output, '}')[i])
                is None,
{
    law_lowest_is_least(pieces(output, '}'), true);
    law_lowest_is_least(pieces(output, '}'), false);
}

} // verus!
