//! Texts: searching, splitting into lines, trimming, and reading decimal
//! digits.

use vstd::prelude::*;
use vstd::utf8::{encode_utf8, encode_utf8_decode_utf8};

verus! {

/// Whether `pattern` stands in `text` at position `at`.
pub open spec fn occurs_at(text: Seq<char>, pattern: Seq<char>, at: int) -> bool {
    0 <= at && at + pattern.len() <= text.len() && text.subrange(at, at + pattern.len())
        == pattern
}

/// Whether `at` is the first position at which `pattern` stands in `text`.
pub open spec fn first_occurs_at(text: Seq<char>, pattern: Seq<char>, at: int) -> bool {
    occurs_at(text, pattern, at) && forall|earlier: int|
        0 <= earlier < at ==> !occurs_at(text, pattern, earlier)
}

/// What follows the first occurrence of `marker` in `text`, if there is one.
pub open spec fn spec_text_after(text: Seq<char>, marker: Seq<char>) -> Option<Seq<char>> {
    if exists|at: int| first_occurs_at(text, marker, at) {
        let at = choose|at: int| first_occurs_at(text, marker, at);
        Some(text.skip(at + marker.len()))
    } else {
        None
    }
}

/// `str::split_once` of std, of which the second part is kept: the text is
/// split at the first occurrence of the delimiter; there is no result
/// exactly when the delimiter occurs nowhere.
#[verifier::external_body]
pub(crate) fn split_after(text: &str, marker: &str) -> (rest: Option<String>)
    ensures
        rest is Some <==> exists|at: int| first_occurs_at(text@, marker@, at),
        rest matches Some(r) ==> exists|at: int|
            first_occurs_at(text@, marker@, at) && r@ == text@.skip(at + marker@.len()),
{
    text.split_once(marker).map(|(_, rest)| rest.to_string())
}

/// What follows the first occurrence of `marker` in `text`.
pub fn text_after(text: &str, marker: &str) -> (rest: Option<String>)
    ensures
        match spec_text_after(text@, marker@) {
            Some(r) => rest matches Some(found) && found@ == r,
            None => rest is None,
        },
{
    let rest = split_after(text, marker);
    proof {
        if rest is Some {
            let found = rest->0@;
            let at = choose|at: int|
                first_occurs_at(text@, marker@, at) && found == text@.skip(at + marker@.len());
            let chosen = choose|at: int| first_occurs_at(text@, marker@, at);
            assert(first_occurs_at(text@, marker@, chosen));
            if at < chosen {
                assert(!occurs_at(text@, marker@, at));
            }
            if chosen < at {
                assert(!occurs_at(text@, marker@, chosen));
            }
            assert(at == chosen);
        }
    }
    rest
}

/// The texts that a list of strings holds.
pub open spec fn strings_view(strings: Seq<String>) -> Seq<Seq<char>> {
    Seq::new(strings.len(), |i: int| strings[i]@)
}

/// The number of characters that stand before the first line feed of a
/// text; the length of the text where it holds no line feed.
pub open spec fn first_line_len(text: Seq<char>) -> nat
    decreases text.len(),
{
    if text.len() == 0 || text[0] == '\n' {
        0
    } else {
        1 + first_line_len(text.drop_first())
    }
}

/// A line without the carriage return at its end, if it ends in one.
pub open spec fn without_carriage_return(line: Seq<char>) -> Seq<char> {
    if line.len() > 0 && line.last() == '\r' {
        line.drop_last()
    } else {
        line
    }
}

/// The lines of a text, without their line endings. A line ends at a line
/// feed, or at a carriage return with a line feed behind it; a carriage
/// return elsewhere is part of its line. The last line needs no line
/// ending, and an empty text has no line.
pub open spec fn lines_of(text: Seq<char>) -> Seq<Seq<char>>
    decreases text.len(),
{
    let n = first_line_len(text);
    if text.len() == 0 {
        Seq::empty()
    } else if n >= text.len() {
        seq![text]
    } else {
        seq![without_carriage_return(text.take(n as int))] + lines_of(text.skip(n as int + 1))
    }
}

/// `str::lines` of std: the text is split at its line feeds, one carriage
/// return before a line feed belongs to the line ending, and a line ending
/// at the end of the text starts no further line.
#[verifier::external_body]
pub(crate) fn text_lines(text: &str) -> (lines: Vec<String>)
    ensures
        strings_view(lines@) == lines_of(text@),
{
    text.lines().map(|line| line.to_string()).collect()
}

/// Splits a text into its lines.
pub fn split_lines(text: &str) -> (lines: Vec<String>)
    ensures
        strings_view(lines@) == lines_of(text@),
{
    text_lines(text)
}

/// A text without the whitespace at its two ends.
pub uninterp spec fn trimmed(text: Seq<char>) -> Seq<char>;

/// `str::trim` of std: what it keeps of a text depends on the text alone.
#[verifier::external_body]
pub(crate) fn text_trim(text: &str) -> (out: String)
    ensures
        out@ == trimmed(text@),
{
    text.trim().to_string()
}

/// The lines of a text, each trimmed.
pub open spec fn trimmed_lines_of(text: Seq<char>) -> Seq<Seq<char>> {
    Seq::new(lines_of(text).len(), |i: int| trimmed(lines_of(text)[i]))
}

/// Splits a text into lines and trims each.
pub fn trimmed_lines(text: &str) -> (out: Vec<String>)
    ensures
        strings_view(out@) == trimmed_lines_of(text@),
{
    let lines = split_lines(text);
    let mut out: Vec<String> = Vec::new();
    let mut i: usize = 0;
    while i < lines.len()
        invariant
            i <= lines@.len(),
            strings_view(lines@) == lines_of(text@),
            out@.len() == i,
            forall|j: int| 0 <= j < i ==> out@[j]@ == trimmed(lines_of(text@)[j]),
        decreases lines@.len() - i,
    {
        assert(strings_view(lines@)[i as int] == lines@[i as int]@);
        out.push(text_trim(lines[i].as_str()));
        i += 1;
    }
    assert(strings_view(lines@).len() == lines@.len());
    assert(strings_view(out@) =~= trimmed_lines_of(text@));
    out
}

/// Whether the UTF-8 form of a text holds the given byte. For a byte below
/// 128 that is the case exactly when the text holds the character with that
/// code.
pub open spec fn holds_byte(text: Seq<char>, byte: u8) -> bool {
    encode_utf8(text).contains(byte)
}

/// Whether the UTF-8 form of a text holds the given byte.
pub fn has_byte(text: &str, byte: u8) -> (found: bool)
    ensures
        found == holds_byte(text@, byte),
{
    let bytes = text.as_bytes();
    let mut i: usize = 0;
    while i < bytes.len()
        invariant
            i <= bytes@.len(),
            bytes@ == encode_utf8(text@),
            forall|j: int| 0 <= j < i ==> bytes@[j] != byte,
        decreases bytes@.len() - i,
    {
        if bytes[i] == byte {
            return true;
        }
        i += 1;
    }
    false
}

/// Whether two texts are the same.
pub fn text_eq(a: &str, b: &str) -> (same: bool)
    ensures
        same == (a@ == b@),
{
    let left = a.as_bytes();
    let right = b.as_bytes();
    proof {
        encode_utf8_decode_utf8(a@);
        encode_utf8_decode_utf8(b@);
    }
    if left.len() != right.len() {
        return false;
    }
    let mut i: usize = 0;
    while i < left.len()
        invariant
            i <= left@.len(),
            left@.len() == right@.len(),
            left@ == encode_utf8(a@),
            right@ == encode_utf8(b@),
            forall|j: int| 0 <= j < i ==> left@[j] == right@[j],
        decreases left@.len() - i,
    {
        if left[i] != right[i] {
            return false;
        }
        i += 1;
    }
    assert(left@ =~= right@);
    true
}

/// Whether a byte is an ASCII decimal digit.
pub open spec fn is_digit(byte: u8) -> bool {
    48 <= byte <= 57
}

/// Whether every byte is an ASCII decimal digit.
pub open spec fn all_digits(bytes: Seq<u8>) -> bool {
    forall|i: int| 0 <= i < bytes.len() ==> is_digit(#[trigger] bytes[i])
}

/// The number that decimal digits spell.
pub open spec fn decimal_value(digits: Seq<u8>) -> nat
    decreases digits.len(),
{
    if digits.len() == 0 {
        0
    } else {
        decimal_value(digits.drop_last()) * 10 + (digits.last() - 48) as nat
    }
}

/// The number that a non-empty string of ASCII digits spells, where that
/// number fits in 64 bits.
pub open spec fn spec_parse_decimal(bytes: Seq<u8>) -> Option<u64> {
    if bytes.len() > 0 && all_digits(bytes) && decimal_value(bytes) <= u64::MAX {
        Some(decimal_value(bytes) as u64)
    } else {
        None
    }
}

/// Digits that are appended never make the number smaller.
pub proof fn lemma_decimal_value_grows(digits: Seq<u8>, k: int)
    requires
        all_digits(digits),
        0 <= k <= digits.len(),
    ensures
        decimal_value(digits.take(k)) <= decimal_value(digits),
    decreases digits.len() - k,
{
    if k < digits.len() {
        lemma_decimal_value_grows(digits, k + 1);
        assert(digits.take(k + 1).drop_last() =~= digits.take(k));
        assert(is_digit(digits[k]));
        assert(digits.take(k + 1).last() == digits[k]);
    } else {
        assert(digits.take(k) =~= digits);
    }
}

/// Reads a non-empty string of ASCII digits as a number.
pub fn parse_decimal(bytes: &[u8]) -> (value: Option<u64>)
    ensures
        value == spec_parse_decimal(bytes@),
{
    let n: usize = bytes.len();
    if n == 0 {
        return None;
    }
    let mut acc: u64 = 0;
    let mut i: usize = 0;
    assert(bytes@.take(0) =~= Seq::<u8>::empty());
    while i < n
        invariant
            i <= n == bytes@.len(),
            all_digits(bytes@.take(i as int)),
            acc == decimal_value(bytes@.take(i as int)),
        decreases n - i,
    {
        let byte: u8 = bytes[i];
        if byte < 48 || byte > 57 {
            assert(!is_digit(bytes@[i as int]));
            return None;
        }
        let digit: u64 = (byte - 48) as u64;
        proof {
            assert(bytes@.take(i + 1).drop_last() =~= bytes@.take(i as int));
            assert(bytes@.take(i + 1).last() == byte);
            assert forall|j: int| 0 <= j < i + 1 implies is_digit(
                #[trigger] bytes@.take(i + 1)[j],
            ) by {
                if j < i {
                    assert(bytes@.take(i + 1)[j] == bytes@.take(i as int)[j]);
                }
            }
        }
        if acc > (u64::MAX - digit) / 10 {
            proof {
                if all_digits(bytes@) {
                    lemma_decimal_value_grows(bytes@, i + 1);
                }
            }
            return None;
        }
        acc = acc * 10 + digit;
        i += 1;
    }
    assert(bytes@.take(n as int) =~= bytes@);
    Some(acc)
}

} // verus!
