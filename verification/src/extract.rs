//! From the recognised text of a document to the three fields of an
//! invoice: the vendor's name, the amount, and the due date.

use vstd::prelude::*;
use vstd::utf8::encode_utf8;
use crate::text::{
    all_digits, decimal_value, has_byte, holds_byte, is_digit, parse_decimal, spec_parse_decimal,
    spec_text_after, strings_view, text_after, text_eq, trimmed_lines, trimmed_lines_of,
};

verus! {

/// The marker after which the vendor's name is looked for.
pub const BILL_TO_MARKER: &'static str = "Bill to";

/// The name given to a vendor that the text does not reveal.
pub const UNKNOWN_VENDOR: &'static str = "Unknown Vendor";

/// Two capitalised words: the pattern of a name where no marker is found.
pub const VENDOR_NAME_PATTERN: &'static str = "([A-Z][a-z]+\\s+[A-Z][a-z]+)";

/// A dollar amount with two decimals, followed by the word "due".
pub const AMOUNT_PATTERN: &'static str = "\\$([0-9]+\\.[0-9]{2})\\s+due";

/// A date with the month's full name: month, day, year.
pub const DATE_PATTERN: &'static str =
    "(January|February|March|April|May|June|July|August|September|October|November|December)\\s+(\\d{1,2}),\\s+(\\d{4})";

/// Units of the amount per dollar: six decimal places.
pub const AMOUNT_SCALE: u64 = 1_000_000;

/// The leftmost match of a pattern in a text; `None` where the pattern
/// matches nowhere or is no valid pattern.
pub uninterp spec fn regex_first_match(pattern: Seq<char>, text: Seq<char>) -> Option<Seq<char>>;

/// `Regex::new` and `Regex::find` of regex: the text of the leftmost match
/// depends on the pattern and the text searched alone. A pattern that does
/// not compile gives no match.
#[verifier::external_body]
pub(crate) fn regex_find(pattern: &str, text: &str) -> (found: Option<String>)
    ensures
        found is Some <==> regex_first_match(pattern@, text@) is Some,
        found matches Some(m) ==> regex_first_match(pattern@, text@) == Some(m@),
{
    let re = regex::Regex::new(pattern).ok()?;
    re.find(text).map(|m| m.as_str().to_string())
}

/// The capture groups of the leftmost match of a pattern in a text, the
/// whole match first; a group that took no part in the match is `None`.
/// `None` where the pattern matches nowhere or is no valid pattern.
pub uninterp spec fn regex_first_captures(pattern: Seq<char>, text: Seq<char>) -> Option<
    Seq<Option<Seq<char>>>,
>;

/// The texts that a list of capture groups holds.
pub open spec fn groups_view(groups: Seq<Option<String>>) -> Seq<Option<Seq<char>>> {
    Seq::new(
        groups.len(),
        |i: int|
            match groups[i] {
                Some(text) => Some(text@),
                None => None,
            },
    )
}

/// `Regex::new` and `Regex::captures` of regex: the texts of the capture
/// groups of the leftmost match depend on the pattern and the text searched
/// alone. A pattern that does not compile gives no match.
#[verifier::external_body]
pub(crate) fn regex_captures(pattern: &str, text: &str) -> (found: Option<Vec<Option<String>>>)
    ensures
        found is Some <==> regex_first_captures(pattern@, text@) is Some,
        found matches Some(groups) ==> regex_first_captures(pattern@, text@) == Some(
            groups_view(groups@),
        ),
{
    let re = regex::Regex::new(pattern).ok()?;
    let caps = re.captures(text)?;
    Some(caps.iter().map(|group| group.map(|m| m.as_str().to_string())).collect())
}

/// The number of seconds from the start of 1970, UTC, to the given time
/// of the given day of the proleptic Gregorian calendar; `None` where there
/// is no such day or no such time of day, or the year lies beyond what a
/// date can hold.
pub uninterp spec fn civil_timestamp(
    year: int,
    month: int,
    day: int,
    hour: int,
    minute: int,
    second: int,
) -> Option<int>;

/// `NaiveDate::from_ymd_opt` of chrono, carried to a timestamp by
/// `and_hms_opt`, `and_utc` and `timestamp`: the result depends on the six
/// numbers alone, and there is none where the calendar has no such day, the
/// day no such time, or the year is out of chrono's range.
#[verifier::external_body]
pub(crate) fn utc_timestamp(
    year: i32,
    month: u32,
    day: u32,
    hour: u32,
    minute: u32,
    second: u32,
) -> (seconds: Option<i64>)
    ensures
        seconds is Some <==> civil_timestamp(
            year as int,
            month as int,
            day as int,
            hour as int,
            minute as int,
            second as int,
        ) is Some,
        seconds matches Some(t) ==> civil_timestamp(
            year as int,
            month as int,
            day as int,
            hour as int,
            minute as int,
            second as int,
        ) == Some(t as int),
{
    let date = chrono::NaiveDate::from_ymd_opt(year, month, day)?;
    let time = date.and_hms_opt(hour, minute, second)?;
    Some(time.and_utc().timestamp())
}

/// Whether a trimmed line can be a vendor's name: it is not empty and
/// holds no `@`, which would make it an address.
pub open spec fn is_vendor_line(line: Seq<char>) -> bool {
    line.len() > 0 && !holds_byte(line, 64)
}

/// The first line after the marker's own that can be a vendor's name.
pub open spec fn spec_pick_vendor(lines: Seq<Seq<char>>) -> Option<Seq<char>> {
    if exists|i: int| first_vendor_line(lines, i) {
        Some(lines[choose|i: int| first_vendor_line(lines, i)])
    } else {
        None
    }
}

/// Whether line `i` is the first after line 0 that can be a vendor's name.
pub open spec fn first_vendor_line(lines: Seq<Seq<char>>, i: int) -> bool {
    &&& 1 <= i < lines.len()
    &&& is_vendor_line(lines[i])
    &&& forall|j: int| 1 <= j < i ==> !is_vendor_line(#[trigger] lines[j])
}

/// Picks the vendor's name among the trimmed lines that follow the marker.
/// The first line is what is left of the marker's own line and is skipped.
pub fn pick_vendor(lines: &Vec<String>) -> (name: Option<String>)
    ensures
        match spec_pick_vendor(strings_view(lines@)) {
            Some(line) => name matches Some(found) && found@ == line,
            None => name is None,
        },
{
    let ghost view = strings_view(lines@);
    let mut i: usize = 1;
    while i < lines.len()
        invariant
            1 <= i,
            view == strings_view(lines@),
            forall|j: int| 1 <= j < i && j < lines@.len() ==> !is_vendor_line(#[trigger] view[j]),
        decreases lines@.len() - i,
    {
        let line = lines[i].as_str();
        assert(view[i as int] == lines@[i as int]@);
        if !line.is_empty() && !has_byte(line, 64) {
            proof {
                assert(first_vendor_line(view, i as int));
                let chosen = choose|k: int| first_vendor_line(view, k);
                if chosen < i {
                    assert(!is_vendor_line(view[chosen]));
                }
                if i < chosen {
                    assert(!is_vendor_line(view[i as int]));
                }
            }
            return Some(lines[i].clone());
        }
        i += 1;
    }
    proof {
        if exists|k: int| first_vendor_line(view, k) {
            let k = choose|k: int| first_vendor_line(view, k);
            assert(!is_vendor_line(view[k]));
        }
    }
    None
}

/// The vendor's name in a text. Where the marker is found, it is the first
/// fitting line after the marker's own; where it is not, it is the first
/// match of the name pattern; failing both, the vendor is unknown.
pub open spec fn spec_vendor(text: Seq<char>) -> Seq<char> {
    match spec_text_after(text, BILL_TO_MARKER@) {
        Some(rest) => match spec_pick_vendor(trimmed_lines_of(rest)) {
            Some(line) => line,
            None => UNKNOWN_VENDOR@,
        },
        None => match regex_first_match(VENDOR_NAME_PATTERN@, text) {
            Some(name) => name,
            None => UNKNOWN_VENDOR@,
        },
    }
}

/// Finds the vendor's name in a text.
pub fn extract_vendor(text: &str) -> (vendor: String)
    ensures
        vendor@ == spec_vendor(text@),
{
    match text_after(text, BILL_TO_MARKER) {
        Some(rest) => {
            let lines = trimmed_lines(rest.as_str());
            match pick_vendor(&lines) {
                Some(line) => line,
                None => UNKNOWN_VENDOR.to_owned(),
            }
        },
        None => match regex_find(VENDOR_NAME_PATTERN, text) {
            Some(name) => name,
            None => UNKNOWN_VENDOR.to_owned(),
        },
    }
}

/// The amount that a text of the form digits, point, two digits stands
/// for, in units of a millionth; zero for a text of any other form.
pub open spec fn spec_amount_units(bytes: Seq<u8>) -> nat {
    let n = bytes.len() as int;
    if n >= 4 && bytes[n - 3] == 46 && all_digits(bytes.take(n - 3)) && all_digits(
        bytes.skip(n - 2),
    ) {
        decimal_value(bytes.take(n - 3)) * 1_000_000 + decimal_value(bytes.skip(n - 2)) * 10_000
    } else {
        0
    }
}

/// The amount as it is held: the units, or the largest number that 64
/// bits hold where the units exceed it.
pub open spec fn spec_amount(bytes: Seq<u8>) -> u64 {
    if spec_amount_units(bytes) > u64::MAX {
        u64::MAX
    } else {
        spec_amount_units(bytes) as u64
    }
}

/// Reads a decimal amount with two decimals as units of a millionth.
pub fn parse_amount(text: &str) -> (amount: u64)
    ensures
        amount == spec_amount(encode_utf8(text@)),
{
    let bytes = text.as_bytes();
    let n: usize = bytes.len();
    if n < 4 || bytes[n - 3] != 46 {
        return 0;
    }
    let whole = vstd::slice::slice_subrange(bytes, 0, n - 3);
    let cents = vstd::slice::slice_subrange(bytes, n - 2, n);
    assert(whole@ =~= bytes@.take(n - 3));
    assert(cents@ =~= bytes@.skip(n - 2));
    let cents_value: u64 = match parse_decimal(cents) {
        Some(value) => value,
        None => {
            proof {
                lemma_two_digits_fit(cents@);
            }
            return 0;
        },
    };
    proof {
        lemma_two_digits_fit(cents@);
    }
    if !digits_only(whole) {
        return 0;
    }
    match parse_decimal(whole) {
        Some(value) => {
            if value > (u64::MAX - cents_value * 10_000) / AMOUNT_SCALE {
                u64::MAX
            } else {
                value * AMOUNT_SCALE + cents_value * 10_000
            }
        },
        None => u64::MAX,
    }
}

/// Two digits spell a number below one hundred.
pub proof fn lemma_two_digits_fit(digits: Seq<u8>)
    requires
        digits.len() == 2,
    ensures
        all_digits(digits) ==> decimal_value(digits) < 100,
{
    if all_digits(digits) {
        let first = digits.drop_last();
        assert(is_digit(digits[0]));
        assert(is_digit(digits[1]));
        assert(first.last() == digits[0]);
        assert(decimal_value(first.drop_last()) == 0);
        assert(decimal_value(first) == decimal_value(first.drop_last()) * 10 + (first.last()
            - 48) as nat);
        assert(decimal_value(digits) == decimal_value(first) * 10 + (digits.last() - 48) as nat);
    }
}

/// Whether every byte is an ASCII digit.
pub fn digits_only(bytes: &[u8]) -> (yes: bool)
    ensures
        yes == all_digits(bytes@),
{
    let mut i: usize = 0;
    while i < bytes.len()
        invariant
            i <= bytes@.len(),
            forall|j: int| 0 <= j < i ==> is_digit(#[trigger] bytes@[j]),
        decreases bytes@.len() - i,
    {
        if bytes[i] < 48 || bytes[i] > 57 {
            assert(!is_digit(bytes@[i as int]));
            return false;
        }
        i += 1;
    }
    true
}

/// The text of capture group `i`, if the group took part in the match.
pub open spec fn group_text(groups: Seq<Option<Seq<char>>>, i: int) -> Option<Seq<char>> {
    if 0 <= i < groups.len() {
        groups[i]
    } else {
        None
    }
}

/// The amount that the captures of the amount pattern stand for: that of
/// the first group, zero where there is no match.
pub open spec fn spec_amount_from(captures: Option<Seq<Option<Seq<char>>>>) -> u64 {
    match captures {
        Some(groups) => match group_text(groups, 1) {
            Some(text) => spec_amount(encode_utf8(text)),
            None => 0,
        },
        None => 0,
    }
}

fn group_at(groups: &Vec<Option<String>>, i: usize) -> (text: Option<&String>)
    ensures
        match group_text(groups_view(groups@), i as int) {
            Some(t) => text matches Some(found) && found@ == t,
            None => text is None,
        },
{
    if i < groups.len() {
        match &groups[i] {
            Some(text) => Some(text),
            None => None,
        }
    } else {
        None
    }
}

/// Reads the amount from the captures of the amount pattern.
pub fn amount_from_captures(captures: &Option<Vec<Option<String>>>) -> (amount: u64)
    ensures
        amount == spec_amount_from(
            match *captures {
                Some(groups) => Some(groups_view(groups@)),
                None => None,
            },
        ),
{
    match captures {
        Some(groups) => match group_at(groups, 1) {
            Some(text) => parse_amount(text.as_str()),
            None => 0,
        },
        None => 0,
    }
}

/// The number of a month by its full English name; an unknown name counts
/// as January.
pub open spec fn spec_month_number(name: Seq<char>) -> u32 {
    if name == "February"@ {
        2
    } else if name == "March"@ {
        3
    } else if name == "April"@ {
        4
    } else if name == "May"@ {
        5
    } else if name == "June"@ {
        6
    } else if name == "July"@ {
        7
    } else if name == "August"@ {
        8
    } else if name == "September"@ {
        9
    } else if name == "October"@ {
        10
    } else if name == "November"@ {
        11
    } else if name == "December"@ {
        12
    } else {
        1
    }
}

/// The number of a month by its full English name.
pub fn month_number(name: &str) -> (month: u32)
    ensures
        month == spec_month_number(name@),
{
    if text_eq(name, "February") {
        2
    } else if text_eq(name, "March") {
        3
    } else if text_eq(name, "April") {
        4
    } else if text_eq(name, "May") {
        5
    } else if text_eq(name, "June") {
        6
    } else if text_eq(name, "July") {
        7
    } else if text_eq(name, "August") {
        8
    } else if text_eq(name, "September") {
        9
    } else if text_eq(name, "October") {
        10
    } else if text_eq(name, "November") {
        11
    } else if text_eq(name, "December") {
        12
    } else {
        1
    }
}

/// The number that a capture group spells, or `fallback` where the group is
/// missing, is not made of ASCII digits, or spells more than `limit`.
pub open spec fn spec_number_or(text: Option<Seq<char>>, limit: u64, fallback: u64) -> u64 {
    match text {
        Some(t) => match spec_parse_decimal(encode_utf8(t)) {
            Some(value) => if value <= limit {
                value
            } else {
                fallback
            },
            None => fallback,
        },
        None => fallback,
    }
}

fn number_or(text: Option<&String>, limit: u64, fallback: u64) -> (value: u64)
    ensures
        value == spec_number_or(
            match text {
                Some(t) => Some(t@),
                None => None,
            },
            limit,
            fallback,
        ),
{
    match text {
        Some(t) => match parse_decimal(t.as_str().as_bytes()) {
            Some(value) => if value <= limit {
                value
            } else {
                fallback
            },
            None => fallback,
        },
        None => fallback,
    }
}

/// The day that the captures of the date pattern name, as year, month and
/// day: an unreadable day counts as the first, an unreadable year as 2025.
pub open spec fn spec_date_parts(groups: Seq<Option<Seq<char>>>) -> (i32, u32, u32) {
    (
        spec_number_or(group_text(groups, 3), 0x7fff_ffff, 2025) as i32,
        match group_text(groups, 1) {
            Some(name) => spec_month_number(name),
            None => 1,
        },
        spec_number_or(group_text(groups, 2), 0xffff_ffff, 1) as u32,
    )
}

/// Reads year, month and day from the captures of the date pattern.
pub fn date_parts(groups: &Vec<Option<String>>) -> (parts: (i32, u32, u32))
    ensures
        parts == spec_date_parts(groups_view(groups@)),
{
    let month: u32 = match group_at(groups, 1) {
        Some(name) => month_number(name.as_str()),
        None => 1,
    };
    let day: u64 = number_or(group_at(groups, 2), 0xffff_ffff, 1);
    let year: u64 = number_or(group_at(groups, 3), 0x7fff_ffff, 2025);
    (year as i32, month, day as u32)
}

/// The due date that the captures of the date pattern stand for: midnight
/// at the start of the day they name, or zero where there is no match or no
/// such day.
pub open spec fn spec_due_date_from(captures: Option<Seq<Option<Seq<char>>>>) -> i64 {
    match captures {
        Some(groups) => {
            let parts = spec_date_parts(groups);
            match civil_timestamp(parts.0 as int, parts.1 as int, parts.2 as int, 0, 0, 0) {
                Some(t) => t as i64,
                None => 0,
            }
        },
        None => 0,
    }
}

/// Reads the due date from the captures of the date pattern.
pub fn due_date_from_captures(captures: &Option<Vec<Option<String>>>) -> (due_date: i64)
    ensures
        due_date == spec_due_date_from(
            match *captures {
                Some(groups) => Some(groups_view(groups@)),
                None => None,
            },
        ),
{
    match captures {
        Some(groups) => {
            let (year, month, day) = date_parts(groups);
            match utc_timestamp(year, month, day, 0, 0, 0) {
                Some(t) => t,
                None => 0,
            }
        },
        None => 0,
    }
}

/// Reads the vendor's name, the amount and the due date, in that order,
/// from the recognised text of a document. The amount is zero and the due
/// date is zero where the text does not show them.
pub fn parse_invoice(text: &str) -> (parsed: (String, u64, i64))
    ensures
        parsed.0@ == spec_vendor(text@),
        parsed.1 == spec_amount_from(regex_first_captures(AMOUNT_PATTERN@, text@)),
        parsed.2 == spec_due_date_from(regex_first_captures(DATE_PATTERN@, text@)),
{
    let vendor = extract_vendor(text);
    let amount = amount_from_captures(&regex_captures(AMOUNT_PATTERN, text));
    let due_date = due_date_from_captures(&regex_captures(DATE_PATTERN, text));
    (vendor, amount, due_date)
}

} // verus!
