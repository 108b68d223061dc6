use invoice_claim::extract::{
    amount_from_captures, date_parts, due_date_from_captures, extract_vendor, month_number,
    parse_amount, parse_invoice, pick_vendor,
};
use invoice_claim::text::{
    has_byte, parse_decimal, split_lines, text_after, text_eq, trimmed_lines,
};

const SAMPLE: &str = "INVOICE #42\nBill to\n\n  billing@acme.example  \n  Acme Co  \n12 Main Street\n\nTotal\n$123.45 due March 15, 2025\nThank you";

fn groups(parts: &[Option<&str>]) -> Option<Vec<Option<String>>> {
    Some(parts.iter().map(|p| p.map(|s| s.to_string())).collect())
}

#[test]
fn parse_invoice_reads_vendor_amount_and_due_date() {
    assert_eq!(parse_invoice(SAMPLE), ("Acme Co".to_string(), 123_450_000, 1_741_996_800));
}

#[test]
fn parse_invoice_of_empty_text() {
    assert_eq!(parse_invoice(""), ("Unknown Vendor".to_string(), 0, 0));
}

#[test]
fn vendor_is_first_fitting_line_after_the_marker_line() {
    assert_eq!(extract_vendor("Bill to\nAcme Co\nOther"), "Acme Co");
    // what is left of the marker's own line is skipped
    assert_eq!(extract_vendor("Bill to: John Smith\nAcme Co\n"), "Acme Co");
    assert_eq!(extract_vendor("x Bill to\r\n\r\n \t \r\nmail@x.org\r\n  Zoë GmbH \r\nnext"), "Zoë GmbH");
    // the first marker counts
    assert_eq!(extract_vendor("Bill to\nFirst\nBill to\nSecond"), "First");
}

#[test]
fn vendor_is_unknown_where_no_line_fits() {
    assert_eq!(extract_vendor("Bill to"), "Unknown Vendor");
    assert_eq!(extract_vendor("Bill to Acme Co"), "Unknown Vendor");
    assert_eq!(extract_vendor("Bill to\n\n  \na@b.c\n"), "Unknown Vendor");
    // with the marker present the name pattern is not consulted
    assert_eq!(extract_vendor("John Smith\nBill to\n"), "Unknown Vendor");
}

#[test]
fn vendor_falls_back_to_two_capitalised_words() {
    assert_eq!(extract_vendor("invoice for John Smith, esq."), "John Smith");
    assert_eq!(extract_vendor("ACME corp and Mary  Jones and Peter Pan"), "Mary  Jones");
    assert_eq!(extract_vendor("no names here"), "Unknown Vendor");
    assert_eq!(extract_vendor("bill to\nAcme"), "Unknown Vendor");
}

#[test]
fn pick_vendor_skips_first_empty_and_address_lines() {
    let lines = |v: &[&str]| v.iter().map(|s| s.to_string()).collect::<Vec<_>>();
    assert_eq!(pick_vendor(&lines(&["Skipped", "", "a@b", "Name", "Later"])), Some("Name".to_string()));
    assert_eq!(pick_vendor(&lines(&["Only"])), None);
    assert_eq!(pick_vendor(&lines(&[])), None);
    assert_eq!(pick_vendor(&lines(&["x", "", "@"])), None);
}

#[test]
fn text_helpers() {
    assert_eq!(text_after("a--b--c", "--"), Some("b--c".to_string()));
    assert_eq!(text_after("abc", "--"), None);
    assert_eq!(text_after("abc--", "--"), Some(String::new()));
    assert_eq!(text_after("é€x€y", "€"), Some("x€y".to_string()));
    assert_eq!(trimmed_lines(" a \n\tb\r\n\n c"), vec!["a", "b", "", "c"]);
    assert_eq!(trimmed_lines(""), Vec::<String>::new());
    assert!(has_byte("a@b", 64));
    assert!(!has_byte("ab", 64));
    assert!(text_eq("May", "May"));
    assert!(!text_eq("May", "may"));
    assert!(!text_eq("May", "Mayo"));
    assert!(text_eq("", ""));
}

#[test]
fn decimal_digits() {
    assert_eq!(parse_decimal(b"0"), Some(0));
    assert_eq!(parse_decimal(b"007"), Some(7));
    assert_eq!(parse_decimal(b"2025"), Some(2025));
    assert_eq!(parse_decimal(b"18446744073709551615"), Some(u64::MAX));
    assert_eq!(parse_decimal(b"18446744073709551616"), None);
    assert_eq!(parse_decimal(b"99999999999999999999999"), None);
    assert_eq!(parse_decimal(b""), None);
    assert_eq!(parse_decimal(b"12a"), None);
    assert_eq!(parse_decimal(b"+5"), None);
    assert_eq!(parse_decimal(b"-5"), None);
    assert_eq!(parse_decimal(" 5".as_bytes()), None);
    assert_eq!(parse_decimal("٣".as_bytes()), None);
}

#[test]
fn amount_is_scaled_to_six_decimals() {
    assert_eq!(parse_amount("123.45"), 123_450_000);
    assert_eq!(parse_amount("0.29"), 290_000);
    assert_eq!(parse_amount("0.01"), 10_000);
    assert_eq!(parse_amount("0.00"), 0);
    assert_eq!(parse_amount("1.10"), 1_100_000);
    assert_eq!(parse_amount("0500000.99"), 500_000_990_000);
    assert_eq!(parse_amount("18446744073709.55"), 18_446_744_073_709_550_000);
    // more than 64 bits hold
    assert_eq!(parse_amount("18446744073709.56"), u64::MAX);
    assert_eq!(parse_amount("99999999999999999999999999.00"), u64::MAX);
}

#[test]
fn amount_of_another_form_is_zero() {
    for text in ["", "1", "1.5", ".50", "1.234", "1,23", "12.3a", "a2.30", "-1.00", "1.00 ", "１.００"] {
        assert_eq!(parse_amount(text), 0);
    }
}

#[test]
fn amount_comes_from_first_group() {
    assert_eq!(amount_from_captures(&groups(&[Some("$5.00 due"), Some("5.00")])), 5_000_000);
    assert_eq!(amount_from_captures(&groups(&[Some("$5.00 due")])), 0);
    assert_eq!(amount_from_captures(&groups(&[Some("$5.00 due"), None])), 0);
    assert_eq!(amount_from_captures(&groups(&[])), 0);
    assert_eq!(amount_from_captures(&None), 0);
}

#[test]
fn amount_needs_the_word_due() {
    assert_eq!(parse_invoice("Total $99.99 due now").1, 99_990_000);
    assert_eq!(parse_invoice("Total $99.99\n\t due").1, 99_990_000);
    assert_eq!(parse_invoice("Total $99.99").1, 0);
    assert_eq!(parse_invoice("Total $99.99due").1, 0);
    assert_eq!(parse_invoice("Total $99.9 due").1, 0);
    assert_eq!(parse_invoice("Total 99.99 due").1, 0);
    // the first match counts
    assert_eq!(parse_invoice("$1.00 due and $2.00 due").1, 1_000_000);
}

#[test]
fn month_names() {
    let names = [
        "January", "February", "March", "April", "May", "June", "July", "August", "September",
        "October", "November", "December",
    ];
    for (i, name) in names.iter().enumerate() {
        assert_eq!(month_number(name), i as u32 + 1);
    }
    assert_eq!(month_number("january"), 1);
    assert_eq!(month_number("Smarch"), 1);
    assert_eq!(month_number(""), 1);
}

#[test]
fn date_parts_with_fallbacks() {
    let g = groups(&[Some("March 15, 2025"), Some("March"), Some("15"), Some("2025")]).unwrap();
    assert_eq!(date_parts(&g), (2025, 3, 15));
    let g = groups(&[Some("x"), Some("Smarch"), Some("٣"), Some("٢٠٢٥")]).unwrap();
    assert_eq!(date_parts(&g), (2025, 1, 1));
    let g = groups(&[Some("x"), None, Some("4294967296"), Some("2147483648")]).unwrap();
    assert_eq!(date_parts(&g), (2025, 1, 1));
    let g = groups(&[Some("x"), Some("May"), Some("4294967295"), Some("2147483647")]).unwrap();
    assert_eq!(date_parts(&g), (i32::MAX, 5, u32::MAX));
    assert_eq!(date_parts(&Vec::new()), (2025, 1, 1));
}

#[test]
fn due_date_is_midnight_utc_of_the_named_day() {
    let at = |m: &str, d: &str, y: &str| {
        due_date_from_captures(&groups(&[Some("whole"), Some(m), Some(d), Some(y)]))
    };
    assert_eq!(at("March", "15", "2025"), 1_741_996_800);
    assert_eq!(at("December", "31", "2030"), 1_924_905_600);
    assert_eq!(at("February", "29", "2024"), 1_709_164_800);
    assert_eq!(at("January", "1", "1970"), 0);
    assert_eq!(at("January", "2", "1970"), 86_400);
    assert_eq!(at("December", "31", "1969"), -86_400);
    // days that the calendar does not have
    assert_eq!(at("February", "29", "2025"), 0);
    assert_eq!(at("February", "30", "2024"), 0);
    assert_eq!(at("April", "31", "2025"), 0);
    assert_eq!(at("March", "0", "2025"), 0);
    assert_eq!(at("March", "99", "2025"), 0);
    assert_eq!(due_date_from_captures(&None), 0);
}

#[test]
fn due_date_in_text() {
    assert_eq!(parse_invoice("Due: March 15, 2025").2, 1_741_996_800);
    assert_eq!(parse_invoice("Due: March  5,\n2025").2, 1_741_132_800);
    assert_eq!(parse_invoice("Due: Mar 15, 2025").2, 0);
    assert_eq!(parse_invoice("Due: March 15 2025").2, 0);
    assert_eq!(parse_invoice("Due: March 15, 25").2, 0);
    // the first match counts
    assert_eq!(parse_invoice("March 15, 2025 or December 31, 2030").2, 1_741_996_800);
}

#[test]
fn lines_end_at_line_feeds() {
    let none: Vec<String> = Vec::new();
    assert_eq!(split_lines(""), none);
    assert_eq!(split_lines("a"), vec!["a"]);
    assert_eq!(split_lines("a\n"), vec!["a"]);
    assert_eq!(split_lines("a\nb"), vec!["a", "b"]);
    assert_eq!(split_lines("\n"), vec![""]);
    assert_eq!(split_lines("\n\n"), vec!["", ""]);
    assert_eq!(split_lines("a\n\nb\n"), vec!["a", "", "b"]);
    assert_eq!(split_lines(" a \n\tb"), vec![" a ", "\tb"]);
    assert_eq!(split_lines("é€\n𝄞"), vec!["é€", "𝄞"]);
}

#[test]
fn a_carriage_return_before_a_line_feed_belongs_to_the_line_ending() {
    assert_eq!(split_lines("a\r\nb"), vec!["a", "b"]);
    assert_eq!(split_lines("\r\n"), vec![""]);
    assert_eq!(split_lines("a\r\n"), vec!["a"]);
    // only one, and only before a line feed
    assert_eq!(split_lines("a\r\r\nb"), vec!["a\r", "b"]);
    assert_eq!(split_lines("a\rb\nc"), vec!["a\rb", "c"]);
    assert_eq!(split_lines("a\r"), vec!["a\r"]);
    assert_eq!(split_lines("a\nb\r"), vec!["a", "b\r"]);
    assert_eq!(split_lines("\r"), vec!["\r"]);
}
