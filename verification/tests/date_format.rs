use rusty_diary::date::{format_date, today_date_string};
use rusty_diary::decimal::u64_to_string;
use rusty_diary::journal::json_entry_document;

#[test]
fn numbers_render_in_decimal() {
    assert_eq!(u64_to_string(0), "0");
    assert_eq!(u64_to_string(7), "7");
    assert_eq!(u64_to_string(10), "10");
    assert_eq!(u64_to_string(90210), "90210");
    assert_eq!(u64_to_string(u64::MAX), "18446744073709551615");
}

#[test]
fn dates_render_with_padded_month_and_day() {
    assert_eq!(format_date(2025, 3, 7), "2025-03-07");
    assert_eq!(format_date(2025, 12, 31), "2025-12-31");
    assert_eq!(format_date(476, 9, 4), "476-09-04");
    assert_eq!(format_date(0, 1, 1), "0-01-01");
    assert_eq!(format_date(-44, 3, 15), "-44-03-15");
}

#[test]
fn today_has_the_date_stamp_shape() {
    let today = today_date_string();
    let dashes: Vec<usize> = today
        .char_indices()
        .filter(|(_, c)| *c == '-')
        .map(|(i, _)| i)
        .collect();
    assert!(dashes.len() >= 2);
    let n = today.len();
    assert!(dashes.contains(&(n - 3)));
    assert!(dashes.contains(&(n - 6)));
}

#[test]
fn json_document_holds_date_and_content() {
    let doc = json_entry_document("2025-03-07", "a quiet day").unwrap();
    assert!(doc.contains("\"date\": \"2025-03-07\""));
    assert!(doc.contains("\"content\": \"a quiet day\""));
    assert!(doc.contains("\"processed_at\": "));
    assert!(doc.starts_with('{'));
    assert!(doc.ends_with('}'));
}

#[test]
fn json_document_escapes_quotes_in_content() {
    let doc = json_entry_document("2025-03-07", "said \"hi\"").unwrap();
    assert!(doc.contains("\"content\": \"said \\\"hi\\\"\""));
}
