use rusty_diary::app::JournalEntry;
use rusty_diary::config::FileFormat;
use rusty_diary::entries::{
    build_entry, entry_display_content, is_dated_stem, sort_entries_newest_first, str_le_exec,
};

fn dated_entry(date: &str) -> JournalEntry {
    JournalEntry {
        date: date.to_string(),
        content: format!("entry of {}", date),
        filename: format!("{}.md", date),
    }
}

#[test]
fn dated_stems_are_recognized() {
    assert!(is_dated_stem("2025-03-07"));
    assert!(is_dated_stem("2025-03-07-extra"));
}

#[test]
fn undated_stems_are_rejected() {
    assert!(!is_dated_stem("notes"));
    assert!(!is_dated_stem("2025-03-7"));
    assert!(!is_dated_stem("2025x03-07"));
    assert!(!is_dated_stem("2025-03x07"));
    assert!(!is_dated_stem(""));
}

#[test]
fn json_content_field_is_extracted() {
    let raw = "{\n  \"content\": \"a quiet day\",\n  \"date\": \"2025-03-07\"\n}".to_string();
    assert_eq!(entry_display_content(&FileFormat::Json, raw), "a quiet day");
}

#[test]
fn invalid_json_is_shown_raw() {
    let raw = "not json at all".to_string();
    assert_eq!(entry_display_content(&FileFormat::Json, raw.clone()), raw);
}

#[test]
fn json_without_content_field_is_shown_raw() {
    let raw = "{\"date\": \"2025-03-07\"}".to_string();
    assert_eq!(entry_display_content(&FileFormat::Json, raw.clone()), raw);
}

#[test]
fn json_with_non_string_content_is_shown_raw() {
    let raw = "{\"content\": 42}".to_string();
    assert_eq!(entry_display_content(&FileFormat::Json, raw.clone()), raw);
}

#[test]
fn non_json_formats_are_shown_raw() {
    let raw = "{\"content\": \"hidden\"}".to_string();
    assert_eq!(entry_display_content(&FileFormat::Markdown, raw.clone()), raw);
    assert_eq!(entry_display_content(&FileFormat::PlainText, raw.clone()), raw);
}

#[test]
fn build_entry_assembles_the_view() {
    let e = build_entry(
        "2025-03-07".to_string(),
        "2025-03-07.json".to_string(),
        "{\"content\": \"short\"}".to_string(),
        &FileFormat::Json,
    );
    assert_eq!(e.date, "2025-03-07");
    assert_eq!(e.filename, "2025-03-07.json");
    assert_eq!(e.content, "short");
}

#[test]
fn lexicographic_order_on_strings() {
    assert!(str_le_exec("2025-01-01", "2025-01-02"));
    assert!(!str_le_exec("2025-01-02", "2025-01-01"));
    assert!(str_le_exec("2025-01-01", "2025-01-01"));
    assert!(str_le_exec("", "anything"));
    assert!(str_le_exec("abc", "abcd"));
    assert!(!str_le_exec("abcd", "abc"));
}

#[test]
fn entries_sort_newest_first() {
    let mut entries = vec![
        dated_entry("2024-12-31"),
        dated_entry("2025-03-07"),
        dated_entry("2023-01-01"),
        dated_entry("2025-01-15"),
    ];
    sort_entries_newest_first(&mut entries);
    let dates: Vec<&str> = entries.iter().map(|e| e.date.as_str()).collect();
    assert_eq!(dates, vec!["2025-03-07", "2025-01-15", "2024-12-31", "2023-01-01"]);
}

#[test]
fn sorting_keeps_every_entry() {
    let mut entries = vec![dated_entry("2025-01-01"), dated_entry("2025-01-01"), dated_entry("2024-06-30")];
    sort_entries_newest_first(&mut entries);
    assert_eq!(entries.len(), 3);
    assert_eq!(entries[0].date, "2025-01-01");
    assert_eq!(entries[1].date, "2025-01-01");
    assert_eq!(entries[2].date, "2024-06-30");
}

#[test]
fn sorting_handles_empty_and_single_lists() {
    let mut none: Vec<JournalEntry> = vec![];
    sort_entries_newest_first(&mut none);
    assert!(none.is_empty());
    let mut one = vec![dated_entry("2025-01-01")];
    sort_entries_newest_first(&mut one);
    assert_eq!(one.len(), 1);
}
