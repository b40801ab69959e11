use gami::text::{contains_str, distinct, normalize_id, parse_decimal};
use gami::models::{GameData, GameMetadata};
use gami::steam::store::release_date_from_captures;
use gami::time::{checked_instant, CalendarDate};

#[test]
fn normalize_id_trims_ascii_whitespace_at_both_ends() {
    assert_eq!(normalize_id("  ab \t"), "ab");
    assert_eq!(normalize_id("\r\n 23 \n"), "23");
    assert_eq!(normalize_id("a b"), "a b");
    assert_eq!(normalize_id(""), "");
    assert_eq!(normalize_id(" \t\n\r\x0c"), "");
}

#[test]
fn normalize_id_is_idempotent() {
    for raw in ["  70 ", "70", "\t a  b \n", "", "   "] {
        let once = normalize_id(raw);
        let twice = normalize_id(&once);
        assert_eq!(once, twice);
    }
}

#[test]
fn normalize_id_keeps_other_whitespace() {
    assert_eq!(normalize_id("\u{a0}x\u{a0}"), "\u{a0}x\u{a0}");
    assert_eq!(normalize_id("\u{b}x"), "\u{b}x");
}

#[test]
fn parse_decimal_reads_digits_only() {
    assert_eq!(parse_decimal("0"), Some(0));
    assert_eq!(parse_decimal("007"), Some(7));
    assert_eq!(parse_decimal("1502970"), Some(1502970));
    assert_eq!(parse_decimal("18446744073709551615"), Some(u64::MAX));
    assert_eq!(parse_decimal("18446744073709551616"), None);
    assert_eq!(parse_decimal("99999999999999999999999"), None);
    assert_eq!(parse_decimal(""), None);
    assert_eq!(parse_decimal("+5"), None);
    assert_eq!(parse_decimal("-5"), None);
    assert_eq!(parse_decimal("12a"), None);
    assert_eq!(parse_decimal(" 12"), None);
    assert_eq!(parse_decimal("１２"), None);
}

#[test]
fn distinct_keeps_first_occurrences_in_order() {
    let items: Vec<String> = ["b", "a", "b", "c", "a"].iter().map(|s| s.to_string()).collect();
    assert_eq!(distinct(&items), vec!["b", "a", "c"]);
    assert_eq!(distinct(&Vec::new()), Vec::<String>::new());
}

#[test]
fn contains_str_compares_by_contents() {
    let items: Vec<String> = vec!["10".to_string(), "20".to_string()];
    assert!(contains_str(&items, "20"));
    assert!(!contains_str(&items, "2"));
    assert!(!contains_str(&Vec::new(), ""));
}

fn released(secs: u32) -> Option<CalendarDate> {
    let mut game = GameData::default();
    let mut metadata = GameMetadata::default();
    metadata.release_date_timestamp = Some(secs);
    game.extend(metadata);
    game.release_date
}

fn midnight(year: &str, month: &str, day: &str) -> Option<i64> {
    let groups = vec![
        Some(day.to_string()),
        Some(month.to_string()),
        Some(year.to_string()),
        None,
        None,
        None,
    ];
    release_date_from_captures(&groups)
}

#[test]
fn the_date_of_a_timestamp_follows_the_calendar() {
    assert_eq!(released(0), Some(CalendarDate { year: 1970, month: 1, day: 1 }));
    assert_eq!(released(86399), Some(CalendarDate { year: 1970, month: 1, day: 1 }));
    assert_eq!(released(86400), Some(CalendarDate { year: 1970, month: 1, day: 2 }));
    assert_eq!(released(1431648000), Some(CalendarDate { year: 2015, month: 5, day: 15 }));
    assert_eq!(released(1431734399), Some(CalendarDate { year: 2015, month: 5, day: 15 }));
    assert_eq!(released(951782400), Some(CalendarDate { year: 2000, month: 2, day: 29 }));
    assert_eq!(released(u32::MAX), Some(CalendarDate { year: 2106, month: 2, day: 7 }));
}

#[test]
fn the_timestamp_of_a_date_is_midnight_utc() {
    assert_eq!(midnight("1970", "Jan", "1"), Some(0));
    assert_eq!(midnight("2015", "May", "15"), Some(1431648000));
    assert_eq!(midnight("2015", "Mar", "14"), Some(1426291200));
    assert_eq!(midnight("1969", "Dec", "31"), Some(-86400));
    assert_eq!(midnight("2015", "Feb", "29"), None);
    assert_eq!(midnight("2016", "Feb", "29"), Some(1456704000));
    assert_eq!(midnight("2015", "Jan", "0"), None);
    assert_eq!(midnight("2015", "Apr", "31"), None);
    assert_eq!(midnight("400000", "Jan", "1"), None);
    assert_eq!(midnight("0", "Jan", "1"), Some(-62167219200));
}

#[test]
fn timestamp_and_date_agree() {
    for (y, m, d, name) in [(1970, 1, 1, "Jan"), (2000, 2, 29, "Feb"), (2024, 12, 31, "Dec"), (1999, 7, 4, "Jul")] {
        let secs = midnight(&y.to_string(), name, &d.to_string()).unwrap();
        assert_eq!(released(secs as u32), Some(CalendarDate { year: y, month: m, day: d }));
    }
}

#[test]
fn checked_instant_keeps_what_the_calendar_reaches() {
    assert_eq!(checked_instant(0), Some(0));
    assert_eq!(checked_instant(1431648000), Some(1431648000));
    assert_eq!(checked_instant(u64::MAX), None);
    assert_eq!(checked_instant(i64::MAX as u64), None);
    assert_eq!(checked_instant(8210266876799), Some(8210266876799));
    assert_eq!(checked_instant(8210266876800), None);
}
