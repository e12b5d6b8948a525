use photo_book::capture_time::parse_capture_time;
use photo_book::naming::page_file_name;
use photo_book::timestamp::Timestamp;
use photo_book::timestamp::days_in_month;
use photo_book::timestamp::is_leap_year;

fn ts(year: i32, month: u32, day: u32, hour: u32, minute: u32, second: u32) -> Timestamp {
    Timestamp { year, month, day, hour, minute, second }
}

fn parse_str(s: &str) -> Option<Timestamp> {
    parse_capture_time(&s.as_bytes().to_vec())
}

#[test]
fn parses_canonical_datetime() {
    assert_eq!(parse_str("2020-01-02 10:00:00"), Some(ts(2020, 1, 2, 10, 0, 0)));
}

#[test]
fn parses_short_components() {
    assert_eq!(parse_str("987-1-2 3:4:5"), Some(ts(987, 1, 2, 3, 4, 5)));
}

#[test]
fn parses_extra_leading_zeros() {
    assert_eq!(parse_str("0002020-001-02 10:00:00"), Some(ts(2020, 1, 2, 10, 0, 0)));
}

#[test]
fn rejects_colon_separated_date() {
    assert_eq!(parse_str("2020:01:02 10:00:00"), None);
}

#[test]
fn rejects_missing_time() {
    assert_eq!(parse_str("2020-01-02"), None);
}

#[test]
fn rejects_trailing_text() {
    assert_eq!(parse_str("2020-01-02 10:00:00x"), None);
}

#[test]
fn rejects_empty_text() {
    assert_eq!(parse_str(""), None);
}

#[test]
fn rejects_blank_field_text() {
    assert_eq!(parse_str("unknown"), None);
}

#[test]
fn rejects_month_thirteen() {
    assert_eq!(parse_str("2020-13-01 00:00:00"), None);
}

#[test]
fn rejects_month_zero() {
    assert_eq!(parse_str("2020-00-01 00:00:00"), None);
}

#[test]
fn rejects_day_zero() {
    assert_eq!(parse_str("2020-01-00 00:00:00"), None);
}

#[test]
fn rejects_hour_twenty_four() {
    assert_eq!(parse_str("2020-01-02 24:00:00"), None);
}

#[test]
fn rejects_minute_sixty() {
    assert_eq!(parse_str("2020-01-02 10:60:00"), None);
}

#[test]
fn rejects_second_sixty() {
    assert_eq!(parse_str("2020-01-02 10:00:60"), None);
}

#[test]
fn rejects_five_digit_year() {
    assert_eq!(parse_str("10000-01-01 00:00:00"), None);
}

#[test]
fn accepts_leap_day_in_leap_year() {
    assert_eq!(parse_str("2020-02-29 12:30:45"), Some(ts(2020, 2, 29, 12, 30, 45)));
}

#[test]
fn rejects_leap_day_in_common_year() {
    assert_eq!(parse_str("2019-02-29 12:30:45"), None);
}

#[test]
fn rejects_day_thirty_one_in_april() {
    assert_eq!(parse_str("2021-04-31 00:00:00"), None);
}

#[test]
fn century_leap_year_rule() {
    assert!(!is_leap_year(1900));
    assert!(is_leap_year(2000));
    assert!(is_leap_year(2024));
    assert!(!is_leap_year(2023));
}

#[test]
fn february_lengths() {
    assert_eq!(days_in_month(2020, 2), 29);
    assert_eq!(days_in_month(1900, 2), 28);
    assert_eq!(days_in_month(2021, 12), 31);
    assert_eq!(days_in_month(2021, 11), 30);
}

#[test]
fn timestamp_order_by_fields() {
    let a = ts(2020, 1, 1, 9, 0, 0);
    let b = ts(2020, 1, 2, 10, 0, 0);
    let c = ts(2020, 1, 3, 11, 0, 0);
    assert!(a.le(&b));
    assert!(b.le(&c));
    assert!(!b.le(&a));
    assert!(a.le(&a));
    let d = ts(2019, 12, 31, 23, 59, 59);
    assert!(d.le(&a));
    assert!(!a.le(&d));
}

#[test]
fn page_name_zero_padded() {
    assert_eq!(page_file_name(1), "page-001.jpg");
    assert_eq!(page_file_name(7), "page-007.jpg");
    assert_eq!(page_file_name(42), "page-042.jpg");
    assert_eq!(page_file_name(999), "page-999.jpg");
}

#[test]
fn page_name_beyond_three_digits() {
    assert_eq!(page_file_name(1000), "page-1000.jpg");
}
