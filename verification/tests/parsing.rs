use calendar_cli::date::{Date, Time};
use calendar_cli::parse::{parse_date, parse_date_ok, parse_time};

fn t(hour: u32, minute: u32) -> Time {
    Time { hour, minute, second: 0 }
}

fn d(year: i32, month: u32, day: u32) -> Date {
    Date { year, month, day }
}

// 2026-05-27 is a Wednesday.
fn today() -> Date {
    d(2026, 5, 27)
}

#[test]
fn time_in_hours_and_minutes() {
    assert_eq!(parse_time("14:30"), Ok(t(14, 30)));
    assert_eq!(parse_time("  08:05 "), Ok(t(8, 5)));
}

#[test]
fn time_with_a_single_digit_hour() {
    assert_eq!(parse_time("9:30"), Ok(t(9, 30)));
}

#[test]
fn time_with_am_or_pm() {
    assert_eq!(parse_time("2:30pm"), Ok(t(14, 30)));
    assert_eq!(parse_time("02:30PM"), Ok(t(14, 30)));
    assert_eq!(parse_time("12:15am"), Ok(t(0, 15)));
}

#[test]
fn time_written_compactly() {
    assert_eq!(parse_time("1430"), Ok(t(14, 30)));
    assert_eq!(parse_time("930"), Ok(t(9, 30)));
}

#[test]
fn time_as_a_bare_hour() {
    assert_eq!(parse_time("9"), Ok(t(9, 0)));
    assert_eq!(parse_time("23"), Ok(t(23, 0)));
}

#[test]
fn empty_time_is_required() {
    assert_eq!(parse_time(""), Err("Time is required".to_string()));
    assert_eq!(parse_time("   "), Err("Time is required".to_string()));
}

#[test]
fn invalid_time_names_the_text() {
    assert_eq!(parse_time("25:00"), Err("Invalid time \"25:00\". Try HH:MM (e.g. 14:30)".to_string()));
    assert_eq!(parse_time(" lunch "), Err("Invalid time \"lunch\". Try HH:MM (e.g. 14:30)".to_string()));
    assert_eq!(parse_time("2460"), Err("Invalid time \"2460\". Try HH:MM (e.g. 14:30)".to_string()));
    assert_eq!(parse_time("24"), Err("Invalid time \"24\". Try HH:MM (e.g. 14:30)".to_string()));
}

#[test]
fn date_words_relative_to_today() {
    assert_eq!(parse_date("today", today()), Some(today()));
    assert_eq!(parse_date("Tomorrow", today()), Some(d(2026, 5, 28)));
    assert_eq!(parse_date("YESTERDAY", today()), Some(d(2026, 5, 26)));
}

#[test]
fn date_as_days_from_today() {
    assert_eq!(parse_date("+3", today()), Some(d(2026, 5, 30)));
    assert_eq!(parse_date("+10", today()), Some(d(2026, 6, 6)));
    assert_eq!(parse_date("-7", today()), Some(d(2026, 5, 20)));
}

#[test]
fn date_in_full_formats() {
    assert_eq!(parse_date("2026-12-25", today()), Some(d(2026, 12, 25)));
    assert_eq!(parse_date("12/25/2027", today()), Some(d(2027, 12, 25)));
    assert_eq!(parse_date("December 25, 2026", today()), Some(d(2026, 12, 25)));
    assert_eq!(parse_date("Dec 25, 2026", today()), Some(d(2026, 12, 25)));
}

#[test]
fn date_without_a_year_takes_this_year() {
    assert_eq!(parse_date("December 25", today()), Some(d(2026, 12, 25)));
    assert_eq!(parse_date("Jan 2", today()), Some(d(2026, 1, 2)));
    assert_eq!(parse_date("12-25", today()), Some(d(2026, 12, 25)));
}

#[test]
fn date_as_a_day_of_this_month() {
    assert_eq!(parse_date("15", today()), Some(d(2026, 5, 15)));
    assert_eq!(parse_date("31", today()), Some(d(2026, 5, 31)));
}

#[test]
fn day_of_month_is_clamped_to_the_month() {
    assert_eq!(parse_date("31", d(2026, 2, 10)), Some(d(2026, 2, 28)));
    assert_eq!(parse_date("30", d(2024, 2, 10)), Some(d(2024, 2, 29)));
}

#[test]
fn text_that_names_no_date() {
    assert_eq!(parse_date("", today()), None);
    assert_eq!(parse_date("   ", today()), None);
    assert_eq!(parse_date("someday", today()), None);
    assert_eq!(parse_date("0", today()), None);
    assert_eq!(parse_date("32", today()), None);
    assert_eq!(parse_date("2026-02-30", today()), None);
}

#[test]
fn date_arithmetic_out_of_range_is_flagged() {
    assert!(parse_date_ok("+3", today()));
    assert!(parse_date_ok("hello", today()));
    assert!(!parse_date_ok("+999999999", today()));
    assert!(!parse_date_ok("-999999999", today()));
}
