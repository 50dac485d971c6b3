use calendar_cli::date::{
    date_le, datetime_le, grid_range, grid_range_ok, next_month, num_days_in_month,
    num_days_in_month_ok, prev_month, Date, DateTime, Time,
};

fn d(year: i32, month: u32, day: u32) -> Date {
    Date { year, month, day }
}

#[test]
fn prev_month_from_january_is_december_of_the_year_before() {
    assert_eq!(prev_month(d(2026, 1, 15)), d(2025, 12, 1));
}

#[test]
fn prev_month_within_a_year() {
    assert_eq!(prev_month(d(2026, 5, 27)), d(2026, 4, 1));
}

#[test]
fn next_month_from_december_is_january_of_the_next_year() {
    assert_eq!(next_month(d(2025, 12, 31)), d(2026, 1, 1));
}

#[test]
fn next_month_within_a_year() {
    assert_eq!(next_month(d(2026, 1, 31)), d(2026, 2, 1));
}

#[test]
fn a_month_forward_then_back_gives_the_first_of_the_month() {
    let start = d(2026, 3, 17);
    assert_eq!(prev_month(next_month(start)), d(2026, 3, 1));
    assert_eq!(next_month(prev_month(start)), d(2026, 3, 1));
}

#[test]
fn days_in_each_kind_of_month() {
    assert_eq!(num_days_in_month(2024, 2), 29);
    assert_eq!(num_days_in_month(2023, 2), 28);
    assert_eq!(num_days_in_month(1900, 2), 28);
    assert_eq!(num_days_in_month(2000, 2), 29);
    assert_eq!(num_days_in_month(2026, 4), 30);
    assert_eq!(num_days_in_month(2026, 12), 31);
    assert_eq!(num_days_in_month(2026, 1), 31);
}

#[test]
fn month_zero_is_the_december_before() {
    assert_eq!(num_days_in_month(2026, 0), 31);
}

#[test]
fn days_in_month_is_defined_within_chronos_range_only() {
    assert!(num_days_in_month_ok(2026, 5));
    assert!(!num_days_in_month_ok(262142, 12));
    assert!(!num_days_in_month_ok(2026, 13));
    assert!(!num_days_in_month_ok(-262143, 0));
}

#[test]
fn grid_starts_on_monday_before_the_month() {
    // 2026-05-01 is a Friday.
    let (start, end) = grid_range(d(2026, 5, 1), 0);
    assert_eq!(start, d(2026, 4, 27));
    assert_eq!(end, d(2026, 6, 7));
}

#[test]
fn grid_starts_on_sunday_when_weeks_start_on_sunday() {
    let (start, end) = grid_range(d(2026, 5, 1), 1);
    assert_eq!(start, d(2026, 4, 26));
    assert_eq!(end, d(2026, 6, 6));
}

#[test]
fn grid_of_a_month_starting_on_monday_starts_on_its_first_day() {
    // 2026-06-01 is a Monday.
    let (start, end) = grid_range(d(2026, 6, 1), 0);
    assert_eq!(start, d(2026, 6, 1));
    assert_eq!(end, d(2026, 7, 12));
}

#[test]
fn grid_near_the_last_supported_date_is_refused() {
    assert!(grid_range_ok(d(2026, 5, 1), 0));
    assert!(!grid_range_ok(d(262142, 12, 1), 0));
}

#[test]
fn dates_compare_by_year_then_month_then_day() {
    assert!(date_le(d(2025, 12, 31), d(2026, 1, 1)));
    assert!(date_le(d(2026, 1, 1), d(2026, 1, 1)));
    assert!(!date_le(d(2026, 2, 1), d(2026, 1, 31)));
}

#[test]
fn moments_compare_by_date_then_time() {
    let a = DateTime { date: d(2026, 5, 27), time: Time { hour: 9, minute: 0, second: 0 } };
    let b = DateTime { date: d(2026, 5, 27), time: Time { hour: 10, minute: 0, second: 0 } };
    let c = DateTime { date: d(2026, 5, 26), time: Time { hour: 23, minute: 0, second: 0 } };
    assert!(datetime_le(a, b));
    assert!(!datetime_le(b, a));
    assert!(datetime_le(c, a));
    assert!(datetime_le(a, a));
}
