//! Calendar dates and times of day, as plain values, with the proleptic
//! Gregorian calendar as their model. What only chrono computes (date
//! arithmetic, weekdays, parsing and formatting) goes through the wrappers
//! at the end of this file.
use vstd::prelude::*;
use chrono::{Datelike, Timelike};
use crate::text::{decimal_string, digit_char, is_digit_char, is_whitespace_char, trimmed};

verus! {

/// A calendar date: year, month (1..=12) and day of the month.
#[derive(Clone, Copy, Debug, PartialEq, Eq, Structural)]
pub struct Date {
    pub year: i32,
    pub month: u32,
    pub day: u32,
}

/// A time of day: hour (0..=23), minute and second (0..=59).
#[derive(Clone, Copy, Debug, PartialEq, Eq, Structural)]
pub struct Time {
    pub hour: u32,
    pub minute: u32,
    pub second: u32,
}

/// A date together with a time of day.
#[derive(Clone, Copy, Debug, PartialEq, Eq, Structural)]
pub struct DateTime {
    pub date: Date,
    pub time: Time,
}

// ───────────────────────── the calendar model ─────────────────────────

/// The first year that a date can have.
pub open spec fn min_year() -> int {
    -262143
}

/// The last year that a date can have.
pub open spec fn max_year() -> int {
    262142
}

/// Gregorian leap years (year 0 is a leap year).
pub open spec fn is_leap(y: int) -> bool {
    (y % 4 == 0 && y % 100 != 0) || y % 400 == 0
}

/// Number of days of month `m` in year `y`.
pub open spec fn days_in_month(y: int, m: int) -> int {
    if m == 2 {
        if is_leap(y) {
            29
        } else {
            28
        }
    } else if m == 4 || m == 6 || m == 9 || m == 11 {
        30
    } else {
        31
    }
}

/// Whether year, month and day name an existing date in the supported range.
pub open spec fn valid_ymd(y: int, m: int, d: int) -> bool {
    &&& min_year() <= y <= max_year()
    &&& 1 <= m <= 12
    &&& 1 <= d <= days_in_month(y, m)
}

/// Number of days in the months of year `y` before month `m`.
pub open spec fn days_before_month(y: int, m: int) -> int {
    let leap: int = if is_leap(y) {
        1
    } else {
        0
    };
    if m <= 1 {
        0
    } else if m == 2 {
        31
    } else if m == 3 {
        59 + leap
    } else if m == 4 {
        90 + leap
    } else if m == 5 {
        120 + leap
    } else if m == 6 {
        151 + leap
    } else if m == 7 {
        181 + leap
    } else if m == 8 {
        212 + leap
    } else if m == 9 {
        243 + leap
    } else if m == 10 {
        273 + leap
    } else if m == 11 {
        304 + leap
    } else {
        334 + leap
    }
}

/// Days from 0001-01-01 (a Monday) to the given date.
pub open spec fn day_number(y: int, m: int, d: int) -> int {
    365 * (y - 1) + (y - 1) / 4 - (y - 1) / 100 + (y - 1) / 400 + days_before_month(y, m) + d - 1
}

/// Whether a day number lies between the first and the last supported date.
pub open spec fn day_number_in_range(k: int) -> bool {
    day_number(min_year(), 1, 1) <= k <= day_number(max_year(), 12, 31)
}

impl Date {
    /// Whether this is an existing date in the supported range.
    pub open spec fn valid(self) -> bool {
        valid_ymd(self.year as int, self.month as int, self.day as int)
    }

    /// Days from 0001-01-01 to this date.
    pub open spec fn num(self) -> int {
        day_number(self.year as int, self.month as int, self.day as int)
    }

    /// Weekday, counted from Monday (0) to Sunday (6).
    pub open spec fn weekday_from_monday(self) -> int {
        self.num() % 7
    }

    /// Weekday, counted from Sunday (0) to Saturday (6).
    pub open spec fn weekday_from_sunday(self) -> int {
        (self.num() + 1) % 7
    }

    /// Whether this date comes no later than `other`.
    pub open spec fn le(self, other: Date) -> bool {
        self.year < other.year || (self.year == other.year && (self.month < other.month || (
        self.month == other.month && self.day <= other.day)))
    }

    /// Whether this date and `other` lie in the same month of the same year.
    pub open spec fn same_month(self, other: Date) -> bool {
        self.year == other.year && self.month == other.month
    }
}

impl Time {
    /// Whether the fields name an existing time of day.
    pub open spec fn valid(self) -> bool {
        self.hour < 24 && self.minute < 60 && self.second < 60
    }

    /// Whether this time comes no later than `other`.
    pub open spec fn le(self, other: Time) -> bool {
        self.hour < other.hour || (self.hour == other.hour && (self.minute < other.minute || (
        self.minute == other.minute && self.second <= other.second)))
    }
}

impl DateTime {
    /// Whether date and time are both valid.
    pub open spec fn valid(self) -> bool {
        self.date.valid() && self.time.valid()
    }

    /// Whether this moment comes no later than `other`.
    pub open spec fn le(self, other: DateTime) -> bool {
        if self.date == other.date {
            self.time.le(other.time)
        } else {
            self.date.le(other.date)
        }
    }
}

/// Whether `a` comes no later than `b`.
pub fn date_le(a: Date, b: Date) -> (r: bool)
    ensures
        r == a.le(b),
{
    a.year < b.year || (a.year == b.year && (a.month < b.month || (a.month == b.month && a.day
        <= b.day)))
}

/// Whether `a` comes no later than `b`.
pub fn datetime_le(a: DateTime, b: DateTime) -> (r: bool)
    ensures
        r == a.le(b),
{
    if a.date == b.date {
        let (x, y) = (a.time, b.time);
        x.hour < y.hour || (x.hour == y.hour && (x.minute < y.minute || (x.minute == y.minute
            && x.second <= y.second)))
    } else {
        date_le(a.date, b.date)
    }
}

/// The first day of the month of `d`.
pub open spec fn first_of_month(d: Date) -> Date {
    Date { year: d.year, month: d.month, day: 1 }
}

// ───────────────────────── day numbers identify dates ─────────────────────────

/// Day number of the first day of year `y`.
pub open spec fn year_start(y: int) -> int {
    day_number(y, 1, 1)
}

/// Number of days of year `y`.
pub open spec fn year_length(y: int) -> int {
    if is_leap(y) {
        366
    } else {
        365
    }
}

proof fn lemma_div_step(x: int, k: int)
    requires
        k == 4 || k == 100 || k == 400,
    ensures
        (x + 1) / k - x / k == (if (x + 1) % k == 0 { 1int } else { 0int }),
{
    vstd::arithmetic::div_mod::lemma_fundamental_div_mod(x, k);
    vstd::arithmetic::div_mod::lemma_fundamental_div_mod(x + 1, k);
    assert(0 <= x % k < k);
    assert(0 <= (x + 1) % k < k);
}

/// A year starts one year length after the year before it.
pub proof fn lemma_year_start_step(y: int)
    ensures
        year_start(y + 1) == year_start(y) + year_length(y),
{
    lemma_div_step(y - 1, 4);
    lemma_div_step(y - 1, 100);
    lemma_div_step(y - 1, 400);
}

/// Later years start later.
pub proof fn lemma_year_start_mono(a: int, b: int)
    requires
        a < b,
    ensures
        year_start(a) + year_length(a) <= year_start(b),
    decreases b - a,
{
    lemma_year_start_step(a);
    if a + 1 < b {
        lemma_year_start_mono(a + 1, b);
    }
}

/// A valid date lies within its year.
proof fn lemma_in_year(d: Date)
    requires
        d.valid(),
    ensures
        year_start(d.year as int) <= d.num() < year_start(d.year as int) + year_length(d.year as int),
{
}

/// Within a year, an earlier month ends before a later one starts.
proof fn lemma_months_ordered(y: int, m: int, m2: int, d: int)
    requires
        1 <= m < m2 <= 12,
        1 <= d <= days_in_month(y, m),
    ensures
        days_before_month(y, m) + d <= days_before_month(y, m2),
{
}

/// Two valid dates with the same day number are the same date.
pub proof fn lemma_day_number_injective(a: Date, b: Date)
    requires
        a.valid(),
        b.valid(),
        a.num() == b.num(),
    ensures
        a == b,
{
    lemma_in_year(a);
    lemma_in_year(b);
    if a.year < b.year {
        lemma_year_start_mono(a.year as int, b.year as int);
    } else if b.year < a.year {
        lemma_year_start_mono(b.year as int, a.year as int);
    } else {
        let y = a.year as int;
        if a.month < b.month {
            lemma_months_ordered(y, a.month as int, b.month as int, a.day as int);
        } else if b.month < a.month {
            lemma_months_ordered(y, b.month as int, a.month as int, b.day as int);
        }
    }
}

/// For valid dates, coming no later is having no larger day number.
pub proof fn lemma_le_iff_num(a: Date, b: Date)
    requires
        a.valid(),
        b.valid(),
    ensures
        a.le(b) <==> a.num() <= b.num(),
{
    lemma_in_year(a);
    lemma_in_year(b);
    if a.year < b.year {
        lemma_year_start_mono(a.year as int, b.year as int);
    } else if b.year < a.year {
        lemma_year_start_mono(b.year as int, a.year as int);
    } else {
        let y = a.year as int;
        if a.month < b.month {
            lemma_months_ordered(y, a.month as int, b.month as int, a.day as int);
        } else if b.month < a.month {
            lemma_months_ordered(y, b.month as int, a.month as int, b.day as int);
        }
    }
}

/// The valid date with day number `k`, when `k` is in range.
pub open spec fn date_with_num(k: int) -> Date {
    choose|d: Date| d.valid() && d.num() == k
}

/// A valid date is the date with its day number.
pub proof fn lemma_date_with_num(d: Date)
    requires
        d.valid(),
    ensures
        date_with_num(d.num()) == d,
{
    let e = date_with_num(d.num());
    assert(d.valid() && d.num() == d.num());
    lemma_day_number_injective(d, e);
}

/// The day after a date.
pub open spec fn next_date(d: Date) -> Date {
    if (d.day as int) < days_in_month(d.year as int, d.month as int) {
        Date { year: d.year, month: d.month, day: (d.day + 1) as u32 }
    } else if d.month < 12 {
        Date { year: d.year, month: (d.month + 1) as u32, day: 1 }
    } else {
        Date { year: (d.year + 1) as i32, month: 1, day: 1 }
    }
}

/// The day after a valid date, other than the last supported one, is a
/// valid date whose day number is one more.
proof fn lemma_next_date(d: Date)
    requires
        d.valid(),
        !(d.year == max_year() && d.month == 12 && d.day == 31),
    ensures
        next_date(d).valid(),
        next_date(d).num() == d.num() + 1,
{
    if (d.day as int) < days_in_month(d.year as int, d.month as int) {
    } else if d.month < 12 {
        assert(days_before_month(d.year as int, d.month + 1) == days_before_month(d.year as int, d.month as int)
            + days_in_month(d.year as int, d.month as int));
    } else {
        lemma_year_start_step(d.year as int);
    }
}

/// Every day number from the first to the last supported date is the day
/// number of a valid date: `date_with_num` gives that date.
pub proof fn lemma_date_with_num_in_range(k: int)
    requires
        day_number_in_range(k),
    ensures
        date_with_num(k).valid(),
        date_with_num(k).num() == k,
    decreases k - day_number(min_year(), 1, 1),
{
    if k == day_number(min_year(), 1, 1) {
        let first = Date { year: -262143i32, month: 1, day: 1 };
        assert(first.valid() && first.num() == k);
    } else {
        lemma_date_with_num_in_range(k - 1);
        let d = date_with_num(k - 1);
        lemma_next_date(d);
        let e = next_date(d);
        assert(e.valid() && e.num() == k);
    }
}

/// The `%Y-%m-%d` text of a date has no surrounding whitespace.
pub proof fn lemma_ymd_text_trimmed(d: Date)
    ensures
        trimmed(ymd_text(d)) == ymd_text(d),
        ymd_text(d).len() > 0,
{
    let y = d.year as int;
    let a: nat = if y < 0 { (-y) as nat } else { y as nat };
    crate::text::lemma_decimal_roundtrip(a);
    let digits = decimal_string(a);
    assert(is_digit_char(digits[0]));
    let t = ymd_text(d);
    let yt = year_text(y);
    assert(yt.len() > 0);
    assert(t[0] == yt[0]);
    assert(!is_whitespace_char(t[0]));
    assert(t.last() == digit_char(((d.day as int) % 10) as nat));
    crate::text::lemma_trimmed_unchanged(t);
}

/// The `%H:%M` text of a time of day has no surrounding whitespace.
pub proof fn lemma_hm_text_trimmed(t: Time)
    requires
        t.valid(),
    ensures
        trimmed(hm_text(t)) == hm_text(t),
{
    let s = hm_text(t);
    assert(s[0] == digit_char(((t.hour as int) / 10) as nat));
    assert(s.last() == digit_char(((t.minute as int) % 10) as nat));
    crate::text::lemma_trimmed_unchanged(s);
}

// ───────────────────────── month navigation ─────────────────────────

/// The first day of the month before the month of `d`.
pub open spec fn month_before(d: Date) -> Date {
    if d.month == 1 {
        Date { year: (d.year - 1) as i32, month: 12, day: 1 }
    } else {
        Date { year: d.year, month: (d.month - 1) as u32, day: 1 }
    }
}

/// The first day of the month after the month of `d`.
pub open spec fn month_after(d: Date) -> Date {
    if d.month == 12 {
        Date { year: (d.year + 1) as i32, month: 1, day: 1 }
    } else {
        Date { year: d.year, month: (d.month + 1) as u32, day: 1 }
    }
}

/// The first day of the month before the month of `date`.
pub fn prev_month(date: Date) -> (r: Date)
    requires
        date.valid(),
        !(date.month == 1 && date.year == min_year()),
    ensures
        r == month_before(date),
        r.valid(),
        r.day == 1,
        date.month == 1 ==> r.year == date.year - 1 && r.month == 12,
        date.month != 1 ==> r.year == date.year && r.month == date.month - 1,
{
    let (y, m) = if date.month == 1 {
        (date.year - 1, 12)
    } else {
        (date.year, date.month - 1)
    };
    match from_ymd_opt(y, m, 1) {
        Some(d) => d,
        None => {
            assert(false);
            date
        },
    }
}

/// The first day of the month after the month of `date`.
pub fn next_month(date: Date) -> (r: Date)
    requires
        date.valid(),
        !(date.month == 12 && date.year == max_year()),
    ensures
        r == month_after(date),
        r.valid(),
        r.day == 1,
        date.month == 12 ==> r.year == date.year + 1 && r.month == 1,
        date.month != 12 ==> r.year == date.year && r.month == date.month + 1,
{
    let (y, m) = if date.month == 12 {
        (date.year + 1, 1)
    } else {
        (date.year, date.month + 1)
    };
    match from_ymd_opt(y, m, 1) {
        Some(d) => d,
        None => {
            assert(false);
            date
        },
    }
}

/// Going a month forward and then a month back lands on the first day of
/// the month one started from.
pub proof fn law_prev_after_next(date: Date)
    requires
        date.valid(),
        !(date.month == 12 && date.year == max_year()),
    ensures
        month_before(month_after(date)) == first_of_month(date),
{
}

/// Going a month back and then a month forward lands on the first day of
/// the month one started from.
pub proof fn law_next_after_prev(date: Date)
    requires
        date.valid(),
        !(date.month == 1 && date.year == min_year()),
    ensures
        month_after(month_before(date)) == first_of_month(date),
{
}

/// Whether `num_days_in_month` can work on `(year, month)`.
pub fn num_days_in_month_ok(year: i32, month: u32) -> (b: bool)
    ensures
        b == num_days_in_month_defined(year as int, month as int),
{
    if month == 12 {
        -262143 < year as i64 + 1 && year as i64 + 1 <= 262142
    } else {
        -262143 <= year && year <= 262142 && month < 12 && !(year == -262143 && month == 0)
    }
}

/// What `num_days_in_month` accepts: the month after `(year, month)` must
/// exist, and the day before its first day too.
pub open spec fn num_days_in_month_defined(year: int, month: int) -> bool {
    if month == 12 {
        min_year() < year + 1 <= max_year()
    } else {
        valid_ymd(year, month + 1, 1) && !(year == min_year() && month == 0)
    }
}

/// Number of days in the given month: the day of the month of the day
/// before the first day of the following month. Month 0 stands for the
/// December before `year`.
pub fn num_days_in_month(year: i32, month: u32) -> (r: u32)
    requires
        num_days_in_month_defined(year as int, month as int),
    ensures
        1 <= month <= 12 ==> r == days_in_month(year as int, month as int),
        month == 0 ==> r == 31,
{
    let next = if month == 12 {
        from_ymd_opt(year + 1, 1, 1)
    } else {
        from_ymd_opt(year, month + 1, 1)
    };
    match next {
        Some(d) => match pred_opt(d) {
            Some(p) => p.day,
            None => {
                assert(false);
                0
            },
        },
        None => {
            assert(false);
            0
        },
    }
}

/// The range of dates that a six-week month grid shows: from the start of the
/// week that holds `view_date` (weeks start on Monday when
/// `first_day_of_week` is 0, on Sunday otherwise) through 41 days later.
pub fn grid_range(view_date: Date, first_day_of_week: u8) -> (r: (Date, Date))
    requires
        view_date.valid(),
        grid_range_defined(view_date, first_day_of_week),
    ensures
        r.0.valid(),
        r.1.valid(),
        r.0.num() == view_date.num() - grid_offset(view_date, first_day_of_week),
        r.1.num() == r.0.num() + 41,
{
    let dow = if first_day_of_week == 0 {
        weekday_from_monday(view_date)
    } else {
        weekday_from_sunday(view_date)
    };
    let start = add_days(view_date, -(dow as i64));
    let end = add_days(start, 41);
    (start, end)
}

/// How many days the grid starts before `view_date`.
pub open spec fn grid_offset(view_date: Date, first_day_of_week: u8) -> int {
    if first_day_of_week == 0 {
        view_date.weekday_from_monday()
    } else {
        view_date.weekday_from_sunday()
    }
}

/// Both ends of the grid are supported dates.
pub open spec fn grid_range_defined(view_date: Date, first_day_of_week: u8) -> bool {
    &&& day_number_in_range(view_date.num() - grid_offset(view_date, first_day_of_week))
    &&& day_number_in_range(view_date.num() - grid_offset(view_date, first_day_of_week) + 41)
}

/// The grid starts on the chosen first day of the week, and `view_date`
/// lies within it.
pub proof fn law_grid_starts_on_week_start(view_date: Date, first_day_of_week: u8, start: Date, end: Date)
    requires
        view_date.valid(),
        start.num() == view_date.num() - grid_offset(view_date, first_day_of_week),
        end.num() == start.num() + 41,
    ensures
        first_day_of_week == 0 ==> start.weekday_from_monday() == 0,
        first_day_of_week != 0 ==> start.weekday_from_sunday() == 0,
        start.num() <= view_date.num() <= end.num(),
{
    let k = view_date.num();
    assert(0 <= k % 7 < 7);
    assert(0 <= (k + 1) % 7 < 7);
    if first_day_of_week == 0 {
        assert((k - k % 7) % 7 == 0) by {
            vstd::arithmetic::div_mod::lemma_fundamental_div_mod(k, 7);
            vstd::arithmetic::div_mod::lemma_mod_multiples_basic(k / 7, 7);
        }
    } else {
        assert((k - (k + 1) % 7 + 1) % 7 == 0) by {
            vstd::arithmetic::div_mod::lemma_fundamental_div_mod(k + 1, 7);
            vstd::arithmetic::div_mod::lemma_mod_multiples_basic((k + 1) / 7, 7);
        }
    }
}

// ───────────────────────── calls into chrono ─────────────────────────

/// `NaiveDate::from_ymd_opt`: the date with the given fields, when it exists
/// and lies in chrono's range of years.
#[verifier::external_body]
pub(crate) fn from_ymd_opt(year: i32, month: u32, day: u32) -> (r: Option<Date>)
    ensures
        r.is_some() == valid_ymd(year as int, month as int, day as int),
        r matches Some(d) ==> d == (Date { year, month, day }),
{
    match chrono::NaiveDate::from_ymd_opt(year, month, day) {
        Some(d) => Some(Date { year: d.year(), month: d.month(), day: d.day() }),
        None => None,
    }
}

/// Whether a date is the first one that chrono represents.
pub open spec fn is_first_date(d: Date) -> bool {
    d.year == min_year() && d.month == 1 && d.day == 1
}

/// `NaiveDate::pred_opt`: the previous calendar date.
#[verifier::external_body]
pub(crate) fn pred_opt(d: Date) -> (r: Option<Date>)
    requires
        d.valid(),
    ensures
        r.is_some() == !is_first_date(d),
        r matches Some(p) ==> p.valid() && (if d.day > 1 {
            p == Date { year: d.year, month: d.month, day: (d.day - 1) as u32 }
        } else if d.month > 1 {
            p == Date {
                year: d.year,
                month: (d.month - 1) as u32,
                day: days_in_month(d.year as int, d.month - 1) as u32,
            }
        } else {
            p == Date { year: (d.year - 1) as i32, month: 12, day: 31 }
        }),
{
    let nd = chrono::NaiveDate::from_ymd_opt(d.year, d.month, d.day).unwrap();
    match nd.pred_opt() {
        Some(p) => Some(Date { year: p.year(), month: p.month(), day: p.day() }),
        None => None,
    }
}

/// `NaiveDate + TimeDelta::days(n)`: the date `n` days after `d` (before it
/// when `n` is negative).
#[verifier::external_body]
pub(crate) fn add_days(d: Date, n: i64) -> (r: Date)
    requires
        d.valid(),
        day_number_in_range(d.num() + n),
    ensures
        r.valid(),
        r.num() == d.num() + n,
{
    let nd = chrono::NaiveDate::from_ymd_opt(d.year, d.month, d.day).unwrap();
    let r = nd + chrono::TimeDelta::days(n);
    Date { year: r.year(), month: r.month(), day: r.day() }
}

/// `NaiveDate::checked_add_signed(TimeDelta::days(n))`: the date `n` days
/// after `d`, or none when it lies outside the supported range.
#[verifier::external_body]
pub(crate) fn checked_add_days(d: Date, n: i64) -> (r: Option<Date>)
    requires
        d.valid(),
        -0x10_0000_0000 <= n <= 0x10_0000_0000,
    ensures
        r.is_some() == day_number_in_range(d.num() + n),
        r matches Some(x) ==> x.valid() && x.num() == d.num() + n,
{
    let nd = chrono::NaiveDate::from_ymd_opt(d.year, d.month, d.day).unwrap();
    match nd.checked_add_signed(chrono::TimeDelta::days(n)) {
        Some(r) => Some(Date { year: r.year(), month: r.month(), day: r.day() }),
        None => None,
    }
}

/// Whether the grid around `view_date` lies within the supported dates.
pub fn grid_range_ok(view_date: Date, first_day_of_week: u8) -> (b: bool)
    requires
        view_date.valid(),
    ensures
        b == grid_range_defined(view_date, first_day_of_week),
{
    let dow = if first_day_of_week == 0 {
        weekday_from_monday(view_date)
    } else {
        weekday_from_sunday(view_date)
    };
    match checked_add_days(view_date, -(dow as i64)) {
        Some(start) => checked_add_days(start, 41).is_some(),
        None => false,
    }
}

/// `Weekday::num_days_from_monday` of the weekday of `d` (Monday is 0).
#[verifier::external_body]
pub(crate) fn weekday_from_monday(d: Date) -> (r: u32)
    requires
        d.valid(),
    ensures
        r == d.weekday_from_monday(),
{
    let nd = chrono::NaiveDate::from_ymd_opt(d.year, d.month, d.day).unwrap();
    nd.weekday().num_days_from_monday()
}

/// `Weekday::num_days_from_sunday` of the weekday of `d` (Sunday is 0).
#[verifier::external_body]
pub(crate) fn weekday_from_sunday(d: Date) -> (r: u32)
    requires
        d.valid(),
    ensures
        r == d.weekday_from_sunday(),
{
    let nd = chrono::NaiveDate::from_ymd_opt(d.year, d.month, d.day).unwrap();
    nd.weekday().num_days_from_sunday()
}

/// `NaiveTime::from_hms_opt`: the time with the given fields, when they name
/// a time of day.
#[verifier::external_body]
pub(crate) fn from_hms_opt(hour: u32, minute: u32, second: u32) -> (r: Option<Time>)
    ensures
        r.is_some() == (hour < 24 && minute < 60 && second < 60),
        r matches Some(t) ==> t == (Time { hour, minute, second }),
{
    match chrono::NaiveTime::from_hms_opt(hour, minute, second) {
        Some(t) => Some(Time { hour: t.hour(), minute: t.minute(), second: t.second() }),
        None => None,
    }
}

/// Two digits for a value below 100, with a leading zero under ten.
pub open spec fn two_digits(v: int) -> Seq<char> {
    seq![digit_char((v / 10) as nat), digit_char((v % 10) as nat)]
}

/// `%Y` of chrono: four digits, zero padded, for years 0..=9999; otherwise a
/// sign and at least four digits.
pub open spec fn year_text(y: int) -> Seq<char> {
    let a: nat = if y < 0 {
        (-y) as nat
    } else {
        y as nat
    };
    let digits = decimal_string(a);
    let padded = Seq::new((if digits.len() < 4 { 4 - digits.len() } else { 0 }) as nat, |i: int| '0') + digits;
    if 0 <= y <= 9999 {
        padded
    } else if y < 0 {
        seq!['-'] + padded
    } else {
        seq!['+'] + padded
    }
}

/// `%Y-%m-%d` of a date.
pub open spec fn ymd_text(d: Date) -> Seq<char> {
    year_text(d.year as int) + seq!['-'] + two_digits(d.month as int) + seq!['-'] + two_digits(d.day as int)
}

/// `%H:%M` of a time.
pub open spec fn hm_text(t: Time) -> Seq<char> {
    two_digits(t.hour as int) + seq![':'] + two_digits(t.minute as int)
}

/// chrono's English name of month `m` (1 to 12).
pub open spec fn month_name(m: int) -> Seq<char> {
    if m == 1 {
        "January"@
    } else if m == 2 {
        "February"@
    } else if m == 3 {
        "March"@
    } else if m == 4 {
        "April"@
    } else if m == 5 {
        "May"@
    } else if m == 6 {
        "June"@
    } else if m == 7 {
        "July"@
    } else if m == 8 {
        "August"@
    } else if m == 9 {
        "September"@
    } else if m == 10 {
        "October"@
    } else if m == 11 {
        "November"@
    } else {
        "December"@
    }
}

/// chrono's three-letter name of the `k`-th day of the week, counted from
/// Monday (0).
pub open spec fn weekday_short_name(k: int) -> Seq<char> {
    if k == 0 {
        "Mon"@
    } else if k == 1 {
        "Tue"@
    } else if k == 2 {
        "Wed"@
    } else if k == 3 {
        "Thu"@
    } else if k == 4 {
        "Fri"@
    } else if k == 5 {
        "Sat"@
    } else {
        "Sun"@
    }
}

/// The formats that the calendar writes dates in.
pub open spec fn date_format_known(fmt: Seq<char>) -> bool {
    fmt == "%Y-%m-%d"@ || fmt == "%B"@ || fmt == "%a"@ || fmt == "%b %d"@
}

/// `NaiveDate::format(fmt).to_string()`, for the formats the calendar
/// uses: `%Y-%m-%d`; `%B`, the month's full name; `%a`, the weekday's
/// three-letter name; `%b %d`, the month's three-letter name and the day in
/// two digits. `NaiveDate::parse_from_str` with `%Y-%m-%d` reads the
/// `%Y-%m-%d` text back as the same date.
#[verifier::external_body]
pub(crate) fn format_date(d: Date, fmt: &str) -> (r: String)
    requires
        d.valid(),
        date_format_known(fmt@),
    ensures
        fmt@ == "%Y-%m-%d"@ ==> r@ == ymd_text(d),
        fmt@ == "%Y-%m-%d"@ ==> chrono_date_parse(r@, fmt@) == Some((d.year, d.month, d.day)),
        fmt@ == "%B"@ ==> r@ == month_name(d.month as int),
        fmt@ == "%a"@ ==> r@ == weekday_short_name(d.weekday_from_monday()),
        fmt@ == "%b %d"@ ==> r@ == month_name(d.month as int).take(3) + seq![' '] + two_digits(d.day as int),
{
    let nd = chrono::NaiveDate::from_ymd_opt(d.year, d.month, d.day).unwrap();
    nd.format(fmt).to_string()
}

/// `NaiveTime::format("%H:%M")`; `NaiveTime::parse_from_str` with `%H:%M`
/// reads it back as the same hour and minute, with no seconds.
#[verifier::external_body]
pub(crate) fn format_hm(t: Time) -> (r: String)
    requires
        t.valid(),
    ensures
        r@ == hm_text(t),
        chrono_time_parse(r@, "%H:%M"@) == Some((t.hour, t.minute, 0u32)),
{
    let nt = chrono::NaiveTime::from_hms_opt(t.hour, t.minute, t.second).unwrap();
    nt.format("%H:%M").to_string()
}

/// What `NaiveDate::parse_from_str(s, fmt)` gives, as year, month and day.
pub uninterp spec fn chrono_date_parse(s: Seq<char>, fmt: Seq<char>) -> Option<(i32, u32, u32)>;

/// `NaiveDate::parse_from_str`: the date that `s` spells in the strftime
/// format `fmt`; every date it gives is a valid one.
#[verifier::external_body]
pub(crate) fn parse_date_with(s: &str, fmt: &str) -> (r: Option<Date>)
    ensures
        r == (match chrono_date_parse(s@, fmt@) {
            Some((y, m, d)) => Some(Date { year: y, month: m, day: d }),
            None => None::<Date>,
        }),
        r matches Some(d) ==> d.valid(),
{
    match chrono::NaiveDate::parse_from_str(s, fmt) {
        Ok(d) => Some(Date { year: d.year(), month: d.month(), day: d.day() }),
        Err(_) => None,
    }
}

/// What `NaiveTime::parse_from_str(s, fmt)` gives, as hour, minute and second.
pub uninterp spec fn chrono_time_parse(s: Seq<char>, fmt: Seq<char>) -> Option<(u32, u32, u32)>;

/// `NaiveTime::parse_from_str`: the time of day that `s` spells in the
/// strftime format `fmt`; every time it gives is a valid one.
#[verifier::external_body]
pub(crate) fn parse_time_with(s: &str, fmt: &str) -> (r: Option<Time>)
    ensures
        r == (match chrono_time_parse(s@, fmt@) {
            Some((h, m, sec)) => Some(Time { hour: h, minute: m, second: sec }),
            None => None::<Time>,
        }),
        r matches Some(t) ==> t.valid(),
{
    match chrono::NaiveTime::parse_from_str(s, fmt) {
        Ok(t) => Some(Time { hour: t.hour(), minute: t.minute(), second: t.second() }),
        Err(_) => None,
    }
}

} // verus!
