//! Reading times of day and dates from what a user typed.
use vstd::prelude::*;
use crate::date::{
    add_days, checked_add_days, day_number, min_year, chrono_date_parse, date_with_num, lemma_date_with_num, chrono_time_parse, day_number_in_range, days_in_month,
    from_hms_opt, from_ymd_opt, max_year, num_days_in_month, parse_date_with, parse_time_with,
    Date, Time,
};
use crate::text::{
    all_digits, chars_eq_str, chars_from, chars_of, chars_to, decimal_value, lowercase_of,
    parse_i64, parse_u32, parsed_i64, parsed_unsigned, push_chars, push_signed_decimal,
    push_str, signed_decimal_string, string_of, to_lowercase, trim_str, trimmed,
};

verus! {

// ───────────────────────── times of day ─────────────────────────

/// A time given as hour and minute, with no seconds.
pub open spec fn hm(h: int, m: int) -> Time {
    Time { hour: h as u32, minute: m as u32, second: 0 }
}

/// The time of day that a trimmed, nonempty text spells, trying in turn the
/// chrono formats `%H:%M`, `%k:%M`, `%I:%M%P`, `%I:%M%p`, then four digits
/// `HHMM`, three digits `HMM`, and a bare hour.
pub open spec fn time_from_text(t: Seq<char>) -> Option<Time> {
    if chrono_time_parse(t, "%H:%M"@) is Some {
        time_of_triple(chrono_time_parse(t, "%H:%M"@))
    } else if chrono_time_parse(t, "%k:%M"@) is Some {
        time_of_triple(chrono_time_parse(t, "%k:%M"@))
    } else if chrono_time_parse(t, "%I:%M%P"@) is Some {
        time_of_triple(chrono_time_parse(t, "%I:%M%P"@))
    } else if chrono_time_parse(t, "%I:%M%p"@) is Some {
        time_of_triple(chrono_time_parse(t, "%I:%M%p"@))
    } else if t.len() == 4 && all_digits(t) && decimal_value(t.take(2)) < 24 && decimal_value(
        t.skip(2),
    ) < 60 {
        Some(hm(decimal_value(t.take(2)) as int, decimal_value(t.skip(2)) as int))
    } else if t.len() == 3 && all_digits(t) && decimal_value(t.take(1)) < 24 && decimal_value(
        t.skip(1),
    ) < 60 {
        Some(hm(decimal_value(t.take(1)) as int, decimal_value(t.skip(1)) as int))
    } else if parsed_unsigned(t, u32::MAX as nat) is Some && parsed_unsigned(t, u32::MAX as nat)->0 < 24 {
        Some(hm(parsed_unsigned(t, u32::MAX as nat)->0 as int, 0))
    } else {
        None
    }
}

/// A parsed triple as a time.
pub open spec fn time_of_triple(p: Option<(u32, u32, u32)>) -> Option<Time> {
    match p {
        Some((h, m, s)) => Some(Time { hour: h, minute: m, second: s }),
        None => None,
    }
}

/// The message for a text that spells no time.
pub open spec fn invalid_time_message(t: Seq<char>) -> Seq<char> {
    "Invalid time \""@ + t + "\". Try HH:MM (e.g. 14:30)"@
}

/// Reads a time of day from a form field. Surrounding whitespace is ignored;
/// an empty field gives "Time is required", and a text that spells no time
/// gives the invalid-time message quoting the trimmed text.
pub fn parse_time(s: &str) -> (r: Result<Time, String>)
    ensures
        trimmed(s@).len() == 0 ==> (r matches Err(e) && e@ == "Time is required"@),
        trimmed(s@).len() > 0 ==> match time_from_text(trimmed(s@)) {
            Some(t) => r == Ok::<Time, String>(t),
            None => (r matches Err(e) && e@ == invalid_time_message(trimmed(s@))),
        },
        r matches Ok(t) ==> t.valid(),
{
    let tc = trim_str(s);
    if tc.len() == 0 {
        return Err(crate::text::owned("Time is required"));
    }
    let ts = string_of(tc.as_slice());
    let t = ts.as_str();
    if let Some(v) = parse_time_with(t, "%H:%M") {
        return Ok(v);
    }
    if let Some(v) = parse_time_with(t, "%k:%M") {
        return Ok(v);
    }
    if let Some(v) = parse_time_with(t, "%I:%M%P") {
        return Ok(v);
    }
    if let Some(v) = parse_time_with(t, "%I:%M%p") {
        return Ok(v);
    }
    let all = all_ascii_digits(tc.as_slice());
    if tc.len() == 4 && all {
        let hs = chars_to(tc.as_slice(), 2);
        let ms = chars_from(tc.as_slice(), 2);
        proof {
            lemma_digits_sub(tc@, 0, 2);
            lemma_digits_sub(tc@, 2, 4);
            assert(ms@ == tc@.skip(2));
        }
        if let (Some(h), Some(m)) = (parse_u32(hs.as_slice()), parse_u32(ms.as_slice())) {
            if h < 24 && m < 60 {
                match from_hms_opt(h, m, 0) {
                    Some(v) => return Ok(v),
                    None => {},
                }
            }
        }
    }
    if tc.len() == 3 && all {
        let hs = chars_to(tc.as_slice(), 1);
        let ms = chars_from(tc.as_slice(), 1);
        proof {
            lemma_digits_sub(tc@, 0, 1);
            lemma_digits_sub(tc@, 1, 3);
            assert(ms@ == tc@.skip(1));
        }
        if let (Some(h), Some(m)) = (parse_u32(hs.as_slice()), parse_u32(ms.as_slice())) {
            if h < 24 && m < 60 {
                match from_hms_opt(h, m, 0) {
                    Some(v) => return Ok(v),
                    None => {},
                }
            }
        }
    }
    if let Some(h) = parse_u32(tc.as_slice()) {
        if h < 24 {
            match from_hms_opt(h, 0, 0) {
                Some(v) => return Ok(v),
                None => {},
            }
        }
    }
    let mut msg = crate::text::owned("Invalid time \"");
    push_chars(&mut msg, tc.as_slice());
    push_str(&mut msg, "\". Try HH:MM (e.g. 14:30)");
    Err(msg)
}

/// Whether every character is an ASCII digit.
pub fn all_ascii_digits(s: &[char]) -> (b: bool)
    ensures
        b == all_digits(s@),
{
    let mut i: usize = 0;
    while i < s.len()
        invariant
            i <= s@.len(),
            forall|j: int| 0 <= j < i ==> crate::text::is_digit_char(#[trigger] s@[j]),
        decreases s@.len() - i,
    {
        if !('0' <= s[i] && s[i] <= '9') {
            return false;
        }
        i = i + 1;
    }
    true
}

/// A block of a digit string is a nonempty digit string without sign, so
/// `parse` reads it as its decimal value.
proof fn lemma_digits_sub(s: Seq<char>, a: int, b: int)
    requires
        0 <= a < b <= s.len(),
        all_digits(s),
        b - a <= 2,
    ensures
        parsed_unsigned(s.subrange(a, b), u32::MAX as nat) == Some(decimal_value(s.subrange(a, b))),
        s.subrange(a, b) == (if a == 0 { s.take(b) } else { s.subrange(a, b) }),
{
    let t = s.subrange(a, b);
    assert(crate::text::is_digit_char(t[0]));
    assert(all_digits(t));
    lemma_small_decimal(t);
}

/// One or two digits have a value below 100.
proof fn lemma_small_decimal(t: Seq<char>)
    requires
        1 <= t.len() <= 2,
        all_digits(t),
    ensures
        decimal_value(t) < 100,
{
    assert(crate::text::is_digit_char(t[0]));
    assert(crate::text::digit_value(t[0]) <= 9);
    if t.len() == 2 {
        assert(crate::text::is_digit_char(t[1]));
        assert(crate::text::digit_value(t[1]) <= 9);
        let u = t.drop_last();
        assert(u.drop_last() =~= Seq::<char>::empty());
        assert(u.last() == t[0]);
        assert(decimal_value(u.drop_last()) == 0);
        assert(decimal_value(u) == decimal_value(u.drop_last()) * 10 + crate::text::digit_value(u.last()));
        assert(decimal_value(t) == decimal_value(u) * 10 + crate::text::digit_value(t.last()));
    } else {
        assert(t.drop_last() =~= Seq::<char>::empty());
        assert(decimal_value(t.drop_last()) == 0);
        assert(decimal_value(t) == decimal_value(t.drop_last()) * 10 + crate::text::digit_value(t.last()));
    }
}

// ───────────────────────── dates ─────────────────────────

/// A relative day count written `+N` or `-N`, as `parse` reads `N`.
pub open spec fn relative_days(t: Seq<char>) -> Option<int> {
    if t.len() > 0 && t[0] == '+' && parsed_i64(t.drop_first()) is Some {
        parsed_i64(t.drop_first())
    } else if t.len() > 0 && t[0] == '-' && parsed_i64(t.drop_first()) is Some {
        Some(-parsed_i64(t.drop_first())->0)
    } else {
        None
    }
}

/// A date given by its fields.
pub open spec fn ymd(y: int, m: int, d: int) -> Date {
    Date { year: y as i32, month: m as u32, day: d as u32 }
}

/// A parsed triple as a date.
pub open spec fn date_of_triple(p: Option<(i32, u32, u32)>) -> Option<Date> {
    match p {
        Some((y, m, d)) => Some(Date { year: y, month: m, day: d }),
        None => None,
    }
}

/// Which way a date text is read, before any date arithmetic: a number of
/// days from today, a date, the day of the current month with the given
/// number, or nothing.
pub enum DateQuery {
    Offset(int),
    At(Date),
    DayOfMonth(int),
    Nothing,
}

/// How `parse_date` reads a trimmed text `t`, in the order it tries:
/// "today", "tomorrow", "yesterday" (any case); `+N` and `-N` days; the
/// formats `%Y-%m-%d`, `%m/%d/%Y`, `%B %d, %Y`, `%b %d, %Y`; a month and day
/// in the current year (`%B %d`, `%b %d`); `MM-DD` in the current year; and
/// a day number from 1 to 31 in the current month.
pub open spec fn date_query(t: Seq<char>, today: Date) -> DateQuery {
    let y = signed_decimal_string(today.year as int);
    let with_year = t + seq![' '] + y;
    let year_first = y + seq!['-'] + t;
    if t.len() == 0 {
        DateQuery::Nothing
    } else if lowercase_of(t) == "today"@ {
        DateQuery::Offset(0)
    } else if lowercase_of(t) == "tomorrow"@ {
        DateQuery::Offset(1)
    } else if lowercase_of(t) == "yesterday"@ {
        DateQuery::Offset(-1)
    } else if relative_days(t) is Some {
        DateQuery::Offset(relative_days(t)->0)
    } else if chrono_date_parse(t, "%Y-%m-%d"@) is Some {
        DateQuery::At(date_of_triple(chrono_date_parse(t, "%Y-%m-%d"@))->0)
    } else if chrono_date_parse(t, "%m/%d/%Y"@) is Some {
        DateQuery::At(date_of_triple(chrono_date_parse(t, "%m/%d/%Y"@))->0)
    } else if chrono_date_parse(t, "%B %d, %Y"@) is Some {
        DateQuery::At(date_of_triple(chrono_date_parse(t, "%B %d, %Y"@))->0)
    } else if chrono_date_parse(t, "%b %d, %Y"@) is Some {
        DateQuery::At(date_of_triple(chrono_date_parse(t, "%b %d, %Y"@))->0)
    } else if chrono_date_parse(with_year, "%B %d %Y"@) is Some {
        DateQuery::At(date_of_triple(chrono_date_parse(with_year, "%B %d %Y"@))->0)
    } else if chrono_date_parse(with_year, "%b %d %Y"@) is Some {
        DateQuery::At(date_of_triple(chrono_date_parse(with_year, "%b %d %Y"@))->0)
    } else if chrono_date_parse(year_first, "%Y-%m-%d"@) is Some {
        DateQuery::At(date_of_triple(chrono_date_parse(year_first, "%Y-%m-%d"@))->0)
    } else if parsed_unsigned(t, u32::MAX as nat) is Some && 1 <= parsed_unsigned(t, u32::MAX as nat)->0 <= 31 {
        DateQuery::DayOfMonth(parsed_unsigned(t, u32::MAX as nat)->0 as int)
    } else {
        DateQuery::Nothing
    }
}

/// The inputs on which `parse_date` does its date arithmetic without leaving
/// the supported range of dates (elsewhere chrono panics).
pub open spec fn parse_date_defined(s: Seq<char>, today: Date) -> bool {
    match date_query(trimmed(s), today) {
        DateQuery::Offset(n) => day_number_in_range(today.num() + n),
        DateQuery::DayOfMonth(_) => today.month < 12 || today.year < max_year(),
        _ => true,
    }
}

/// The date that `parse_date` gives.
pub open spec fn parsed_date(s: Seq<char>, today: Date) -> Option<Date> {
    match date_query(trimmed(s), today) {
        DateQuery::Offset(n) => Some(date_with_num(today.num() + n)),
        DateQuery::At(d) => Some(d),
        DateQuery::DayOfMonth(d) => Some(
            ymd(
                today.year as int,
                today.month as int,
                if d <= days_in_month(today.year as int, today.month as int) {
                    d
                } else {
                    days_in_month(today.year as int, today.month as int)
                },
            ),
        ),
        DateQuery::Nothing => None,
    }
}

/// How a text is read, with the arithmetic still to do.
pub enum DateRequest {
    /// This many days from today.
    Offset(i128),
    /// This date.
    At(Date),
    /// This day of the current month.
    DayOfMonth(u32),
    /// No date.
    Nothing,
}

impl DateRequest {
    /// The reading this request stands for.
    pub open spec fn query(self) -> DateQuery {
        match self {
            DateRequest::Offset(n) => DateQuery::Offset(n as int),
            DateRequest::At(d) => DateQuery::At(d),
            DateRequest::DayOfMonth(d) => DateQuery::DayOfMonth(d as int),
            DateRequest::Nothing => DateQuery::Nothing,
        }
    }
}

/// Reads how a typed date text is meant, before any date arithmetic.
pub fn date_request(s: &str, today: Date) -> (r: DateRequest)
    requires
        today.valid(),
    ensures
        r.query() == date_query(trimmed(s@), today),
        r matches DateRequest::At(d) ==> d.valid(),
        r matches DateRequest::Offset(n) ==> -0x8000_0000_0000_0000 <= n <= 0x8000_0000_0000_0000,
{
    let tc = trim_str(s);
    if tc.len() == 0 {
        return DateRequest::Nothing;
    }
    let ts = string_of(tc.as_slice());
    let t = ts.as_str();
    let lower = to_lowercase(t);
    let lc = chars_of(lower.as_str());
    if chars_eq_str(lc.as_slice(), "today") {
        return DateRequest::Offset(0);
    }
    if chars_eq_str(lc.as_slice(), "tomorrow") {
        return DateRequest::Offset(1);
    }
    if chars_eq_str(lc.as_slice(), "yesterday") {
        return DateRequest::Offset(-1);
    }
    if tc.len() > 0 && tc[0] == '+' {
        let rest = chars_from(tc.as_slice(), 1);
        assert(rest@ == tc@.drop_first());
        if let Some(n) = parse_i64(rest.as_slice()) {
            return DateRequest::Offset(n as i128);
        }
    }
    if tc.len() > 0 && tc[0] == '-' {
        let rest = chars_from(tc.as_slice(), 1);
        assert(rest@ == tc@.drop_first());
        if let Some(n) = parse_i64(rest.as_slice()) {
            return DateRequest::Offset(-(n as i128));
        }
    }
    if let Some(d) = parse_date_with(t, "%Y-%m-%d") {
        return DateRequest::At(d);
    }
    if let Some(d) = parse_date_with(t, "%m/%d/%Y") {
        return DateRequest::At(d);
    }
    if let Some(d) = parse_date_with(t, "%B %d, %Y") {
        return DateRequest::At(d);
    }
    if let Some(d) = parse_date_with(t, "%b %d, %Y") {
        return DateRequest::At(d);
    }
    let mut with_year = string_of(tc.as_slice());
    crate::text::string_push(&mut with_year, ' ');
    push_signed_decimal(&mut with_year, today.year as i64);
    assert(with_year@ =~= tc@ + seq![' '] + signed_decimal_string(today.year as int));
    if let Some(d) = parse_date_with(with_year.as_str(), "%B %d %Y") {
        return DateRequest::At(d);
    }
    if let Some(d) = parse_date_with(with_year.as_str(), "%b %d %Y") {
        return DateRequest::At(d);
    }
    let mut year_first = String::new();
    push_signed_decimal(&mut year_first, today.year as i64);
    crate::text::string_push(&mut year_first, '-');
    push_chars(&mut year_first, tc.as_slice());
    assert(year_first@ =~= signed_decimal_string(today.year as int) + seq!['-'] + tc@);
    if let Some(d) = parse_date_with(year_first.as_str(), "%Y-%m-%d") {
        return DateRequest::At(d);
    }
    if let Some(day) = parse_u32(tc.as_slice()) {
        if 1 <= day && day <= 31 {
            return DateRequest::DayOfMonth(day);
        }
    }
    DateRequest::Nothing
}

/// The supported day numbers span fewer than 2^36 days.
proof fn lemma_range_span()
    ensures
        day_number(max_year(), 12, 31) - day_number(min_year(), 1, 1) < 0x10_0000_0000,
        day_number(min_year(), 1, 1) < 0,
        day_number(max_year(), 12, 31) > 0,
{
}

/// Whether `parse_date` can do the arithmetic for `s` without leaving the
/// supported dates.
pub fn parse_date_ok(s: &str, today: Date) -> (b: bool)
    requires
        today.valid(),
    ensures
        b == parse_date_defined(s@, today),
{
    proof {
        lemma_range_span();
    }
    match date_request(s, today) {
        DateRequest::Offset(n) => {
            if -0x10_0000_0000i128 <= n && n <= 0x10_0000_0000i128 {
                checked_add_days(today, n as i64).is_some()
            } else {
                false
            }
        },
        DateRequest::DayOfMonth(_) => today.month < 12 || today.year < 262142,
        _ => true,
    }
}

/// Reads a date typed by the user, relative to `today` where the text leaves
/// the year, month or day open.
pub fn parse_date(s: &str, today: Date) -> (r: Option<Date>)
    requires
        today.valid(),
        parse_date_defined(s@, today),
    ensures
        r == parsed_date(s@, today),
        r matches Some(d) ==> d.valid(),
{
    proof {
        lemma_range_span();
    }
    match date_request(s, today) {
        DateRequest::Offset(n) => {
            let d = add_days(today, n as i64);
            proof {
                lemma_date_with_num(d);
            }
            Some(d)
        },
        DateRequest::At(d) => Some(d),
        DateRequest::DayOfMonth(day) => {
            let max = num_days_in_month(today.year, today.month);
            let day = if day < max {
                day
            } else {
                max
            };
            from_ymd_opt(today.year, today.month, day)
        },
        DateRequest::Nothing => None,
    }
}

} // verus!
