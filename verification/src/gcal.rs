//! What the calendar makes of the events that Google Calendar sends, and the
//! time bounds it asks Google Calendar for.
use vstd::prelude::*;
use crate::date::{from_hms_opt, two_digits, ymd_text, Date, DateTime, Time};
use crate::models::{CalendarEvent, EventView};
use crate::text::{opt_view};

verus! {

/// A start or end as Google Calendar sends it: a moment (already in local
/// time) for timed events, or a date for all-day events.
pub struct RawDateTime {
    pub date_time: Option<DateTime>,
    pub date: Option<Date>,
}

/// An event as Google Calendar sends it; every part may be missing.
pub struct RawEvent {
    pub id: Option<String>,
    pub summary: Option<String>,
    pub description: Option<String>,
    pub start: Option<RawDateTime>,
    pub end: Option<RawDateTime>,
}

/// The moment of a start: its time, or midnight of its date.
pub open spec fn start_moment(r: RawDateTime) -> Option<DateTime> {
    match r.date_time {
        Some(dt) => Some(dt),
        None => match r.date {
            Some(d) => Some(DateTime { date: d, time: Time { hour: 0, minute: 0, second: 0 } }),
            None => None,
        },
    }
}

/// The moment of an end: its time, or the last second of its date.
pub open spec fn end_moment(r: RawDateTime) -> Option<DateTime> {
    match r.date_time {
        Some(dt) => Some(dt),
        None => match r.date {
            Some(d) => Some(DateTime { date: d, time: Time { hour: 23, minute: 59, second: 59 } }),
            None => None,
        },
    }
}

/// The event that the calendar shows for what Google Calendar sent: one
/// with an id, a title, a start and an end entry; nothing otherwise.
pub open spec fn model_of(raw: RawEvent) -> Option<EventView> {
    match (raw.start, raw.end, raw.id, raw.summary) {
        (Some(s), Some(e), Some(id), Some(summary)) => Some(
            EventView {
                id: id@,
                summary: summary@,
                description: opt_view(raw.description),
                start: start_moment(s),
                end: end_moment(e),
            },
        ),
        _ => None,
    }
}

/// Turns an event that Google Calendar sent into a calendar event.
pub fn raw_to_model(raw: RawEvent) -> (r: Option<CalendarEvent>)
    ensures
        match model_of(raw) {
            Some(v) => r matches Some(e) && e@ == v,
            None => r is None,
        },
{
    let rs = match &raw.start {
        Some(x) => x,
        None => {
            return None;
        },
    };
    let re = match &raw.end {
        Some(x) => x,
        None => {
            return None;
        },
    };
    let start = match rs.date_time {
        Some(dt) => Some(dt),
        None => match rs.date {
            Some(d) => match from_hms_opt(0, 0, 0) {
                Some(t) => Some(DateTime { date: d, time: t }),
                None => None,
            },
            None => None,
        },
    };
    let end = match re.date_time {
        Some(dt) => Some(dt),
        None => match re.date {
            Some(d) => match from_hms_opt(23, 59, 59) {
                Some(t) => Some(DateTime { date: d, time: t }),
                None => None,
            },
            None => None,
        },
    };
    let RawEvent { id, summary, description, start: _, end: _ } = raw;
    let id = match id {
        Some(x) => x,
        None => {
            return None;
        },
    };
    let summary = match summary {
        Some(x) => x,
        None => {
            return None;
        },
    };
    Some(CalendarEvent { id, summary, description, start, end })
}

/// RFC 3339 text of a moment taken as UTC, as chrono's `to_rfc3339` writes
/// it for a moment without fractions of a second: the date as `%Y-%m-%d`,
/// `T`, hours, minutes and seconds in two digits each, and the offset
/// `+00:00`.
pub open spec fn rfc3339_utc(dt: DateTime) -> Seq<char> {
    ymd_text(dt.date) + seq!['T'] + two_digits(dt.time.hour as int) + seq![':'] + two_digits(
        dt.time.minute as int,
    ) + seq![':'] + two_digits(dt.time.second as int) + "+00:00"@
}

/// `NaiveDateTime::and_utc` then `DateTime::to_rfc3339`: the moment, read
/// as UTC, in RFC 3339 notation.
#[verifier::external_body]
fn to_rfc3339_utc(dt: DateTime) -> (r: String)
    requires
        dt.valid(),
    ensures
        r@ == rfc3339_utc(dt),
{
    let d = chrono::NaiveDate::from_ymd_opt(dt.date.year, dt.date.month, dt.date.day).unwrap();
    let t = chrono::NaiveTime::from_hms_opt(dt.time.hour, dt.time.minute, dt.time.second).unwrap();
    d.and_time(t).and_utc().to_rfc3339()
}

/// The bounds of a request for the events from `start` to `end`: midnight
/// of the first day and the last second of the last day, as UTC.
pub fn query_bounds(start: Date, end: Date) -> (r: (String, String))
    requires
        start.valid(),
        end.valid(),
    ensures
        r.0@ == rfc3339_utc(DateTime { date: start, time: Time { hour: 0, minute: 0, second: 0 } }),
        r.1@ == rfc3339_utc(DateTime { date: end, time: Time { hour: 23, minute: 59, second: 59 } }),
{
    let t0 = Time { hour: 0, minute: 0, second: 0 };
    let t1 = Time { hour: 23, minute: 59, second: 59 };
    (to_rfc3339_utc(DateTime { date: start, time: t0 }), to_rfc3339_utc(DateTime { date: end, time: t1 }))
}

} // verus!
