use calendar_cli::auth::{find_query_value, parse_redirect, RedirectError};
use calendar_cli::date::{Date, DateTime, Time};
use calendar_cli::gcal::{query_bounds, raw_to_model, RawDateTime, RawEvent};

fn d(year: i32, month: u32, day: u32) -> Date {
    Date { year, month, day }
}

#[test]
fn redirect_gives_code_and_state() {
    let r = parse_redirect("GET /?code=abc&state=xyz HTTP/1.1\r\nHost: localhost:8080\r\n\r\n");
    assert_eq!(r, Ok(("abc".to_string(), "xyz".to_string())));
}

#[test]
fn redirect_values_are_decoded_and_the_first_wins() {
    let r = parse_redirect("GET /callback?state=a%20b&code=4%2F0A&code=second HTTP/1.1");
    assert_eq!(r, Ok(("4/0A".to_string(), "a b".to_string())));
}

#[test]
fn redirect_errors() {
    assert_eq!(parse_redirect(""), Err(RedirectError::EmptyRequest));
    assert_eq!(parse_redirect("GET"), Err(RedirectError::MalformedRequestLine));
    assert_eq!(parse_redirect("\nGET /?code=a&state=b HTTP/1.1"), Err(RedirectError::MalformedRequestLine));
    assert_eq!(parse_redirect("GET /?state=b HTTP/1.1"), Err(RedirectError::NoCode));
    assert_eq!(parse_redirect("GET /?code=a HTTP/1.1"), Err(RedirectError::NoState));
    assert_eq!(parse_redirect("GET :99999999 HTTP/1.1"), Err(RedirectError::BadUrl));
}

#[test]
fn redirect_error_messages() {
    assert_eq!(RedirectError::EmptyRequest.message(), "Empty HTTP request");
    assert_eq!(RedirectError::MalformedRequestLine.message(), "Malformed request line");
    assert_eq!(RedirectError::BadUrl.message(), "Failed to parse URL");
    assert_eq!(RedirectError::NoCode.message(), "No authorization code in redirect");
    assert_eq!(RedirectError::NoState.message(), "No state in redirect");
}

#[test]
fn query_values_are_found_by_key() {
    let pairs = vec![("a".to_string(), "1".to_string()), ("b".to_string(), "2".to_string()), ("a".to_string(), "3".to_string())];
    assert_eq!(find_query_value(&pairs, "a"), Some("1".to_string()));
    assert_eq!(find_query_value(&pairs, "b"), Some("2".to_string()));
    assert_eq!(find_query_value(&pairs, "c"), None);
}

#[test]
fn a_timed_google_event_becomes_a_calendar_event() {
    let start = DateTime { date: d(2026, 5, 27), time: Time { hour: 9, minute: 0, second: 0 } };
    let end = DateTime { date: d(2026, 5, 27), time: Time { hour: 10, minute: 30, second: 0 } };
    let raw = RawEvent {
        id: Some("g1".to_string()),
        summary: Some("Standup".to_string()),
        description: Some("daily".to_string()),
        start: Some(RawDateTime { date_time: Some(start), date: None }),
        end: Some(RawDateTime { date_time: Some(end), date: None }),
    };
    let e = raw_to_model(raw).unwrap();
    assert_eq!(e.id, "g1");
    assert_eq!(e.summary, "Standup");
    assert_eq!(e.description, Some("daily".to_string()));
    assert_eq!(e.start, Some(start));
    assert_eq!(e.end, Some(end));
}

#[test]
fn an_all_day_google_event_spans_the_whole_day() {
    let raw = RawEvent {
        id: Some("g2".to_string()),
        summary: Some("Holiday".to_string()),
        description: None,
        start: Some(RawDateTime { date_time: None, date: Some(d(2026, 12, 25)) }),
        end: Some(RawDateTime { date_time: None, date: Some(d(2026, 12, 26)) }),
    };
    let e = raw_to_model(raw).unwrap();
    assert_eq!(e.start, Some(DateTime { date: d(2026, 12, 25), time: Time { hour: 0, minute: 0, second: 0 } }));
    assert_eq!(e.end, Some(DateTime { date: d(2026, 12, 26), time: Time { hour: 23, minute: 59, second: 59 } }));
}

#[test]
fn incomplete_google_events_are_dropped() {
    let when = || Some(RawDateTime { date_time: None, date: Some(d(2026, 12, 25)) });
    let no_id = RawEvent { id: None, summary: Some("x".to_string()), description: None, start: when(), end: when() };
    assert!(raw_to_model(no_id).is_none());
    let no_title = RawEvent { id: Some("i".to_string()), summary: None, description: None, start: when(), end: when() };
    assert!(raw_to_model(no_title).is_none());
    let no_end = RawEvent { id: Some("i".to_string()), summary: Some("x".to_string()), description: None, start: when(), end: None };
    assert!(raw_to_model(no_end).is_none());
    let empty_when = RawEvent {
        id: Some("i".to_string()),
        summary: Some("x".to_string()),
        description: None,
        start: Some(RawDateTime { date_time: None, date: None }),
        end: when(),
    };
    let e = raw_to_model(empty_when).unwrap();
    assert_eq!(e.start, None);
}

#[test]
fn query_bounds_cover_whole_days_in_utc() {
    let (min, max) = query_bounds(d(2026, 4, 27), d(2026, 6, 7));
    assert_eq!(min, "2026-04-27T00:00:00+00:00");
    assert_eq!(max, "2026-06-07T23:59:59+00:00");
}

#[test]
fn query_bounds_sign_years_outside_four_digits() {
    let (min, max) = query_bounds(d(10000, 1, 1), d(-5, 3, 9));
    assert_eq!(min, "+10000-01-01T00:00:00+00:00");
    assert_eq!(max, "-0005-03-09T23:59:59+00:00");
}
