use calendar_cli::date::{Date, DateTime, Time};
use calendar_cli::local::{local_id, parse_local_id, LocalCalendar, LocalError, LocalEvent, LocalStore};

fn d(year: i32, month: u32, day: u32) -> Date {
    Date { year, month, day }
}

fn at(date: Date, hour: u32, minute: u32) -> DateTime {
    DateTime { date, time: Time { hour, minute, second: 0 } }
}

fn empty_calendar() -> LocalCalendar {
    LocalCalendar::new("/tmp/events.json".to_string(), None)
}

#[test]
fn ids_are_local_and_a_number() {
    assert_eq!(local_id(7), "local-7");
    assert_eq!(local_id(0), "local-0");
    assert_eq!(parse_local_id("local-7"), Some(7));
    assert_eq!(parse_local_id(&local_id(123456789)), Some(123456789));
}

#[test]
fn other_ids_are_not_local() {
    assert_eq!(parse_local_id("google-7"), None);
    assert_eq!(parse_local_id("local-"), None);
    assert_eq!(parse_local_id("local-x1"), None);
    assert_eq!(parse_local_id("local-99999999999999999999"), None);
}

#[test]
fn a_new_calendar_without_a_file_is_empty() {
    let cal = empty_calendar();
    assert_eq!(cal.store.events.len(), 0);
    assert_eq!(cal.store.next_id, 1);
    assert_eq!(cal.path, "/tmp/events.json");
}

#[test]
fn a_loaded_store_is_kept() {
    let store = LocalStore {
        events: vec![LocalEvent {
            id: 4,
            summary: "Dentist".to_string(),
            description: None,
            start: Some(at(d(2026, 5, 27), 8, 0)),
            end: Some(at(d(2026, 5, 27), 9, 0)),
        }],
        next_id: 5,
    };
    let cal = LocalCalendar::new("/tmp/e.json".to_string(), Some(store));
    assert_eq!(cal.store.next_id, 5);
    let listed = cal.list_events_range(d(2026, 5, 1), d(2026, 5, 31));
    assert_eq!(listed.len(), 1);
    assert_eq!(listed[0].id, "local-4");
    assert_eq!(listed[0].summary, "Dentist");
}

#[test]
fn created_events_get_increasing_ids() {
    let mut cal = empty_calendar();
    let a = cal.create_event("A", None, at(d(2026, 5, 27), 9, 0), at(d(2026, 5, 27), 10, 0));
    let b = cal.create_event("B", Some("notes"), at(d(2026, 5, 28), 9, 0), at(d(2026, 5, 28), 10, 0));
    assert_eq!(a.id, "local-1");
    assert_eq!(b.id, "local-2");
    assert_eq!(b.description, Some("notes".to_string()));
    assert_eq!(cal.store.next_id, 3);
    assert_eq!(cal.store.events.len(), 2);
}

#[test]
fn listing_keeps_the_events_that_overlap_the_range() {
    let mut cal = empty_calendar();
    cal.create_event("before", None, at(d(2026, 4, 1), 9, 0), at(d(2026, 4, 1), 10, 0));
    cal.create_event("inside", None, at(d(2026, 5, 10), 9, 0), at(d(2026, 5, 10), 10, 0));
    cal.create_event("across", None, at(d(2026, 4, 30), 9, 0), at(d(2026, 5, 2), 10, 0));
    cal.create_event("after", None, at(d(2026, 6, 1), 9, 0), at(d(2026, 6, 1), 10, 0));
    let listed = cal.list_events_range(d(2026, 5, 1), d(2026, 5, 31));
    let names: Vec<&str> = listed.iter().map(|e| e.summary.as_str()).collect();
    assert_eq!(names, vec!["inside", "across"]);
}

#[test]
fn updating_changes_the_named_event() {
    let mut cal = empty_calendar();
    cal.create_event("A", None, at(d(2026, 5, 27), 9, 0), at(d(2026, 5, 27), 10, 0));
    let r = cal.update_event("local-1", "A2", Some("moved"), at(d(2026, 5, 29), 11, 0), at(d(2026, 5, 29), 12, 0));
    assert_eq!(r, Ok(()));
    assert_eq!(cal.store.events[0].summary, "A2");
    assert_eq!(cal.store.events[0].description, Some("moved".to_string()));
    assert_eq!(cal.store.events[0].start, Some(at(d(2026, 5, 29), 11, 0)));
}

#[test]
fn updating_an_unknown_event_fails() {
    let mut cal = empty_calendar();
    let r = cal.update_event("local-9", "x", None, at(d(2026, 5, 27), 9, 0), at(d(2026, 5, 27), 10, 0));
    assert_eq!(r, Err(LocalError::NotFound));
    let r = cal.update_event("abc", "x", None, at(d(2026, 5, 27), 9, 0), at(d(2026, 5, 27), 10, 0));
    assert_eq!(r, Err(LocalError::InvalidId));
}

#[test]
fn deleting_removes_the_event_and_keeps_the_next_id() {
    let mut cal = empty_calendar();
    cal.create_event("A", None, at(d(2026, 5, 27), 9, 0), at(d(2026, 5, 27), 10, 0));
    cal.create_event("B", None, at(d(2026, 5, 27), 11, 0), at(d(2026, 5, 27), 12, 0));
    assert_eq!(cal.delete_event("local-1"), Ok(()));
    assert_eq!(cal.store.events.len(), 1);
    assert_eq!(cal.store.events[0].summary, "B");
    assert_eq!(cal.store.next_id, 3);
    assert_eq!(cal.delete_event("local-1"), Err(LocalError::NotFound));
    assert_eq!(cal.delete_event("event-2"), Err(LocalError::InvalidId));
}

#[test]
fn error_messages() {
    assert_eq!(LocalError::InvalidId.message(), "Invalid local event ID");
    assert_eq!(LocalError::NotFound.message(), "Event not found");
}
