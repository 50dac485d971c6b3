use calendar_cli::date::{Date, DateTime, Time};
use calendar_cli::models::{form_to_event, handle_form_key, CalendarEvent, FormField, FormState, Key};

fn d(year: i32, month: u32, day: u32) -> Date {
    Date { year, month, day }
}

fn at(date: Date, hour: u32, minute: u32) -> DateTime {
    DateTime { date, time: Time { hour, minute, second: 0 } }
}

fn form(values: &[&str]) -> FormState {
    let labels = ["Title", "Date", "Start", "End", "Description"];
    FormState {
        fields: values
            .iter()
            .enumerate()
            .map(|(i, v)| FormField { label: labels[i], value: v.to_string(), cursor: 0 })
            .collect(),
        focus: 0,
    }
}

#[test]
fn new_form_has_title_date_and_default_times() {
    let f = FormState::new(d(2026, 5, 27));
    let labels: Vec<&str> = f.fields.iter().map(|x| x.label).collect();
    let values: Vec<&str> = f.fields.iter().map(|x| x.value.as_str()).collect();
    assert_eq!(labels, vec!["Title", "Date", "Start", "End"]);
    assert_eq!(values, vec!["", "2026-05-27", "09:00", "10:00"]);
    assert_eq!(f.focus, 0);
}

#[test]
fn form_from_an_event_holds_its_parts() {
    let e = CalendarEvent {
        id: "local-3".to_string(),
        summary: "Standup".to_string(),
        description: Some("daily".to_string()),
        start: Some(at(d(2026, 5, 27), 9, 0)),
        end: Some(at(d(2026, 5, 27), 9, 15)),
    };
    let f = FormState::from_event(&e);
    let values: Vec<&str> = f.fields.iter().map(|x| x.value.as_str()).collect();
    assert_eq!(values, vec!["Standup", "2026-05-27", "09:00", "09:15", "daily"]);
    assert_eq!(f.fields[4].label, "Description");
}

#[test]
fn form_from_an_event_without_times_leaves_fields_empty() {
    let e = CalendarEvent { id: "x".to_string(), summary: "Idea".to_string(), description: None, start: None, end: None };
    let f = FormState::from_event(&e);
    let values: Vec<&str> = f.fields.iter().map(|x| x.value.as_str()).collect();
    assert_eq!(values, vec!["Idea", "", "", "", ""]);
}

#[test]
fn typing_inserts_at_the_cursor() {
    let mut f = FormState::new(d(2026, 5, 27));
    assert!(!handle_form_key(Key::Char('H'), &mut f));
    assert!(!handle_form_key(Key::Char('i'), &mut f));
    assert_eq!(f.fields[0].value, "Hi");
    assert_eq!(f.fields[0].cursor, 2);
    handle_form_key(Key::Left, &mut f);
    handle_form_key(Key::Char(' '), &mut f);
    assert_eq!(f.fields[0].value, "H i");
    assert_eq!(f.fields[0].cursor, 2);
}

#[test]
fn editing_keys_move_and_delete_by_character() {
    let mut f = FormState::new(d(2026, 5, 27));
    for c in "שלום".chars() {
        handle_form_key(Key::Char(c), &mut f);
    }
    assert_eq!(f.fields[0].cursor, 4);
    handle_form_key(Key::Backspace, &mut f);
    assert_eq!(f.fields[0].value, "שלו");
    handle_form_key(Key::Home, &mut f);
    assert_eq!(f.fields[0].cursor, 0);
    handle_form_key(Key::Delete, &mut f);
    assert_eq!(f.fields[0].value, "לו");
    handle_form_key(Key::Left, &mut f);
    assert_eq!(f.fields[0].cursor, 0);
    handle_form_key(Key::End, &mut f);
    assert_eq!(f.fields[0].cursor, 2);
    handle_form_key(Key::Right, &mut f);
    assert_eq!(f.fields[0].cursor, 2);
    handle_form_key(Key::Delete, &mut f);
    assert_eq!(f.fields[0].value, "לו");
}

#[test]
fn control_characters_are_not_typed() {
    let mut f = FormState::new(d(2026, 5, 27));
    handle_form_key(Key::Char('\u{7}'), &mut f);
    assert_eq!(f.fields[0].value, "");
}

#[test]
fn tab_and_backtab_cycle_through_the_fields() {
    let mut f = FormState::new(d(2026, 5, 27));
    handle_form_key(Key::Tab, &mut f);
    assert_eq!(f.focus, 1);
    handle_form_key(Key::Down, &mut f);
    handle_form_key(Key::Down, &mut f);
    handle_form_key(Key::Tab, &mut f);
    assert_eq!(f.focus, 0);
    handle_form_key(Key::BackTab, &mut f);
    assert_eq!(f.focus, 3);
    handle_form_key(Key::Up, &mut f);
    assert_eq!(f.focus, 2);
}

#[test]
fn enter_submits() {
    let mut f = FormState::new(d(2026, 5, 27));
    assert!(handle_form_key(Key::Enter, &mut f));
    assert!(!handle_form_key(Key::Esc, &mut f));
}

#[test]
fn a_complete_form_gives_the_event() {
    let f = form(&["  Lunch ", "2026-06-01", "12:00", "1:00pm"]);
    let r = form_to_event(&f, d(2026, 5, 27));
    assert_eq!(
        r,
        Ok(("Lunch".to_string(), None, at(d(2026, 6, 1), 12, 0), at(d(2026, 6, 1), 13, 0)))
    );
}

#[test]
fn an_empty_date_takes_the_selected_day() {
    let f = form(&["Lunch", "  ", "12:00", "13:00", " with Ana "]);
    let r = form_to_event(&f, d(2026, 5, 27));
    assert_eq!(
        r,
        Ok((
            "Lunch".to_string(),
            Some("with Ana".to_string()),
            at(d(2026, 5, 27), 12, 0),
            at(d(2026, 5, 27), 13, 0)
        ))
    );
}

#[test]
fn a_form_without_time_fields_uses_nine_to_ten() {
    let f = form(&["Call", "2026-06-01"]);
    let r = form_to_event(&f, d(2026, 5, 27));
    assert_eq!(r, Ok(("Call".to_string(), None, at(d(2026, 6, 1), 9, 0), at(d(2026, 6, 1), 10, 0))));
}

#[test]
fn form_errors_say_what_is_wrong() {
    let day = d(2026, 5, 27);
    assert_eq!(form_to_event(&form(&[]), day), Err("No fields in form".to_string()));
    assert_eq!(form_to_event(&form(&["  ", "", "09:00", "10:00"]), day), Err("Title is required".to_string()));
    assert_eq!(
        form_to_event(&form(&["A", "27/05/2026", "09:00", "10:00"]), day),
        Err("Invalid date — use YYYY-MM-DD".to_string())
    );
    assert_eq!(form_to_event(&form(&["A", "", "", "10:00"]), day), Err("Time is required".to_string()));
    assert_eq!(
        form_to_event(&form(&["A", "", "9", "noon"]), day),
        Err("Invalid time \"noon\". Try HH:MM (e.g. 14:30)".to_string())
    );
    assert_eq!(
        form_to_event(&form(&["A", "", "10:00", "10:00"]), day),
        Err("End time must be after start time".to_string())
    );
    assert_eq!(
        form_to_event(&form(&["A", "", "11:00", "10:00"]), day),
        Err("End time must be after start time".to_string())
    );
}

#[test]
fn typing_then_backspace_restores_the_field() {
    let mut f = FormState::new(d(2026, 5, 27));
    handle_form_key(Key::Tab, &mut f);
    handle_form_key(Key::Home, &mut f);
    handle_form_key(Key::Right, &mut f);
    handle_form_key(Key::Char('x'), &mut f);
    assert_eq!(f.fields[1].value, "2x026-05-27");
    handle_form_key(Key::Backspace, &mut f);
    assert_eq!(f.fields[1].value, "2026-05-27");
    assert_eq!(f.fields[1].cursor, 1);
    handle_form_key(Key::Tab, &mut f);
    handle_form_key(Key::BackTab, &mut f);
    assert_eq!(f.focus, 1);
}

#[test]
fn saving_an_unchanged_edit_form_gives_the_event_back() {
    let e = CalendarEvent {
        id: "local-3".to_string(),
        summary: "Review".to_string(),
        description: Some("with Ana".to_string()),
        start: Some(at(d(2026, 5, 27), 15, 0)),
        end: Some(at(d(2026, 5, 27), 16, 30)),
    };
    let f = FormState::from_event(&e);
    assert_eq!(
        form_to_event(&f, d(2000, 1, 1)),
        Ok(("Review".to_string(), Some("with Ana".to_string()), at(d(2026, 5, 27), 15, 0), at(d(2026, 5, 27), 16, 30)))
    );
    let far = CalendarEvent { start: Some(at(d(10000, 1, 2), 8, 0)), end: Some(at(d(10000, 1, 2), 9, 0)), description: None, ..e };
    let f = FormState::from_event(&far);
    assert_eq!(f.fields[1].value, "+10000-01-02");
    assert_eq!(form_to_event(&f, d(2000, 1, 1)), Ok(("Review".to_string(), None, at(d(10000, 1, 2), 8, 0), at(d(10000, 1, 2), 9, 0))));
}
