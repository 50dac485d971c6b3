use calendar_cli::app::{App, Focus, Mode};
use calendar_cli::config::{Config, Settings};
use calendar_cli::date::{Date, DateTime, Time};
use calendar_cli::models::CalendarEvent;
use calendar_cli::screen::RowMark;
use calendar_cli::screen::{
    auth_message_kind, bidi, column_headings, day_cell_text, day_look, description_text, event_time_text,
    has_event_on, is_weekend_column, list_window, month_cells, month_heading, month_last_day, status_segments,
    AuthMessageKind, DayLook,
};

fn d(year: i32, month: u32, day: u32) -> Date {
    Date { year, month, day }
}

fn at(date: Date, hour: u32, minute: u32) -> DateTime {
    DateTime { date, time: Time { hour, minute, second: 0 } }
}

fn app() -> App {
    let config = Config {
        credentials_path: "/c/credentials.json".to_string(),
        token_path: "/c/token.json".to_string(),
        settings_path: "/c/settings.json".to_string(),
    };
    App::new(&config, &Settings::default(), d(2026, 5, 27))
}

#[test]
fn may_2026_grid_starting_on_monday() {
    // May 2026 starts on a Friday: column 4 of a Monday-first week.
    let rows = month_cells(4, 31);
    assert_eq!(rows.len(), 5);
    assert_eq!(rows[0], vec![None, None, None, None, Some(1), Some(2), Some(3)]);
    assert_eq!(rows[1][0], Some(4));
    assert_eq!(rows[4], vec![Some(25), Some(26), Some(27), Some(28), Some(29), Some(30), Some(31)]);
}

#[test]
fn a_month_can_take_six_rows() {
    let rows = month_cells(6, 31);
    assert_eq!(rows.len(), 6);
    assert_eq!(rows[5], vec![Some(30), Some(31), None, None, None, None, None]);
    let feb = month_cells(0, 28);
    assert_eq!(feb.len(), 4);
}

#[test]
fn day_cells_are_five_characters() {
    assert_eq!(day_cell_text(5, false), "  5  ");
    assert_eq!(day_cell_text(26, true), " 26· ");
    assert_eq!(day_cell_text(7, true), "  7· ");
}

#[test]
fn a_dot_marks_days_with_events() {
    let events = vec![
        CalendarEvent { id: "1".into(), summary: "Trip".into(), description: None, start: Some(at(d(2026, 5, 20), 9, 0)), end: Some(at(d(2026, 5, 22), 9, 0)) },
        CalendarEvent { id: "2".into(), summary: "Open".into(), description: None, start: Some(at(d(2026, 5, 25), 9, 0)), end: None },
        CalendarEvent { id: "3".into(), summary: "None".into(), description: None, start: None, end: None },
    ];
    assert!(has_event_on(d(2026, 5, 21), &events));
    assert!(has_event_on(d(2026, 5, 22), &events));
    assert!(has_event_on(d(2026, 5, 25), &events));
    assert!(!has_event_on(d(2026, 5, 26), &events));
    assert!(!has_event_on(d(2026, 5, 19), &events));
}

#[test]
fn last_day_of_a_month() {
    assert_eq!(month_last_day(2024, 2), d(2024, 2, 29));
    assert_eq!(month_last_day(2026, 12), d(2026, 12, 31));
    assert_eq!(month_last_day(2026, 4), d(2026, 4, 30));
}

#[test]
fn how_days_look() {
    let today = d(2026, 5, 27);
    assert_eq!(day_look(today, today, today), DayLook::Selected);
    assert_eq!(day_look(today, d(2026, 5, 1), today), DayLook::Today { weekend: false });
    assert_eq!(day_look(d(2026, 5, 30), d(2026, 5, 1), d(2026, 5, 30)), DayLook::Today { weekend: true });
    assert_eq!(day_look(d(2026, 5, 31), today, today), DayLook::Weekend);
    assert_eq!(day_look(d(2026, 5, 29), today, today), DayLook::Plain);
}

#[test]
fn column_headings_follow_the_week_start() {
    assert_eq!(column_headings(0), vec!["Mo", "Tu", "We", "Th", "Fr", "Sa", "Su"]);
    assert_eq!(column_headings(1), vec!["Su", "Mo", "Tu", "We", "Th", "Fr", "Sa"]);
    let monday_first: Vec<bool> = (0..7).map(|i| is_weekend_column(0, i)).collect();
    assert_eq!(monday_first, vec![false, false, false, false, false, true, true]);
    let sunday_first: Vec<bool> = (0..7).map(|i| is_weekend_column(1, i)).collect();
    assert_eq!(sunday_first, vec![true, false, false, false, false, false, true]);
}

#[test]
fn status_line_shows_the_message_or_the_keys() {
    let mut a = app();
    assert_eq!(a.status_text(), "[/] Search  [Arrows] Days  [Enter] Options  [Esc] Quit");
    a.focus = Focus::EventList;
    assert_eq!(a.status_text(), "[Up/Down] Select  [Enter] Options  [Tab] Focus");
    a.menu_open = true;
    assert_eq!(a.status_text(), "[Enter] Select  [Esc] Cancel");
    a.menu_open = false;
    a.mode = Mode::Help;
    assert_eq!(a.status_text(), "[Esc] Close");
    a.mode = Mode::Settings;
    assert_eq!(a.status_text(), "[Enter] Execute  [Esc] Back");
    a.search_query = Some(String::new());
    assert_eq!(a.status_text(), "[Esc] Cancel  [Enter] Jump to event  [Up/Down] Navigate results  Type to search");
    a.status = "✓ Event deleted".to_string();
    assert_eq!(a.status_text(), "✓ Event deleted");
}

#[test]
fn status_line_parts() {
    let parts = status_segments("[/] Search  [Arrows] Days    plain").unwrap();
    let view: Vec<(Option<String>, String)> = parts.into_iter().map(|g| (g.key, g.text)).collect();
    assert_eq!(
        view,
        vec![
            (Some("/".to_string()), " Search".to_string()),
            (Some("Arrows".to_string()), " Days".to_string()),
            (None, "plain".to_string()),
        ]
    );
    let odd = status_segments("a   b").unwrap();
    let texts: Vec<String> = odd.into_iter().map(|g| g.text).collect();
    assert_eq!(texts, vec!["a".to_string(), " b".to_string()]);
    assert!(status_segments("see  [unclosed").is_none());
    assert_eq!(status_segments("").unwrap().len(), 0);
}

#[test]
fn event_rows() {
    let e = CalendarEvent { id: "1".into(), summary: "A".into(), description: None, start: Some(at(d(2026, 5, 27), 9, 5)), end: Some(at(d(2026, 5, 27), 17, 30)) };
    assert_eq!(event_time_text(&e), "09:05-17:30");
    let open = CalendarEvent { end: None, ..e.clone() };
    assert_eq!(event_time_text(&open), "09:05–");
    let none = CalendarEvent { start: None, end: None, ..e };
    assert_eq!(event_time_text(&none), "      ");
}

#[test]
fn descriptions_are_cut_at_thirty_characters() {
    assert_eq!(description_text(&None), "");
    assert_eq!(description_text(&Some(String::new())), "");
    assert_eq!(description_text(&Some("short".to_string())), " short");
    let long = "a".repeat(31);
    assert_eq!(description_text(&Some(long)), format!(" {}…", "a".repeat(30)));
    let exact = "b".repeat(30);
    assert_eq!(description_text(&Some(exact.clone())), format!(" {}", exact));
    // Ten Hebrew letters take twenty bytes: no ellipsis; twenty take forty.
    let he10 = "ש".repeat(10);
    assert_eq!(description_text(&Some(he10.clone())), format!(" {}", he10));
    let he20 = "ש".repeat(20);
    assert_eq!(description_text(&Some(he20.clone())), format!(" {}…", he20));
}

#[test]
fn the_list_scrolls_around_the_highlighted_row() {
    assert_eq!(list_window(3, 5, 10), (0, None));
    assert_eq!(list_window(0, 20, 5), (0, Some(15)));
    assert_eq!(list_window(10, 20, 5), (8, Some(7)));
    assert_eq!(list_window(19, 20, 5), (17, None));
}

#[test]
fn sign_in_message_kinds() {
    assert_eq!(auth_message_kind("✓ Successfully signed in to Google Calendar!"), AuthMessageKind::Success);
    assert_eq!(auth_message_kind("✗ Failed to bind port 8080: busy"), AuthMessageKind::Failure);
    assert_eq!(auth_message_kind("Waiting for authorization..."), AuthMessageKind::Waiting);
    assert_eq!(auth_message_kind(""), AuthMessageKind::Waiting);
}

#[test]
fn titles_and_prompts() {
    let mut a = app();
    assert_eq!(a.list_title(), " Wed, May 27  ");
    a.events = vec![CalendarEvent { id: "local-1".into(), summary: "Review".into(), description: None, start: Some(at(d(2026, 5, 27), 9, 0)), end: None }];
    assert_eq!(a.list_title(), " Wed, May 27 (1) ");
    assert_eq!(a.delete_prompt(), " Delete \"Review\"?");
    a.search_query = Some("rev".to_string());
    assert_eq!(a.list_title(), " Search: \"rev\" (1) ");
    assert_eq!(a.search_bar_text(), "rev");
    a.search_query = Some(String::new());
    assert_eq!(a.search_bar_text(), " ");
    a.events.clear();
    assert_eq!(a.delete_prompt(), " Delete \"this event\"?");
    assert_eq!(a.auth_dialog_message(), None);
}

#[test]
fn the_month_heading_is_centered() {
    let (indent, text) = month_heading(d(2026, 5, 1));
    assert_eq!(text, " May 2026 ");
    // 5 + 10 + 5 bytes leave 15 of 35: half, rounded up.
    assert_eq!(indent, 8);
    let (indent, text) = month_heading(d(2026, 9, 1));
    assert_eq!(text, " September 2026 ");
    assert_eq!(indent, 5);
}

#[test]
fn right_to_left_text_is_put_in_display_order() {
    assert_eq!(bidi(""), "");
    assert_eq!(bidi("hello"), "hello");
    assert_eq!(bidi("שלום"), "םולש");
}

#[test]
fn settings_rows_follow_the_state() {
    let mut a = app();
    a.settings_focus = 1;
    let rows = a.settings_rows(false, true, false);
    let labels: Vec<&str> = rows.iter().map(|r| r.label.as_str()).collect();
    assert_eq!(labels, vec!["Local Storage", "Google Calendar", "Start week on: ", "Theme: ", "cal command"]);
    let values: Vec<&str> = rows.iter().map(|r| r.value.as_str()).collect();
    assert_eq!(values, vec!["", "(sign in)", "Monday", "Default", "(register)"]);
    assert!(rows[1].focused && !rows[0].focused);
    assert_eq!(rows[1].mark, RowMark::Open);
    let signed_in = a.settings_rows(true, true, true);
    assert_eq!(signed_in[1].value, "(sign out)");
    assert_eq!(signed_in[1].mark, RowMark::Done);
    assert_eq!(signed_in[4].value, "(unregister)");
    let none = a.settings_rows(false, false, false);
    assert_eq!(none[1].value, "(no credentials)");
    assert!(!none[1].value_is_action);
    let sections: Vec<&str> = none.iter().map(|r| r.section.as_str()).collect();
    assert_eq!(sections, vec!["Connections", "Connections", "Calendar", "Appearance", "Shell"]);
}

#[test]
fn the_menu_bar_status_hint() {
    let mut a = app();
    a.focus = Focus::MenuBar;
    assert_eq!(a.status_text(), "[Left/Right] Navigate menus  [Down/Enter] Open  [Tab] Cycle focus");
}
