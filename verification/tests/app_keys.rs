use calendar_cli::app::{App, AuthState, Command, Env, Focus, MenuAction, Mode, ViewMode};
use calendar_cli::config::{Config, Settings};
use calendar_cli::date::{Date, DateTime, Time};
use calendar_cli::models::{CalendarEvent, Key};

fn d(year: i32, month: u32, day: u32) -> Date {
    Date { year, month, day }
}

fn at(date: Date, hour: u32, minute: u32) -> DateTime {
    DateTime { date, time: Time { hour, minute, second: 0 } }
}

fn config() -> Config {
    Config {
        credentials_path: "/home/u/.config/calendar-cli/credentials.json".to_string(),
        token_path: "/home/u/.config/calendar-cli/token.json".to_string(),
        settings_path: "/home/u/.config/calendar-cli/settings.json".to_string(),
    }
}

fn env(today: Date) -> Env {
    Env { today, token_exists: false, credentials_exist: false, cal_registered: false }
}

fn app_on(today: Date) -> App {
    App::new(&config(), &Settings::default(), today)
}

fn event(id: &str, summary: &str, start: DateTime, end: DateTime) -> CalendarEvent {
    CalendarEvent { id: id.to_string(), summary: summary.to_string(), description: None, start: Some(start), end: Some(end) }
}

fn press(app: &mut App, key: Key, today: Date) -> Command {
    app.handle_key(key, env(today))
}

#[test]
fn the_calendar_starts_on_today() {
    let app = app_on(d(2026, 5, 27));
    assert_eq!(app.selected_date, d(2026, 5, 27));
    assert_eq!(app.view_date, d(2026, 5, 1));
    assert!(matches!(app.mode, Mode::Normal));
    assert_eq!(app.focus, Focus::Calendar);
    assert_eq!(app.view_mode, ViewMode::Month);
    assert_eq!(app.config_events_path, "/home/u/.config/calendar-cli/events.json");
    assert!(!app.events_loaded);
}

#[test]
fn a_credentials_path_without_a_directory_gives_no_calendar() {
    let c = Config { credentials_path: String::new(), token_path: String::new(), settings_path: String::new() };
    assert!(App::try_new(&c, &Settings::default(), d(2026, 5, 27)).is_none());
    assert!(App::try_new(&config(), &Settings::default(), d(2026, 5, 27)).is_some());
}

#[test]
fn page_up_and_left_bracket_go_to_the_previous_month() {
    let today = d(2026, 5, 27);
    let mut app = app_on(today);
    press(&mut app, Key::PageUp, today);
    assert_eq!(app.view_date, d(2026, 4, 1));
    assert_eq!(app.selected_date, d(2026, 4, 27));
    assert!(app.needs_refresh);
    press(&mut app, Key::Char('['), today);
    assert_eq!(app.view_date, d(2026, 3, 1));
}

#[test]
fn page_down_and_right_bracket_go_to_the_next_month() {
    let today = d(2026, 1, 31);
    let mut app = app_on(today);
    press(&mut app, Key::PageDown, today);
    assert_eq!(app.view_date, d(2026, 2, 1));
    assert_eq!(app.selected_date, d(2026, 2, 28));
    press(&mut app, Key::Char(']'), today);
    assert_eq!(app.view_date, d(2026, 3, 1));
    assert_eq!(app.selected_date, d(2026, 3, 28));
}

#[test]
fn arrows_move_the_selected_day_and_the_view_follows() {
    let today = d(2026, 5, 31);
    let mut app = app_on(today);
    press(&mut app, Key::Right, today);
    assert_eq!(app.selected_date, d(2026, 6, 1));
    assert_eq!(app.view_date, d(2026, 6, 1));
    press(&mut app, Key::Up, today);
    assert_eq!(app.selected_date, d(2026, 5, 25));
    assert_eq!(app.view_date, d(2026, 5, 1));
    press(&mut app, Key::Down, today);
    press(&mut app, Key::Left, today);
    assert_eq!(app.selected_date, d(2026, 5, 31));
}

#[test]
fn enter_opens_the_day_menu_and_esc_closes_it() {
    let today = d(2026, 5, 27);
    let mut app = app_on(today);
    press(&mut app, Key::Enter, today);
    assert!(app.menu_open);
    let labels: Vec<&str> = app.menu_items.iter().map(|i| i.label.as_str()).collect();
    assert_eq!(labels, vec!["New Event"]);
    press(&mut app, Key::Esc, today);
    assert!(!app.menu_open);
    assert!(matches!(app.mode, Mode::Normal));
}

#[test]
fn the_day_menu_offers_today_on_another_day() {
    let today = d(2026, 5, 27);
    let mut app = app_on(today);
    press(&mut app, Key::Right, today);
    press(&mut app, Key::Enter, today);
    let labels: Vec<&str> = app.menu_items.iter().map(|i| i.label.as_str()).collect();
    assert_eq!(labels, vec!["New Event", "Go to Today"]);
    press(&mut app, Key::Down, today);
    press(&mut app, Key::Enter, today);
    assert_eq!(app.selected_date, today);
    assert!(!app.menu_open);
    assert!(app.needs_refresh);
}

#[test]
fn esc_asks_before_quitting() {
    let today = d(2026, 5, 27);
    let mut app = app_on(today);
    assert!(matches!(press(&mut app, Key::Esc, today), Command::Idle));
    assert!(matches!(app.mode, Mode::ConfirmingQuit));
    assert!(matches!(press(&mut app, Key::Char('n'), today), Command::Idle));
    assert!(matches!(app.mode, Mode::Normal));
    press(&mut app, Key::Char('q'), today);
    assert!(matches!(press(&mut app, Key::Char('y'), today), Command::Quit));
}

#[test]
fn a_new_event_is_typed_into_the_form_and_submitted() {
    let today = d(2026, 5, 27);
    let mut app = app_on(today);
    press(&mut app, Key::Char('n'), today);
    assert!(matches!(app.mode, Mode::Creating(_)));
    for c in "Lunch".chars() {
        press(&mut app, Key::Char(c), today);
    }
    match press(&mut app, Key::Enter, today) {
        Command::CreateEvent { summary, description, start, end } => {
            assert_eq!(summary, "Lunch");
            assert_eq!(description, None);
            assert_eq!(start, at(today, 9, 0));
            assert_eq!(end, at(today, 10, 0));
        },
        _ => panic!("expected a create request"),
    }
    assert!(matches!(app.mode, Mode::Creating(_)));
    let action = app.finish_create("Lunch", Ok(()));
    assert_eq!(action, calendar_cli::app::Action::RefreshEvents);
    assert_eq!(app.status, "✓ Created: Lunch");
    assert!(matches!(app.mode, Mode::Normal));
}

#[test]
fn an_incomplete_form_shows_why() {
    let today = d(2026, 5, 27);
    let mut app = app_on(today);
    press(&mut app, Key::Char('n'), today);
    assert!(matches!(press(&mut app, Key::Enter, today), Command::Idle));
    assert_eq!(app.status, "Title is required");
    press(&mut app, Key::Esc, today);
    assert!(matches!(app.mode, Mode::Normal));
    assert_eq!(app.status, "");
}

#[test]
fn slash_searches_titles_and_descriptions() {
    let today = d(2026, 5, 27);
    let mut app = app_on(today);
    let mut notes = event("local-2", "Dentist", at(d(2026, 5, 3), 8, 0), at(d(2026, 5, 3), 9, 0));
    notes.description = Some("Bring the LUNCH card".to_string());
    app.events_fetched(vec![
        event("local-1", "Team lunch", at(d(2026, 5, 12), 12, 0), at(d(2026, 5, 12), 13, 0)),
        notes,
        event("local-3", "Review", at(d(2026, 5, 27), 15, 0), at(d(2026, 5, 27), 16, 0)),
    ]);
    assert_eq!(app.events.len(), 1);
    press(&mut app, Key::Char('/'), today);
    assert_eq!(app.search_query, Some(String::new()));
    for c in "lunch".chars() {
        press(&mut app, Key::Char(c), today);
    }
    let names: Vec<&str> = app.events.iter().map(|e| e.summary.as_str()).collect();
    assert_eq!(names, vec!["Team lunch", "Dentist"]);
    press(&mut app, Key::Down, today);
    assert_eq!(app.event_focus, 1);
    press(&mut app, Key::Enter, today);
    assert_eq!(app.search_query, None);
    assert_eq!(app.selected_date, d(2026, 5, 3));
    assert!(app.needs_refresh);
}

#[test]
fn esc_cancels_a_search() {
    let today = d(2026, 5, 27);
    let mut app = app_on(today);
    app.events_fetched(vec![event("local-3", "Review", at(today, 15, 0), at(today, 16, 0))]);
    press(&mut app, Key::Char('/'), today);
    press(&mut app, Key::Char('x'), today);
    assert_eq!(app.events.len(), 0);
    press(&mut app, Key::Backspace, today);
    assert_eq!(app.search_query, Some(String::new()));
    assert_eq!(app.events.len(), 1);
    press(&mut app, Key::Char('x'), today);
    press(&mut app, Key::Esc, today);
    assert_eq!(app.search_query, None);
    assert_eq!(app.events.len(), 1);
}

#[test]
fn jumping_to_a_typed_date() {
    let today = d(2026, 5, 27);
    let mut app = app_on(today);
    press(&mut app, Key::Char('j'), today);
    match &app.mode {
        Mode::JumpToDate(v, c) => {
            assert_eq!(v, "2026-05-27");
            assert_eq!(*c, 0);
        },
        _ => panic!("expected the jump prompt"),
    }
    press(&mut app, Key::End, today);
    for _ in 0..10 {
        press(&mut app, Key::Backspace, today);
    }
    for c in "tomorrow".chars() {
        press(&mut app, Key::Char(c), today);
    }
    press(&mut app, Key::Enter, today);
    assert!(matches!(app.mode, Mode::Normal));
    assert_eq!(app.selected_date, d(2026, 5, 28));
    assert!(app.needs_refresh);
}

#[test]
fn an_unknown_jump_date_is_reported() {
    let today = d(2026, 5, 27);
    let mut app = app_on(today);
    app.mode = Mode::JumpToDate("someday".to_string(), 7);
    press(&mut app, Key::Enter, today);
    assert!(matches!(app.mode, Mode::Normal));
    assert_eq!(app.status, "Invalid date: someday");
    assert_eq!(app.selected_date, today);
}

#[test]
fn keys_that_would_leave_the_supported_dates_are_refused() {
    let last = d(262142, 12, 31);
    let mut app = app_on(last);
    assert!(!app.key_is_ok(Key::Right, env(last)));
    assert!(app.try_handle_key(Key::Right, env(last)).is_none());
    assert_eq!(app.selected_date, last);
    assert!(app.key_is_ok(Key::Left, env(last)));
    assert!(app.try_handle_key(Key::Left, env(last)).is_some());
    assert_eq!(app.selected_date, d(262142, 12, 30));
}

#[test]
fn settings_toggle_the_week_start_and_cycle_the_theme() {
    let today = d(2026, 5, 27);
    let mut app = app_on(today);
    press(&mut app, Key::Char('s'), today);
    assert!(matches!(app.mode, Mode::Settings));
    press(&mut app, Key::Down, today);
    press(&mut app, Key::Tab, today);
    assert_eq!(app.settings_focus, 2);
    assert!(matches!(press(&mut app, Key::Enter, today), Command::SaveSettings { refresh: true }));
    assert_eq!(app.first_day_of_week, 1);
    press(&mut app, Key::Down, today);
    assert!(matches!(press(&mut app, Key::Char(' '), today), Command::SaveSettings { refresh: false }));
    assert_eq!(app.settings().theme, "light");
    assert_eq!(app.settings().first_day_of_week, 1);
    press(&mut app, Key::Esc, today);
    assert!(matches!(app.mode, Mode::Normal));
}

#[test]
fn the_google_entry_signs_in_signs_out_or_explains() {
    let today = d(2026, 5, 27);
    let mut app = app_on(today);
    app.mode = Mode::Settings;
    app.settings_focus = 1;
    let e = Env { today, token_exists: true, credentials_exist: true, cal_registered: false };
    assert!(matches!(app.handle_key(Key::Enter, e), Command::SignOut));
    assert_eq!(app.status, "✓ Signed out of Google Calendar");
    let e = Env { today, token_exists: false, credentials_exist: true, cal_registered: false };
    assert!(matches!(app.handle_key(Key::Enter, e), Command::StartAuth));
    let e = Env { today, token_exists: false, credentials_exist: false, cal_registered: false };
    assert!(matches!(app.handle_key(Key::Enter, e), Command::Idle));
    assert!(matches!(app.mode, Mode::Setup));
}

#[test]
fn the_cal_entry_registers_or_unregisters() {
    let today = d(2026, 5, 27);
    let mut app = app_on(today);
    app.mode = Mode::Settings;
    app.settings_focus = 4;
    let e = Env { today, token_exists: false, credentials_exist: false, cal_registered: false };
    assert!(matches!(app.handle_key(Key::Enter, e), Command::RegisterCal));
    let e = Env { today, token_exists: false, credentials_exist: false, cal_registered: true };
    assert!(matches!(app.handle_key(Key::Enter, e), Command::UnregisterCal));
}

#[test]
fn deleting_asks_and_names_the_event() {
    let today = d(2026, 5, 27);
    let mut app = app_on(today);
    app.events_fetched(vec![event("local-3", "Review", at(today, 15, 0), at(today, 16, 0))]);
    press(&mut app, Key::Char('d'), today);
    assert!(matches!(app.mode, Mode::Deleting));
    match press(&mut app, Key::Enter, today) {
        Command::DeleteEvent { id } => assert_eq!(id, "local-3"),
        _ => panic!("expected a delete request"),
    }
    assert_eq!(app.finish_delete(Err("disk full".to_string())), calendar_cli::app::Action::Nothing);
    assert_eq!(app.status, "✗ Error: disk full");
    assert_eq!(app.finish_delete(Ok(())), calendar_cli::app::Action::RefreshEvents);
    assert_eq!(app.status, "✓ Event deleted");
    assert!(matches!(app.mode, Mode::Normal));
}

#[test]
fn editing_fills_the_form_from_the_event() {
    let today = d(2026, 5, 27);
    let mut app = app_on(today);
    app.events_fetched(vec![event("local-3", "Review", at(today, 15, 0), at(today, 16, 0))]);
    press(&mut app, Key::Char('e'), today);
    match &app.mode {
        Mode::Editing(f) => {
            let values: Vec<&str> = f.fields.iter().map(|x| x.value.as_str()).collect();
            assert_eq!(values, vec!["Review", "2026-05-27", "15:00", "16:00", ""]);
        },
        _ => panic!("expected the edit form"),
    }
    match press(&mut app, Key::Enter, today) {
        Command::UpdateEvent { id, summary, .. } => {
            assert_eq!(id, "local-3");
            assert_eq!(summary, "Review");
        },
        _ => panic!("expected an update request"),
    }
    assert_eq!(app.finish_update("Review", Ok(())), calendar_cli::app::Action::RefreshEvents);
    assert_eq!(app.status, "✓ Updated: Review");
}

#[test]
fn tab_moves_between_calendar_and_events() {
    let today = d(2026, 5, 27);
    let mut app = app_on(today);
    app.events_fetched(vec![
        event("local-1", "A", at(today, 9, 0), at(today, 10, 0)),
        event("local-2", "B", at(today, 11, 0), at(today, 12, 0)),
    ]);
    press(&mut app, Key::Tab, today);
    assert_eq!(app.focus, Focus::EventList);
    press(&mut app, Key::Down, today);
    press(&mut app, Key::Down, today);
    assert_eq!(app.event_focus, 1);
    press(&mut app, Key::Enter, today);
    let actions: Vec<MenuAction> = app.menu_items.iter().map(|i| i.action).collect();
    assert_eq!(
        actions,
        vec![MenuAction::FocusEvents, MenuAction::NewEvent, MenuAction::ViewDetail, MenuAction::EditEvent, MenuAction::DeleteEvent]
    );
    press(&mut app, Key::BackTab, today);
    assert!(app.menu_open);
}

#[test]
fn week_view_lists_the_days_events_in_a_window() {
    let today = d(2026, 5, 27);
    let mut app = app_on(today);
    app.events_fetched(vec![event("local-1", "A", at(today, 9, 0), at(today, 10, 0))]);
    press(&mut app, Key::Char('w'), today);
    assert_eq!(app.view_mode, ViewMode::Week);
    assert!(matches!(app.execute_menu_action(MenuAction::FocusEvents, env(today)), Command::Idle));
    assert!(matches!(app.mode, Mode::ViewingEvents(_, 0)));
    press(&mut app, Key::Enter, today);
    assert!(matches!(app.mode, Mode::ViewingDetail(_)));
    press(&mut app, Key::Esc, today);
    assert!(matches!(app.mode, Mode::Normal));
}

#[test]
fn a_sign_in_message_takes_esc_first() {
    let today = d(2026, 5, 27);
    let mut app = app_on(today);
    app.finish_auth(Err("token refused".to_string()));
    assert!(matches!(&app.auth_state, AuthState::Message(m) if m == "✗ token refused"));
    press(&mut app, Key::Char('q'), today);
    assert!(matches!(app.mode, Mode::Normal));
    press(&mut app, Key::Esc, today);
    assert!(matches!(app.auth_state, AuthState::Idle));
}

#[test]
fn paging_forward_and_back_returns_to_the_month() {
    let today = d(2026, 12, 31);
    let mut app = app_on(today);
    press(&mut app, Key::PageDown, today);
    assert_eq!(app.view_date, d(2027, 1, 1));
    press(&mut app, Key::PageUp, today);
    assert_eq!(app.view_date, d(2026, 12, 1));
    press(&mut app, Key::PageUp, today);
    press(&mut app, Key::PageDown, today);
    assert_eq!(app.view_date, d(2026, 12, 1));
}

#[test]
fn a_day_forward_and_back_returns_to_the_day() {
    let today = d(2026, 2, 28);
    let mut app = app_on(today);
    press(&mut app, Key::Right, today);
    assert_eq!(app.selected_date, d(2026, 3, 1));
    press(&mut app, Key::Left, today);
    assert_eq!(app.selected_date, today);
    assert_eq!(app.view_date, d(2026, 2, 1));
}

#[test]
fn tab_cycles_menu_bar_calendar_and_events() {
    let today = d(2026, 5, 27);
    let mut app = app_on(today);
    assert_eq!(app.focus, Focus::Calendar);
    press(&mut app, Key::Tab, today);
    assert_eq!(app.focus, Focus::EventList);
    press(&mut app, Key::Tab, today);
    assert_eq!(app.focus, Focus::MenuBar);
    press(&mut app, Key::Tab, today);
    assert_eq!(app.focus, Focus::Calendar);
    press(&mut app, Key::BackTab, today);
    assert_eq!(app.focus, Focus::MenuBar);
    press(&mut app, Key::BackTab, today);
    assert_eq!(app.focus, Focus::EventList);
}

#[test]
fn the_menu_bar_opens_file_calendar_account_and_help() {
    let today = d(2026, 5, 27);
    let mut app = app_on(today);
    app.focus = Focus::MenuBar;
    press(&mut app, Key::Enter, today);
    let labels: Vec<&str> = app.menu_items.iter().map(|i| i.label.as_str()).collect();
    assert_eq!(labels, vec!["Settings", "Quit"]);
    press(&mut app, Key::Esc, today);
    press(&mut app, Key::Right, today);
    press(&mut app, Key::Down, today);
    let labels: Vec<&str> = app.menu_items.iter().map(|i| i.label.as_str()).collect();
    assert_eq!(labels, vec!["Go to Today", "New Event", "Search"]);
    press(&mut app, Key::Esc, today);
    press(&mut app, Key::Right, today);
    let e = Env { today, token_exists: false, credentials_exist: false, cal_registered: false };
    app.handle_key(Key::Enter, e);
    assert_eq!(app.menu_items[0].label, "Sign In to Google");
    assert!(!app.menu_items[0].enabled);
    press(&mut app, Key::Esc, today);
    press(&mut app, Key::Right, today);
    press(&mut app, Key::Enter, today);
    assert_eq!(app.menu_items[0].label, "Keyboard Shortcuts");
    press(&mut app, Key::Enter, today);
    assert!(matches!(app.mode, Mode::Help));
    press(&mut app, Key::Esc, today);
    press(&mut app, Key::Right, today);
    assert_eq!(app.menu_bar_focus, 0);
    press(&mut app, Key::Left, today);
    assert_eq!(app.menu_bar_focus, 3);
}

#[test]
fn file_settings_from_the_menu_bar() {
    let today = d(2026, 5, 27);
    let mut app = app_on(today);
    app.focus = Focus::MenuBar;
    press(&mut app, Key::Enter, today);
    press(&mut app, Key::Enter, today);
    assert!(matches!(app.mode, Mode::Settings));
    assert_eq!(app.settings_focus, 0);
}

#[test]
fn three_presses_of_the_theme_row_restore_the_theme() {
    let today = d(2026, 5, 27);
    let mut app = app_on(today);
    app.mode = Mode::Settings;
    app.settings_focus = 3;
    let start = app.theme_kind;
    press(&mut app, Key::Enter, today);
    assert_eq!(app.settings().theme, "light");
    press(&mut app, Key::Enter, today);
    assert_eq!(app.settings().theme, "ocean");
    press(&mut app, Key::Enter, today);
    assert_eq!(app.theme_kind, start);
}

#[test]
fn the_settings_cursor_stops_at_the_cal_row() {
    let today = d(2026, 5, 27);
    let mut app = app_on(today);
    app.mode = Mode::Settings;
    for _ in 0..10 {
        press(&mut app, Key::Down, today);
    }
    assert_eq!(app.settings_focus, 4);
}
