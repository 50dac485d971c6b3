use calendar_cli::app::{Action, App, AuthState, Mode};
use calendar_cli::config::{Config, Settings};
use calendar_cli::date::{Date, DateTime, Time};
use calendar_cli::flow::{all_events_ok, cal_registered_message, cal_wrapper_script, is_cal_wrapper};
use calendar_cli::models::CalendarEvent;

fn d(year: i32, month: u32, day: u32) -> Date {
    Date { year, month, day }
}

fn at(date: Date, hour: u32, minute: u32) -> DateTime {
    DateTime { date, time: Time { hour, minute, second: 0 } }
}

fn app() -> App {
    let config = Config {
        credentials_path: "/c/credentials.json".to_string(),
        token_path: "/c/token.json".to_string(),
        settings_path: "/c/settings.json".to_string(),
    };
    App::new(&config, &Settings::default(), d(2026, 5, 27))
}

fn event(summary: &str, start: DateTime, end: DateTime) -> CalendarEvent {
    CalendarEvent { id: format!("local-{}", summary), summary: summary.to_string(), description: None, start: Some(start), end: Some(end) }
}

#[test]
fn settings_are_read_into_the_state() {
    let config = Config {
        credentials_path: "/c/credentials.json".to_string(),
        token_path: "/c/token.json".to_string(),
        settings_path: "/c/settings.json".to_string(),
    };
    let s = Settings { first_day_of_week: 1, theme: "ocean".to_string(), dance_style: "sway".to_string() };
    let app = App::new(&config, &s, d(2026, 5, 27));
    assert_eq!(app.first_day_of_week, 1);
    assert_eq!(app.theme_kind, calendar_cli::theme::ThemeKind::Ocean);
    assert_eq!(app.dance_style, calendar_cli::theme::DanceStyle::Sway);
    let back = app.settings();
    assert_eq!(back.first_day_of_week, 1);
    assert_eq!(back.theme, "ocean");
    assert_eq!(back.dance_style, "sway");
}

#[test]
fn the_frame_counter_wraps() {
    let mut a = app();
    a.tick();
    assert_eq!(a.frame, 1);
    a.frame = usize::MAX;
    a.tick();
    assert_eq!(a.frame, 0);
}

#[test]
fn a_failed_create_keeps_the_form_and_reports() {
    let mut a = app();
    a.mode = Mode::Creating(calendar_cli::models::FormState::new(d(2026, 5, 27)));
    assert_eq!(a.finish_create("Lunch", Err("offline".to_string())), Action::Nothing);
    assert_eq!(a.status, "✗ Error: offline");
    assert!(matches!(a.mode, Mode::Creating(_)));
}

#[test]
fn cal_registration_outcomes() {
    let mut a = app();
    a.finish_register_cal(Ok("✓ cal command registered at /usr/local/bin/cal".to_string()));
    assert_eq!(a.status, "✓ cal command registered at /usr/local/bin/cal");
    a.finish_register_cal(Err("permission denied".to_string()));
    assert_eq!(a.status, "✗ Failed to register cal: permission denied");
    a.finish_unregister_cal(Ok(()));
    assert_eq!(a.status, "✓ cal command unregistered");
    a.finish_unregister_cal(Err("busy".to_string()));
    assert_eq!(a.status, "✗ Failed to unregister cal: busy");
}

#[test]
fn cal_wrapper_texts() {
    assert_eq!(cal_wrapper_script("/opt/calendar-cli"), "#!/bin/sh\nexec /opt/calendar-cli \"$@\"\n");
    assert!(is_cal_wrapper("#!/bin/sh\nexec /opt/calendar-cli \"$@\"\n"));
    assert!(!is_cal_wrapper("#!/bin/sh\nexec /usr/bin/ncal \"$@\"\n"));
    assert_eq!(cal_registered_message(Some("/usr/local/bin/cal")), "✓ cal command registered at /usr/local/bin/cal");
    assert_eq!(
        cal_registered_message(None),
        "✓ cal registered at ~/.local/bin/cal  (add ~/.local/bin to your PATH)"
    );
}

#[test]
fn sign_in_failures_become_messages() {
    let mut a = app();
    a.credentials_failed("no such file");
    assert!(matches!(&a.auth_state, AuthState::Message(m) if m == "✗ Failed to load credentials: no such file"));
    a.bind_failed("address in use");
    assert!(matches!(&a.auth_state, AuthState::Message(m) if m == "✗ Failed to bind port 8080: address in use"));
    a.auth_listening("s1".to_string());
    a.redirect_read_failed();
    assert!(matches!(&a.auth_state, AuthState::Message(m) if m == "✗ Failed to read OAuth redirect"));
}

#[test]
fn a_redirect_with_the_expected_state_gives_the_code() {
    let mut a = app();
    a.auth_listening("s1".to_string());
    let code = a.redirect_received("GET /?code=4%2F0Ab&state=s1 HTTP/1.1\r\nHost: localhost\r\n\r\n");
    assert_eq!(code, Some("4/0Ab".to_string()));
    assert!(matches!(a.auth_state, AuthState::Idle));
    a.finish_auth(Ok(()));
    assert!(matches!(&a.auth_state, AuthState::Message(m) if m == "✓ Successfully signed in to Google Calendar!"));
}

#[test]
fn a_redirect_with_another_state_is_refused() {
    let mut a = app();
    a.auth_listening("s1".to_string());
    assert_eq!(a.redirect_received("GET /?code=abc&state=evil HTTP/1.1\r\n"), None);
    assert!(matches!(&a.auth_state, AuthState::Message(m) if m == "✗ CSRF mismatch — possible attack"));
}

#[test]
fn a_malformed_redirect_is_refused() {
    let mut a = app();
    a.auth_listening("s1".to_string());
    assert_eq!(a.redirect_received("GET /?state=s1 HTTP/1.1\r\n"), None);
    assert!(matches!(&a.auth_state, AuthState::Message(m) if m == "✗ Invalid redirect: No authorization code in redirect"));
}

#[test]
fn fetched_events_become_the_months_cache() {
    let mut a = app();
    assert!(!a.month_cached());
    a.events_fetched(vec![
        event("A", at(d(2026, 5, 27), 9, 0), at(d(2026, 5, 27), 10, 0)),
        event("B", at(d(2026, 5, 26), 9, 0), at(d(2026, 5, 28), 10, 0)),
        event("C", at(d(2026, 5, 1), 9, 0), at(d(2026, 5, 1), 10, 0)),
    ]);
    assert_eq!(a.month_events.len(), 3);
    let names: Vec<&str> = a.events.iter().map(|e| e.summary.as_str()).collect();
    assert_eq!(names, vec!["A", "B"]);
    assert_eq!(a.last_loaded_month, Some((2026, 5)));
    assert!(a.month_cached());
}

#[test]
fn a_deferred_refresh_uses_the_cache_when_it_can() {
    let mut a = app();
    a.events_fetched(vec![event("C", at(d(2026, 5, 1), 9, 0), at(d(2026, 5, 1), 10, 0))]);
    a.selected_date = d(2026, 5, 1);
    a.needs_refresh = true;
    assert!(!a.begin_deferred_refresh());
    assert!(a.loading);
    a.end_deferred_refresh(None);
    assert!(!a.loading);
    assert!(!a.needs_refresh);
    assert_eq!(a.events.len(), 1);
}

#[test]
fn a_deferred_refresh_fetches_another_month() {
    let mut a = app();
    a.events_fetched(vec![]);
    a.view_date = d(2026, 6, 1);
    a.selected_date = d(2026, 6, 2);
    assert!(a.begin_deferred_refresh());
    a.end_deferred_refresh(Some(vec![event("J", at(d(2026, 6, 2), 9, 0), at(d(2026, 6, 2), 10, 0))]));
    assert_eq!(a.last_loaded_month, Some((2026, 6)));
    assert_eq!(a.events.len(), 1);
    assert!(!a.loading);
}

#[test]
fn a_failed_fetch_changes_nothing_but_the_flags() {
    let mut a = app();
    a.view_date = d(2026, 6, 1);
    a.selected_date = d(2026, 6, 2);
    a.needs_refresh = true;
    assert!(a.begin_deferred_refresh());
    a.end_deferred_refresh(None);
    assert_eq!(a.last_loaded_month, None);
    assert!(!a.needs_refresh);
}

#[test]
fn the_refresh_range_is_the_grid_of_the_month() {
    let a = app();
    assert_eq!(a.refresh_range(), (d(2026, 4, 27), d(2026, 6, 7)));
}

#[test]
fn events_with_impossible_dates_are_flagged() {
    let good = vec![event("A", at(d(2026, 5, 27), 9, 0), at(d(2026, 5, 27), 10, 0))];
    assert!(all_events_ok(&good));
    let bad = vec![event("B", at(d(2026, 2, 30), 9, 0), at(d(2026, 5, 27), 10, 0))];
    assert!(!all_events_ok(&bad));
    let late = vec![event("C", at(d(2026, 5, 27), 24, 0), at(d(2026, 5, 27), 10, 0))];
    assert!(!all_events_ok(&late));
}
