use calendar_cli::app::App;
use calendar_cli::auth::{token_plan, TokenPlan};
use calendar_cli::cli::{cli_command, may_install_cal_in, startup_backend, CliCommand, StartupBackend};
use calendar_cli::config::{Config, Settings};
use calendar_cli::date::{Date, DateTime, Time};
use calendar_cli::models::CalendarEvent;
use calendar_cli::screen::{first_column, has_event_on};
use calendar_cli::theme::{DanceStyle, ThemeKind};

fn args(v: &[&str]) -> Vec<String> {
    v.iter().map(|s| s.to_string()).collect()
}

fn d(year: i32, month: u32, day: u32) -> Date {
    Date { year, month, day }
}

fn app() -> App {
    let config = Config {
        credentials_path: "/c/credentials.json".to_string(),
        token_path: "/c/token.json".to_string(),
        settings_path: "/c/settings.json".to_string(),
    };
    App::new(&config, &Settings::default(), d(2026, 5, 27))
}

#[test]
fn the_command_line_picks_a_command() {
    assert_eq!(cli_command(&args(&["calendar-cli"])), CliCommand::Run);
    assert_eq!(cli_command(&args(&["calendar-cli", "--version"])), CliCommand::Version);
    assert_eq!(cli_command(&args(&["calendar-cli", "-V"])), CliCommand::Version);
    assert_eq!(cli_command(&args(&["calendar-cli", "-h"])), CliCommand::Help);
    assert_eq!(cli_command(&args(&["calendar-cli", "help"])), CliCommand::Help);
    assert_eq!(cli_command(&args(&["calendar-cli", "login"])), CliCommand::Login);
    assert_eq!(cli_command(&args(&["calendar-cli", "--login", "--version"])), CliCommand::Version);
    assert_eq!(cli_command(&args(&["calendar-cli", "--login", "--help"])), CliCommand::Help);
    assert_eq!(cli_command(&args(&["calendar-cli", "--verbose"])), CliCommand::Run);
}

#[test]
fn the_calendar_opened_at_start() {
    assert_eq!(startup_backend(false, true), StartupBackend::Local);
    assert_eq!(startup_backend(true, true), StartupBackend::LocalExpired);
    assert_eq!(startup_backend(true, false), StartupBackend::Google);
}

#[test]
fn where_the_cal_wrapper_may_go() {
    assert!(may_install_cal_in(false, true, false, false));
    assert!(may_install_cal_in(false, true, true, true));
    assert!(!may_install_cal_in(false, true, true, false));
    assert!(!may_install_cal_in(true, true, false, false));
    assert!(!may_install_cal_in(false, false, false, false));
}

#[test]
fn how_an_access_token_is_had() {
    assert_eq!(token_plan(true, true, true), TokenPlan::Stored);
    assert_eq!(token_plan(true, false, true), TokenPlan::Refresh);
    assert_eq!(token_plan(true, false, false), TokenPlan::SignIn);
    assert_eq!(token_plan(false, false, false), TokenPlan::SignIn);
}

#[test]
fn theme_labels() {
    assert_eq!(ThemeKind::Default.label(), "Default");
    assert_eq!(ThemeKind::Ocean.label(), "Ocean");
}

#[test]
fn the_dancer_cycles_through_its_frames() {
    let mut a = app();
    a.dance_style = DanceStyle::Bounce;
    let mut seen = Vec::new();
    for _ in 0..5 {
        seen.push(a.dancer_frame());
        a.tick();
    }
    assert_eq!(seen, vec!["(o.o)", "(0.0)", "(O.O)", "(0.0)", "(o.o)"]);
    a.dance_style = DanceStyle::Off;
    assert_eq!(a.dancer_frame(), "");
}

#[test]
fn the_first_day_of_a_month_stands_in_its_weekday_column() {
    // 2026-05-01 is a Friday.
    assert_eq!(first_column(d(2026, 5, 1), 0), 4);
    assert_eq!(first_column(d(2026, 5, 1), 1), 5);
    // 2026-03-01 is a Sunday.
    assert_eq!(first_column(d(2026, 3, 1), 0), 6);
    assert_eq!(first_column(d(2026, 3, 1), 1), 0);
}

#[test]
fn the_list_placeholder_says_loading_or_empty() {
    let mut a = app();
    assert_eq!(a.list_placeholder(), " Loading…");
    a.events_fetched(vec![]);
    assert_eq!(a.list_placeholder(), " No events");
    a.loading = true;
    assert_eq!(a.list_placeholder(), " Loading…");
}

#[test]
fn a_day_has_a_dot_just_when_its_list_is_not_empty() {
    let mut a = app();
    let at = |day: u32, hour: u32| DateTime { date: d(2026, 5, day), time: Time { hour, minute: 0, second: 0 } };
    a.events_fetched(vec![
        CalendarEvent { id: "1".into(), summary: "A".into(), description: None, start: Some(at(3, 9)), end: Some(at(4, 10)) },
        CalendarEvent { id: "2".into(), summary: "B".into(), description: None, start: Some(at(20, 9)), end: None },
    ]);
    for day in 1..=31 {
        let date = d(2026, 5, day);
        a.filter_events_for_date(date);
        assert_eq!(has_event_on(date, &a.month_events), !a.events.is_empty(), "day {}", day);
    }
}
