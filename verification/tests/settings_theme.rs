use calendar_cli::config::{Config, Settings};
use calendar_cli::theme::{DanceStyle, Theme, ThemeKind};

#[test]
fn default_settings() {
    let s = Settings::default();
    assert_eq!(s.first_day_of_week, 0);
    assert_eq!(s.theme, "default");
    assert_eq!(s.dance_style, "none");
    assert_eq!(s.theme_kind(), ThemeKind::Default);
    assert_eq!(s.dance_style(), DanceStyle::Off);
}

#[test]
fn stored_names_select_theme_and_dance() {
    let s = Settings { first_day_of_week: 1, theme: "ocean".to_string(), dance_style: "shrug".to_string() };
    assert_eq!(s.theme_kind(), ThemeKind::Ocean);
    assert_eq!(s.dance_style(), DanceStyle::Shrug);
    let odd = Settings { first_day_of_week: 0, theme: "Ocean".to_string(), dance_style: "tango".to_string() };
    assert_eq!(odd.theme_kind(), ThemeKind::Default);
    assert_eq!(odd.dance_style(), DanceStyle::Off);
}

#[test]
fn theme_names_round_trip() {
    for k in [ThemeKind::Default, ThemeKind::Light, ThemeKind::Ocean] {
        assert_eq!(ThemeKind::from_name(k.as_str()), k);
        assert_eq!(k.as_str().parse::<ThemeKind>(), Ok(k));
    }
    assert_eq!(ThemeKind::Ocean.as_str(), "ocean");
    assert_eq!(ThemeKind::from_name("ocean"), ThemeKind::Ocean);
    assert_eq!(ThemeKind::from_name("dracula"), ThemeKind::Default);
}

#[test]
fn dance_names_round_trip() {
    for s in [DanceStyle::Off, DanceStyle::Dancer, DanceStyle::Bounce, DanceStyle::Sway, DanceStyle::Shrug] {
        assert_eq!(DanceStyle::from_name(s.as_str()), s);
        assert_eq!(s.as_str().parse::<DanceStyle>(), Ok(s));
    }
    assert_eq!(DanceStyle::Off.as_str(), "none");
}

#[test]
fn the_theme_cycle_visits_every_theme_and_returns() {
    let mut k = ThemeKind::Default;
    let mut seen = Vec::new();
    for _ in 0..3 {
        seen.push(k.as_str());
        k = k.next();
    }
    assert_eq!(seen, vec!["default", "light", "ocean"]);
    assert_eq!(k, ThemeKind::Default);
}

#[test]
fn the_dance_cycle_visits_every_style_and_returns() {
    let mut s = DanceStyle::Off;
    let mut seen = Vec::new();
    for _ in 0..5 {
        seen.push(s.as_str());
        s = s.next();
    }
    assert_eq!(seen, vec!["none", "dancer", "bounce", "sway", "shrug"]);
    assert_eq!(s, DanceStyle::Off);
}

#[test]
fn dance_frames() {
    assert_eq!(DanceStyle::Off.frames(), vec![""]);
    assert_eq!(DanceStyle::Dancer.frames(), vec!["d(>_<)b", "d(>_<) ", " (>_<)b", " (>_<) "]);
    assert_eq!(DanceStyle::Shrug.frames(), vec!["\\o/", "-o-", "/o\\", "-o-"]);
    assert_eq!(DanceStyle::Bounce.frames().len(), 4);
}

#[test]
fn each_theme_has_its_colors() {
    let t = Theme::for_kind(ThemeKind::Default);
    assert_eq!(t, Theme::for_kind(ThemeKind::Default));
    assert_ne!(Theme::for_kind(ThemeKind::Light), Theme::for_kind(ThemeKind::Ocean));
    assert_eq!(Theme::for_kind(ThemeKind::Ocean).active_border, calendar_cli::theme::Color::Cyan);
}

#[test]
fn the_event_store_sits_beside_the_credentials() {
    let c = Config {
        credentials_path: "/home/u/.config/calendar-cli/credentials.json".to_string(),
        token_path: "/home/u/.config/calendar-cli/token.json".to_string(),
        settings_path: "/home/u/.config/calendar-cli/settings.json".to_string(),
    };
    assert_eq!(c.events_path(), "/home/u/.config/calendar-cli/events.json");
    assert_eq!(c.try_events_path(), Some("/home/u/.config/calendar-cli/events.json".to_string()));
    let rel = Config { credentials_path: "credentials.json".to_string(), ..c };
    assert_eq!(rel.events_path(), "events.json");
    let root = Config { credentials_path: "/".to_string(), token_path: String::new(), settings_path: String::new() };
    assert_eq!(root.try_events_path(), None);
}
