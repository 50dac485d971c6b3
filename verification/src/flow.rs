//! What the calendar does when outside work that it asked for comes back:
//! a request to the backend finished, the sign-in moved on, a batch of
//! events arrived. It also builds the first state.
use vstd::prelude::*;
use crate::app::{
    cursor_ok, day_events, events_ok, clamp_cursor, Action, App, AppView, AuthState, AuthView, Focus,
    Mode, ModeView, ViewMode,
};
use crate::auth::{parse_redirect, redirect_outcome};
use crate::config::{joined, parent_of, Config, Settings};
use crate::date::{first_of_month, from_ymd_opt, grid_offset, grid_range, grid_range_defined, Date, DateTime};
use crate::models::{events_view, CalendarEvent};
use crate::text::{chars_eq, chars_of, concat, contains_chars, copy_string, occurs_in, owned, push_str};
use crate::theme::{theme_table, DanceStyle, Theme, ThemeKind};

verus! {

/// The state that the calendar starts in, on `today`, with the paths of
/// `config` (the event store at `events_path`) and the preferences of
/// `settings`.
pub open spec fn initial_view(config: Config, events_path: Seq<char>, settings: Settings, today: Date) -> AppView {
    AppView {
        mode: ModeView::Normal,
        view_date: first_of_month(today),
        selected_date: today,
        events: Seq::empty(),
        month_events: Seq::empty(),
        event_focus: 0,
        focus: Focus::Calendar,
        menu_bar_focus: 0,
        status: Seq::empty(),
        events_loaded: false,
        loading: false,
        needs_refresh: false,
        last_loaded_month: None,
        credentials_path: config.credentials_path@,
        token_path: config.token_path@,
        events_path,
        settings_path: config.settings_path@,
        auth_state: AuthView::Idle,
        settings_focus: 0,
        first_day_of_week: settings.first_day_of_week,
        menu_open: false,
        menu_items: Seq::empty(),
        menu_cursor: 0,
        search_query: None,
        view_mode: ViewMode::Month,
        theme_kind: ThemeKind::named(settings.theme@),
        theme: theme_table(ThemeKind::named(settings.theme@)),
        dance_style: DanceStyle::named(settings.dance_style@),
        frame: 0,
    }
}

impl App {
    /// The calendar on `today`, showing today's month, with nothing loaded yet.
    pub fn new(config: &Config, settings: &Settings, today: Date) -> (r: App)
        requires
            today.valid(),
            parent_of(config.credentials_path@) is Some,
        ensures
            r@ == initial_view(
                *config,
                joined(parent_of(config.credentials_path@)->0, "events.json"@),
                *settings,
                today,
            ),
            r@.wf(),
    {
        let theme_kind = settings.theme_kind();
        let view_date = match from_ymd_opt(today.year, today.month, 1) {
            Some(d) => d,
            None => {
                assert(false);
                today
            },
        };
        let r = App {
            mode: Mode::Normal,
            view_date,
            selected_date: today,
            events: Vec::new(),
            month_events: Vec::new(),
            event_focus: 0,
            focus: Focus::Calendar,
            menu_bar_focus: 0,
            status: String::new(),
            events_loaded: false,
            loading: false,
            needs_refresh: false,
            last_loaded_month: None,
            config_credentials_path: copy_string(&config.credentials_path),
            config_token_path: copy_string(&config.token_path),
            config_events_path: config.events_path(),
            settings_path: copy_string(&config.settings_path),
            auth_state: AuthState::Idle,
            settings_focus: 0,
            first_day_of_week: settings.first_day_of_week,
            menu_open: false,
            menu_items: Vec::new(),
            menu_cursor: 0,
            search_query: None,
            view_mode: ViewMode::Month,
            theme_kind,
            theme: Theme::for_kind(theme_kind),
            dance_style: settings.dance_style(),
            frame: 0,
        };
        assert(r@.events =~= Seq::<crate::models::EventView>::empty());
        assert(r@.month_events =~= Seq::<crate::models::EventView>::empty());
        assert(r@.menu_items =~= Seq::<crate::app::ItemView>::empty());
        r
    }

    /// The calendar as `new` builds it, or none when the credentials path
    /// has no parent directory to keep the event store in.
    pub fn try_new(config: &Config, settings: &Settings, today: Date) -> (r: Option<App>)
        requires
            today.valid(),
        ensures
            parent_of(config.credentials_path@) is None ==> r is None,
            parent_of(config.credentials_path@) is Some ==> (r matches Some(a) && a@ == initial_view(
                *config,
                joined(parent_of(config.credentials_path@)->0, "events.json"@),
                *settings,
                today,
            ) && a@.wf()),
    {
        match config.try_events_path() {
            Some(_) => Some(App::new(config, settings, today)),
            None => None,
        }
    }

    /// The preferences to store: the week start, and the names of the theme
    /// and of the dance style.
    pub fn settings(&self) -> (r: Settings)
        ensures
            r.first_day_of_week == self.first_day_of_week,
            r.theme@ == self.theme_kind.name(),
            r.dance_style@ == self.dance_style.name(),
    {
        Settings {
            first_day_of_week: self.first_day_of_week,
            theme: owned(self.theme_kind.as_str()),
            dance_style: owned(self.dance_style.as_str()),
        }
    }

    /// Advances the animation by one frame (wrapping around).
    pub fn tick(&mut self)
        requires
            old(self)@.wf(),
        ensures
            final(self)@ == (AppView {
                frame: if old(self).frame == usize::MAX {
                    0
                } else {
                    (old(self).frame + 1) as nat
                },
                ..old(self)@
            }),
            final(self)@.wf(),
    {
        self.frame = self.frame.wrapping_add(1);
    }

    // ───────────────────────── finished requests ─────────────────────────

    /// The new-event request finished: on success the form closes, the
    /// status names the event and the events are to be loaded again; on
    /// failure the status shows the error and the form stays.
    pub fn finish_create(&mut self, summary: &str, outcome: Result<(), String>) -> (r: Action)
        requires
            old(self)@.wf(),
        ensures
            outcome is Ok ==> final(self)@ == (AppView {
                status: "✓ Created: "@ + summary@,
                mode: ModeView::Normal,
                ..old(self)@
            }) && r == Action::RefreshEvents,
            outcome matches Err(e) ==> final(self)@ == (AppView { status: "✗ Error: "@ + e@, ..old(self)@ })
                && r == Action::Nothing,
            final(self)@.wf(),
    {
        match outcome {
            Ok(()) => {
                self.status = concat("✓ Created: ", summary);
                self.mode = Mode::Normal;
                Action::RefreshEvents
            },
            Err(e) => {
                self.status = concat("✗ Error: ", e.as_str());
                Action::Nothing
            },
        }
    }

    /// The change request finished: on success the form closes, the status
    /// names the event and the events are to be loaded again; on failure
    /// the status shows the error and the form stays.
    pub fn finish_update(&mut self, summary: &str, outcome: Result<(), String>) -> (r: Action)
        requires
            old(self)@.wf(),
        ensures
            outcome is Ok ==> final(self)@ == (AppView {
                status: "✓ Updated: "@ + summary@,
                mode: ModeView::Normal,
                ..old(self)@
            }) && r == Action::RefreshEvents,
            outcome matches Err(e) ==> final(self)@ == (AppView { status: "✗ Error: "@ + e@, ..old(self)@ })
                && r == Action::Nothing,
            final(self)@.wf(),
    {
        match outcome {
            Ok(()) => {
                self.status = concat("✓ Updated: ", summary);
                self.mode = Mode::Normal;
                Action::RefreshEvents
            },
            Err(e) => {
                self.status = concat("✗ Error: ", e.as_str());
                Action::Nothing
            },
        }
    }

    /// The delete request finished: on success the question closes and the
    /// events are to be loaded again; on failure the status shows the error.
    pub fn finish_delete(&mut self, outcome: Result<(), String>) -> (r: Action)
        requires
            old(self)@.wf(),
        ensures
            outcome is Ok ==> final(self)@ == (AppView {
                status: "✓ Event deleted"@,
                mode: ModeView::Normal,
                ..old(self)@
            }) && r == Action::RefreshEvents,
            outcome matches Err(e) ==> final(self)@ == (AppView { status: "✗ Error: "@ + e@, ..old(self)@ })
                && r == Action::Nothing,
            final(self)@.wf(),
    {
        match outcome {
            Ok(()) => {
                self.status = owned("✓ Event deleted");
                self.mode = Mode::Normal;
                Action::RefreshEvents
            },
            Err(e) => {
                self.status = concat("✗ Error: ", e.as_str());
                Action::Nothing
            },
        }
    }

    /// Installing the `cal` command finished: the status shows where it went,
    /// or why it failed.
    pub fn finish_register_cal(&mut self, outcome: Result<String, String>)
        requires
            old(self)@.wf(),
        ensures
            outcome matches Ok(m) ==> final(self)@ == (AppView { status: m@, ..old(self)@ }),
            outcome matches Err(e) ==> final(self)@ == (AppView {
                status: "✗ Failed to register cal: "@ + e@,
                ..old(self)@
            }),
            final(self)@.wf(),
    {
        match outcome {
            Ok(m) => {
                self.status = m;
            },
            Err(e) => {
                self.status = concat("✗ Failed to register cal: ", e.as_str());
            },
        }
    }

    /// Removing the `cal` command finished: the status says so, or why it
    /// failed.
    pub fn finish_unregister_cal(&mut self, outcome: Result<(), String>)
        requires
            old(self)@.wf(),
        ensures
            outcome is Ok ==> final(self)@ == (AppView { status: "✓ cal command unregistered"@, ..old(self)@ }),
            outcome matches Err(e) ==> final(self)@ == (AppView {
                status: "✗ Failed to unregister cal: "@ + e@,
                ..old(self)@
            }),
            final(self)@.wf(),
    {
        match outcome {
            Ok(()) => {
                self.status = owned("✓ cal command unregistered");
            },
            Err(e) => {
                self.status = concat("✗ Failed to unregister cal: ", e.as_str());
            },
        }
    }

    // ───────────────────────── the sign-in ─────────────────────────

    /// The credentials could not be read: the sign-in stops with a message.
    pub fn credentials_failed(&mut self, error: &str)
        requires
            old(self)@.wf(),
        ensures
            final(self)@ == (AppView {
                auth_state: AuthView::Message("✗ Failed to load credentials: "@ + error@),
                ..old(self)@
            }),
            final(self)@.wf(),
    {
        self.auth_state = AuthState::Message(concat("✗ Failed to load credentials: ", error));
    }

    /// The redirect port could not be opened: the sign-in stops with a message.
    pub fn bind_failed(&mut self, error: &str)
        requires
            old(self)@.wf(),
        ensures
            final(self)@ == (AppView {
                auth_state: AuthView::Message("✗ Failed to bind port 8080: "@ + error@),
                ..old(self)@
            }),
            final(self)@.wf(),
    {
        self.auth_state = AuthState::Message(concat("✗ Failed to bind port 8080: ", error));
    }

    /// The browser was sent to the consent page and the redirect port is
    /// open: the sign-in waits for a redirect that carries `csrf`.
    pub fn auth_listening(&mut self, csrf: String)
        requires
            old(self)@.wf(),
        ensures
            final(self)@ == (AppView { auth_state: AuthView::Listening(csrf@), ..old(self)@ }),
            final(self)@.wf(),
    {
        self.auth_state = AuthState::Listening { csrf };
    }

    /// The browser's redirect could not be read: the sign-in stops with a
    /// message.
    pub fn redirect_read_failed(&mut self)
        requires
            old(self)@.wf(),
        ensures
            final(self)@ == (AppView {
                auth_state: AuthView::Message("✗ Failed to read OAuth redirect"@),
                ..old(self)@
            }),
            final(self)@.wf(),
    {
        self.auth_state = AuthState::Message(owned("✗ Failed to read OAuth redirect"));
    }

    /// The browser's redirect arrived while the sign-in waits for one: gives
    /// the authorization code to exchange when the request carries one and
    /// the expected state; otherwise the sign-in stops with a message.
    pub fn redirect_received(&mut self, request: &str) -> (r: Option<String>)
        requires
            old(self)@.wf(),
            old(self)@.auth_state is Listening,
        ensures
            final(self)@ == (AppView { auth_state: redirect_auth_state(old(self)@.auth_state->Listening_0, request@), ..old(self)@ }),
            (r matches Some(c) && redirect_outcome(request@) matches Ok((code, state)) && c@ == code
                && state == old(self)@.auth_state->Listening_0) || (r is None && !(redirect_outcome(request@) matches Ok((code, state))
                && state == old(self)@.auth_state->Listening_0)),
            final(self)@.wf(),
    {
        let csrf = match &self.auth_state {
            AuthState::Listening { csrf } => copy_string(csrf),
            _ => {
                assert(false);
                return None;
            },
        };
        match parse_redirect(request) {
            Err(e) => {
                self.auth_state = AuthState::Message(concat("✗ Invalid redirect: ", e.message().as_str()));
                None
            },
            Ok((code, state)) => {
                let sc = chars_of(state.as_str());
                let cc = chars_of(csrf.as_str());
                if chars_eq(sc.as_slice(), cc.as_slice()) {
                    self.auth_state = AuthState::Idle;
                    Some(code)
                } else {
                    self.auth_state = AuthState::Message(owned("✗ CSRF mismatch — possible attack"));
                    None
                }
            },
        }
    }

    /// Exchanging the code and loading the events finished: the sign-in
    /// ends with a message, and on success the normal view returns.
    pub fn finish_auth(&mut self, outcome: Result<(), String>)
        requires
            old(self)@.wf(),
        ensures
            outcome is Ok ==> final(self)@ == (AppView {
                auth_state: AuthView::Message("✓ Successfully signed in to Google Calendar!"@),
                mode: ModeView::Normal,
                ..old(self)@
            }),
            outcome matches Err(e) ==> final(self)@ == (AppView {
                auth_state: AuthView::Message("✗ "@ + e@),
                ..old(self)@
            }),
            final(self)@.wf(),
    {
        match outcome {
            Ok(()) => {
                self.auth_state = AuthState::Message(owned("✓ Successfully signed in to Google Calendar!"));
                self.mode = Mode::Normal;
            },
            Err(e) => {
                self.auth_state = AuthState::Message(concat("✗ ", e.as_str()));
            },
        }
    }

    // ───────────────────────── loading events ─────────────────────────

    /// The dates whose events the calendar loads: the six weeks of the grid
    /// around the month on screen.
    pub fn refresh_range(&self) -> (r: (Date, Date))
        requires
            self@.wf(),
            grid_range_defined(self.view_date, self.first_day_of_week),
        ensures
            r.0.valid(),
            r.1.valid(),
            r.0.num() == self.view_date.num() - grid_offset(self.view_date, self.first_day_of_week),
            r.1.num() == r.0.num() + 41,
    {
        grid_range(self.view_date, self.first_day_of_week)
    }

    /// The events of the grid arrived: they become the cache for the month
    /// on screen, and the selected day's events are shown from it.
    pub fn events_fetched(&mut self, events: Vec<CalendarEvent>)
        requires
            old(self)@.wf(),
            events_ok(events_view(events@)),
        ensures
            final(self)@ == (AppView {
                month_events: events_view(events@),
                last_loaded_month: Some((old(self).view_date.year, old(self).view_date.month)),
                events: day_events(events_view(events@), old(self)@.selected_date),
                event_focus: clamp_cursor(
                    old(self)@.event_focus,
                    day_events(events_view(events@), old(self)@.selected_date).len(),
                ),
                events_loaded: true,
                ..old(self)@
            }),
            final(self)@.wf(),
    {
        self.month_events = events;
        self.last_loaded_month = Some((self.view_date.year, self.view_date.month));
        let d = self.selected_date;
        self.filter_events_for_date(d);
    }

    /// Whether the events of the month on screen are already loaded.
    pub fn month_cached(&self) -> (b: bool)
        ensures
            b == (self.last_loaded_month == Some((self.view_date.year, self.view_date.month))
                && self.events_loaded),
    {
        match self.last_loaded_month {
            Some((y, m)) => y == self.view_date.year && m == self.view_date.month && self.events_loaded,
            None => false,
        }
    }

    /// A refresh that was put off begins: the screen shows that events are
    /// loading. Tells whether the month has to be fetched (it is not cached).
    pub fn begin_deferred_refresh(&mut self) -> (fetch: bool)
        requires
            old(self)@.wf(),
        ensures
            final(self)@ == (AppView { loading: true, ..old(self)@ }),
            fetch == !(old(self).last_loaded_month == Some((old(self).view_date.year, old(self).view_date.month))
                && old(self).events_loaded),
            final(self)@.wf(),
    {
        self.loading = true;
        !self.month_cached()
    }

    /// A refresh that was put off ends: fetched events become the cache; a
    /// cached month is filtered again for the selected day; a failed fetch
    /// (`None` for an uncached month) changes nothing. Loading is over and
    /// no refresh is pending.
    pub fn end_deferred_refresh(&mut self, fetched: Option<Vec<CalendarEvent>>)
        requires
            old(self)@.wf(),
            fetched matches Some(evs) ==> events_ok(events_view(evs@)),
        ensures
            ({
                let a = old(self)@;
                let b = match fetched {
                    Some(evs) => AppView {
                        month_events: events_view(evs@),
                        last_loaded_month: Some((old(self).view_date.year, old(self).view_date.month)),
                        events: day_events(events_view(evs@), a.selected_date),
                        event_focus: clamp_cursor(a.event_focus, day_events(events_view(evs@), a.selected_date).len()),
                        events_loaded: true,
                        ..a
                    },
                    None => if a.last_loaded_month == Some((a.view_date.year, a.view_date.month)) && a.events_loaded {
                        AppView {
                            events: day_events(a.month_events, a.selected_date),
                            event_focus: clamp_cursor(a.event_focus, day_events(a.month_events, a.selected_date).len()),
                            events_loaded: true,
                            ..a
                        }
                    } else {
                        a
                    },
                };
                final(self)@ == AppView { loading: false, needs_refresh: false, ..b }
            }),
            final(self)@.wf(),
    {
        match fetched {
            Some(evs) => self.events_fetched(evs),
            None => {
                if self.month_cached() {
                    let d = self.selected_date;
                    self.filter_events_for_date(d);
                }
            },
        }
        self.loading = false;
        self.needs_refresh = false;
    }
}

/// Where the sign-in stands after a redirect that carries `request`, while
/// it waited for the state `csrf`.
pub open spec fn redirect_auth_state(csrf: Seq<char>, request: Seq<char>) -> AuthView {
    match redirect_outcome(request) {
        Err(e) => AuthView::Message("✗ Invalid redirect: "@ + e.text()),
        Ok((_, state)) => if state == csrf {
            AuthView::Idle
        } else {
            AuthView::Message("✗ CSRF mismatch — possible attack"@)
        },
    }
}

/// Whether a moment names an existing date and time of day.
fn moment_ok(m: DateTime) -> (b: bool)
    ensures
        b == m.valid(),
{
    from_ymd_opt(m.date.year, m.date.month, m.date.day).is_some() && m.time.hour < 24 && m.time.minute < 60
        && m.time.second < 60
}

/// Whether every event of a list is well formed (start and end, where
/// present, are valid moments).
pub fn all_events_ok(events: &Vec<CalendarEvent>) -> (b: bool)
    ensures
        b == events_ok(events_view(events@)),
{
    let mut i: usize = 0;
    while i < events.len()
        invariant
            i <= events@.len(),
            events_ok(events_view(events@.take(i as int))),
        decreases events@.len() - i,
    {
        let e = &events[i];
        let ok = match e.start {
            Some(s) => moment_ok(s),
            None => true,
        } && match e.end {
            Some(f) => moment_ok(f),
            None => true,
        };
        if !ok {
            assert(events_view(events@)[i as int] == e@);
            return false;
        }
        i = i + 1;
        assert(events_view(events@.take(i as int)) =~= events_view(events@.take(i - 1)).push(e@));
    }
    assert(events@.take(i as int) =~= events@);
    true
}

// ───────────────────────── the `cal` command ─────────────────────────

/// Whether a file's text is the `cal` wrapper that this program installs
/// (it names the program).
pub fn is_cal_wrapper(content: &str) -> (b: bool)
    ensures
        b == occurs_in("calendar-cli"@, content@),
{
    let hay = chars_of(content);
    let needle = chars_of("calendar-cli");
    contains_chars(hay.as_slice(), needle.as_slice())
}

/// The shell script that runs the program at `exe` with the script's
/// arguments.
pub fn cal_wrapper_script(exe: &str) -> (r: String)
    ensures
        r@ == "#!/bin/sh\nexec "@ + exe@ + " \"$@\"\n"@,
{
    let mut r = owned("#!/bin/sh\nexec ");
    push_str(&mut r, exe);
    push_str(&mut r, " \"$@\"\n");
    r
}

/// The status after installing the `cal` command: where it went when that
/// directory is searched for commands, else a reminder to add the user's
/// own command directory to the search path.
pub fn cal_registered_message(installed: Option<&str>) -> (r: String)
    ensures
        installed matches Some(p) ==> r@ == "✓ cal command registered at "@ + p@,
        installed is None ==> r@ == "✓ cal registered at ~/.local/bin/cal  (add ~/.local/bin to your PATH)"@,
{
    match installed {
        Some(p) => concat("✓ cal command registered at ", p),
        None => owned("✓ cal registered at ~/.local/bin/cal  (add ~/.local/bin to your PATH)"),
    }
}

} // verus!
