//! The calendar's state and what each key, each finished request and each
//! loaded batch of events does to it. Outside work (talking to a calendar
//! backend, files, the browser) is asked for by a `Command`; the program
//! around the library performs it and reports back.
use vstd::prelude::*;
use crate::config::{Config, Settings};
use crate::date::{add_days, date_le, first_of_month, grid_range, grid_range_defined, Date, DateTime};
use crate::models::{copy_events, events_view, CalendarEvent, EventView, FieldView, FormState, FormView};
use crate::text::{
    chars_of, contains_chars, copy_string, lowercase_of, occurs_in, opt_view, owned, to_lowercase,
};
use crate::theme::{theme_table, DanceStyle, Theme, ThemeKind};

verus! {

// ───────────────────────── types ─────────────────────────

/// Where the Google sign-in stands.
pub enum AuthState {
    Idle,
    /// Waiting for the browser's redirect, which must carry this state.
    Listening { csrf: String },
    /// A message about the outcome, shown until dismissed.
    Message(String),
}

/// What the screen is showing or asking for.
pub enum Mode {
    Normal,
    Creating(FormState),
    Editing(FormState),
    Deleting,
    ConfirmingQuit,
    Help,
    Setup,
    Settings,
    /// The typed date text and the cursor within it (in characters).
    JumpToDate(String, usize),
    ViewingDetail(CalendarEvent),
    /// The listed events and the index of the highlighted one.
    ViewingEvents(Vec<CalendarEvent>, usize),
}

/// How many days the calendar shows.
#[derive(Clone, Copy, Debug, PartialEq, Eq, Structural)]
pub enum ViewMode {
    Month,
    Week,
}

/// Where keys go: the menu bar, the calendar or the event list.
#[derive(Clone, Copy, Debug, PartialEq, Eq, Structural)]
pub enum Focus {
    MenuBar,
    Calendar,
    EventList,
}

/// What a menu entry does.
#[derive(Clone, Copy, Debug, PartialEq, Eq, Structural)]
pub enum MenuAction {
    Quit,
    Settings,
    Today,
    NewEvent,
    EditEvent,
    DeleteEvent,
    ViewDetail,
    FocusEvents,
    Search,
    SignIn,
    SignOut,
    Help,
    Nothing,
}

/// An entry of a context menu.
pub struct ContextItem {
    pub label: String,
    pub action: MenuAction,
    pub enabled: bool,
}

/// What a finished request asks of the program: nothing, to stop, or to
/// load the events again.
#[derive(Clone, Copy, Debug, PartialEq, Eq, Structural)]
pub enum Action {
    Nothing,
    Quit,
    RefreshEvents,
}

/// What the program knows of the world when a key arrives.
#[derive(Clone, Copy, Debug, PartialEq, Eq, Structural)]
pub struct Env {
    /// The current local date.
    pub today: Date,
    /// Whether a Google token is stored.
    pub token_exists: bool,
    /// Whether Google credentials are stored.
    pub credentials_exist: bool,
    /// Whether the `cal` shell command is installed.
    pub cal_registered: bool,
}

/// Outside work that a key asks for.
pub enum Command {
    /// Nothing to do.
    Idle,
    /// Stop the program.
    Quit,
    /// Create an event; report with `finish_create`.
    CreateEvent { summary: String, description: Option<String>, start: DateTime, end: DateTime },
    /// Change an event; report with `finish_update`.
    UpdateEvent {
        id: String,
        summary: String,
        description: Option<String>,
        start: DateTime,
        end: DateTime,
    },
    /// Delete an event; report with `finish_delete`.
    DeleteEvent { id: String },
    /// Forget the Google token, use the local store, then load the events
    /// of the grid again (`refresh_range`, then `events_fetched`; a failure
    /// ends the program).
    SignOut,
    /// Begin the Google sign-in; report with `auth_listening`, or with
    /// `credentials_failed` or `bind_failed`.
    StartAuth,
    /// Write `settings()` to the settings file (failures are ignored), then
    /// load the events of the grid again when asked to, as for `SignOut`.
    SaveSettings { refresh: bool },
    /// Install the `cal` command; report with `finish_register_cal`.
    RegisterCal,
    /// Remove the `cal` command; report with `finish_unregister_cal`.
    UnregisterCal,
}

/// The calendar's state.
pub struct App {
    pub mode: Mode,
    /// The first day of the month on screen.
    pub view_date: Date,
    pub selected_date: Date,
    /// Events for the currently selected day (filtered from month_events).
    pub events: Vec<CalendarEvent>,
    /// All events for the currently loaded month (cache).
    pub month_events: Vec<CalendarEvent>,
    pub event_focus: usize,
    pub focus: Focus,
    /// The highlighted menu of the menu bar (File, Calendar, Account, Help).
    pub menu_bar_focus: usize,
    pub status: String,
    pub events_loaded: bool,
    pub loading: bool,
    pub needs_refresh: bool,
    pub last_loaded_month: Option<(i32, u32)>,
    pub config_credentials_path: String,
    pub config_token_path: String,
    pub config_events_path: String,
    pub settings_path: String,
    pub auth_state: AuthState,
    pub settings_focus: usize,
    pub first_day_of_week: u8,
    pub menu_open: bool,
    pub menu_items: Vec<ContextItem>,
    pub menu_cursor: usize,
    pub search_query: Option<String>,
    pub view_mode: ViewMode,
    pub theme_kind: ThemeKind,
    pub theme: Theme,
    pub dance_style: DanceStyle,
    pub frame: usize,
}

// ───────────────────────── views ─────────────────────────

/// Where the sign-in stands, with texts as character sequences.
pub enum AuthView {
    Idle,
    Listening(Seq<char>),
    Message(Seq<char>),
}

/// What the screen shows, with texts as character sequences.
pub enum ModeView {
    Normal,
    Creating(FormView),
    Editing(FormView),
    Deleting,
    ConfirmingQuit,
    Help,
    Setup,
    Settings,
    JumpToDate(Seq<char>, nat),
    ViewingDetail(EventView),
    ViewingEvents(Seq<EventView>, nat),
}

/// A menu entry, with its label as characters.
pub struct ItemView {
    pub label: Seq<char>,
    pub action: MenuAction,
    pub enabled: bool,
}

/// A command, with its texts as character sequences.
pub enum CommandView {
    Idle,
    Quit,
    CreateEvent { summary: Seq<char>, description: Option<Seq<char>>, start: DateTime, end: DateTime },
    UpdateEvent {
        id: Seq<char>,
        summary: Seq<char>,
        description: Option<Seq<char>>,
        start: DateTime,
        end: DateTime,
    },
    DeleteEvent { id: Seq<char> },
    SignOut,
    StartAuth,
    SaveSettings { refresh: bool },
    RegisterCal,
    UnregisterCal,
}

/// The calendar's state, with texts as character sequences.
#[verifier::ext_equal]
pub struct AppView {
    pub mode: ModeView,
    pub view_date: Date,
    pub selected_date: Date,
    pub events: Seq<EventView>,
    pub month_events: Seq<EventView>,
    pub event_focus: nat,
    pub focus: Focus,
    pub menu_bar_focus: nat,
    pub status: Seq<char>,
    pub events_loaded: bool,
    pub loading: bool,
    pub needs_refresh: bool,
    pub last_loaded_month: Option<(i32, u32)>,
    pub credentials_path: Seq<char>,
    pub token_path: Seq<char>,
    pub events_path: Seq<char>,
    pub settings_path: Seq<char>,
    pub auth_state: AuthView,
    pub settings_focus: nat,
    pub first_day_of_week: u8,
    pub menu_open: bool,
    pub menu_items: Seq<ItemView>,
    pub menu_cursor: nat,
    pub search_query: Option<Seq<char>>,
    pub view_mode: ViewMode,
    pub theme_kind: ThemeKind,
    pub theme: Theme,
    pub dance_style: DanceStyle,
    pub frame: nat,
}

impl View for AuthState {
    type V = AuthView;

    open spec fn view(&self) -> AuthView {
        match self {
            AuthState::Idle => AuthView::Idle,
            AuthState::Listening { csrf } => AuthView::Listening(csrf@),
            AuthState::Message(m) => AuthView::Message(m@),
        }
    }
}

impl View for Mode {
    type V = ModeView;

    open spec fn view(&self) -> ModeView {
        match self {
            Mode::Normal => ModeView::Normal,
            Mode::Creating(f) => ModeView::Creating(f@),
            Mode::Editing(f) => ModeView::Editing(f@),
            Mode::Deleting => ModeView::Deleting,
            Mode::ConfirmingQuit => ModeView::ConfirmingQuit,
            Mode::Help => ModeView::Help,
            Mode::Setup => ModeView::Setup,
            Mode::Settings => ModeView::Settings,
            Mode::JumpToDate(v, c) => ModeView::JumpToDate(v@, *c as nat),
            Mode::ViewingDetail(e) => ModeView::ViewingDetail(e@),
            Mode::ViewingEvents(v, c) => ModeView::ViewingEvents(events_view(v@), *c as nat),
        }
    }
}

impl View for ContextItem {
    type V = ItemView;

    open spec fn view(&self) -> ItemView {
        ItemView { label: self.label@, action: self.action, enabled: self.enabled }
    }
}

impl View for Command {
    type V = CommandView;

    open spec fn view(&self) -> CommandView {
        match self {
            Command::Idle => CommandView::Idle,
            Command::Quit => CommandView::Quit,
            Command::CreateEvent { summary, description, start, end } => CommandView::CreateEvent {
                summary: summary@,
                description: opt_view(*description),
                start: *start,
                end: *end,
            },
            Command::UpdateEvent { id, summary, description, start, end } => CommandView::UpdateEvent {
                id: id@,
                summary: summary@,
                description: opt_view(*description),
                start: *start,
                end: *end,
            },
            Command::DeleteEvent { id } => CommandView::DeleteEvent { id: id@ },
            Command::SignOut => CommandView::SignOut,
            Command::StartAuth => CommandView::StartAuth,
            Command::SaveSettings { refresh } => CommandView::SaveSettings { refresh: *refresh },
            Command::RegisterCal => CommandView::RegisterCal,
            Command::UnregisterCal => CommandView::UnregisterCal,
        }
    }
}

/// The views of a sequence of menu entries.
pub open spec fn items_view(v: Seq<ContextItem>) -> Seq<ItemView> {
    v.map_values(|i: ContextItem| i@)
}

impl View for App {
    type V = AppView;

    open spec fn view(&self) -> AppView {
        AppView {
            mode: self.mode@,
            view_date: self.view_date,
            selected_date: self.selected_date,
            events: events_view(self.events@),
            month_events: events_view(self.month_events@),
            event_focus: self.event_focus as nat,
            focus: self.focus,
            menu_bar_focus: self.menu_bar_focus as nat,
            status: self.status@,
            events_loaded: self.events_loaded,
            loading: self.loading,
            needs_refresh: self.needs_refresh,
            last_loaded_month: self.last_loaded_month,
            credentials_path: self.config_credentials_path@,
            token_path: self.config_token_path@,
            events_path: self.config_events_path@,
            settings_path: self.settings_path@,
            auth_state: self.auth_state@,
            settings_focus: self.settings_focus as nat,
            first_day_of_week: self.first_day_of_week,
            menu_open: self.menu_open,
            menu_items: items_view(self.menu_items@),
            menu_cursor: self.menu_cursor as nat,
            search_query: opt_view(self.search_query),
            view_mode: self.view_mode,
            theme_kind: self.theme_kind,
            theme: self.theme,
            dance_style: self.dance_style,
            frame: self.frame as nat,
        }
    }
}

// ───────────────────────── the invariant ─────────────────────────

/// An event whose start and end, where present, are valid moments.
pub open spec fn event_ok(e: EventView) -> bool {
    &&& e.start matches Some(s) ==> s.valid()
    &&& e.end matches Some(f) ==> f.valid()
}

/// Every event of a sequence is well formed.
pub open spec fn events_ok(s: Seq<EventView>) -> bool {
    forall|i: int| 0 <= i < s.len() ==> event_ok(#[trigger] s[i])
}

/// A cursor into a list of `len` entries: on an entry, or 0 for an empty list.
pub open spec fn cursor_ok(c: nat, len: nat) -> bool {
    c == 0 || c < len
}

impl ModeView {
    /// Forms are well formed, the date cursor stands within its text, and
    /// listed events are well formed with the cursor on one of them.
    pub open spec fn wf(self) -> bool {
        match self {
            ModeView::Creating(f) => f.wf(),
            ModeView::Editing(f) => f.wf(),
            ModeView::JumpToDate(v, c) => c <= v.len(),
            ModeView::ViewingDetail(e) => event_ok(e),
            ModeView::ViewingEvents(v, c) => events_ok(v) && cursor_ok(c, v.len()),
            _ => true,
        }
    }
}

impl AppView {
    /// What holds of the state between any two steps: the view shows the
    /// first day of a month and the selected date lies in that month; the
    /// cursors of the event list, the menu, the menu bar and the settings
    /// stand on an entry; all events are well formed.
    pub open spec fn wf(self) -> bool {
        &&& self.view_date.valid()
        &&& self.view_date.day == 1
        &&& self.selected_date.valid()
        &&& self.selected_date.same_month(self.view_date)
        &&& cursor_ok(self.event_focus, self.events.len())
        &&& cursor_ok(self.menu_cursor, self.menu_items.len())
        &&& self.settings_focus <= 4
        &&& self.menu_bar_focus < 4
        &&& events_ok(self.events)
        &&& events_ok(self.month_events)
        &&& self.mode.wf()
    }

    /// The highlighted event of the list, if any.
    pub open spec fn selected_event(self) -> Option<EventView> {
        if self.event_focus < self.events.len() {
            Some(self.events[self.event_focus as int])
        } else {
            None
        }
    }
}

// ───────────────────────── events of a day, search ─────────────────────────

/// Whether an event takes place on `date`: between the dates of its start and
/// end, or on the date of its start when it has no end.
pub open spec fn on_day(e: EventView, date: Date) -> bool {
    match (e.start, e.end) {
        (Some(s), Some(f)) => s.date.le(date) && date.le(f.date),
        (Some(s), None) => s.date == date,
        (None, _) => false,
    }
}

/// The events of a list that take place on `date`, in list order.
pub open spec fn day_events(s: Seq<EventView>, date: Date) -> Seq<EventView>
    decreases s.len(),
{
    if s.len() == 0 {
        Seq::empty()
    } else if on_day(s.last(), date) {
        day_events(s.drop_last(), date).push(s.last())
    } else {
        day_events(s.drop_last(), date)
    }
}

/// Whether an event matches a lowercase search text: in its title or in its
/// description, both taken in lowercase.
pub open spec fn matches_query(e: EventView, lq: Seq<char>) -> bool {
    occurs_in(lq, lowercase_of(e.summary)) || occurs_in(
        lq,
        lowercase_of(
            match e.description {
                Some(d) => d,
                None => Seq::empty(),
            },
        ),
    )
}

/// The events of a list that match a lowercase search text, in list order.
pub open spec fn search_hits(s: Seq<EventView>, lq: Seq<char>) -> Seq<EventView>
    decreases s.len(),
{
    if s.len() == 0 {
        Seq::empty()
    } else if matches_query(s.last(), lq) {
        search_hits(s.drop_last(), lq).push(s.last())
    } else {
        search_hits(s.drop_last(), lq)
    }
}

/// A cursor kept within a list of `len` entries.
pub open spec fn clamp_cursor(c: nat, len: nat) -> nat {
    if len == 0 {
        0
    } else if c < len {
        c
    } else {
        (len - 1) as nat
    }
}

/// The search keeps exactly the events that match: an event is among the
/// results just when it is among the searched events and its title or
/// description holds the search text (both in lowercase).
pub proof fn law_search_hits_exact(s: Seq<EventView>, lq: Seq<char>, e: EventView)
    ensures
        search_hits(s, lq).contains(e) <==> (s.contains(e) && matches_query(e, lq)),
    decreases s.len(),
{
    if s.len() > 0 {
        law_search_hits_exact(s.drop_last(), lq, e);
        let r = search_hits(s.drop_last(), lq);
        if s.contains(e) && e != s.last() {
            let k = choose|k: int| 0 <= k < s.len() && s[k] == e;
            assert(k < s.len() - 1);
            assert(s.drop_last()[k] == e);
        }
        if s.drop_last().contains(e) {
            let k = choose|k: int| 0 <= k < s.drop_last().len() && s.drop_last()[k] == e;
            assert(s[k] == e);
        }
        if matches_query(s.last(), lq) {
            assert(search_hits(s, lq) == r.push(s.last()));
            if r.contains(e) {
                let k = choose|k: int| 0 <= k < r.len() && r[k] == e;
                assert(r.push(s.last())[k] == e);
            }
            if e == s.last() {
                assert(r.push(s.last())[r.len() as int] == e);
            }
            if r.push(s.last()).contains(e) && e != s.last() {
                let k = choose|k: int| 0 <= k < r.push(s.last()).len() && r.push(s.last())[k] == e;
                assert(r[k] == e);
            }
        }
        if s.last() == e {
            assert(s[s.len() - 1] == e);
        }
    }
}

/// The description text that search looks at: the description, or nothing.
pub open spec fn description_text_of(e: EventView) -> Seq<char> {
    match e.description {
        Some(d) => d,
        None => Seq::empty(),
    }
}

/// Search ignores letter case: for a search text `q`, an event is among the
/// results exactly when it is among the searched events and `q` in
/// lowercase occurs in its title in lowercase or in its description in
/// lowercase.
pub proof fn law_search_ignores_case(s: Seq<EventView>, q: Seq<char>, e: EventView)
    ensures
        search_hits(s, lowercase_of(q)).contains(e) <==> (s.contains(e) && (occurs_in(
            lowercase_of(q),
            lowercase_of(e.summary),
        ) || occurs_in(lowercase_of(q), lowercase_of(description_text_of(e))))),
{
    law_search_hits_exact(s, lowercase_of(q), e);
}

/// Two events whose titles and descriptions agree but for letter case are
/// found by the same searches.
pub proof fn law_search_same_for_case_variants(s: Seq<EventView>, q: Seq<char>, e1: EventView, e2: EventView)
    requires
        s.contains(e1),
        s.contains(e2),
        lowercase_of(e1.summary) == lowercase_of(e2.summary),
        lowercase_of(description_text_of(e1)) == lowercase_of(description_text_of(e2)),
    ensures
        search_hits(s, lowercase_of(q)).contains(e1) <==> search_hits(s, lowercase_of(q)).contains(e2),
{
    law_search_ignores_case(s, q, e1);
    law_search_ignores_case(s, q, e2);
}

/// The event list of a day holds exactly the cached events that take place
/// on that day.
pub proof fn law_day_events_exact(s: Seq<EventView>, date: Date, e: EventView)
    ensures
        day_events(s, date).contains(e) <==> (s.contains(e) && on_day(e, date)),
    decreases s.len(),
{
    if s.len() > 0 {
        law_day_events_exact(s.drop_last(), date, e);
        let r = day_events(s.drop_last(), date);
        if s.contains(e) && e != s.last() {
            let k = choose|k: int| 0 <= k < s.len() && s[k] == e;
            assert(k < s.len() - 1);
            assert(s.drop_last()[k] == e);
        }
        if s.drop_last().contains(e) {
            let k = choose|k: int| 0 <= k < s.drop_last().len() && s.drop_last()[k] == e;
            assert(s[k] == e);
        }
        if on_day(s.last(), date) {
            assert(day_events(s, date) == r.push(s.last()));
            if r.contains(e) {
                let k = choose|k: int| 0 <= k < r.len() && r[k] == e;
                assert(r.push(s.last())[k] == e);
            }
            if e == s.last() {
                assert(r.push(s.last())[r.len() as int] == e);
            }
            if r.push(s.last()).contains(e) && e != s.last() {
                let k = choose|k: int| 0 <= k < r.push(s.last()).len() && r.push(s.last())[k] == e;
                assert(r[k] == e);
            }
        }
        if s.last() == e {
            assert(s[s.len() - 1] == e);
        }
    }
}

/// The filtered list of a sequence is made of its entries.
proof fn lemma_day_events_sub(s: Seq<EventView>, date: Date)
    ensures
        forall|i: int| 0 <= i < day_events(s, date).len() ==> s.contains(#[trigger] day_events(s, date)[i]),
    decreases s.len(),
{
    if s.len() > 0 {
        lemma_day_events_sub(s.drop_last(), date);
        let r = day_events(s.drop_last(), date);
        assert forall|i: int| 0 <= i < day_events(s, date).len() implies s.contains(#[trigger] day_events(s, date)[i]) by {
            if i < r.len() {
                let k = choose|k: int| 0 <= k < s.drop_last().len() && s.drop_last()[k] == r[i];
                assert(s[k] == r[i]);
            } else {
                assert(s[s.len() - 1] == s.last());
            }
        }
    }
}

/// The search results of a sequence are made of its entries.
proof fn lemma_search_hits_sub(s: Seq<EventView>, lq: Seq<char>)
    ensures
        forall|i: int| 0 <= i < search_hits(s, lq).len() ==> s.contains(#[trigger] search_hits(s, lq)[i]),
    decreases s.len(),
{
    if s.len() > 0 {
        lemma_search_hits_sub(s.drop_last(), lq);
        let r = search_hits(s.drop_last(), lq);
        assert forall|i: int| 0 <= i < search_hits(s, lq).len() implies s.contains(#[trigger] search_hits(s, lq)[i]) by {
            if i < r.len() {
                let k = choose|k: int| 0 <= k < s.drop_last().len() && s.drop_last()[k] == r[i];
                assert(s[k] == r[i]);
            } else {
                assert(s[s.len() - 1] == s.last());
            }
        }
    }
}

/// Entries of a list of well-formed events are well formed.
proof fn lemma_events_ok_sub(s: Seq<EventView>, t: Seq<EventView>)
    requires
        events_ok(s),
        forall|i: int| 0 <= i < t.len() ==> s.contains(#[trigger] t[i]),
    ensures
        events_ok(t),
{
    assert forall|i: int| 0 <= i < t.len() implies event_ok(#[trigger] t[i]) by {
        assert(s.contains(t[i]));
        let k = choose|k: int| 0 <= k < s.len() && s[k] == t[i];
        assert(event_ok(s[k]));
    }
}

impl App {
    /// Shows the cached events that take place on `date`, keeping the
    /// highlighted entry within the list.
    pub fn filter_events_for_date(&mut self, date: Date)
        ensures
            final(self)@ == (AppView {
                events: day_events(old(self)@.month_events, date),
                event_focus: clamp_cursor(old(self)@.event_focus, day_events(old(self)@.month_events, date).len()),
                events_loaded: true,
                ..old(self)@
            }),
            events_ok(old(self)@.month_events) ==> events_ok(final(self)@.events),
            cursor_ok(final(self)@.event_focus, final(self)@.events.len()),
    {
        proof {
            lemma_day_events_sub(self@.month_events, date);
            if events_ok(self@.month_events) {
                lemma_events_ok_sub(self@.month_events, day_events(self@.month_events, date));
            }
        }
        let ghost ms = self@.month_events;
        let mut r: Vec<CalendarEvent> = Vec::new();
        let mut i: usize = 0;
        while i < self.month_events.len()
            invariant
                i <= self.month_events@.len(),
                ms == events_view(self.month_events@),
                events_view(r@) == day_events(ms.take(i as int), date),
            decreases self.month_events@.len() - i,
        {
            let e = &self.month_events[i];
            assert(ms[i as int] == e@);
            assert(ms.take(i + 1).drop_last() == ms.take(i as int));
            let keep = match (e.start, e.end) {
                (Some(s), Some(f)) => date_le(s.date, date) && date_le(date, f.date),
                (Some(s), None) => s.date == date,
                (None, _) => false,
            };
            if keep {
                r.push(e.duplicate());
            }
            i = i + 1;
            assert(events_view(r@) =~= day_events(ms.take(i as int), date));
        }
        assert(ms.take(ms.len() as int) == ms);
        let n = r.len();
        self.events = r;
        self.event_focus = if n == 0 {
            0
        } else if self.event_focus < n {
            self.event_focus
        } else {
            n - 1
        };
        self.events_loaded = true;
    }

    /// Shows the cached events that match the search text, in lowercase; an
    /// empty or absent search shows the events of the selected day.
    pub fn apply_search_filter(&mut self)
        ensures
            final(self)@ == (match old(self)@.search_query {
                Some(q) if q.len() > 0 => AppView {
                    events: search_hits(old(self)@.month_events, lowercase_of(q)),
                    event_focus: clamp_cursor(
                        old(self)@.event_focus,
                        search_hits(old(self)@.month_events, lowercase_of(q)).len(),
                    ),
                    events_loaded: true,
                    ..old(self)@
                },
                _ => AppView {
                    events: day_events(old(self)@.month_events, old(self)@.selected_date),
                    event_focus: clamp_cursor(
                        old(self)@.event_focus,
                        day_events(old(self)@.month_events, old(self)@.selected_date).len(),
                    ),
                    events_loaded: true,
                    ..old(self)@
                },
            }),
            events_ok(old(self)@.month_events) ==> events_ok(final(self)@.events),
            cursor_ok(final(self)@.event_focus, final(self)@.events.len()),
    {
        let lq = match &self.search_query {
            Some(q) => {
                if q.as_str().is_empty() {
                    None
                } else {
                    Some(chars_of(to_lowercase(q.as_str()).as_str()))
                }
            },
            None => None,
        };
        let lq = match lq {
            Some(x) => x,
            None => {
                let d = self.selected_date;
                self.filter_events_for_date(d);
                return;
            },
        };
        let ghost ms = self@.month_events;
        proof {
            lemma_search_hits_sub(ms, lq@);
            if events_ok(ms) {
                lemma_events_ok_sub(ms, search_hits(ms, lq@));
            }
        }
        let mut r: Vec<CalendarEvent> = Vec::new();
        let mut i: usize = 0;
        while i < self.month_events.len()
            invariant
                i <= self.month_events@.len(),
                ms == events_view(self.month_events@),
                self.search_query matches Some(q) && lq@ == lowercase_of(q@),
                events_view(r@) == search_hits(ms.take(i as int), lq@),
            decreases self.month_events@.len() - i,
        {
            let e = &self.month_events[i];
            assert(ms[i as int] == e@);
            assert(ms.take(i + 1).drop_last() == ms.take(i as int));
            let s = chars_of(to_lowercase(e.summary.as_str()).as_str());
            let hit = if contains_chars(s.as_slice(), lq.as_slice()) {
                true
            } else {
                let d = match &e.description {
                    Some(d) => chars_of(to_lowercase(d.as_str()).as_str()),
                    None => chars_of(to_lowercase("").as_str()),
                };
                proof {
                    reveal_strlit("");
                    assert(""@ =~= Seq::<char>::empty());
                }
                contains_chars(d.as_slice(), lq.as_slice())
            };
            if hit {
                r.push(e.duplicate());
            }
            i = i + 1;
            assert(events_view(r@) =~= search_hits(ms.take(i as int), lq@));
        }
        assert(ms.take(ms.len() as int) == ms);
        let n = r.len();
        self.events = r;
        self.event_focus = if n == 0 {
            0
        } else if self.event_focus < n {
            self.event_focus
        } else {
            n - 1
        };
        self.events_loaded = true;
    }
}

} // verus!
