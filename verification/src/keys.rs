//! What each key does to the calendar's state, and which outside work it
//! asks for.
use vstd::prelude::*;
use crate::app::{
    clamp_cursor, day_events, events_ok, event_ok, cursor_ok, items_view, search_hits, Action, App,
    AppView, AuthState, AuthView, Command, CommandView, ContextItem, Env, Focus, ItemView,
    MenuAction, Mode, ModeView, ViewMode,
};
use crate::text::lowercase_of;
use crate::date::{
    add_days, first_of_month, format_date, from_ymd_opt, lemma_date_with_num, lemma_date_with_num_in_range, max_year, min_year,
    month_after, month_before, next_month, num_days_in_month, num_days_in_month_defined, num_days_in_month_ok,
    prev_month, date_with_num, day_number_in_range, days_in_month, checked_add_days, ymd_text, Date,
};
use crate::models::{
    copy_events, event_form_view, events_view, form_key_step, form_outcome, handle_form_key,
    form_to_event, new_form_view, CalendarEvent, EventView, FormState, FormView, Key,
};
use crate::parse::{parse_date, parse_date_defined, parse_date_ok, parsed_date};
use crate::text::{
    concat, copy_string, insert_char_at, is_control, is_control_char, num_chars, opt_view, owned,
    remove_char_at, string_push,
};
use crate::theme::{theme_table, Theme};

verus! {

// ───────────────────────── the model of each step ─────────────────────────

/// The state with the events of day `d` shown.
pub open spec fn filtered(a: AppView, d: Date) -> AppView {
    AppView {
        events: day_events(a.month_events, d),
        event_focus: clamp_cursor(a.event_focus, day_events(a.month_events, d).len()),
        events_loaded: true,
        ..a
    }
}

/// The state with the search results shown (the selected day's events when
/// the search text is empty or absent).
pub open spec fn searched(a: AppView) -> AppView {
    match a.search_query {
        Some(q) => if q.len() > 0 {
            AppView {
                events: search_hits(a.month_events, lowercase_of(q)),
                event_focus: clamp_cursor(a.event_focus, search_hits(a.month_events, lowercase_of(q)).len()),
                events_loaded: true,
                ..a
            }
        } else {
            filtered(a, a.selected_date)
        },
        None => filtered(a, a.selected_date),
    }
}

/// An enabled menu entry.
pub open spec fn item(label: Seq<char>, action: MenuAction) -> ItemView {
    ItemView { label, action, enabled: true }
}

/// The menu of a calendar day: view its events (when it has some), add an
/// event, and go back to today (unless it is today).
pub open spec fn date_menu(a: AppView, today: Date) -> Seq<ItemView> {
    let s1: Seq<ItemView> = if a.events.len() > 0 {
        seq![item("View Events"@, MenuAction::FocusEvents)]
    } else {
        Seq::empty()
    };
    let s2 = s1.push(item("New Event"@, MenuAction::NewEvent));
    if a.selected_date != today {
        s2.push(item("Go to Today"@, MenuAction::Today))
    } else {
        s2
    }
}

/// The menu of an event: view its detail, and edit or delete it when one is
/// highlighted.
pub open spec fn event_menu(a: AppView) -> Seq<ItemView> {
    if a.selected_event() is Some {
        seq![
            item("View Detail"@, MenuAction::ViewDetail),
            item("Edit"@, MenuAction::EditEvent),
            item("Delete"@, MenuAction::DeleteEvent),
        ]
    } else {
        seq![item("View Detail"@, MenuAction::ViewDetail)]
    }
}

/// The menu of the event list.
pub open spec fn list_menu(a: AppView) -> Seq<ItemView> {
    if a.events.len() == 0 {
        seq![item("New Event"@, MenuAction::NewEvent)]
    } else {
        let s1: Seq<ItemView> = if a.view_mode == ViewMode::Month {
            seq![item("View Events"@, MenuAction::FocusEvents)]
        } else {
            Seq::empty()
        };
        s1.push(item("New Event"@, MenuAction::NewEvent)) + event_menu(a)
    }
}

/// The state with a menu opened on its first entry.
pub open spec fn opened(a: AppView, items: Seq<ItemView>) -> AppView {
    AppView { menu_items: items, menu_cursor: 0, menu_open: true, ..a }
}

/// The state with the mode set.
pub open spec fn in_mode(a: AppView, m: ModeView) -> AppView {
    AppView { mode: m, ..a }
}

/// No outside work.
pub open spec fn idle(a: AppView) -> (AppView, CommandView) {
    (a, CommandView::Idle)
}

/// The focus after `f` in the cycle menu bar, calendar, event list.
pub open spec fn focus_forward(f: Focus) -> Focus {
    match f {
        Focus::MenuBar => Focus::Calendar,
        Focus::Calendar => Focus::EventList,
        Focus::EventList => Focus::MenuBar,
    }
}

/// The focus before `f` in the cycle menu bar, calendar, event list.
pub open spec fn focus_backward(f: Focus) -> Focus {
    match f {
        Focus::MenuBar => Focus::EventList,
        Focus::Calendar => Focus::MenuBar,
        Focus::EventList => Focus::Calendar,
    }
}

/// The entries of menu `i` of the menu bar: File (settings, quit),
/// Calendar (today, a new event, search), Account (sign in, possible only
/// with credentials, or sign out when signed in) and Help.
pub open spec fn bar_menu(i: nat, env: Env) -> Seq<ItemView> {
    if i == 0 {
        seq![item("Settings"@, MenuAction::Settings), item("Quit"@, MenuAction::Quit)]
    } else if i == 1 {
        seq![
            item("Go to Today"@, MenuAction::Today),
            item("New Event"@, MenuAction::NewEvent),
            item("Search"@, MenuAction::Search),
        ]
    } else if i == 2 {
        if env.token_exists {
            seq![item("Sign Out"@, MenuAction::SignOut)]
        } else {
            seq![ItemView { label: "Sign In to Google"@, action: MenuAction::SignIn, enabled: env.credentials_exist }]
        }
    } else {
        seq![item("Keyboard Shortcuts"@, MenuAction::Help)]
    }
}

/// What a key does on the menu bar: Left and Right move between the menus
/// (wrapping around), Down and Enter open the highlighted one.
pub open spec fn menubar_key_step(a: AppView, key: Key, env: Env) -> AppView {
    match key {
        Key::Left => AppView { menu_bar_focus: ((a.menu_bar_focus + 3) % 4) as nat, ..a },
        Key::Right => AppView { menu_bar_focus: ((a.menu_bar_focus + 1) % 4) as nat, ..a },
        Key::Down | Key::Enter => opened(a, bar_menu(a.menu_bar_focus, env)),
        _ => a,
    }
}

/// A cursor one entry up.
pub open spec fn up(c: nat) -> nat {
    if c > 0 {
        (c - 1) as nat
    } else {
        0
    }
}

/// A cursor one entry down, staying on the last of `len` entries.
pub open spec fn down(c: nat, len: nat) -> nat {
    if c + 1 < len {
        c + 1
    } else {
        (len - 1) as nat
    }
}

/// The message after signing out.
pub open spec fn signed_out_text() -> Seq<char> {
    "✓ Signed out of Google Calendar"@
}

/// What a menu action does.
pub open spec fn action_step(a: AppView, action: MenuAction, env: Env) -> (AppView, CommandView) {
    match action {
        MenuAction::Quit => (a, CommandView::Quit),
        MenuAction::Settings => idle(AppView { settings_focus: 0, mode: ModeView::Settings, ..a }),
        MenuAction::Today => idle(
            AppView {
                selected_date: env.today,
                view_date: first_of_month(env.today),
                event_focus: 0,
                needs_refresh: true,
                ..a
            },
        ),
        MenuAction::NewEvent => idle(in_mode(a, ModeView::Creating(new_form_view(a.selected_date)))),
        MenuAction::EditEvent => match a.selected_event() {
            Some(e) => idle(in_mode(a, ModeView::Editing(event_form_view(e)))),
            None => idle(a),
        },
        MenuAction::DeleteEvent => if a.selected_event() is Some {
            idle(in_mode(a, ModeView::Deleting))
        } else {
            idle(a)
        },
        MenuAction::FocusEvents => if a.view_mode == ViewMode::Week {
            idle(in_mode(a, ModeView::ViewingEvents(a.events, 0)))
        } else {
            idle(AppView { focus: Focus::EventList, event_focus: 0, ..a })
        },
        MenuAction::ViewDetail => match a.selected_event() {
            Some(e) => idle(in_mode(a, ModeView::ViewingDetail(e))),
            None => idle(a),
        },
        MenuAction::SignIn => if env.credentials_exist && !(a.auth_state is Listening) {
            (a, CommandView::StartAuth)
        } else {
            idle(a)
        },
        MenuAction::SignOut => (AppView { status: signed_out_text(), ..a }, CommandView::SignOut),
        MenuAction::Search => idle(
            searched(AppView { search_query: Some(Seq::empty()), focus: Focus::Calendar, ..a }),
        ),
        MenuAction::Help => idle(in_mode(a, ModeView::Help)),
        MenuAction::Nothing => idle(a),
    }
}

/// What a key does while a menu is open.
pub open spec fn menu_key_step(a: AppView, key: Key, env: Env) -> (AppView, CommandView) {
    let n = a.menu_items.len();
    match key {
        Key::Up => if n > 0 {
            idle(AppView { menu_cursor: up(a.menu_cursor), ..a })
        } else {
            idle(a)
        },
        Key::Down => if n > 0 {
            idle(AppView { menu_cursor: down(a.menu_cursor, n), ..a })
        } else {
            idle(a)
        },
        Key::Enter => if a.menu_cursor < n {
            let it = a.menu_items[a.menu_cursor as int];
            let a1 = AppView { menu_open: false, ..a };
            if it.enabled {
                action_step(a1, it.action, env)
            } else {
                idle(a1)
            }
        } else {
            idle(a)
        },
        Key::Esc => idle(AppView { menu_open: false, ..a }),
        _ => idle(a),
    }
}

/// What a key does while a search is open.
pub open spec fn search_key_step(a: AppView, key: Key) -> (AppView, CommandView) {
    let n = a.events.len();
    let q = a.search_query->0;
    match key {
        Key::Esc => idle(filtered(AppView { search_query: None, ..a }, a.selected_date)),
        Key::Enter => if n > 0 && a.event_focus < n {
            let e = a.events[a.event_focus as int];
            let a1 = AppView { search_query: None, ..a };
            match e.start {
                Some(s) => idle(
                    AppView {
                        selected_date: s.date,
                        view_date: first_of_month(s.date),
                        event_focus: 0,
                        needs_refresh: true,
                        focus: Focus::Calendar,
                        ..a1
                    },
                ),
                None => idle(a1),
            }
        } else {
            idle(AppView { search_query: None, ..a })
        },
        Key::Up => if n > 0 {
            idle(AppView { event_focus: up(a.event_focus), ..a })
        } else {
            idle(a)
        },
        Key::Down => if n > 0 {
            idle(AppView { event_focus: down(a.event_focus, n), ..a })
        } else {
            idle(a)
        },
        Key::Backspace => idle(
            searched(
                AppView {
                    search_query: Some(
                        if q.len() > 0 {
                            q.drop_last()
                        } else {
                            q
                        },
                    ),
                    ..a
                },
            ),
        ),
        Key::Char(c) => if !is_control_char(c) {
            idle(searched(AppView { search_query: Some(q.push(c)), ..a }))
        } else {
            idle(a)
        },
        _ => idle(a),
    }
}

/// The state with the selection moved by `n` days (the view follows it to
/// its month).
pub open spec fn moved(a: AppView, n: int) -> AppView {
    let d = date_with_num(a.selected_date.num() + n);
    AppView {
        selected_date: d,
        view_date: if d.same_month(a.view_date) {
            a.view_date
        } else {
            first_of_month(d)
        },
        event_focus: 0,
        needs_refresh: true,
        ..a
    }
}

/// The selected date moved into the month of `view` (the day kept when the
/// month has it, else its last day).
pub open spec fn clamped_into(sel: Date, view: Date) -> Date {
    let last = days_in_month(view.year as int, view.month as int);
    Date {
        year: view.year,
        month: view.month,
        day: if (sel.day as int) < last {
            sel.day
        } else {
            last as u32
        },
    }
}

/// The state with the view on another month.
pub open spec fn viewing_month(a: AppView, view: Date) -> AppView {
    AppView {
        view_date: view,
        selected_date: clamped_into(a.selected_date, view),
        needs_refresh: true,
        ..a
    }
}

/// How far an arrow key moves the selection on the calendar.
pub open spec fn arrow_days(key: Key) -> int {
    match key {
        Key::Left => -1,
        Key::Right => 1,
        Key::Up => -7,
        Key::Down => 7,
        _ => 0,
    }
}

/// Whether a key is an arrow key.
pub open spec fn is_arrow(key: Key) -> bool {
    key == Key::Left || key == Key::Right || key == Key::Up || key == Key::Down
}

/// Whether a key goes to the previous month.
pub open spec fn is_prev_month_key(key: Key) -> bool {
    key == Key::Char('[') || key == Key::PageUp
}

/// Whether a key goes to the next month.
pub open spec fn is_next_month_key(key: Key) -> bool {
    key == Key::Char(']') || key == Key::PageDown
}

/// What a key does on the calendar panel.
pub open spec fn calendar_key_step(a: AppView, key: Key, env: Env) -> AppView {
    if is_arrow(key) {
        moved(a, arrow_days(key))
    } else if is_prev_month_key(key) {
        viewing_month(a, month_before(a.view_date))
    } else if is_next_month_key(key) {
        viewing_month(a, month_after(a.view_date))
    } else if key == Key::Enter {
        opened(a, date_menu(a, env.today))
    } else {
        a
    }
}

/// Where the calendar panel does its date arithmetic without leaving the
/// supported dates (elsewhere chrono panics).
pub open spec fn calendar_key_ok(a: AppView, key: Key) -> bool {
    if is_arrow(key) {
        day_number_in_range(a.selected_date.num() + arrow_days(key))
    } else if is_prev_month_key(key) {
        !(a.view_date.month == 1 && a.view_date.year == min_year()) && num_days_in_month_defined(
            month_before(a.view_date).year as int,
            month_before(a.view_date).month as int,
        )
    } else if is_next_month_key(key) {
        !(a.view_date.month == 12 && a.view_date.year == max_year()) && num_days_in_month_defined(
            month_after(a.view_date).year as int,
            month_after(a.view_date).month as int,
        )
    } else {
        true
    }
}

/// What a key does on the event list panel.
pub open spec fn eventlist_key_step(a: AppView, key: Key) -> AppView {
    let n = a.events.len();
    match key {
        Key::Up => if n > 0 {
            AppView { event_focus: up(a.event_focus), ..a }
        } else {
            a
        },
        Key::Down => if n > 0 {
            AppView { event_focus: down(a.event_focus, n), ..a }
        } else {
            a
        },
        Key::Enter => opened(a, list_menu(a)),
        _ => a,
    }
}

/// What a key does in the normal mode: menu and search keys first, then the
/// global keys, then the keys of the focused panel.
pub open spec fn normal_key_step(a: AppView, key: Key, env: Env) -> (AppView, CommandView) {
    if a.menu_open {
        menu_key_step(a, key, env)
    } else if a.search_query is Some {
        search_key_step(a, key)
    } else {
        match key {
            Key::Char('/') => idle(searched(AppView { search_query: Some(Seq::empty()), ..a })),
            Key::Tab => idle(AppView { focus: focus_forward(a.focus), ..a }),
            Key::BackTab => idle(AppView { focus: focus_backward(a.focus), ..a }),
            Key::Esc => idle(in_mode(a, ModeView::ConfirmingQuit)),
            Key::Char('?') => idle(in_mode(a, ModeView::Help)),
            Key::Char('s') => idle(AppView { settings_focus: 0, mode: ModeView::Settings, ..a }),
            Key::Char('t') => action_step(a, MenuAction::Today, env),
            Key::Char('n') => idle(action_step(a, MenuAction::NewEvent, env).0),
            Key::Char('e') => if a.events.len() > 0 {
                idle(action_step(a, MenuAction::EditEvent, env).0)
            } else {
                idle(a)
            },
            Key::Char('d') => if a.events.len() > 0 {
                idle(action_step(a, MenuAction::DeleteEvent, env).0)
            } else {
                idle(a)
            },
            Key::Char('q') => idle(in_mode(a, ModeView::ConfirmingQuit)),
            Key::Char('j') => idle(in_mode(a, ModeView::JumpToDate(ymd_text(a.selected_date), 0))),
            Key::Char('w') => idle(
                AppView {
                    view_mode: if a.view_mode == ViewMode::Month {
                        ViewMode::Week
                    } else {
                        ViewMode::Month
                    },
                    ..a
                },
            ),
            _ => match a.focus {
                Focus::MenuBar => idle(menubar_key_step(a, key, env)),
                Focus::Calendar => idle(calendar_key_step(a, key, env)),
                Focus::EventList => idle(eventlist_key_step(a, key)),
            },
        }
    }
}

/// Whether the normal mode handles a key without a chrono panic.
pub open spec fn normal_key_ok(a: AppView, key: Key) -> bool {
    if a.menu_open || a.search_query is Some {
        true
    } else {
        match key {
            Key::Char('/') | Key::Tab | Key::BackTab | Key::Esc | Key::Char('?') | Key::Char('s')
            | Key::Char('t') | Key::Char('n') | Key::Char('e') | Key::Char('d') | Key::Char('q')
            | Key::Char('j') | Key::Char('w') => true,
            _ => a.focus == Focus::Calendar ==> calendar_key_ok(a, key),
        }
    }
}

/// What submitting a new-event form asks for.
pub open spec fn save_step(a: AppView, f: FormView) -> (AppView, CommandView) {
    match form_outcome(f.fields, a.selected_date) {
        Ok((s, d, st, en)) => (a, CommandView::CreateEvent { summary: s, description: d, start: st, end: en }),
        Err(m) => idle(AppView { status: m, ..a }),
    }
}

/// What submitting an edit form asks for.
pub open spec fn update_step(a: AppView, f: FormView) -> (AppView, CommandView) {
    match a.selected_event() {
        None => idle(a),
        Some(e) => match form_outcome(f.fields, a.selected_date) {
            Ok((s, d, st, en)) => (a, CommandView::UpdateEvent {
                id: e.id,
                summary: s,
                description: d,
                start: st,
                end: en,
            }),
            Err(m) => idle(AppView { status: m, ..a }),
        },
    }
}

/// What a key does to the new-event form.
pub open spec fn creating_step(a: AppView, f: FormView, key: Key) -> (AppView, CommandView) {
    let (f2, submit) = form_key_step(f, key);
    let a1 = in_mode(a, ModeView::Creating(f2));
    if submit {
        save_step(a1, f2)
    } else if key == Key::Esc {
        idle(in_mode(a1, ModeView::Normal))
    } else {
        idle(a1)
    }
}

/// What a key does to the edit form.
pub open spec fn editing_step(a: AppView, f: FormView, key: Key) -> (AppView, CommandView) {
    let (f2, submit) = form_key_step(f, key);
    let a1 = in_mode(a, ModeView::Editing(f2));
    if submit {
        update_step(a1, f2)
    } else if key == Key::Esc {
        idle(in_mode(a1, ModeView::Normal))
    } else {
        idle(a1)
    }
}

/// The message for a date text that spells no date.
pub open spec fn invalid_date_text(q: Seq<char>) -> Seq<char> {
    "Invalid date: "@ + q
}

/// What a key does to the jump-to-date prompt.
pub open spec fn jump_step(a: AppView, v: Seq<char>, c: nat, key: Key, env: Env) -> (AppView, CommandView) {
    let nc = v.len();
    match key {
        Key::Enter => {
            let a1 = in_mode(a, ModeView::Normal);
            match parsed_date(v, env.today) {
                Some(d) => idle(
                    AppView {
                        needs_refresh: true,
                        ..filtered(AppView { selected_date: d, view_date: first_of_month(d), ..a1 }, d)
                    },
                ),
                None => idle(AppView { status: invalid_date_text(v), ..a1 }),
            }
        },
        Key::Esc => idle(in_mode(a, ModeView::Normal)),
        Key::Left => idle(in_mode(a, ModeView::JumpToDate(v, up(c)))),
        Key::Right => idle(in_mode(a, ModeView::JumpToDate(v, if c < nc { c + 1 } else { c }))),
        Key::Backspace => if c > 0 {
            idle(in_mode(a, ModeView::JumpToDate(v.remove(c - 1), (c - 1) as nat)))
        } else {
            idle(a)
        },
        Key::Delete => if c < nc {
            idle(in_mode(a, ModeView::JumpToDate(v.remove(c as int), c)))
        } else {
            idle(a)
        },
        Key::Home => idle(in_mode(a, ModeView::JumpToDate(v, 0))),
        Key::End => idle(in_mode(a, ModeView::JumpToDate(v, nc))),
        Key::Char(ch) => if !is_control_char(ch) {
            idle(in_mode(a, ModeView::JumpToDate(v.insert(c as int, ch), c + 1)))
        } else {
            idle(a)
        },
        _ => idle(a),
    }
}

/// Whether the jump prompt handles a key without a panic: the typed date
/// must be reachable, and its month must have a following month.
pub open spec fn jump_key_ok(v: Seq<char>, key: Key, env: Env) -> bool {
    match key {
        Key::Enter => parse_date_defined(v, env.today) && (parsed_date(v, env.today) matches Some(d)
            ==> num_days_in_month_defined(d.year as int, d.month as int)),
        Key::Char(_) => v.len() < usize::MAX,
        _ => true,
    }
}

/// What a key does in the list of a day's events.
pub open spec fn viewing_events_step(a: AppView, evs: Seq<EventView>, c: nat, key: Key) -> (AppView, CommandView) {
    let n = evs.len();
    match key {
        Key::Esc => idle(in_mode(a, ModeView::Normal)),
        Key::Up => if n > 0 {
            idle(in_mode(a, ModeView::ViewingEvents(evs, up(c))))
        } else {
            idle(a)
        },
        Key::Down => if n > 0 {
            idle(in_mode(a, ModeView::ViewingEvents(evs, down(c, n))))
        } else {
            idle(a)
        },
        Key::Enter => if c < n {
            idle(in_mode(a, ModeView::ViewingDetail(evs[c as int])))
        } else {
            idle(a)
        },
        _ => idle(a),
    }
}

/// What a key does in the settings panel.
pub open spec fn settings_key_step(a: AppView, key: Key, env: Env) -> (AppView, CommandView) {
    match key {
        Key::Esc => idle(AppView { auth_state: AuthView::Idle, mode: ModeView::Normal, ..a }),
        Key::Down | Key::Tab => idle(
            AppView {
                settings_focus: if a.settings_focus + 1 < 4 {
                    a.settings_focus + 1
                } else {
                    4
                },
                ..a
            },
        ),
        Key::Up | Key::BackTab => idle(AppView { settings_focus: up(a.settings_focus), ..a }),
        Key::Enter | Key::Char(' ') => if a.settings_focus == 1 {
            if env.token_exists {
                (AppView { status: signed_out_text(), ..a }, CommandView::SignOut)
            } else if env.credentials_exist && !(a.auth_state is Listening) {
                (a, CommandView::StartAuth)
            } else {
                idle(in_mode(a, ModeView::Setup))
            }
        } else if a.settings_focus == 2 {
            (
                AppView {
                    first_day_of_week: if a.first_day_of_week == 0 {
                        1
                    } else {
                        0
                    },
                    ..a
                },
                CommandView::SaveSettings { refresh: true },
            )
        } else if a.settings_focus == 3 {
            (
                AppView {
                    theme_kind: a.theme_kind.spec_next(),
                    theme: theme_table(a.theme_kind.spec_next()),
                    ..a
                },
                CommandView::SaveSettings { refresh: false },
            )
        } else if a.settings_focus == 4 {
            if env.cal_registered {
                (a, CommandView::UnregisterCal)
            } else {
                (a, CommandView::RegisterCal)
            }
        } else {
            idle(a)
        },
        _ => idle(a),
    }
}

/// What a key does in the modes that only wait for a confirmation or for
/// Esc: deleting, confirming the quit, help, setup and an event's details.
pub open spec fn plain_mode_step(a: AppView, key: Key) -> (AppView, CommandView) {
    match a.mode {
        ModeView::Deleting => match key {
            Key::Enter => match a.selected_event() {
                Some(e) => (a, CommandView::DeleteEvent { id: e.id }),
                None => idle(a),
            },
            Key::Esc => idle(in_mode(a, ModeView::Normal)),
            _ => idle(a),
        },
        ModeView::ConfirmingQuit => match key {
            Key::Enter | Key::Char('y') => (a, CommandView::Quit),
            Key::Esc | Key::Char('n') => idle(in_mode(a, ModeView::Normal)),
            _ => idle(a),
        },
        ModeView::Help => if key == Key::Esc {
            idle(in_mode(a, ModeView::Normal))
        } else {
            idle(a)
        },
        ModeView::Setup => if key == Key::Esc || key == Key::Char('q') {
            idle(in_mode(a, ModeView::Normal))
        } else {
            idle(a)
        },
        ModeView::ViewingDetail(_) => if key == Key::Esc {
            idle(in_mode(a, ModeView::Normal))
        } else {
            idle(a)
        },
        _ => idle(a),
    }
}

/// What a key does to the calendar. The status line is cleared first; a
/// sign-in message takes Esc or Enter to dismiss and swallows other keys;
/// otherwise the key goes to the current mode.
pub open spec fn key_step(a0: AppView, key: Key, env: Env) -> (AppView, CommandView) {
    let a = AppView { status: Seq::empty(), ..a0 };
    if a.auth_state is Message {
        if key == Key::Esc || key == Key::Enter {
            idle(AppView { auth_state: AuthView::Idle, ..a })
        } else {
            idle(a)
        }
    } else {
        match a.mode {
            ModeView::Normal => normal_key_step(a, key, env),
            ModeView::Creating(f) => creating_step(a, f, key),
            ModeView::Editing(f) => editing_step(a, f, key),
            ModeView::Settings => settings_key_step(a, key, env),
            ModeView::JumpToDate(v, c) => jump_step(a, v, c, key, env),
            ModeView::ViewingEvents(evs, c) => viewing_events_step(a, evs, c, key),
            _ => plain_mode_step(a, key),
        }
    }
}

/// Whether the calendar handles a key without a panic: date arithmetic
/// stays within the supported dates, and edited texts fit in memory.
pub open spec fn key_ok(a: AppView, key: Key, env: Env) -> bool {
    if a.auth_state is Message {
        true
    } else {
        match a.mode {
            ModeView::Normal => normal_key_ok(a, key),
            ModeView::Creating(f) => f.fields[f.focus as int].value.len() < usize::MAX,
            ModeView::Editing(f) => f.fields[f.focus as int].value.len() < usize::MAX,
            ModeView::JumpToDate(v, _) => jump_key_ok(v, key, env),
            _ => true,
        }
    }
}

// ───────────────────────── the steps ─────────────────────────

/// An enabled menu entry.
fn menu_item(label: &str, action: MenuAction) -> (r: ContextItem)
    ensures
        r@ == item(label@, action),
{
    ContextItem { label: owned(label), action, enabled: true }
}

impl App {
    /// The highlighted event of the list, if any.
    pub fn selected_event(&self) -> (r: Option<&CalendarEvent>)
        ensures
            match self@.selected_event() {
                Some(e) => r matches Some(x) && x@ == e,
                None => r is None,
            },
    {
        if self.event_focus < self.events.len() {
            Some(&self.events[self.event_focus])
        } else {
            None
        }
    }

    /// The entries of a calendar day's menu.
    pub fn date_context_items(&self, today: Date) -> (r: Vec<ContextItem>)
        ensures
            items_view(r@) == date_menu(self@, today),
    {
        let mut items: Vec<ContextItem> = Vec::new();
        if self.events.len() > 0 {
            items.push(menu_item("View Events", MenuAction::FocusEvents));
        }
        items.push(menu_item("New Event", MenuAction::NewEvent));
        if self.selected_date != today {
            items.push(menu_item("Go to Today", MenuAction::Today));
        }
        assert(items_view(items@) =~= date_menu(self@, today));
        items
    }

    /// The entries of an event's menu.
    pub fn event_context_items(&self) -> (r: Vec<ContextItem>)
        ensures
            items_view(r@) == event_menu(self@),
    {
        let mut items: Vec<ContextItem> = Vec::new();
        items.push(menu_item("View Detail", MenuAction::ViewDetail));
        if self.selected_event().is_some() {
            items.push(menu_item("Edit", MenuAction::EditEvent));
            items.push(menu_item("Delete", MenuAction::DeleteEvent));
        }
        assert(items_view(items@) =~= event_menu(self@));
        items
    }

    /// The entries of the event list's menu.
    pub fn list_context_items(&self) -> (r: Vec<ContextItem>)
        ensures
            items_view(r@) == list_menu(self@),
    {
        let mut items: Vec<ContextItem> = Vec::new();
        if self.events.len() == 0 {
            items.push(menu_item("New Event", MenuAction::NewEvent));
            assert(items_view(items@) =~= list_menu(self@));
            return items;
        }
        if self.view_mode == ViewMode::Month {
            items.push(menu_item("View Events", MenuAction::FocusEvents));
        }
        items.push(menu_item("New Event", MenuAction::NewEvent));
        let mut more = self.event_context_items();
        items.append(&mut more);
        assert(items_view(items@) =~= list_menu(self@));
        items
    }

    /// Carries out a menu action.
    #[verifier::spinoff_prover]
    #[verifier::rlimit(40)]
    pub fn execute_menu_action(&mut self, action: MenuAction, env: Env) -> (r: Command)
        requires
            old(self)@.wf(),
            env.today.valid(),
        ensures
            final(self)@ == action_step(old(self)@, action, env).0,
            r@ == action_step(old(self)@, action, env).1,
            final(self)@.wf(),
    {
        match action {
            MenuAction::Quit => Command::Quit,
            MenuAction::Settings => {
                self.settings_focus = 0;
                self.mode = Mode::Settings;
                Command::Idle
            },
            MenuAction::Today => {
                let today = env.today;
                self.selected_date = today;
                self.view_date = first_day(today);
                self.event_focus = 0;
                self.needs_refresh = true;
                Command::Idle
            },
            MenuAction::NewEvent => {
                let form = FormState::new(self.selected_date);
                self.mode = Mode::Creating(form);
                Command::Idle
            },
            MenuAction::EditEvent => {
                if self.event_focus < self.events.len() {
                    assert(event_ok(self@.events[self.event_focus as int]));
                    let form = FormState::from_event(&self.events[self.event_focus]);
                    self.mode = Mode::Editing(form);
                }
                Command::Idle
            },
            MenuAction::DeleteEvent => {
                if self.event_focus < self.events.len() {
                    self.mode = Mode::Deleting;
                }
                Command::Idle
            },
            MenuAction::FocusEvents => {
                if self.view_mode == ViewMode::Week {
                    let evs = copy_events(&self.events);
                    self.mode = Mode::ViewingEvents(evs, 0);
                } else {
                    self.focus = Focus::EventList;
                    self.event_focus = 0;
                }
                Command::Idle
            },
            MenuAction::ViewDetail => {
                if self.event_focus < self.events.len() {
                    assert(event_ok(self@.events[self.event_focus as int]));
                    let e = self.events[self.event_focus].duplicate();
                    self.mode = Mode::ViewingDetail(e);
                }
                Command::Idle
            },
            MenuAction::SignIn => {
                let listening = match &self.auth_state {
                    AuthState::Listening { .. } => true,
                    _ => false,
                };
                if env.credentials_exist && !listening {
                    Command::StartAuth
                } else {
                    Command::Idle
                }
            },
            MenuAction::SignOut => {
                self.status = owned("✓ Signed out of Google Calendar");
                Command::SignOut
            },
            MenuAction::Search => {
                self.search_query = Some(String::new());
                self.focus = Focus::Calendar;
                self.apply_search_filter();
                Command::Idle
            },
            MenuAction::Help => {
                self.mode = Mode::Help;
                Command::Idle
            },
            MenuAction::Nothing => Command::Idle,
        }
    }

    /// Handles a key while a menu is open.
    pub fn handle_menu_key(&mut self, key: Key, env: Env) -> (r: Command)
        requires
            old(self)@.wf(),
            env.today.valid(),
            old(self)@.menu_open,
        ensures
            final(self)@ == menu_key_step(old(self)@, key, env).0,
            r@ == menu_key_step(old(self)@, key, env).1,
            final(self)@.wf(),
    {
        let n = self.menu_items.len();
        match key {
            Key::Up => {
                if n > 0 {
                    self.menu_cursor = if self.menu_cursor > 0 {
                        self.menu_cursor - 1
                    } else {
                        0
                    };
                }
                Command::Idle
            },
            Key::Down => {
                if n > 0 {
                    self.menu_cursor = if self.menu_cursor + 1 < n {
                        self.menu_cursor + 1
                    } else {
                        n - 1
                    };
                }
                Command::Idle
            },
            Key::Enter => {
                if self.menu_cursor < n {
                    assert(self@.menu_items[self.menu_cursor as int] == self.menu_items@[self.menu_cursor as int]@);
                    let action = self.menu_items[self.menu_cursor].action;
                    let enabled = self.menu_items[self.menu_cursor].enabled;
                    self.menu_open = false;
                    if enabled {
                        return self.execute_menu_action(action, env);
                    }
                }
                Command::Idle
            },
            Key::Esc => {
                self.menu_open = false;
                Command::Idle
            },
            _ => Command::Idle,
        }
    }

    /// Handles a key while a search is open.
    #[verifier::spinoff_prover]
    #[verifier::rlimit(40)]
    pub fn handle_search_key(&mut self, key: Key) -> (r: Command)
        requires
            old(self)@.wf(),
            old(self)@.search_query is Some,
        ensures
            final(self)@ == search_key_step(old(self)@, key).0,
            r@ == search_key_step(old(self)@, key).1,
            final(self)@.wf(),
    {
        let n = self.events.len();
        match key {
            Key::Esc => {
                self.search_query = None;
                let d = self.selected_date;
                self.filter_events_for_date(d);
            },
            Key::Enter => {
                if n > 0 && self.event_focus < n {
                    assert(event_ok(self@.events[self.event_focus as int]));
                    let start = self.events[self.event_focus].start;
                    self.search_query = None;
                    match start {
                        Some(s) => {
                            self.selected_date = s.date;
                            self.view_date = first_day(s.date);
                            self.event_focus = 0;
                            self.needs_refresh = true;
                            self.focus = Focus::Calendar;
                        },
                        None => {},
                    }
                } else {
                    self.search_query = None;
                }
            },
            Key::Up => {
                if n > 0 {
                    self.event_focus = if self.event_focus > 0 {
                        self.event_focus - 1
                    } else {
                        0
                    };
                }
            },
            Key::Down => {
                if n > 0 {
                    self.event_focus = if self.event_focus + 1 < n {
                        self.event_focus + 1
                    } else {
                        n - 1
                    };
                }
            },
            Key::Backspace => {
                let q = match &self.search_query {
                    Some(q) => crate::text::chars_of(q.as_str()),
                    None => Vec::new(),
                };
                let shorter = if q.len() > 0 {
                    crate::text::chars_to(q.as_slice(), q.len() - 1)
                } else {
                    q
                };
                assert(q@.len() > 0 ==> shorter@ == q@.drop_last());
                self.search_query = Some(crate::text::string_of(shorter.as_slice()));
                self.apply_search_filter();
            },
            Key::Char(c) => {
                if !is_control(c) {
                    let mut q = match &self.search_query {
                        Some(q) => copy_string(q),
                        None => String::new(),
                    };
                    string_push(&mut q, c);
                    self.search_query = Some(q);
                    self.apply_search_filter();
                }
            },
            _ => {},
        }
        Command::Idle
    }

    /// Moves the selection by `days` days; the view follows to its month.
    fn move_by_days(&mut self, days: i64)
        requires
            old(self)@.wf(),
            day_number_in_range(old(self)@.selected_date.num() + days),
        ensures
            final(self)@ == (AppView { needs_refresh: old(self)@.needs_refresh, ..moved(old(self)@, days as int) }),
            final(self)@.wf(),
    {
        let new = add_days(self.selected_date, days);
        proof {
            lemma_date_with_num(new);
        }
        self.selected_date = new;
        if new.month != self.view_date.month || new.year != self.view_date.year {
            self.view_date = first_day(new);
        }
        self.event_focus = 0;
    }

    /// Moves the selected date into the month on view.
    fn clamp_selected_date(&mut self)
        requires
            old(self).view_date.valid(),
            old(self).view_date.day == 1,
            old(self).selected_date.valid(),
            num_days_in_month_defined(old(self).view_date.year as int, old(self).view_date.month as int),
        ensures
            final(self)@ == (AppView { selected_date: clamped_into(old(self)@.selected_date, old(self)@.view_date), ..old(self)@ }),
            final(self)@.selected_date.valid(),
    {
        let last = num_days_in_month(self.view_date.year, self.view_date.month);
        let d = if self.selected_date.day < last {
            self.selected_date.day
        } else {
            last
        };
        match from_ymd_opt(self.view_date.year, self.view_date.month, d) {
            Some(x) => {
                self.selected_date = x;
            },
            None => {
                assert(false);
            },
        }
    }

    /// Handles a key on the calendar panel.
    pub fn handle_calendar_key(&mut self, key: Key, env: Env)
        requires
            old(self)@.wf(),
            env.today.valid(),
            calendar_key_ok(old(self)@, key),
        ensures
            final(self)@ == calendar_key_step(old(self)@, key, env),
            final(self)@.wf(),
    {
        match key {
            Key::Left => {
                self.move_by_days(-1);
                self.needs_refresh = true;
            },
            Key::Right => {
                self.move_by_days(1);
                self.needs_refresh = true;
            },
            Key::Up => {
                self.move_by_days(-7);
                self.needs_refresh = true;
            },
            Key::Down => {
                self.move_by_days(7);
                self.needs_refresh = true;
            },
            Key::Char('[') | Key::PageUp => {
                self.view_date = prev_month(self.view_date);
                self.clamp_selected_date();
                self.needs_refresh = true;
            },
            Key::Char(']') | Key::PageDown => {
                self.view_date = next_month(self.view_date);
                self.clamp_selected_date();
                self.needs_refresh = true;
            },
            Key::Enter => {
                self.menu_items = self.date_context_items(env.today);
                self.menu_cursor = 0;
                self.menu_open = true;
            },
            _ => {},
        }
    }

    /// The entries of menu `index` of the menu bar.
    pub fn bar_menu_items(index: usize, env: Env) -> (r: Vec<ContextItem>)
        ensures
            items_view(r@) == bar_menu(index as nat, env),
    {
        let mut items: Vec<ContextItem> = Vec::new();
        if index == 0 {
            items.push(menu_item("Settings", MenuAction::Settings));
            items.push(menu_item("Quit", MenuAction::Quit));
        } else if index == 1 {
            items.push(menu_item("Go to Today", MenuAction::Today));
            items.push(menu_item("New Event", MenuAction::NewEvent));
            items.push(menu_item("Search", MenuAction::Search));
        } else if index == 2 {
            if env.token_exists {
                items.push(menu_item("Sign Out", MenuAction::SignOut));
            } else {
                items.push(
                    ContextItem {
                        label: owned("Sign In to Google"),
                        action: MenuAction::SignIn,
                        enabled: env.credentials_exist,
                    },
                );
            }
        } else {
            items.push(menu_item("Keyboard Shortcuts", MenuAction::Help));
        }
        assert(items_view(items@) =~= bar_menu(index as nat, env));
        items
    }

    /// Handles a key on the menu bar.
    pub fn handle_menubar_key(&mut self, key: Key, env: Env)
        requires
            old(self)@.wf(),
        ensures
            final(self)@ == menubar_key_step(old(self)@, key, env),
            final(self)@.wf(),
    {
        match key {
            Key::Left => {
                self.menu_bar_focus = (self.menu_bar_focus + 3) % 4;
            },
            Key::Right => {
                self.menu_bar_focus = (self.menu_bar_focus + 1) % 4;
            },
            Key::Down | Key::Enter => {
                self.menu_items = App::bar_menu_items(self.menu_bar_focus, env);
                self.menu_cursor = 0;
                self.menu_open = true;
            },
            _ => {},
        }
    }

    /// Handles a key on the event list panel.
    pub fn handle_eventlist_key(&mut self, key: Key)
        requires
            old(self)@.wf(),
        ensures
            final(self)@ == eventlist_key_step(old(self)@, key),
            final(self)@.wf(),
    {
        let n = self.events.len();
        match key {
            Key::Up => {
                if n > 0 {
                    self.event_focus = if self.event_focus > 0 {
                        self.event_focus - 1
                    } else {
                        0
                    };
                }
            },
            Key::Down => {
                if n > 0 {
                    self.event_focus = if self.event_focus + 1 < n {
                        self.event_focus + 1
                    } else {
                        n - 1
                    };
                }
            },
            Key::Enter => {
                self.menu_items = self.list_context_items();
                self.menu_cursor = 0;
                self.menu_open = true;
            },
            _ => {},
        }
    }
}

/// The first day of the month of a valid date.
fn first_day(d: Date) -> (r: Date)
    requires
        d.valid(),
    ensures
        r == first_of_month(d),
        r.valid(),
{
    match from_ymd_opt(d.year, d.month, 1) {
        Some(x) => x,
        None => {
            assert(false);
            d
        },
    }
}

impl App {
    /// Handles a key in the normal mode.
    #[verifier::spinoff_prover]
    #[verifier::rlimit(40)]
    pub fn handle_normal_key(&mut self, key: Key, env: Env) -> (r: Command)
        requires
            old(self)@.wf(),
            env.today.valid(),
            normal_key_ok(old(self)@, key),
        ensures
            final(self)@ == normal_key_step(old(self)@, key, env).0,
            r@ == normal_key_step(old(self)@, key, env).1,
            final(self)@.wf(),
    {
        if self.menu_open {
            return self.handle_menu_key(key, env);
        }
        if self.search_query.is_some() {
            return self.handle_search_key(key);
        }
        match key {
            Key::Char('/') => {
                self.search_query = Some(String::new());
                self.apply_search_filter();
            },
            Key::Tab => {
                self.focus = match self.focus {
                    Focus::MenuBar => Focus::Calendar,
                    Focus::Calendar => Focus::EventList,
                    Focus::EventList => Focus::MenuBar,
                };
            },
            Key::BackTab => {
                self.focus = match self.focus {
                    Focus::MenuBar => Focus::EventList,
                    Focus::Calendar => Focus::MenuBar,
                    Focus::EventList => Focus::Calendar,
                };
            },
            Key::Esc => {
                self.mode = Mode::ConfirmingQuit;
            },
            Key::Char('?') => {
                self.mode = Mode::Help;
            },
            Key::Char('s') => {
                self.settings_focus = 0;
                self.mode = Mode::Settings;
            },
            Key::Char('t') => {
                return self.execute_menu_action(MenuAction::Today, env);
            },
            Key::Char('n') => {
                let _ = self.execute_menu_action(MenuAction::NewEvent, env);
            },
            Key::Char('e') => {
                if self.events.len() > 0 {
                    let _ = self.execute_menu_action(MenuAction::EditEvent, env);
                }
            },
            Key::Char('d') => {
                if self.events.len() > 0 {
                    let _ = self.execute_menu_action(MenuAction::DeleteEvent, env);
                }
            },
            Key::Char('q') => {
                self.mode = Mode::ConfirmingQuit;
            },
            Key::Char('j') => {
                let text = format_date(self.selected_date, "%Y-%m-%d");
                self.mode = Mode::JumpToDate(text, 0);
            },
            Key::Char('w') => {
                self.view_mode = match self.view_mode {
                    ViewMode::Month => ViewMode::Week,
                    ViewMode::Week => ViewMode::Month,
                };
            },
            _ => match self.focus {
                Focus::MenuBar => {
                    self.handle_menubar_key(key, env);
                },
                Focus::Calendar => {
                    self.handle_calendar_key(key, env);
                },
                Focus::EventList => {
                    self.handle_eventlist_key(key);
                },
            },
        }
        Command::Idle
    }

    /// Submits the new-event form: asks to create the event, or shows why
    /// the form is not acceptable.
    fn save_event(&mut self) -> (r: Command)
        requires
            old(self)@.wf(),
            old(self)@.mode matches ModeView::Creating(_),
        ensures
            final(self)@ == save_step(old(self)@, old(self)@.mode->Creating_0).0,
            r@ == save_step(old(self)@, old(self)@.mode->Creating_0).1,
            final(self)@.wf(),
    {
        let outcome = match &self.mode {
            Mode::Creating(f) => form_to_event(f, self.selected_date),
            _ => {
                assert(false);
                return Command::Idle;
            },
        };
        match outcome {
            Ok((summary, description, start, end)) => Command::CreateEvent { summary, description, start, end },
            Err(msg) => {
                self.status = msg;
                Command::Idle
            },
        }
    }

    /// Submits the edit form: asks to change the highlighted event, or shows
    /// why the form is not acceptable.
    fn update_event(&mut self) -> (r: Command)
        requires
            old(self)@.wf(),
            old(self)@.mode matches ModeView::Editing(_),
        ensures
            final(self)@ == update_step(old(self)@, old(self)@.mode->Editing_0).0,
            r@ == update_step(old(self)@, old(self)@.mode->Editing_0).1,
            final(self)@.wf(),
    {
        let id = match self.selected_event() {
            Some(e) => copy_string(&e.id),
            None => {
                return Command::Idle;
            },
        };
        let outcome = match &self.mode {
            Mode::Editing(f) => form_to_event(f, self.selected_date),
            _ => {
                assert(false);
                return Command::Idle;
            },
        };
        match outcome {
            Ok((summary, description, start, end)) => Command::UpdateEvent { id, summary, description, start, end },
            Err(msg) => {
                self.status = msg;
                Command::Idle
            },
        }
    }

    /// Handles a key in the jump-to-date prompt, whose text and cursor are
    /// `value` and `cursor` (the mode has been taken out of the state).
    #[verifier::spinoff_prover]
    #[verifier::rlimit(40)]
    fn handle_jump_key(&mut self, value: String, cursor: usize, key: Key, env: Env) -> (r: Command)
        requires
            (AppView { mode: ModeView::JumpToDate(value@, cursor as nat), ..old(self)@ }).wf(),
            env.today.valid(),
            jump_key_ok(value@, key, env),
        ensures
            final(self)@ == jump_step(
                AppView { mode: ModeView::JumpToDate(value@, cursor as nat), ..old(self)@ },
                value@,
                cursor as nat,
                key,
                env,
            ).0,
            r@ == CommandView::Idle,
            final(self)@.wf(),
    {
        let nc = num_chars(value.as_str());
        match key {
            Key::Enter => {
                self.mode = Mode::Normal;
                match parse_date(value.as_str(), env.today) {
                    Some(date) => {
                        let clamped = if date.day < num_days_in_month(date.year, date.month) {
                            date.day
                        } else {
                            num_days_in_month(date.year, date.month)
                        };
                        let date = match from_ymd_opt(date.year, date.month, clamped) {
                            Some(d) => d,
                            None => date,
                        };
                        self.selected_date = date;
                        self.view_date = first_day(date);
                        self.filter_events_for_date(date);
                        self.needs_refresh = true;
                    },
                    None => {
                        self.status = concat("Invalid date: ", value.as_str());
                    },
                }
            },
            Key::Esc => {
                self.mode = Mode::Normal;
            },
            Key::Left => {
                self.mode = Mode::JumpToDate(value, if cursor > 0 {
                    cursor - 1
                } else {
                    0
                });
            },
            Key::Right => {
                self.mode = Mode::JumpToDate(value, if cursor < nc {
                    cursor + 1
                } else {
                    cursor
                });
            },
            Key::Backspace => {
                if cursor > 0 {
                    let v = remove_char_at(value.as_str(), cursor - 1);
                    self.mode = Mode::JumpToDate(v, cursor - 1);
                } else {
                    self.mode = Mode::JumpToDate(value, cursor);
                }
            },
            Key::Delete => {
                if cursor < nc {
                    let v = remove_char_at(value.as_str(), cursor);
                    self.mode = Mode::JumpToDate(v, cursor);
                } else {
                    self.mode = Mode::JumpToDate(value, cursor);
                }
            },
            Key::Home => {
                self.mode = Mode::JumpToDate(value, 0);
            },
            Key::End => {
                self.mode = Mode::JumpToDate(value, nc);
            },
            Key::Char(c) => {
                if !is_control(c) {
                    let v = insert_char_at(value.as_str(), cursor, c);
                    self.mode = Mode::JumpToDate(v, cursor + 1);
                } else {
                    self.mode = Mode::JumpToDate(value, cursor);
                }
            },
            _ => {
                self.mode = Mode::JumpToDate(value, cursor);
            },
        }
        Command::Idle
    }

    /// Handles a key in the list of a day's events, which holds `evs` with
    /// the cursor at `cursor` (the mode has been taken out of the state).
    fn handle_viewing_events_key(&mut self, evs: Vec<CalendarEvent>, cursor: usize, key: Key) -> (r: Command)
        requires
            (AppView { mode: ModeView::ViewingEvents(events_view(evs@), cursor as nat), ..old(self)@ }).wf(),
        ensures
            final(self)@ == viewing_events_step(
                AppView { mode: ModeView::ViewingEvents(events_view(evs@), cursor as nat), ..old(self)@ },
                events_view(evs@),
                cursor as nat,
                key,
            ).0,
            r@ == CommandView::Idle,
            final(self)@.wf(),
    {
        let n = evs.len();
        match key {
            Key::Esc => {
                self.mode = Mode::Normal;
            },
            Key::Up => {
                let c = if n > 0 {
                    if cursor > 0 {
                        cursor - 1
                    } else {
                        0
                    }
                } else {
                    cursor
                };
                self.mode = Mode::ViewingEvents(evs, c);
            },
            Key::Down => {
                let c = if n > 0 {
                    if cursor + 1 < n {
                        cursor + 1
                    } else {
                        n - 1
                    }
                } else {
                    cursor
                };
                self.mode = Mode::ViewingEvents(evs, c);
            },
            Key::Enter => {
                if cursor < n {
                    assert(events_view(evs@)[cursor as int] == evs@[cursor as int]@);
                    assert(event_ok(events_view(evs@)[cursor as int]));
                    let e = evs[cursor].duplicate();
                    self.mode = Mode::ViewingDetail(e);
                } else {
                    self.mode = Mode::ViewingEvents(evs, cursor);
                }
            },
            _ => {
                self.mode = Mode::ViewingEvents(evs, cursor);
            },
        }
        Command::Idle
    }

    /// Handles a key in the settings panel.
    #[verifier::spinoff_prover]
    #[verifier::rlimit(40)]
    pub fn handle_settings_key(&mut self, key: Key, env: Env) -> (r: Command)
        requires
            old(self)@.wf(),
        ensures
            final(self)@ == settings_key_step(old(self)@, key, env).0,
            r@ == settings_key_step(old(self)@, key, env).1,
            final(self)@.wf(),
    {
        match key {
            Key::Esc => {
                self.auth_state = AuthState::Idle;
                self.mode = Mode::Normal;
                Command::Idle
            },
            Key::Down | Key::Tab => {
                self.settings_focus = if self.settings_focus + 1 < 4 {
                    self.settings_focus + 1
                } else {
                    4
                };
                Command::Idle
            },
            Key::Up | Key::BackTab => {
                self.settings_focus = if self.settings_focus > 0 {
                    self.settings_focus - 1
                } else {
                    0
                };
                Command::Idle
            },
            Key::Enter | Key::Char(' ') => {
                if self.settings_focus == 1 {
                    let listening = match &self.auth_state {
                        AuthState::Listening { .. } => true,
                        _ => false,
                    };
                    if env.token_exists {
                        self.status = owned("✓ Signed out of Google Calendar");
                        Command::SignOut
                    } else if env.credentials_exist && !listening {
                        Command::StartAuth
                    } else {
                        self.mode = Mode::Setup;
                        Command::Idle
                    }
                } else if self.settings_focus == 2 {
                    self.first_day_of_week = if self.first_day_of_week == 0 {
                        1
                    } else {
                        0
                    };
                    Command::SaveSettings { refresh: true }
                } else if self.settings_focus == 3 {
                    self.theme_kind = self.theme_kind.next();
                    self.theme = Theme::for_kind(self.theme_kind);
                    Command::SaveSettings { refresh: false }
                } else if self.settings_focus == 4 {
                    if env.cal_registered {
                        Command::UnregisterCal
                    } else {
                        Command::RegisterCal
                    }
                } else {
                    Command::Idle
                }
            },
            _ => Command::Idle,
        }
    }

    /// Handles a key in the new-event form (the mode has been taken out of
    /// the state).
    fn handle_creating_key(&mut self, form: FormState, key: Key) -> (r: Command)
        requires
            (AppView { mode: ModeView::Creating(form@), ..old(self)@ }).wf(),
            form@.fields[form@.focus as int].value.len() < usize::MAX,
        ensures
            final(self)@ == creating_step(AppView { mode: ModeView::Creating(form@), ..old(self)@ }, form@, key).0,
            r@ == creating_step(AppView { mode: ModeView::Creating(form@), ..old(self)@ }, form@, key).1,
            final(self)@.wf(),
    {
        let mut form = form;
        let submit = handle_form_key(key, &mut form);
        self.mode = Mode::Creating(form);
        if submit {
            self.save_event()
        } else if key == Key::Esc {
            self.mode = Mode::Normal;
            Command::Idle
        } else {
            Command::Idle
        }
    }

    /// Handles a key in the edit form (the mode has been taken out of the
    /// state).
    fn handle_editing_key(&mut self, form: FormState, key: Key) -> (r: Command)
        requires
            (AppView { mode: ModeView::Editing(form@), ..old(self)@ }).wf(),
            form@.fields[form@.focus as int].value.len() < usize::MAX,
        ensures
            final(self)@ == editing_step(AppView { mode: ModeView::Editing(form@), ..old(self)@ }, form@, key).0,
            r@ == editing_step(AppView { mode: ModeView::Editing(form@), ..old(self)@ }, form@, key).1,
            final(self)@.wf(),
    {
        let mut form = form;
        let submit = handle_form_key(key, &mut form);
        self.mode = Mode::Editing(form);
        if submit {
            self.update_event()
        } else if key == Key::Esc {
            self.mode = Mode::Normal;
            Command::Idle
        } else {
            Command::Idle
        }
    }

    /// Handles a key in a mode that only waits for a confirmation or for
    /// Esc (the mode has been taken out of the state).
    fn handle_plain_mode_key(&mut self, mode: Mode, key: Key) -> (r: Command)
        requires
            (AppView { mode: mode@, ..old(self)@ }).wf(),
            !(mode is Normal || mode is Creating || mode is Editing || mode is Settings
                || mode is JumpToDate || mode is ViewingEvents),
        ensures
            final(self)@ == plain_mode_step(AppView { mode: mode@, ..old(self)@ }, key).0,
            r@ == plain_mode_step(AppView { mode: mode@, ..old(self)@ }, key).1,
            final(self)@.wf(),
    {
        match mode {
            Mode::Deleting => {
                self.mode = Mode::Deleting;
                match key {
                    Key::Enter => match self.selected_event() {
                        Some(e) => Command::DeleteEvent { id: copy_string(&e.id) },
                        None => Command::Idle,
                    },
                    Key::Esc => {
                        self.mode = Mode::Normal;
                        Command::Idle
                    },
                    _ => Command::Idle,
                }
            },
            Mode::ConfirmingQuit => {
                match key {
                    Key::Enter | Key::Char('y') => {
                        self.mode = Mode::ConfirmingQuit;
                        Command::Quit
                    },
                    Key::Esc | Key::Char('n') => {
                        self.mode = Mode::Normal;
                        Command::Idle
                    },
                    _ => {
                        self.mode = Mode::ConfirmingQuit;
                        Command::Idle
                    },
                }
            },
            Mode::Help => {
                if key == Key::Esc {
                    self.mode = Mode::Normal;
                } else {
                    self.mode = Mode::Help;
                }
                Command::Idle
            },
            Mode::Setup => {
                if key == Key::Esc || key == Key::Char('q') {
                    self.mode = Mode::Normal;
                } else {
                    self.mode = Mode::Setup;
                }
                Command::Idle
            },
            Mode::ViewingDetail(e) => {
                if key == Key::Esc {
                    self.mode = Mode::Normal;
                } else {
                    self.mode = Mode::ViewingDetail(e);
                }
                Command::Idle
            },
            other => {
                self.mode = other;
                Command::Idle
            },
        }
    }

    /// Handles a key: clears the status line, then lets the sign-in
    /// message, or else the current mode, take the key. Every state it
    /// leaves keeps the invariant.
    #[verifier::spinoff_prover]
    #[verifier::rlimit(60)]
    pub fn handle_key(&mut self, key: Key, env: Env) -> (r: Command)
        requires
            old(self)@.wf(),
            env.today.valid(),
            key_ok(old(self)@, key, env),
        ensures
            final(self)@ == key_step(old(self)@, key, env).0,
            r@ == key_step(old(self)@, key, env).1,
            final(self)@.wf(),
    {
        self.status = String::new();
        let is_message = match &self.auth_state {
            AuthState::Message(_) => true,
            _ => false,
        };
        if is_message {
            if key == Key::Esc || key == Key::Enter {
                self.auth_state = AuthState::Idle;
            }
            return Command::Idle;
        }
        let mut mode = Mode::Normal;
        std::mem::swap(&mut mode, &mut self.mode);
        match mode {
            Mode::Normal => self.handle_normal_key(key, env),
            Mode::Creating(form) => self.handle_creating_key(form, key),
            Mode::Editing(form) => self.handle_editing_key(form, key),
            Mode::Settings => {
                self.mode = Mode::Settings;
                self.handle_settings_key(key, env)
            },
            Mode::JumpToDate(value, cursor) => self.handle_jump_key(value, cursor, key, env),
            Mode::ViewingEvents(evs, cursor) => self.handle_viewing_events_key(evs, cursor, key),
            other => self.handle_plain_mode_key(other, key),
        }
    }
}

impl App {
    /// Whether `handle_key` can take `key` in the present state: the date
    /// arithmetic that the key asks for stays within the supported dates,
    /// and an edited text can grow by a character.
    pub fn key_is_ok(&self, key: Key, env: Env) -> (b: bool)
        requires
            self@.wf(),
            env.today.valid(),
        ensures
            b == key_ok(self@, key, env),
    {
        if let AuthState::Message(_) = &self.auth_state {
            return true;
        }
        match &self.mode {
            Mode::Normal => self.normal_key_is_ok(key),
            Mode::Creating(f) => num_chars(f.fields[f.focus].value.as_str()) < usize::MAX,
            Mode::Editing(f) => num_chars(f.fields[f.focus].value.as_str()) < usize::MAX,
            Mode::JumpToDate(v, _) => match key {
                Key::Enter => {
                    if parse_date_ok(v.as_str(), env.today) {
                        match parse_date(v.as_str(), env.today) {
                            Some(d) => num_days_in_month_ok(d.year, d.month),
                            None => true,
                        }
                    } else {
                        false
                    }
                },
                Key::Char(_) => num_chars(v.as_str()) < usize::MAX,
                _ => true,
            },
            _ => true,
        }
    }

    /// Whether the normal mode can take `key` without leaving the supported
    /// dates.
    fn normal_key_is_ok(&self, key: Key) -> (b: bool)
        requires
            self@.wf(),
        ensures
            b == normal_key_ok(self@, key),
    {
        if self.menu_open || self.search_query.is_some() {
            return true;
        }
        match key {
            Key::Char('/') | Key::Tab | Key::BackTab | Key::Esc | Key::Char('?') | Key::Char('s')
            | Key::Char('t') | Key::Char('n') | Key::Char('e') | Key::Char('d') | Key::Char('q')
            | Key::Char('j') | Key::Char('w') => true,
            _ => {
                if self.focus != Focus::Calendar {
                    return true;
                }
                let v = self.view_date;
                match key {
                    Key::Left => checked_add_days(self.selected_date, -1).is_some(),
                    Key::Right => checked_add_days(self.selected_date, 1).is_some(),
                    Key::Up => checked_add_days(self.selected_date, -7).is_some(),
                    Key::Down => checked_add_days(self.selected_date, 7).is_some(),
                    Key::Char('[') | Key::PageUp => {
                        if v.month == 1 {
                            v.year != -262143 && num_days_in_month_ok(v.year - 1, 12)
                        } else {
                            num_days_in_month_ok(v.year, v.month - 1)
                        }
                    },
                    Key::Char(']') | Key::PageDown => {
                        if v.month == 12 {
                            v.year != 262142 && num_days_in_month_ok(v.year + 1, 1)
                        } else {
                            num_days_in_month_ok(v.year, v.month + 1)
                        }
                    },
                    _ => true,
                }
            },
        }
    }

    /// Handles a key where the present state can take it, as `handle_key`
    /// does; where it cannot, leaves the state as it is and gives none.
    pub fn try_handle_key(&mut self, key: Key, env: Env) -> (r: Option<Command>)
        requires
            old(self)@.wf(),
            env.today.valid(),
        ensures
            key_ok(old(self)@, key, env) ==> (r matches Some(c) && c@ == key_step(old(self)@, key, env).1
                && final(self)@ == key_step(old(self)@, key, env).0),
            !key_ok(old(self)@, key, env) ==> r is None && final(self)@ == old(self)@,
            final(self)@.wf(),
    {
        if self.key_is_ok(key, env) {
            Some(self.handle_key(key, env))
        } else {
            None
        }
    }
}

/// Paging to the next month and back shows the month one started from.
pub proof fn law_next_then_previous_month(a: AppView, env: Env)
    requires
        a.wf(),
        !(a.auth_state is Message),
        a.mode == ModeView::Normal,
        !a.menu_open,
        a.search_query is None,
        a.focus == Focus::Calendar,
        !(a.view_date.month == 12 && a.view_date.year == max_year()),
    ensures
        key_step(key_step(a, Key::PageDown, env).0, Key::PageUp, env).0.view_date == a.view_date,
{
    let a1 = AppView { status: Seq::empty(), ..a };
    assert(key_step(a, Key::PageDown, env) == idle(calendar_key_step(a1, Key::PageDown, env)));
    let b = key_step(a, Key::PageDown, env).0;
    assert(b.view_date == month_after(a.view_date));
    let b1 = AppView { status: Seq::empty(), ..b };
    assert(key_step(b, Key::PageUp, env) == idle(calendar_key_step(b1, Key::PageUp, env)));
    assert(month_before(month_after(a.view_date)) == first_of_month(a.view_date));
}

/// Paging to the previous month and forward again shows the month one
/// started from.
pub proof fn law_previous_then_next_month(a: AppView, env: Env)
    requires
        a.wf(),
        !(a.auth_state is Message),
        a.mode == ModeView::Normal,
        !a.menu_open,
        a.search_query is None,
        a.focus == Focus::Calendar,
        !(a.view_date.month == 1 && a.view_date.year == min_year()),
    ensures
        key_step(key_step(a, Key::PageUp, env).0, Key::PageDown, env).0.view_date == a.view_date,
{
    let a1 = AppView { status: Seq::empty(), ..a };
    assert(key_step(a, Key::PageUp, env) == idle(calendar_key_step(a1, Key::PageUp, env)));
    let b = key_step(a, Key::PageUp, env).0;
    assert(b.view_date == month_before(a.view_date));
    let b1 = AppView { status: Seq::empty(), ..b };
    assert(key_step(b, Key::PageDown, env) == idle(calendar_key_step(b1, Key::PageDown, env)));
    assert(month_after(month_before(a.view_date)) == first_of_month(a.view_date));
}

/// Moving the selection a day forward and a day back returns to the day
/// and the month one started from (for a selected day that has a following
/// day among the supported dates).
pub proof fn law_right_then_left(a: AppView, env: Env)
    requires
        a.wf(),
        !(a.auth_state is Message),
        a.mode == ModeView::Normal,
        !a.menu_open,
        a.search_query is None,
        a.focus == Focus::Calendar,
        day_number_in_range(a.selected_date.num() + 1),
    ensures
        key_step(key_step(a, Key::Right, env).0, Key::Left, env).0.selected_date == a.selected_date,
        key_step(key_step(a, Key::Right, env).0, Key::Left, env).0.view_date == a.view_date,
{
    let a1 = AppView { status: Seq::empty(), ..a };
    assert(key_step(a, Key::Right, env) == idle(calendar_key_step(a1, Key::Right, env)));
    let b = key_step(a, Key::Right, env).0;
    lemma_date_with_num_in_range(a.selected_date.num() + 1);
    let next = date_with_num(a.selected_date.num() + 1);
    lemma_date_with_num(next);
    assert(b.selected_date == next);
    let b1 = AppView { status: Seq::empty(), ..b };
    assert(key_step(b, Key::Left, env) == idle(calendar_key_step(b1, Key::Left, env)));
    lemma_date_with_num(a.selected_date);
    assert(date_with_num(next.num() - 1) == a.selected_date);
}

/// Tab moves through the menu bar, the calendar and the event list: three
/// Tabs come back to where they started, and BackTab undoes a Tab.
pub proof fn law_tab_cycles_focus(a: AppView, env: Env)
    requires
        a.wf(),
        !(a.auth_state is Message),
        a.mode == ModeView::Normal,
        !a.menu_open,
        a.search_query is None,
    ensures
        key_step(key_step(key_step(a, Key::Tab, env).0, Key::Tab, env).0, Key::Tab, env).0.focus == a.focus,
        key_step(key_step(a, Key::Tab, env).0, Key::BackTab, env).0.focus == a.focus,
{
    let b = key_step(a, Key::Tab, env).0;
    assert(b.focus == focus_forward(a.focus));
    let c = key_step(b, Key::Tab, env).0;
    assert(c.focus == focus_forward(b.focus));
    assert(key_step(c, Key::Tab, env).0.focus == focus_forward(c.focus));
    assert(key_step(b, Key::BackTab, env).0.focus == focus_backward(b.focus));
}

/// Pressing Enter three times on the theme row of the settings comes back
/// to the theme one started with.
pub proof fn law_theme_row_cycles(a: AppView, env: Env)
    requires
        a.wf(),
        !(a.auth_state is Message),
        a.mode == ModeView::Settings,
        a.settings_focus == 3,
    ensures
        key_step(key_step(key_step(a, Key::Enter, env).0, Key::Enter, env).0, Key::Enter, env).0.theme_kind
            == a.theme_kind,
{
    let b = key_step(a, Key::Enter, env).0;
    assert(b.theme_kind == a.theme_kind.spec_next() && b.mode == ModeView::Settings && b.settings_focus == 3);
    let c = key_step(b, Key::Enter, env).0;
    assert(c.theme_kind == b.theme_kind.spec_next() && c.mode == ModeView::Settings && c.settings_focus == 3);
    assert(key_step(c, Key::Enter, env).0.theme_kind == c.theme_kind.spec_next());
}

/// Moving the selection by `n` days, within the supported dates, lands on
/// the date `n` days later, shows that date's month, puts the event list's
/// cursor on its first entry, and keeps the invariant.
pub proof fn law_move_by_days(a: AppView, n: int)
    requires
        a.wf(),
        day_number_in_range(a.selected_date.num() + n),
    ensures
        moved(a, n).selected_date.valid(),
        moved(a, n).selected_date.num() == a.selected_date.num() + n,
        moved(a, n).view_date == first_of_month(moved(a, n).selected_date),
        moved(a, n).event_focus == 0,
        moved(a, n).wf(),
{
    lemma_date_with_num_in_range(a.selected_date.num() + n);
}

/// In the event list, Up moves the highlight one row up (staying on the
/// first row) and Down one row down (staying on the last); Up undoes a Down
/// that moved the highlight.
pub proof fn law_event_list_up_down(a: AppView, env: Env)
    requires
        a.wf(),
        !(a.auth_state is Message),
        a.mode == ModeView::Normal,
        !a.menu_open,
        a.search_query is None,
        a.focus == Focus::EventList,
        a.events.len() > 0,
    ensures
        key_step(a, Key::Up, env).0.event_focus == (if a.event_focus > 0 {
            a.event_focus - 1
        } else {
            0int
        }),
        key_step(a, Key::Down, env).0.event_focus == (if a.event_focus + 1 < a.events.len() {
            a.event_focus + 1int
        } else {
            a.events.len() - 1int
        }),
        a.event_focus + 1 < a.events.len() ==> key_step(key_step(a, Key::Down, env).0, Key::Up, env).0.event_focus
            == a.event_focus,
{
    let b = key_step(a, Key::Down, env).0;
    assert(b.events == a.events && b.focus == a.focus && b.mode == a.mode && !b.menu_open);
}

/// Opening the new-event form, with the key `n` or the menu's New Event,
/// puts the selected day, written `%Y-%m-%d`, into its Date field, whatever
/// day today is; the title starts empty, the times read 09:00 and 10:00,
/// and the title has the focus.
pub proof fn law_new_event_form_on_selected_day(a: AppView, env: Env)
    requires
        a.wf(),
        !(a.auth_state is Message),
        a.mode == ModeView::Normal,
        !a.menu_open,
        a.search_query is None,
    ensures
        action_step(a, MenuAction::NewEvent, env).0.mode matches ModeView::Creating(f) && f.fields.len() == 4
            && f.fields[0].value.len() == 0 && f.fields[1].value == ymd_text(a.selected_date)
            && f.fields[2].value == "09:00"@ && f.fields[3].value == "10:00"@ && f.focus == 0,
        key_step(a, Key::Char('n'), env).0.mode matches ModeView::Creating(f) && f.fields.len() == 4
            && f.fields[0].value.len() == 0 && f.fields[1].value == ymd_text(a.selected_date)
            && f.fields[2].value == "09:00"@ && f.fields[3].value == "10:00"@ && f.focus == 0,
{
}

} // verus!
