//! What the screen shows, worked out from the state: the cells of the month
//! grid, how each day looks, the texts of the event list and of the status
//! line. Drawing them is left to the terminal library.
use vstd::prelude::*;
use crate::app::{day_events, on_day, App, AppView, AuthView, Focus, ModeView};
use crate::date::{
    date_le, days_in_month, format_date, format_hm, from_ymd_opt, hm_text, month_name,
    num_days_in_month_defined, pred_opt, two_digits, weekday_from_monday, weekday_short_name, Date,
    DateTime,
};
use crate::models::{events_view, CalendarEvent, EventView};
use crate::text::{decimal_string, owned, push_decimal, push_str, string_push};

verus! {

// ───────────────────────── the month grid ─────────────────────────

/// How many week rows a month takes when its first day stands in column
/// `start` and it has `last` days.
pub open spec fn grid_rows(start: int, last: int) -> int {
    (start + last + 6) / 7
}

/// The day of the month in row `w`, column `c` of the grid, if any.
pub open spec fn grid_cell(start: int, last: int, w: int, c: int) -> Option<u32> {
    let k = 7 * w + c - start + 1;
    if 1 <= k <= last {
        Some(k as u32)
    } else {
        None
    }
}

/// The rows of a month's grid: seven cells each, holding the day of the
/// month or nothing; the first day stands in column `start_dow`, and rows
/// follow until the last day `last_day` is placed.
pub fn month_cells(start_dow: usize, last_day: u32) -> (r: Vec<Vec<Option<u32>>>)
    requires
        start_dow < 7,
        1 <= last_day <= 31,
    ensures
        r@.len() == grid_rows(start_dow as int, last_day as int),
        forall|w: int| 0 <= w < r@.len() ==> (#[trigger] r@[w])@.len() == 7,
        forall|w: int, c: int|
            0 <= w < r@.len() && 0 <= c < 7 ==> #[trigger] r@[w]@[c] == grid_cell(
                start_dow as int,
                last_day as int,
                w,
                c,
            ),
{
    let mut rows: Vec<Vec<Option<u32>>> = Vec::new();
    let mut day: u32 = 1;
    let mut week: usize = 0;
    while day <= last_day
        invariant
            start_dow < 7,
            1 <= last_day <= 31,
            week <= 6,
            rows@.len() == week,
            week == 0 ==> day == 1,
            week > 0 && day <= last_day ==> day == 7 * week - start_dow + 1,
            day <= last_day + 1,
            week > 0 ==> week <= grid_rows(start_dow as int, last_day as int),
            day <= last_day ==> week < grid_rows(start_dow as int, last_day as int),
            day > last_day ==> week == grid_rows(start_dow as int, last_day as int),
            forall|w: int| 0 <= w < rows@.len() ==> (#[trigger] rows@[w])@.len() == 7,
            forall|w: int, c: int|
                0 <= w < rows@.len() && 0 <= c < 7 ==> #[trigger] rows@[w]@[c] == grid_cell(
                    start_dow as int,
                    last_day as int,
                    w,
                    c,
                ),
        decreases last_day + 1 - day,
    {
        let mut row: Vec<Option<u32>> = Vec::new();
        let mut dow: usize = 0;
        while dow < 7
            invariant
                start_dow < 7,
                1 <= last_day <= 31,
                week <= 6,
                dow <= 7,
                row@.len() == dow,
                day >= 1,
                day <= last_day + 1,
                day as int == if 7 * week + dow - start_dow + 1 < 1 {
                    1
                } else if 7 * week + dow - start_dow + 1 > last_day + 1 {
                    last_day + 1
                } else {
                    7 * week + dow - start_dow + 1
                },
                forall|c: int| 0 <= c < dow ==> row@[c] == grid_cell(
                    start_dow as int,
                    last_day as int,
                    week as int,
                    c,
                ),
            decreases 7 - dow,
        {
            if (week == 0 && dow < start_dow) || day > last_day {
                row.push(None);
            } else {
                row.push(Some(day));
                day = day + 1;
            }
            dow = dow + 1;
        }
        rows.push(row);
        week = week + 1;
    }
    rows
}

/// Every day of the month stands in exactly one cell of its grid: in row
/// `(start + d - 1) / 7`, column `(start + d - 1) % 7`.
pub proof fn law_each_day_in_one_cell(start: int, last: int, d: int, w: int, c: int)
    requires
        0 <= start < 7,
        1 <= last <= 31,
        1 <= d <= last,
        0 <= w < grid_rows(start, last),
        0 <= c < 7,
    ensures
        grid_cell(start, last, w, c) == Some(d as u32) <==> (w == (start + d - 1) / 7 && c == (start + d
            - 1) % 7),
        0 <= (start + d - 1) / 7 < grid_rows(start, last),
{
}

/// `{:>2}` of a day of the month: the digits, after a space when there is
/// only one.
pub open spec fn right_aligned2(n: nat) -> Seq<char> {
    if n < 10 {
        seq![' '] + decimal_string(n)
    } else {
        decimal_string(n)
    }
}

/// The text of a day's cell: five characters, the day right-aligned and a
/// dot after it when an event falls on it.
pub open spec fn day_cell_view(day: nat, dot: bool) -> Seq<char> {
    seq![' '] + right_aligned2(day) + (if dot {
        seq!['·']
    } else {
        seq![' ']
    }) + seq![' ']
}

/// The text of a day's cell.
pub fn day_cell_text(day: u32, dot: bool) -> (r: String)
    ensures
        r@ == day_cell_view(day as nat, dot),
{
    let mut s = String::new();
    string_push(&mut s, ' ');
    if day < 10 {
        string_push(&mut s, ' ');
    }
    push_decimal(&mut s, day as u64);
    string_push(&mut s, if dot { '·' } else { ' ' });
    string_push(&mut s, ' ');
    proof {
        if day < 10 {
            assert(s@ =~= day_cell_view(day as nat, dot));
        } else {
            assert(s@ =~= day_cell_view(day as nat, dot));
        }
    }
    s
}

/// Whether any of the events takes place on `date`.
pub open spec fn any_on_day(s: Seq<EventView>, date: Date) -> bool {
    exists|i: int| 0 <= i < s.len() && on_day(#[trigger] s[i], date)
}

/// Whether any of `events` takes place on `date` (the dot of a day's cell).
pub fn has_event_on(date: Date, events: &Vec<CalendarEvent>) -> (b: bool)
    ensures
        b == any_on_day(events_view(events@), date),
{
    let ghost s = events_view(events@);
    let mut i: usize = 0;
    while i < events.len()
        invariant
            i <= events@.len(),
            s == events_view(events@),
            forall|j: int| 0 <= j < i ==> !on_day(#[trigger] s[j], date),
        decreases events@.len() - i,
    {
        let e = &events[i];
        assert(s[i as int] == e@);
        let hit = match (e.start, e.end) {
            (Some(st), Some(en)) => date_le(st.date, date) && date_le(date, en.date),
            (Some(st), None) => st.date == date,
            (None, _) => false,
        };
        if hit {
            return true;
        }
        i = i + 1;
    }
    false
}

/// The events of a list that fall on a day are there exactly when one of
/// the list's events takes place on that day: the grid shows a dot on a day
/// just when the event list would list something for it.
pub proof fn law_dot_iff_listed(s: Seq<EventView>, date: Date)
    ensures
        any_on_day(s, date) <==> day_events(s, date).len() > 0,
    decreases s.len(),
{
    if s.len() > 0 {
        law_dot_iff_listed(s.drop_last(), date);
        if any_on_day(s.drop_last(), date) {
            let i = choose|i: int| 0 <= i < s.drop_last().len() && on_day(#[trigger] s.drop_last()[i], date);
            assert(s[i] == s.drop_last()[i]);
        }
        if any_on_day(s, date) && !on_day(s.last(), date) {
            let i = choose|i: int| 0 <= i < s.len() && on_day(#[trigger] s[i], date);
            assert(i != s.len() - 1);
            assert(s.drop_last()[i] == s[i]);
        }
        if on_day(s.last(), date) {
            assert(on_day(s[s.len() - 1], date));
        }
    }
}

/// The last day of a month.
pub fn month_last_day(year: i32, month: u32) -> (r: Date)
    requires
        1 <= month <= 12,
        num_days_in_month_defined(year as int, month as int),
    ensures
        r == (Date { year, month, day: days_in_month(year as int, month as int) as u32 }),
{
    let next = if month == 12 {
        from_ymd_opt(year + 1, 1, 1)
    } else {
        from_ymd_opt(year, month + 1, 1)
    };
    match next {
        Some(d) => match pred_opt(d) {
            Some(p) => p,
            None => {
                assert(false);
                d
            },
        },
        None => {
            assert(false);
            Date { year, month, day: 1 }
        },
    }
}

/// The column of the grid that holds the first day of a month: its
/// weekday counted from the week's first day (Monday when
/// `first_day_of_week` is 0, Sunday otherwise).
pub fn first_column(first: Date, first_day_of_week: u8) -> (r: usize)
    requires
        first.valid(),
    ensures
        r as int == if first_day_of_week == 0 {
            first.weekday_from_monday()
        } else {
            first.weekday_from_sunday()
        },
        r < 7,
{
    if first_day_of_week == 0 {
        weekday_from_monday(first) as usize
    } else {
        crate::date::weekday_from_sunday(first) as usize
    }
}

/// What the event list shows when it has no rows to show: that events are
/// loading, or that the day has none.
pub open spec fn placeholder_of(a: AppView) -> Seq<char> {
    if a.loading || !a.events_loaded {
        " Loading…"@
    } else {
        " No events"@
    }
}

impl App {
    /// The text of an event list without rows.
    pub fn list_placeholder(&self) -> (r: &'static str)
        ensures
            r@ == placeholder_of(self@),
    {
        if self.loading {
            " Loading…"
        } else if self.events_loaded {
            " No events"
        } else {
            " Loading…"
        }
    }
}

// ───────────────────────── how a day looks ─────────────────────────

/// How a day's cell is drawn: the selected day stands out, today is marked
/// (weekends keep their own color), weekends are tinted.
#[derive(Clone, Copy, Debug, PartialEq, Eq, Structural)]
pub enum DayLook {
    Selected,
    Today { weekend: bool },
    Weekend,
    Plain,
}

/// Whether a date falls on a Saturday or a Sunday.
pub open spec fn on_weekend(d: Date) -> bool {
    d.weekday_from_monday() >= 5
}

/// How the cell of `date` looks, given the selected day and today.
pub open spec fn day_look_of(date: Date, selected: Date, today: Date) -> DayLook {
    if date == selected {
        DayLook::Selected
    } else if date == today {
        DayLook::Today { weekend: on_weekend(date) }
    } else if on_weekend(date) {
        DayLook::Weekend
    } else {
        DayLook::Plain
    }
}

/// How the cell of `date` looks.
pub fn day_look(date: Date, selected: Date, today: Date) -> (r: DayLook)
    requires
        date.valid(),
    ensures
        r == day_look_of(date, selected, today),
{
    let weekend = weekday_from_monday(date) >= 5;
    if date == selected {
        DayLook::Selected
    } else if date == today {
        DayLook::Today { weekend }
    } else if weekend {
        DayLook::Weekend
    } else {
        DayLook::Plain
    }
}

/// The short name of the `k`-th day of a week that starts on Monday.
pub open spec fn weekday_abbrev(k: int) -> Seq<char> {
    if k == 0 {
        "Mo"@
    } else if k == 1 {
        "Tu"@
    } else if k == 2 {
        "We"@
    } else if k == 3 {
        "Th"@
    } else if k == 4 {
        "Fr"@
    } else if k == 5 {
        "Sa"@
    } else {
        "Su"@
    }
}

/// The heading of column `i` of the grid: weeks start on Monday when
/// `first_day_of_week` is 0, on Sunday otherwise.
pub open spec fn column_heading(first_day_of_week: u8, i: int) -> Seq<char> {
    if first_day_of_week == 0 {
        weekday_abbrev(i)
    } else {
        weekday_abbrev((i + 6) % 7)
    }
}

/// Whether column `i` of the grid holds Saturdays or Sundays.
pub open spec fn weekend_column(first_day_of_week: u8, i: int) -> bool {
    if first_day_of_week == 0 {
        i >= 5
    } else {
        i == 0 || i == 6
    }
}

/// The headings of the grid's columns.
pub fn column_headings(first_day_of_week: u8) -> (r: Vec<&'static str>)
    ensures
        r@.len() == 7,
        forall|i: int| 0 <= i < 7 ==> (#[trigger] r@[i])@ == column_heading(first_day_of_week, i),
{
    let r = if first_day_of_week == 0 {
        vec!["Mo", "Tu", "We", "Th", "Fr", "Sa", "Su"]
    } else {
        vec!["Su", "Mo", "Tu", "We", "Th", "Fr", "Sa"]
    };
    assert forall|i: int| 0 <= i < 7 implies (#[trigger] r@[i])@ == column_heading(first_day_of_week, i) by {
        if first_day_of_week != 0 {
            assert((i + 6) % 7 == if i == 0 { 6 } else { i - 1 });
        }
    }
    r
}

/// Whether column `i` of the grid holds Saturdays or Sundays.
pub fn is_weekend_column(first_day_of_week: u8, i: usize) -> (b: bool)
    ensures
        b == weekend_column(first_day_of_week, i as int),
{
    if first_day_of_week == 0 {
        i >= 5
    } else {
        i == 0 || i == 6
    }
}

/// The columns that `weekend_column` marks hold exactly the Saturdays and
/// Sundays of the grid: a day in column `i` of a grid whose first column
/// falls on `first` is on a weekend just when the column is a weekend column.
pub proof fn law_weekend_columns(first_day_of_week: u8, i: int, d: Date)
    requires
        0 <= i < 7,
        d.weekday_from_monday() == if first_day_of_week == 0 { i } else { (i + 6) % 7 },
    ensures
        on_weekend(d) <==> weekend_column(first_day_of_week, i),
{
}

// ───────────────────────── the status line ─────────────────────────

/// The help line for the state when no status message is shown.
pub open spec fn key_hints(a: AppView) -> Seq<char> {
    if a.search_query is Some {
        "[Esc] Cancel  [Enter] Jump to event  [Up/Down] Navigate results  Type to search"@
    } else {
        match a.mode {
            ModeView::Normal => if a.menu_open {
                "[Enter] Select  [Esc] Cancel"@
            } else if a.focus == Focus::MenuBar {
                "[Left/Right] Navigate menus  [Down/Enter] Open  [Tab] Cycle focus"@
            } else if a.focus == Focus::Calendar {
                "[/] Search  [Arrows] Days  [Enter] Options  [Esc] Quit"@
            } else {
                "[Up/Down] Select  [Enter] Options  [Tab] Focus"@
            },
            ModeView::Creating(_) | ModeView::Editing(_) => "[Tab] Next  [Enter] Save  [Esc] Cancel"@,
            ModeView::Deleting => "[Enter] Confirm  [Esc] Cancel"@,
            ModeView::Help | ModeView::Setup | ModeView::ViewingDetail(_) => "[Esc] Close"@,
            ModeView::Settings => "[Enter] Execute  [Esc] Back"@,
            ModeView::ConfirmingQuit => "[Enter] Quit  [Esc] Cancel"@,
            ModeView::JumpToDate(_, _) => "[Enter] Jump  [Esc] Cancel"@,
            ModeView::ViewingEvents(_, _) => "[Up/Down] Select  [Enter] Details  [Esc] Close"@,
        }
    }
}

/// The status line: the status message when there is one, else the keys
/// that the state answers to.
pub open spec fn status_view(a: AppView) -> Seq<char> {
    if a.status.len() > 0 {
        a.status
    } else {
        key_hints(a)
    }
}

impl App {
    /// The text of the status line.
    pub fn status_text(&self) -> (r: String)
        ensures
            r@ == status_view(self@),
    {
        if !self.status.as_str().is_empty() {
            return self.status.clone();
        }
        if self.search_query.is_some() {
            return owned("[Esc] Cancel  [Enter] Jump to event  [Up/Down] Navigate results  Type to search");
        }
        let t = match &self.mode {
            crate::app::Mode::Normal => if self.menu_open {
                "[Enter] Select  [Esc] Cancel"
            } else if self.focus == Focus::MenuBar {
                "[Left/Right] Navigate menus  [Down/Enter] Open  [Tab] Cycle focus"
            } else if self.focus == Focus::Calendar {
                "[/] Search  [Arrows] Days  [Enter] Options  [Esc] Quit"
            } else {
                "[Up/Down] Select  [Enter] Options  [Tab] Focus"
            },
            crate::app::Mode::Creating(_) | crate::app::Mode::Editing(_) => "[Tab] Next  [Enter] Save  [Esc] Cancel",
            crate::app::Mode::Deleting => "[Enter] Confirm  [Esc] Cancel",
            crate::app::Mode::Help | crate::app::Mode::Setup | crate::app::Mode::ViewingDetail(_) => "[Esc] Close",
            crate::app::Mode::Settings => "[Enter] Execute  [Esc] Back",
            crate::app::Mode::ConfirmingQuit => "[Enter] Quit  [Esc] Cancel",
            crate::app::Mode::JumpToDate(_, _) => "[Enter] Jump  [Esc] Cancel",
            crate::app::Mode::ViewingEvents(_, _) => "[Up/Down] Select  [Enter] Details  [Esc] Close",
        };
        owned(t)
    }
}

// ───────────────────────── the event list ─────────────────────────

/// The time column of an event's row: start and end times, the start time
/// and a dash when it has no end, blanks when it has no start.
pub open spec fn time_column(e: EventView) -> Seq<char> {
    match (e.start, e.end) {
        (Some(s), Some(f)) => hm_text(s.time) + "-"@ + hm_text(f.time),
        (Some(s), None) => hm_text(s.time) + "–"@,
        (None, _) => "      "@,
    }
}

/// The time column of an event's row.
pub fn event_time_text(e: &CalendarEvent) -> (r: String)
    requires
        e@.start matches Some(s) ==> s.valid(),
        e@.end matches Some(f) ==> f.valid(),
    ensures
        r@ == time_column(e@),
{
    match (e.start, e.end) {
        (Some(s), Some(f)) => {
            let mut r = format_hm(s.time);
            push_str(&mut r, "-");
            let t = format_hm(f.time);
            push_str(&mut r, t.as_str());
            r
        },
        (Some(s), None) => {
            let mut r = format_hm(s.time);
            push_str(&mut r, "–");
            r
        },
        (None, _) => owned("      "),
    }
}

/// How many characters of a description a row shows.
pub open spec fn description_limit() -> nat {
    30
}

/// The description part of an event's row: nothing for a missing or empty
/// description; else a space and its first 30 characters, with an ellipsis
/// when the description takes more than 30 bytes.
pub open spec fn description_column(d: Option<Seq<char>>) -> Seq<char> {
    match d {
        Some(s) if s.len() > 0 => seq![' '] + s.take(
            if s.len() < description_limit() { s.len() as int } else { description_limit() as int },
        ) + (if crate::text::utf8_len(s) > description_limit() {
            "…"@
        } else {
            Seq::empty()
        }),
        _ => Seq::empty(),
    }
}

/// Whether the UTF-8 encoding of `cs` takes more than `limit` bytes.
fn utf8_len_exceeds(cs: &[char], limit: usize) -> (b: bool)
    ensures
        b == (crate::text::utf8_len(cs@) > limit),
{
    let mut total: usize = 0;
    let mut i: usize = 0;
    while i < cs.len()
        invariant
            i <= cs@.len(),
            total == crate::text::utf8_len(cs@.take(i as int)),
            total <= limit,
        decreases cs@.len() - i,
    {
        assert(cs@.take(i + 1).drop_last() == cs@.take(i as int));
        let w = crate::text::len_utf8(cs[i]);
        if w > limit - total {
            proof {
                crate::text::lemma_utf8_len_prefix_le(cs@, i + 1);
            }
            return true;
        }
        total = total + w;
        i = i + 1;
    }
    assert(cs@.take(cs@.len() as int) == cs@);
    false
}

/// The description part of an event's row.
pub fn description_text(d: &Option<String>) -> (r: String)
    ensures
        r@ == description_column(crate::text::opt_view(*d)),
{
    match d {
        Some(s) => {
            let cs = crate::text::chars_of(s.as_str());
            if cs.len() == 0 {
                return String::new();
            }
            let n = if cs.len() < 30 { cs.len() } else { 30 };
            let head = crate::text::chars_to(cs.as_slice(), n);
            let mut r = owned(" ");
            proof {
                reveal_strlit(" ");
            }
            crate::text::push_chars(&mut r, head.as_slice());
            if utf8_len_exceeds(cs.as_slice(), 30) {
                push_str(&mut r, "…");
                assert(r@ =~= description_column(crate::text::opt_view(*d)));
            } else {
                assert(r@ =~= description_column(crate::text::opt_view(*d)));
            }
            r
        },
        None => String::new(),
    }
}

/// The rows of a list that shows `count` entries in `available` lines with
/// the highlighted entry `focus`: the first row shown and, when rows are
/// left below, how many.
pub open spec fn list_window_of(focus: nat, count: nat, available: nat) -> (nat, Option<nat>) {
    if count <= available {
        (0, None)
    } else {
        let half = ((available - 1) as nat) / 2;
        let scroll: nat = if focus >= half { (focus - half) as nat } else { 0 };
        (scroll, if scroll + available < count { Some((count - scroll - available) as nat) } else { None })
    }
}

/// The first row to show, and how many rows are left below the window.
pub fn list_window(focus: usize, count: usize, available: u16) -> (r: (usize, Option<usize>))
    requires
        count > available as usize ==> available > 0,
    ensures
        (r.0 as nat, match r.1 {
            Some(m) => Some(m as nat),
            None => None,
        }) == list_window_of(focus as nat, count as nat, available as nat),
{
    let avail = available as usize;
    if count <= avail {
        return (0, None);
    }
    let half = (avail - 1) / 2;
    let scroll = if focus >= half { focus - half } else { 0 };
    if scroll < count - avail {
        (scroll, Some(count - scroll - avail))
    } else {
        (scroll, None)
    }
}

// ───────────────────────── the sign-in dialog ─────────────────────────

/// What a sign-in message reports, which decides its color and hint.
#[derive(Clone, Copy, Debug, PartialEq, Eq, Structural)]
pub enum AuthMessageKind {
    Waiting,
    Success,
    Failure,
}

/// The kind of a sign-in message: a check mark starts a success, a cross a
/// failure, anything else is a wait.
pub open spec fn auth_message_kind_of(m: Seq<char>) -> AuthMessageKind {
    if m.len() > 0 && m[0] == '✓' {
        AuthMessageKind::Success
    } else if m.len() > 0 && m[0] == '✗' {
        AuthMessageKind::Failure
    } else {
        AuthMessageKind::Waiting
    }
}

/// The kind of a sign-in message.
pub fn auth_message_kind(m: &str) -> (r: AuthMessageKind)
    ensures
        r == auth_message_kind_of(m@),
{
    let cs = crate::text::chars_of(m);
    if cs.len() > 0 && cs[0] == '✓' {
        AuthMessageKind::Success
    } else if cs.len() > 0 && cs[0] == '✗' {
        AuthMessageKind::Failure
    } else {
        AuthMessageKind::Waiting
    }
}

/// The text of the sign-in dialog while the sign-in waits for the browser.
pub open spec fn waiting_text() -> Seq<char> {
    "Waiting for authorization..."@
}

/// The dialog's message for a sign-in state, if it shows one.
pub open spec fn auth_dialog_of(s: AuthView) -> Option<Seq<char>> {
    match s {
        AuthView::Idle => None,
        AuthView::Listening(_) => Some(waiting_text()),
        AuthView::Message(m) => Some(m),
    }
}

impl App {
    /// The message of the sign-in dialog, if one is shown.
    pub fn auth_dialog_message(&self) -> (r: Option<String>)
        ensures
            crate::text::opt_view(r) == auth_dialog_of(self@.auth_state),
    {
        match &self.auth_state {
            crate::app::AuthState::Idle => None,
            crate::app::AuthState::Listening { .. } => Some(owned("Waiting for authorization...")),
            crate::app::AuthState::Message(m) => Some(m.clone()),
        }
    }
}

// ───────────────────────── right-to-left text ─────────────────────────

/// What `unicode_bidi` gives for a text: the first paragraph's line in
/// display order, or none when the text has no paragraph.
pub uninterp spec fn bidi_first_line(text: Seq<char>) -> Option<Seq<char>>;

/// `BidiInfo::new(text, None)`, then `reorder_line` over the whole first
/// paragraph: that line in display order; none when there is no paragraph.
#[verifier::external_body]
fn bidi_reorder_first(text: &str) -> (r: Option<String>)
    ensures
        crate::text::opt_view(r) == bidi_first_line(text@),
{
    let info = unicode_bidi::BidiInfo::new(text, None);
    match info.paragraphs.first() {
        Some(para) => Some(info.reorder_line(para, para.range.clone()).into_owned()),
        None => None,
    }
}

/// A text as the terminal should draw it: right-to-left runs reversed into
/// display order; an empty text, or one without a paragraph, as it is.
pub open spec fn bidi_view(t: Seq<char>) -> Seq<char> {
    if t.len() == 0 {
        t
    } else {
        match bidi_first_line(t) {
            Some(x) => x,
            None => t,
        }
    }
}

/// A text in display order.
pub fn bidi(text: &str) -> (r: String)
    ensures
        r@ == bidi_view(text@),
{
    if text.is_empty() {
        return owned(text);
    }
    match bidi_reorder_first(text) {
        Some(x) => x,
        None => owned(text),
    }
}

// ───────────────────────── titles and prompts ─────────────────────────

/// The count shown in the event list's title: nothing for an empty list,
/// else the number in brackets.
pub open spec fn count_label(n: nat) -> Seq<char> {
    if n == 0 {
        Seq::empty()
    } else {
        "("@ + decimal_string(n) + ")"@
    }
}

/// The event list's title: the search text while searching, else the
/// selected day; with the number of events listed.
pub open spec fn list_title_of(a: AppView) -> Seq<char> {
    match a.search_query {
        Some(q) => " Search: \""@ + bidi_view(q) + "\" "@ + count_label(a.events.len()) + " "@,
        None => " "@ + weekday_short_name(a.selected_date.weekday_from_monday()) + ", "@ + month_name(
            a.selected_date.month as int,
        ).take(3) + seq![' '] + two_digits(a.selected_date.day as int) + " "@ + count_label(a.events.len())
            + " "@,
    }
}

/// The search bar's text: the search text in display order, or a blank.
pub open spec fn search_bar_of(a: AppView) -> Seq<char> {
    match a.search_query {
        Some(q) if q.len() > 0 => bidi_view(q),
        _ => " "@,
    }
}

/// The question of the delete dialog, naming the highlighted event.
pub open spec fn delete_prompt_of(a: AppView) -> Seq<char> {
    " Delete \""@ + match a.selected_event() {
        Some(e) => e.summary,
        None => "this event"@,
    } + "\"?"@
}

impl App {
    /// The title of the event list.
    pub fn list_title(&self) -> (r: String)
        requires
            self@.wf(),
        ensures
            r@ == list_title_of(self@),
    {
        let mut count = String::new();
        if self.events.len() > 0 {
            push_str(&mut count, "(");
            push_decimal(&mut count, self.events.len() as u64);
            push_str(&mut count, ")");
        }
        proof {
            assert(count@ == count_label(self@.events.len()));
        }
        let mut r = String::new();
        match &self.search_query {
            Some(q) => {
                push_str(&mut r, " Search: \"");
                let b = bidi(q.as_str());
                push_str(&mut r, b.as_str());
                push_str(&mut r, "\" ");
            },
            None => {
                push_str(&mut r, " ");
                let day_name = format_date(self.selected_date, "%a");
                push_str(&mut r, day_name.as_str());
                push_str(&mut r, ", ");
                let md = format_date(self.selected_date, "%b %d");
                push_str(&mut r, md.as_str());
                push_str(&mut r, " ");
            },
        }
        push_str(&mut r, count.as_str());
        push_str(&mut r, " ");
        r
    }

    /// The text of the search bar.
    pub fn search_bar_text(&self) -> (r: String)
        ensures
            r@ == search_bar_of(self@),
    {
        match &self.search_query {
            Some(q) => if q.as_str().is_empty() {
                owned(" ")
            } else {
                bidi(q.as_str())
            },
            None => owned(" "),
        }
    }

    /// The question of the delete dialog.
    pub fn delete_prompt(&self) -> (r: String)
        ensures
            r@ == delete_prompt_of(self@),
    {
        let mut r = owned(" Delete \"");
        match self.selected_event() {
            Some(e) => push_str(&mut r, e.summary.as_str()),
            None => push_str(&mut r, "this event"),
        }
        push_str(&mut r, "\"?");
        r
    }
}

/// How far the month heading is indented to stand centered over the
/// 35 columns of the grid, for a heading `width` bytes wide (half the free
/// room, rounded up).
pub open spec fn heading_indent(width: nat) -> nat {
    if width < 35 {
        ((35 - width + 1) / 2) as nat
    } else {
        0
    }
}

/// The month heading of the grid (` January 2026 `) and its indent: the
/// arrows on both sides take five bytes each.
pub fn month_heading(view_date: Date) -> (r: (usize, String))
    requires
        view_date.valid(),
    ensures
        r.1@ == " "@ + month_name(view_date.month as int) + " "@ + crate::text::signed_decimal_string(
            view_date.year as int,
        ) + " "@,
        r.0 == heading_indent(10 + crate::text::utf8_len(r.1@)),
{
    let mut m = owned(" ");
    let name = format_date(view_date, "%B");
    push_str(&mut m, name.as_str());
    push_str(&mut m, " ");
    crate::text::push_signed_decimal(&mut m, view_date.year as i64);
    push_str(&mut m, " ");
    let cs = crate::text::chars_of(m.as_str());
    proof {
        assert(cs@.take(cs@.len() as int) == cs@);
    }
    let w = if utf8_len_exceeds(cs.as_slice(), 24) {
        35
    } else {
        let b = crate::text::char_to_byte(m.as_str(), cs.len());
        assert(b <= 24);
        10 + b
    };
    let indent = if w < 35 { (35 - w + 1) / 2 } else { 0 };
    (indent, m)
}

// ───────────────────────── the parts of the status line ─────────────────────────

/// The pieces of `s` between double spaces, from position `i` on, when
/// `cur` has been collected since the last double space (as `str::split`
/// with `"  "` cuts them: each double space is found from the left).
pub open spec fn split_from(s: Seq<char>, i: int, cur: Seq<char>) -> Seq<Seq<char>>
    decreases s.len() - i,
{
    if i >= s.len() {
        seq![cur]
    } else if i + 1 < s.len() && s[i] == ' ' && s[i + 1] == ' ' {
        seq![cur] + split_from(s, i + 2, Seq::empty())
    } else {
        split_from(s, i + 1, cur.push(s[i]))
    }
}

/// The pieces of a text between double spaces.
pub open spec fn double_space_pieces(s: Seq<char>) -> Seq<Seq<char>> {
    split_from(s, 0, Seq::empty())
}

/// A part of the status line: a key in brackets and the text after it, or
/// plain text.
pub struct StatusSegment {
    pub key: Option<String>,
    pub text: String,
}

/// A part of the status line, with its texts as characters.
pub struct SegmentView {
    pub key: Option<Seq<char>>,
    pub text: Seq<char>,
}

impl View for StatusSegment {
    type V = SegmentView;

    open spec fn view(&self) -> SegmentView {
        SegmentView { key: crate::text::opt_view(self.key), text: self.text@ }
    }
}

/// The position of the first `]` in `p` at or after `from`, or the length
/// of `p` when there is none.
pub open spec fn closing_bracket(p: Seq<char>, from: int) -> int
    decreases p.len() - from,
{
    if from >= p.len() {
        p.len() as int
    } else if p[from] == ']' {
        from
    } else {
        closing_bracket(p, from + 1)
    }
}

/// The part that a non-empty piece stands for: a piece that starts with `[`
/// is a key up to the first `]` and the text after it (none when the piece
/// has no `]`); any other piece is plain text.
pub open spec fn segment_of(p: Seq<char>) -> Option<SegmentView> {
    if p.len() > 0 && p[0] == '[' {
        let close = closing_bracket(p, 1);
        if close < p.len() {
            Some(SegmentView { key: Some(p.subrange(1, close)), text: p.subrange(close + 1, p.len() as int) })
        } else {
            None
        }
    } else {
        Some(SegmentView { key: None, text: p })
    }
}

/// The parts of the non-empty pieces, in order; none when a piece that
/// starts with `[` has no `]`.
pub open spec fn segments_of(pieces: Seq<Seq<char>>) -> Option<Seq<SegmentView>>
    decreases pieces.len(),
{
    if pieces.len() == 0 {
        Some(Seq::empty())
    } else if pieces[0].len() == 0 {
        segments_of(pieces.drop_first())
    } else {
        match segment_of(pieces[0]) {
            None => None,
            Some(g) => match segments_of(pieces.drop_first()) {
                Some(rest) => Some(seq![g] + rest),
                None => None,
            },
        }
    }
}

/// The pieces of a text between double spaces.
fn split_double_space(s: &[char]) -> (r: Vec<Vec<char>>)
    ensures
        r@.map_values(|v: Vec<char>| v@) == double_space_pieces(s@),
{
    let mut done: Vec<Vec<char>> = Vec::new();
    let mut cur: Vec<char> = Vec::new();
    let mut i: usize = 0;
    while i < s.len()
        invariant
            i <= s@.len(),
            done@.map_values(|v: Vec<char>| v@) + split_from(s@, i as int, cur@) == double_space_pieces(s@),
        decreases s@.len() - i,
    {
        if i + 1 < s.len() && s[i] == ' ' && s[i + 1] == ' ' {
            let piece = cur;
            cur = Vec::new();
            let ghost before = done@.map_values(|v: Vec<char>| v@);
            let ghost pv = piece@;
            done.push(piece);
            proof {
                assert(done@.map_values(|v: Vec<char>| v@) =~= before.push(pv));
                assert(split_from(s@, i as int, pv) == seq![pv] + split_from(s@, i + 2, Seq::empty()));
                assert(before.push(pv) + split_from(s@, i + 2, cur@) =~= before + (seq![pv] + split_from(s@, i + 2, Seq::empty())));
            }
            i = i + 2;
        } else {
            let ghost old_cur = cur@;
            cur.push(s[i]);
            proof {
                assert(split_from(s@, i as int, old_cur) == split_from(s@, i + 1, cur@));
            }
            i = i + 1;
        }
    }
    let ghost before = done@.map_values(|v: Vec<char>| v@);
    let ghost cv = cur@;
    done.push(cur);
    proof {
        assert(done@.map_values(|v: Vec<char>| v@) =~= before.push(cv));
        assert(split_from(s@, i as int, cv) == seq![cv]);
        assert(before.push(cv) =~= before + seq![cv]);
    }
    done
}

/// The part that a non-empty piece stands for, or none for a piece that
/// starts with `[` and has no `]`.
fn segment(p: &Vec<char>) -> (r: Option<StatusSegment>)
    requires
        p@.len() > 0,
    ensures
        match r {
            Some(g) => segment_of(p@) == Some(g@),
            None => segment_of(p@) is None,
        },
{
    if p[0] == '[' {
        let mut close: usize = 1;
        while close < p.len() && p[close] != ']'
            invariant
                1 <= close <= p@.len(),
                closing_bracket(p@, 1) == closing_bracket(p@, close as int),
            decreases p@.len() - close,
        {
            close = close + 1;
        }
        if close < p.len() {
            let key_chars = crate::text::chars_to(p.as_slice(), close);
            let key_tail = crate::text::chars_from(key_chars.as_slice(), 1);
            let rest = crate::text::chars_from(p.as_slice(), close + 1);
            proof {
                assert(key_tail@ =~= p@.subrange(1, close as int));
            }
            Some(StatusSegment {
                key: Some(crate::text::string_of(key_tail.as_slice())),
                text: crate::text::string_of(rest.as_slice()),
            })
        } else {
            None
        }
    } else {
        Some(StatusSegment { key: None, text: crate::text::string_of(p.as_slice()) })
    }
}

/// The parts of a status line: the pieces between double spaces, empty
/// ones left out, each a key in brackets with the text after it, or plain
/// text. None when a piece starts with `[` and has no `]` (there is no key
/// to cut out of it).
pub fn status_segments(text: &str) -> (r: Option<Vec<StatusSegment>>)
    ensures
        match r {
            Some(v) => segments_of(double_space_pieces(text@)) == Some(v@.map_values(|g: StatusSegment| g@)),
            None => segments_of(double_space_pieces(text@)) is None,
        },
{
    let cs = crate::text::chars_of(text);
    let pieces = split_double_space(cs.as_slice());
    let ghost ps = pieces@.map_values(|v: Vec<char>| v@);
    let mut out: Vec<StatusSegment> = Vec::new();
    let mut i: usize = 0;
    proof {
        assert(ps.skip(0) =~= ps);
        assert(out@.map_values(|g: StatusSegment| g@) =~= Seq::<SegmentView>::empty());
        match segments_of(ps) {
            Some(rest) => {
                assert(Seq::<SegmentView>::empty() + rest =~= rest);
            },
            None => {},
        }
    }
    while i < pieces.len()
        invariant
            i <= pieces@.len(),
            ps == pieces@.map_values(|v: Vec<char>| v@),
            ps == double_space_pieces(text@),
            segments_of(ps) == match segments_of(ps.skip(i as int)) {
                Some(rest) => Some(out@.map_values(|g: StatusSegment| g@) + rest),
                None => None::<Seq<SegmentView>>,
            },
        decreases pieces@.len() - i,
    {
        let p = &pieces[i];
        proof {
            assert(ps.skip(i as int)[0] == p@);
            assert(ps.skip(i as int).drop_first() =~= ps.skip(i + 1));
        }
        if p.len() > 0 {
            match segment(p) {
                Some(g) => {
                    let ghost before = out@.map_values(|g: StatusSegment| g@);
                    let ghost gv = g@;
                    out.push(g);
                    proof {
                        assert(out@.map_values(|g: StatusSegment| g@) =~= before.push(gv));
                        match segments_of(ps.skip(i + 1)) {
                            Some(rest) => {
                                assert(before + (seq![gv] + rest) =~= before.push(gv) + rest);
                            },
                            None => {},
                        }
                    }
                },
                None => {
                    return None;
                },
            }
        }
        i = i + 1;
    }
    proof {
        assert(ps.skip(i as int) =~= Seq::<Seq<char>>::empty());
        assert(out@.map_values(|g: StatusSegment| g@) + Seq::<SegmentView>::empty() =~= out@.map_values(|g: StatusSegment| g@));
    }
    Some(out)
}

impl App {
    /// The dancer's picture for the current frame: the animation's frames
    /// shown in turn.
    pub fn dancer_frame(&self) -> (r: &'static str)
        ensures
            r@ == self.dance_style.frame_texts()[(self.frame as int) % self.dance_style.frame_texts().len() as int],
    {
        let frames = self.dance_style.frames();
        proof {
            assert(frames@.len() == self.dance_style.frame_texts().len());
        }
        let k = self.frame % frames.len();
        proof {
            assert(frames@.map_values(|s: &'static str| s@)[k as int] == frames@[k as int]@);
        }
        frames[k]
    }
}

// ───────────────────────── the settings panel ─────────────────────────

/// The mark before a settings row: done, open, or none.
#[derive(Clone, Copy, Debug, PartialEq, Eq, Structural)]
pub enum RowMark {
    Done,
    Open,
    Blank,
}

/// A row of the settings panel: the section it belongs to, its mark, its
/// label (dimmed when the row is not in use), the value or action shown
/// after it (an action the user can take, or dimmed text), and whether the
/// row is highlighted.
pub struct SettingsRow {
    pub section: String,
    pub mark: RowMark,
    pub label: String,
    pub label_dim: bool,
    pub value: String,
    pub value_is_action: bool,
    pub focused: bool,
}

/// A settings row, with its texts as characters.
pub struct SettingsRowView {
    pub section: Seq<char>,
    pub mark: RowMark,
    pub label: Seq<char>,
    pub label_dim: bool,
    pub value: Seq<char>,
    pub value_is_action: bool,
    pub focused: bool,
}

impl View for SettingsRow {
    type V = SettingsRowView;

    open spec fn view(&self) -> SettingsRowView {
        SettingsRowView {
            section: self.section@,
            mark: self.mark,
            label: self.label@,
            label_dim: self.label_dim,
            value: self.value@,
            value_is_action: self.value_is_action,
            focused: self.focused,
        }
    }
}

/// A settings row as a value.
pub open spec fn row(
    section: Seq<char>,
    mark: RowMark,
    label: Seq<char>,
    label_dim: bool,
    value: Seq<char>,
    value_is_action: bool,
    focused: bool,
) -> SettingsRowView {
    SettingsRowView { section, mark, label, label_dim, value, value_is_action, focused }
}

/// The rows of the settings panel, in order: the local store (always in
/// use), Google Calendar (signed in: sign out; with credentials: sign in;
/// else no credentials), the first day of the week, the theme, and the
/// `cal` command (register or unregister). Row `i` is highlighted when
/// `i` is the settings cursor.
pub open spec fn settings_rows_view(a: AppView, token_exists: bool, credentials_exist: bool, cal_registered: bool) -> Seq<SettingsRowView> {
    seq![
        row("Connections"@, RowMark::Done, "Local Storage"@, false, ""@, false, a.settings_focus == 0),
        if token_exists {
            row("Connections"@, RowMark::Done, "Google Calendar"@, false, "(sign out)"@, true, a.settings_focus == 1)
        } else if credentials_exist {
            row("Connections"@, RowMark::Open, "Google Calendar"@, true, "(sign in)"@, true, a.settings_focus == 1)
        } else {
            row("Connections"@, RowMark::Open, "Google Calendar"@, true, "(no credentials)"@, false, a.settings_focus == 1)
        },
        row(
            "Calendar"@,
            RowMark::Blank,
            "Start week on: "@,
            false,
            if a.first_day_of_week == 0 { "Monday"@ } else { "Sunday"@ },
            true,
            a.settings_focus == 2,
        ),
        row("Appearance"@, RowMark::Blank, "Theme: "@, false, a.theme_kind.display_name(), true, a.settings_focus == 3),
        if cal_registered {
            row("Shell"@, RowMark::Done, "cal command"@, false, "(unregister)"@, true, a.settings_focus == 4)
        } else {
            row("Shell"@, RowMark::Open, "cal command"@, true, "(register)"@, true, a.settings_focus == 4)
        },
    ]
}

/// A settings row.
fn settings_row(
    section: &str,
    mark: RowMark,
    label: &str,
    label_dim: bool,
    value: &str,
    value_is_action: bool,
    focused: bool,
) -> (r: SettingsRow)
    ensures
        r@ == row(section@, mark, label@, label_dim, value@, value_is_action, focused),
{
    SettingsRow {
        section: owned(section),
        mark,
        label: owned(label),
        label_dim,
        value: owned(value),
        value_is_action,
        focused,
    }
}

impl App {
    /// The rows of the settings panel, given whether a Google token and
    /// Google credentials are stored and whether the `cal` command is
    /// installed.
    pub fn settings_rows(&self, token_exists: bool, credentials_exist: bool, cal_registered: bool) -> (r: Vec<SettingsRow>)
        ensures
            r@.map_values(|x: SettingsRow| x@) == settings_rows_view(self@, token_exists, credentials_exist, cal_registered),
    {
        let f = self.settings_focus;
        let mut rows: Vec<SettingsRow> = Vec::new();
        rows.push(settings_row("Connections", RowMark::Done, "Local Storage", false, "", false, f == 0));
        if token_exists {
            rows.push(settings_row("Connections", RowMark::Done, "Google Calendar", false, "(sign out)", true, f == 1));
        } else if credentials_exist {
            rows.push(settings_row("Connections", RowMark::Open, "Google Calendar", true, "(sign in)", true, f == 1));
        } else {
            rows.push(settings_row("Connections", RowMark::Open, "Google Calendar", true, "(no credentials)", false, f == 1));
        }
        let week = if self.first_day_of_week == 0 { "Monday" } else { "Sunday" };
        rows.push(settings_row("Calendar", RowMark::Blank, "Start week on: ", false, week, true, f == 2));
        rows.push(settings_row("Appearance", RowMark::Blank, "Theme: ", false, self.theme_kind.label(), true, f == 3));
        if cal_registered {
            rows.push(settings_row("Shell", RowMark::Done, "cal command", false, "(unregister)", true, f == 4));
        } else {
            rows.push(settings_row("Shell", RowMark::Open, "cal command", true, "(register)", true, f == 4));
        }
        assert(rows@.map_values(|x: SettingsRow| x@) =~= settings_rows_view(self@, token_exists, credentials_exist, cal_registered));
        rows
    }
}

} // verus!
