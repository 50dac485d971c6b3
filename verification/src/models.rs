//! Calendar events, the event form, and how keys edit the form.
use vstd::prelude::*;
use crate::date::{
    datetime_le, format_hm, format_date, hm_text, lemma_hm_text_trimmed, lemma_ymd_text_trimmed,
    parse_date_with, chrono_date_parse, ymd_text, Date, DateTime,
};
use crate::parse::{invalid_time_message, parse_time, time_from_text};
use crate::text::{
    copy_opt_string, copy_string, insert_char_at, is_control, is_control_char, num_chars, opt_view,
    lemma_trimmed_idempotent, owned, remove_char_at, string_of, trim_str, trimmed,
};

verus! {

/// An event of a calendar.
#[derive(Debug, Clone)]
pub struct CalendarEvent {
    pub id: String,
    pub summary: String,
    pub description: Option<String>,
    pub start: Option<DateTime>,
    pub end: Option<DateTime>,
}

/// What an event holds, with its texts as character sequences.
pub struct EventView {
    pub id: Seq<char>,
    pub summary: Seq<char>,
    pub description: Option<Seq<char>>,
    pub start: Option<DateTime>,
    pub end: Option<DateTime>,
}

impl View for CalendarEvent {
    type V = EventView;

    open spec fn view(&self) -> EventView {
        EventView {
            id: self.id@,
            summary: self.summary@,
            description: opt_view(self.description),
            start: self.start,
            end: self.end,
        }
    }
}

impl CalendarEvent {
    /// A copy of this event.
    pub fn duplicate(&self) -> (r: CalendarEvent)
        ensures
            r@ == self@,
    {
        CalendarEvent {
            id: copy_string(&self.id),
            summary: copy_string(&self.summary),
            description: copy_opt_string(&self.description),
            start: self.start,
            end: self.end,
        }
    }
}

/// The views of a sequence of events.
pub open spec fn events_view(v: Seq<CalendarEvent>) -> Seq<EventView> {
    v.map_values(|e: CalendarEvent| e@)
}

/// A copy of a list of events.
pub fn copy_events(v: &Vec<CalendarEvent>) -> (r: Vec<CalendarEvent>)
    ensures
        events_view(r@) == events_view(v@),
{
    let mut r: Vec<CalendarEvent> = Vec::new();
    let mut i: usize = 0;
    while i < v.len()
        invariant
            i <= v@.len(),
            r@.len() == i,
            forall|k: int| 0 <= k < i ==> (#[trigger] r@[k])@ == v@[k]@,
        decreases v@.len() - i,
    {
        r.push(v[i].duplicate());
        i = i + 1;
    }
    assert(events_view(r@) =~= events_view(v@));
    r
}

/// A key that the user pressed, as the calendar reads it.
#[derive(Clone, Copy, Debug, PartialEq, Eq, Structural)]
pub enum Key {
    Char(char),
    Enter,
    Esc,
    Tab,
    BackTab,
    Up,
    Down,
    Left,
    Right,
    Home,
    End,
    Backspace,
    Delete,
    PageUp,
    PageDown,
    Other,
}

/// One labelled text field of the event form, with the cursor counted in
/// characters.
pub struct FormField {
    pub label: &'static str,
    pub value: String,
    pub cursor: usize,
}

/// The event form: its fields and the index of the focused one.
pub struct FormState {
    pub fields: Vec<FormField>,
    pub focus: usize,
}

/// What a form field holds.
pub struct FieldView {
    pub label: Seq<char>,
    pub value: Seq<char>,
    pub cursor: nat,
}

/// What a form holds.
pub struct FormView {
    pub fields: Seq<FieldView>,
    pub focus: nat,
}

impl View for FormField {
    type V = FieldView;

    open spec fn view(&self) -> FieldView {
        FieldView { label: self.label@, value: self.value@, cursor: self.cursor as nat }
    }
}

impl View for FormState {
    type V = FormView;

    open spec fn view(&self) -> FormView {
        FormView { fields: self.fields@.map_values(|f: FormField| f@), focus: self.focus as nat }
    }
}

impl FormView {
    /// The form has fields, the focus is on one of them, and every cursor
    /// stands within its field's text.
    pub open spec fn wf(self) -> bool {
        &&& self.fields.len() > 0
        &&& self.focus < self.fields.len()
        &&& forall|i: int| 0 <= i < self.fields.len() ==> #[trigger] self.fields[i].cursor <= self.fields[i].value.len()
    }

    /// This form with the focused field replaced.
    pub open spec fn with_focused(self, f: FieldView) -> FormView {
        FormView { fields: self.fields.update(self.focus as int, f), ..self }
    }
}

/// A form field with its cursor at the start.
pub open spec fn field(label: Seq<char>, value: Seq<char>) -> FieldView {
    FieldView { label, value, cursor: 0 }
}

/// The blank form for a new event on `date`.
pub open spec fn new_form_view(date: Date) -> FormView {
    FormView {
        fields: seq![
            field("Title"@, Seq::empty()),
            field("Date"@, ymd_text(date)),
            field("Start"@, "09:00"@),
            field("End"@, "10:00"@),
        ],
        focus: 0,
    }
}

/// The form filled from an event.
pub open spec fn event_form_view(e: EventView) -> FormView {
    FormView {
        fields: seq![
            field("Title"@, e.summary),
            field("Date"@, match e.start {
                Some(s) => ymd_text(s.date),
                None => Seq::empty(),
            }),
            field("Start"@, match e.start {
                Some(s) => hm_text(s.time),
                None => Seq::empty(),
            }),
            field("End"@, match e.end {
                Some(f) => hm_text(f.time),
                None => Seq::empty(),
            }),
            field("Description"@, match e.description {
                Some(d) => d,
                None => Seq::empty(),
            }),
        ],
        focus: 0,
    }
}

/// Whether saving the edit form of an event without changes gives the
/// event back: title and description (when there is one) carry no
/// surrounding whitespace and are not empty, and start and end are valid
/// moments on one day, in whole minutes, the end after the start.
pub open spec fn edit_round_trips(e: EventView) -> bool {
    &&& trimmed(e.summary) == e.summary
    &&& e.summary.len() > 0
    &&& (e.description matches Some(x) ==> trimmed(x) == x && x.len() > 0)
    &&& (e.start matches Some(s) && e.end matches Some(t) && s.valid() && t.valid() && s.date == t.date
        && s.time.second == 0 && t.time.second == 0 && !t.le(s))
}

impl FormState {
    /// A blank form for a new event on `date`: an empty title, the date, and
    /// the times 09:00 to 10:00.
    pub fn new(date: Date) -> (r: FormState)
        requires
            date.valid(),
        ensures
            r@ == new_form_view(date),
            r@.wf(),
    {
        let mut fields: Vec<FormField> = Vec::new();
        fields.push(FormField { label: "Title", value: String::new(), cursor: 0 });
        fields.push(FormField { label: "Date", value: format_date(date, "%Y-%m-%d"), cursor: 0 });
        fields.push(FormField { label: "Start", value: owned("09:00"), cursor: 0 });
        fields.push(FormField { label: "End", value: owned("10:00"), cursor: 0 });
        let r = FormState { fields, focus: 0 };
        assert(r@.fields =~= new_form_view(date).fields);
        r
    }

    /// A form filled from an existing event: title, date and times of its
    /// start and end, and description; a missing part gives an empty field.
    pub fn from_event(event: &CalendarEvent) -> (r: FormState)
        requires
            event.start matches Some(s) ==> s.valid(),
            event.end matches Some(e) ==> e.valid(),
        ensures
            r@ == event_form_view(event@),
            r@.wf(),
            edit_round_trips(event@) ==> forall|d: Date|
                #[trigger] form_outcome(r@.fields, d) == Ok::<
                    (Seq<char>, Option<Seq<char>>, DateTime, DateTime),
                    Seq<char>,
                >((event@.summary, event@.description, event@.start->0, event@.end->0)),
    {
        let date = match event.start {
            Some(s) => format_date(s.date, "%Y-%m-%d"),
            None => String::new(),
        };
        let start = match event.start {
            Some(s) => format_hm(s.time),
            None => String::new(),
        };
        let end = match event.end {
            Some(e) => format_hm(e.time),
            None => String::new(),
        };
        let desc = match &event.description {
            Some(d) => copy_string(d),
            None => String::new(),
        };
        let mut fields: Vec<FormField> = Vec::new();
        fields.push(FormField { label: "Title", value: copy_string(&event.summary), cursor: 0 });
        fields.push(FormField { label: "Date", value: date, cursor: 0 });
        fields.push(FormField { label: "Start", value: start, cursor: 0 });
        fields.push(FormField { label: "End", value: end, cursor: 0 });
        fields.push(FormField { label: "Description", value: desc, cursor: 0 });
        let r = FormState { fields, focus: 0 };
        assert(r@.fields =~= event_form_view(event@).fields);
        proof {
            if edit_round_trips(event@) {
                let e = event@;
                let st = e.start->0;
                let en = e.end->0;
                lemma_ymd_text_trimmed(st.date);
                lemma_hm_text_trimmed(st.time);
                lemma_hm_text_trimmed(en.time);
                lemma_trimmed_idempotent(hm_text(st.time));
                lemma_trimmed_idempotent(hm_text(en.time));
                let fs = r@.fields;
                assert(fs[1].value == ymd_text(st.date));
                assert(fs[2].value == hm_text(st.time));
                assert(fs[3].value == hm_text(en.time));
                assert(time_from_text(hm_text(st.time)) == Some(st.time));
                assert(time_from_text(hm_text(en.time)) == Some(en.time));
                match e.description {
                    Some(x) => {
                        assert(fs[4].value == x);
                    },
                    None => {
                        assert(fs[4].value == Seq::<char>::empty());
                        assert(trimmed(Seq::<char>::empty()) =~= Seq::<char>::empty());
                    },
                }
                assert forall|d: Date| #[trigger] form_outcome(fs, d) == Ok::<
                    (Seq<char>, Option<Seq<char>>, DateTime, DateTime),
                    Seq<char>,
                >((e.summary, e.description, st, en)) by {
                    assert(DateTime { date: st.date, time: st.time } == st);
                    assert(DateTime { date: st.date, time: en.time } == en);
                }
            }
        }
        r
    }
}

// ───────────────────────── keys in the form ─────────────────────────

/// How a key changes the form, and whether it asks to submit it: Tab and Down
/// move the focus forward (cyclically), BackTab and Up backward; Left, Right,
/// Home and End move the cursor within the focused field; Backspace and Delete
/// remove the character before or under the cursor; a printable character is
/// inserted at the cursor; Enter submits.
pub open spec fn form_key_step(f: FormView, key: Key) -> (FormView, bool) {
    let n = f.fields.len();
    let i = f.focus;
    let fld = f.fields[i as int];
    let nc = fld.value.len();
    let c = fld.cursor;
    match key {
        Key::Tab | Key::Down => (FormView { focus: ((i + 1) % n) as nat, ..f }, false),
        Key::BackTab | Key::Up => (FormView {
            focus: if i == 0 {
                (n - 1) as nat
            } else {
                (i - 1) as nat
            },
            ..f
        }, false),
        Key::Left => (f.with_focused(FieldView {
            cursor: if c > 0 {
                (c - 1) as nat
            } else {
                0
            },
            ..fld
        }), false),
        Key::Right => (f.with_focused(FieldView {
            cursor: if c < nc {
                c + 1
            } else {
                c
            },
            ..fld
        }), false),
        Key::Backspace => if c > 0 {
            (f.with_focused(
                FieldView { value: fld.value.remove(c - 1), cursor: (c - 1) as nat, ..fld },
            ), false)
        } else {
            (f, false)
        },
        Key::Delete => if c < nc {
            (f.with_focused(FieldView { value: fld.value.remove(c as int), ..fld }), false)
        } else {
            (f, false)
        },
        Key::Home => (f.with_focused(FieldView { cursor: 0, ..fld }), false),
        Key::End => (f.with_focused(FieldView { cursor: nc, ..fld }), false),
        Key::Char(ch) => if !is_control_char(ch) {
            (f.with_focused(
                FieldView { value: fld.value.insert(c as int, ch), cursor: c + 1, ..fld },
            ), false)
        } else {
            (f, false)
        },
        Key::Enter => (f, true),
        _ => (f, false),
    }
}

/// Applies a key to the form; the result tells whether the key asks to
/// submit the form.
pub fn handle_form_key(key: Key, form: &mut FormState) -> (submit: bool)
    requires
        old(form)@.wf(),
        old(form)@.fields[old(form)@.focus as int].value.len() < usize::MAX,
    ensures
        final(form)@ == form_key_step(old(form)@, key).0,
        submit == form_key_step(old(form)@, key).1,
        final(form)@.wf(),
{
    let n = form.fields.len();
    let i = form.focus;
    let ghost f0 = form@;
    assert(f0.fields[i as int] == form.fields@[i as int]@);
    let label = form.fields[i].label;
    let cursor = form.fields[i].cursor;
    let nc = num_chars(form.fields[i].value.as_str());
    match key {
        Key::Tab | Key::Down => {
            form.focus = (i + 1) % n;
            return false;
        },
        Key::BackTab | Key::Up => {
            form.focus = if i == 0 {
                n - 1
            } else {
                i - 1
            };
            return false;
        },
        Key::Enter => {
            return true;
        },
        _ => {},
    }
    let (value, new_cursor) = match key {
        Key::Left => (copy_string(&form.fields[i].value), if cursor > 0 {
            cursor - 1
        } else {
            0
        }),
        Key::Right => (copy_string(&form.fields[i].value), if cursor < nc {
            cursor + 1
        } else {
            cursor
        }),
        Key::Backspace => {
            if cursor > 0 {
                (remove_char_at(form.fields[i].value.as_str(), cursor - 1), cursor - 1)
            } else {
                return false;
            }
        },
        Key::Delete => {
            if cursor < nc {
                (remove_char_at(form.fields[i].value.as_str(), cursor), cursor)
            } else {
                return false;
            }
        },
        Key::Home => (copy_string(&form.fields[i].value), 0),
        Key::End => (copy_string(&form.fields[i].value), nc),
        Key::Char(ch) => {
            if !is_control(ch) {
                (insert_char_at(form.fields[i].value.as_str(), cursor, ch), cursor + 1)
            } else {
                return false;
            }
        },
        _ => {
            return false;
        },
    };
    form.fields.set(i, FormField { label, value, cursor: new_cursor });
    proof {
        let f1 = form@;
        let expect = form_key_step(f0, key).0;
        assert(f1.fields =~= expect.fields);
        assert forall|j: int| 0 <= j < f1.fields.len() implies #[trigger] f1.fields[j].cursor
            <= f1.fields[j].value.len() by {
            if j != i {
                assert(f1.fields[j] == f0.fields[j]);
            }
        }
    }
    false
}

// ───────────────────────── from form to event ─────────────────────────

/// The trimmed text of field `i`, or `default` when the form has no such field.
pub open spec fn field_text(fields: Seq<FieldView>, i: int, default: Seq<char>) -> Seq<char> {
    if i < fields.len() {
        trimmed(fields[i].value)
    } else {
        default
    }
}

/// What a submitted form asks for: a title, an optional description, and a
/// start and an end on the form's date (or `default_date` when that field is
/// empty); or the message that says why the form is not acceptable.
pub open spec fn form_outcome(fields: Seq<FieldView>, default_date: Date) -> Result<
    (Seq<char>, Option<Seq<char>>, DateTime, DateTime),
    Seq<char>,
> {
    let date_text = field_text(fields, 1, Seq::empty());
    let date = if date_text.len() == 0 {
        Some(default_date)
    } else {
        match chrono_date_parse(date_text, "%Y-%m-%d"@) {
            Some((y, m, d)) => Some(Date { year: y, month: m, day: d }),
            None => None,
        }
    };
    let start_text = trimmed(field_text(fields, 2, "09:00"@));
    let end_text = trimmed(field_text(fields, 3, "10:00"@));
    let desc = field_text(fields, 4, Seq::empty());
    if fields.len() == 0 {
        Err("No fields in form"@)
    } else if trimmed(fields[0].value).len() == 0 {
        Err("Title is required"@)
    } else if date is None {
        Err("Invalid date — use YYYY-MM-DD"@)
    } else if start_text.len() == 0 {
        Err("Time is required"@)
    } else if time_from_text(start_text) is None {
        Err(invalid_time_message(start_text))
    } else if end_text.len() == 0 {
        Err("Time is required"@)
    } else if time_from_text(end_text) is None {
        Err(invalid_time_message(end_text))
    } else {
        let start = DateTime { date: date->0, time: time_from_text(start_text)->0 };
        let end = DateTime { date: date->0, time: time_from_text(end_text)->0 };
        if end.le(start) {
            Err("End time must be after start time"@)
        } else {
            Ok(
                (
                    trimmed(fields[0].value),
                    if desc.len() == 0 {
                        None
                    } else {
                        Some(desc)
                    },
                    start,
                    end,
                ),
            )
        }
    }
}

/// Typing a character and then Backspace leaves the form as it was.
pub proof fn law_insert_then_backspace(f: FormView, ch: char)
    requires
        f.wf(),
        !is_control_char(ch),
    ensures
        form_key_step(form_key_step(f, Key::Char(ch)).0, Key::Backspace) == (f, false),
{
    let i = f.focus as int;
    let fld = f.fields[i];
    let g = form_key_step(f, Key::Char(ch)).0;
    assert(g.fields[i].value == fld.value.insert(fld.cursor as int, ch));
    assert(fld.value.insert(fld.cursor as int, ch).remove(fld.cursor as int) =~= fld.value);
    let h = form_key_step(g, Key::Backspace).0;
    assert(h.fields[i] == fld);
    assert(h.fields =~= f.fields);
}

/// Tab and then BackTab return the focus to the field it was on, and
/// change nothing else.
pub proof fn law_tab_then_backtab(f: FormView)
    requires
        f.wf(),
    ensures
        form_key_step(form_key_step(f, Key::Tab).0, Key::BackTab) == (f, false),
{
    let n = f.fields.len();
    if f.focus + 1 < n {
        vstd::arithmetic::div_mod::lemma_small_mod((f.focus + 1) as nat, n);
    } else {
        vstd::arithmetic::div_mod::lemma_mod_self_0(n as int);
    }
}


/// An accepted form always asks for an event that ends after it starts,
/// on the same day.
pub proof fn law_form_event_ordered(fields: Seq<FieldView>, default_date: Date)
    ensures
        form_outcome(fields, default_date) matches Ok((_, _, start, end)) ==> start.le(end) && start != end
            && start.date == end.date,
{
}


/// Turns a submitted form into the parts of an event, or the message that
/// says why it cannot.
pub fn form_to_event(form: &FormState, default_date: Date) -> (r: Result<
    (String, Option<String>, DateTime, DateTime),
    String,
>)
    requires
        default_date.valid(),
    ensures
        match form_outcome(form@.fields, default_date) {
            Ok((s, d, st, en)) => r matches Ok((rs, rd, rst, ren)) && rs@ == s && opt_view(rd) == d
                && rst == st && ren == en,
            Err(msg) => r matches Err(e) && e@ == msg,
        },
        r matches Ok((_, _, st, en)) ==> st.valid() && en.valid(),
{
    let ghost fv = form@.fields;
    if form.fields.len() == 0 {
        return Err(owned("No fields in form"));
    }
    assert(fv[0] == form.fields@[0]@);
    let summary = trim_str(form.fields[0].value.as_str());
    if summary.len() == 0 {
        return Err(owned("Title is required"));
    }
    let date_chars = if form.fields.len() > 1 {
        assert(fv[1] == form.fields@[1]@);
        trim_str(form.fields[1].value.as_str())
    } else {
        Vec::new()
    };
    let date = if date_chars.len() == 0 {
        default_date
    } else {
        let ds = string_of(date_chars.as_slice());
        match parse_date_with(ds.as_str(), "%Y-%m-%d") {
            Some(d) => d,
            None => {
                return Err(owned("Invalid date — use YYYY-MM-DD"));
            },
        }
    };
    let start_str = if form.fields.len() > 2 {
        assert(fv[2] == form.fields@[2]@);
        string_of(trim_str(form.fields[2].value.as_str()).as_slice())
    } else {
        owned("09:00")
    };
    let end_str = if form.fields.len() > 3 {
        assert(fv[3] == form.fields@[3]@);
        string_of(trim_str(form.fields[3].value.as_str()).as_slice())
    } else {
        owned("10:00")
    };
    let description = if form.fields.len() > 4 {
        assert(fv[4] == form.fields@[4]@);
        let d = trim_str(form.fields[4].value.as_str());
        if d.len() == 0 {
            None
        } else {
            Some(string_of(d.as_slice()))
        }
    } else {
        None
    };
    proof {
        crate::text::lemma_trimmed_idempotent(start_str@);
        crate::text::lemma_trimmed_idempotent(end_str@);
    }
    let start_time = match parse_time(start_str.as_str()) {
        Ok(t) => t,
        Err(e) => {
            return Err(e);
        },
    };
    let end_time = match parse_time(end_str.as_str()) {
        Ok(t) => t,
        Err(e) => {
            return Err(e);
        },
    };
    let start = DateTime { date, time: start_time };
    let end = DateTime { date, time: end_time };
    if datetime_le(end, start) {
        return Err(owned("End time must be after start time"));
    }
    Ok((string_of(summary.as_slice()), description, start, end))
}

} // verus!
