//! The local event store: events kept on this machine, with numeric ids
//! that the calendar shows as `local-N`.
use vstd::prelude::*;
use crate::date::{date_le, Date, DateTime};
use crate::models::{CalendarEvent, EventView};
use crate::text::{
    chars_from, chars_of, copy_opt_string, copy_string, decimal_string, has_prefix, opt_view,
    owned, parse_u64, parsed_unsigned, push_decimal, starts_with,
};

verus! {

/// An event of the local store.
pub struct LocalEvent {
    pub id: u64,
    pub summary: String,
    pub description: Option<String>,
    pub start: Option<DateTime>,
    pub end: Option<DateTime>,
}

/// The stored events and the id that the next new event gets.
pub struct LocalStore {
    pub events: Vec<LocalEvent>,
    pub next_id: u64,
}

/// What a stored event holds.
pub struct LocalEventView {
    pub id: u64,
    pub summary: Seq<char>,
    pub description: Option<Seq<char>>,
    pub start: Option<DateTime>,
    pub end: Option<DateTime>,
}

impl View for LocalEvent {
    type V = LocalEventView;

    open spec fn view(&self) -> LocalEventView {
        LocalEventView {
            id: self.id,
            summary: self.summary@,
            description: opt_view(self.description),
            start: self.start,
            end: self.end,
        }
    }
}

impl LocalEvent {
    /// A copy of this stored event.
    pub fn duplicate(&self) -> (r: LocalEvent)
        ensures
            r@ == self@,
    {
        LocalEvent {
            id: self.id,
            summary: copy_string(&self.summary),
            description: copy_opt_string(&self.description),
            start: self.start,
            end: self.end,
        }
    }
}

/// What the store holds.
pub struct StoreView {
    pub events: Seq<LocalEventView>,
    pub next_id: u64,
}

impl View for LocalStore {
    type V = StoreView;

    open spec fn view(&self) -> StoreView {
        StoreView { events: self.events@.map_values(|e: LocalEvent| e@), next_id: self.next_id }
    }
}

impl StoreView {
    /// Ids are distinct, and all lie below the next id.
    pub open spec fn wf(self) -> bool {
        &&& forall|i: int| 0 <= i < self.events.len() ==> #[trigger] self.events[i].id < self.next_id
        &&& forall|i: int, j: int|
            0 <= i < j < self.events.len() ==> #[trigger] self.events[i].id != #[trigger] self.events[j].id
    }
}

/// Why the store refused a request.
#[derive(Clone, Copy, Debug, PartialEq, Eq, Structural)]
pub enum LocalError {
    /// The id is not of the form `local-N`.
    InvalidId,
    /// No stored event has the id.
    NotFound,
}

impl LocalError {
    /// The message for this error.
    pub open spec fn text(self) -> Seq<char> {
        match self {
            LocalError::InvalidId => "Invalid local event ID"@,
            LocalError::NotFound => "Event not found"@,
        }
    }

    /// The message for this error.
    pub fn message(&self) -> (r: String)
        ensures
            r@ == self.text(),
    {
        match self {
            LocalError::InvalidId => owned("Invalid local event ID"),
            LocalError::NotFound => owned("Event not found"),
        }
    }
}

/// The id that the calendar shows for stored event number `n`.
pub open spec fn local_id_text(n: u64) -> Seq<char> {
    "local-"@ + decimal_string(n as nat)
}

/// The stored event number that an id names, if it is of the form `local-N`.
pub open spec fn local_id_of(s: Seq<char>) -> Option<u64> {
    if has_prefix(s, "local-"@) {
        match parsed_unsigned(s.skip(6), u64::MAX as nat) {
            Some(v) => Some(v as u64),
            None => None,
        }
    } else {
        None
    }
}

/// The id `local-N` of stored event number `n`.
pub fn local_id(n: u64) -> (r: String)
    ensures
        r@ == local_id_text(n),
{
    let mut s = owned("local-");
    push_decimal(&mut s, n);
    s
}

/// Reads the stored event number from an id of the form `local-N`.
pub fn parse_local_id(event_id: &str) -> (r: Option<u64>)
    ensures
        r == local_id_of(event_id@),
{
    let cs = chars_of(event_id);
    let prefix = chars_of("local-");
    proof {
        reveal_strlit("local-");
    }
    if !starts_with(cs.as_slice(), prefix.as_slice()) {
        return None;
    }
    let rest = chars_from(cs.as_slice(), 6);
    assert(rest@ == cs@.skip(6));
    parse_u64(rest.as_slice())
}

/// Reading back the id of stored event `n` gives `n`.
pub proof fn law_local_id_roundtrip(n: u64)
    ensures
        local_id_of(local_id_text(n)) == Some(n),
{
    reveal_strlit("local-");
    crate::text::lemma_decimal_roundtrip(n as nat);
    let s = local_id_text(n);
    let d = decimal_string(n as nat);
    assert(s.take(6) =~= "local-"@);
    assert(s.skip(6) =~= d);
    assert(crate::text::unsigned_digits(d) == d);
}

/// The event that the calendar shows for a stored event.
pub open spec fn shown(e: LocalEventView) -> EventView {
    EventView {
        id: local_id_text(e.id),
        summary: e.summary,
        description: e.description,
        start: e.start,
        end: e.end,
    }
}

/// Whether a stored event falls within the dates `start`..=`end`: one with a
/// start and an end when the two ranges overlap, one with only a start when
/// that start lies in the range; one without a start never.
pub open spec fn in_range(e: LocalEventView, start: Date, end: Date) -> bool {
    match (e.start, e.end) {
        (Some(s), Some(f)) => s.date.le(end) && start.le(f.date),
        (Some(s), None) => start.le(s.date) && s.date.le(end),
        (None, _) => false,
    }
}

/// The events that `list_events_range` gives, in stored order.
pub open spec fn listed(events: Seq<LocalEventView>, start: Date, end: Date) -> Seq<EventView>
    decreases events.len(),
{
    if events.len() == 0 {
        Seq::empty()
    } else {
        let rest = listed(events.drop_last(), start, end);
        if in_range(events.last(), start, end) {
            rest.push(shown(events.last()))
        } else {
            rest
        }
    }
}

/// The stored events without those numbered `id`, in stored order.
pub open spec fn without_id(events: Seq<LocalEventView>, id: u64) -> Seq<LocalEventView>
    decreases events.len(),
{
    if events.len() == 0 {
        Seq::empty()
    } else {
        let rest = without_id(events.drop_last(), id);
        if events.last().id != id {
            rest.push(events.last())
        } else {
            rest
        }
    }
}

/// A calendar over the local store, saved at `path`.
pub struct LocalCalendar {
    pub path: String,
    pub store: LocalStore,
}

impl LocalCalendar {
    /// A calendar over the store read from `path`, or over an empty store
    /// whose first id is 1 when none could be read.
    pub fn new(path: String, loaded: Option<LocalStore>) -> (r: LocalCalendar)
        ensures
            r.path@ == path@,
            loaded is Some ==> r.store@ == loaded->0@,
            loaded is None ==> r.store@.events.len() == 0 && r.store@.next_id == 1,
    {
        let store = match loaded {
            Some(s) => s,
            None => LocalStore { events: Vec::new(), next_id: 1 },
        };
        assert(store.events@.len() == 0 ==> store@.events.len() == 0);
        LocalCalendar { path, store }
    }

    /// The stored events that fall within `start`..=`end`, as the calendar
    /// shows them.
    pub fn list_events_range(&self, start: Date, end: Date) -> (r: Vec<CalendarEvent>)
        ensures
            r@.map_values(|e: CalendarEvent| e@) == listed(self.store@.events, start, end),
    {
        let ghost evs = self.store@.events;
        let mut r: Vec<CalendarEvent> = Vec::new();
        let mut i: usize = 0;
        while i < self.store.events.len()
            invariant
                i <= self.store.events@.len(),
                evs == self.store@.events,
                r@.map_values(|e: CalendarEvent| e@) == listed(evs.take(i as int), start, end),
            decreases self.store.events@.len() - i,
        {
            let e = &self.store.events[i];
            assert(evs[i as int] == e@);
            let keep = match (e.start, e.end) {
                (Some(s), Some(f)) => date_le(s.date, end) && date_le(start, f.date),
                (Some(s), None) => date_le(start, s.date) && date_le(s.date, end),
                (None, _) => false,
            };
            assert(evs.take(i + 1).drop_last() == evs.take(i as int));
            if keep {
                let ce = CalendarEvent {
                    id: local_id(e.id),
                    summary: copy_string(&e.summary),
                    description: copy_opt_string(&e.description),
                    start: e.start,
                    end: e.end,
                };
                r.push(ce);
            }
            i = i + 1;
            assert(r@.map_values(|e: CalendarEvent| e@) =~= listed(evs.take(i as int), start, end));
        }
        assert(evs.take(evs.len() as int) == evs);
        r
    }

    /// Adds an event with the next id and gives it back as the calendar
    /// shows it.
    pub fn create_event(
        &mut self,
        summary: &str,
        description: Option<&str>,
        start: DateTime,
        end: DateTime,
    ) -> (r: CalendarEvent)
        requires
            old(self).store.next_id < u64::MAX,
        ensures
            final(self).path@ == old(self).path@,
            final(self).store@.next_id == old(self).store@.next_id + 1,
            final(self).store@.events == old(self).store@.events.push(
                LocalEventView {
                    id: old(self).store@.next_id,
                    summary: summary@,
                    description: match description {
                        Some(d) => Some(d@),
                        None => None,
                    },
                    start: Some(start),
                    end: Some(end),
                },
            ),
            r@ == shown(final(self).store@.events.last()),
    {
        let id = self.store.next_id;
        self.store.next_id = self.store.next_id + 1;
        let desc = match description {
            Some(d) => Some(owned(d)),
            None => None,
        };
        let event = LocalEvent {
            id,
            summary: owned(summary),
            description: copy_opt_string(&desc),
            start: Some(start),
            end: Some(end),
        };
        self.store.events.push(event);
        assert(self.store@.events =~= old(self).store@.events.push(self.store.events@.last()@));
        CalendarEvent {
            id: local_id(id),
            summary: owned(summary),
            description: desc,
            start: Some(start),
            end: Some(end),
        }
    }

    /// Replaces title, description, start and end of the first stored event
    /// that `event_id` names.
    pub fn update_event(
        &mut self,
        event_id: &str,
        summary: &str,
        description: Option<&str>,
        start: DateTime,
        end: DateTime,
    ) -> (r: Result<(), LocalError>)
        ensures
            final(self).path@ == old(self).path@,
            final(self).store@.next_id == old(self).store@.next_id,
            local_id_of(event_id@) is None ==> r == Err::<(), LocalError>(LocalError::InvalidId),
            local_id_of(event_id@) matches Some(n) ==> {
                if exists|i: int| 0 <= i < old(self).store@.events.len() && #[trigger] old(self).store@.events[i].id == n {
                    &&& r is Ok
                    &&& exists|i: int|
                        0 <= i < old(self).store@.events.len() && #[trigger] old(self).store@.events[i].id == n
                            && (forall|j: int| 0 <= j < i ==> old(self).store@.events[j].id != n)
                            && final(self).store@.events == old(self).store@.events.update(
                            i,
                            LocalEventView {
                                id: n,
                                summary: summary@,
                                description: match description {
                                    Some(d) => Some(d@),
                                    None => None,
                                },
                                start: Some(start),
                                end: Some(end),
                            },
                        )
                } else {
                    r == Err::<(), LocalError>(LocalError::NotFound)
                }
            },
            r is Err ==> final(self).store@ == old(self).store@,
    {
        let local = match parse_local_id(event_id) {
            Some(n) => n,
            None => {
                return Err(LocalError::InvalidId);
            },
        };
        let ghost evs = self.store@.events;
        let mut i: usize = 0;
        while i < self.store.events.len()
            invariant
                i <= self.store.events@.len(),
                evs == self.store@.events,
                evs == old(self).store@.events,
                self.path@ == old(self).path@,
                self.store.next_id == old(self).store.next_id,
                local_id_of(event_id@) == Some(local),
                forall|j: int| 0 <= j < i ==> evs[j].id != local,
            decreases self.store.events@.len() - i,
        {
            assert(evs[i as int] == self.store.events@[i as int]@);
            if self.store.events[i].id == local {
                let desc = match description {
                    Some(d) => Some(owned(d)),
                    None => None,
                };
                let ev = LocalEvent {
                    id: local,
                    summary: owned(summary),
                    description: desc,
                    start: Some(start),
                    end: Some(end),
                };
                let ghost newv = LocalEventView {
                    id: local,
                    summary: summary@,
                    description: match description {
                        Some(d) => Some(d@),
                        None => None,
                    },
                    start: Some(start),
                    end: Some(end),
                };
                assert(ev@ == newv);
                self.store.events.set(i, ev);
                assert(self.store@.events =~= evs.update(i as int, newv));
                assert(evs[i as int].id == local);
                return Ok(());
            }
            i = i + 1;
        }
        Err(LocalError::NotFound)
    }

    /// Removes every stored event that `event_id` names; fails when there is
    /// none.
    pub fn delete_event(&mut self, event_id: &str) -> (r: Result<(), LocalError>)
        ensures
            final(self).path@ == old(self).path@,
            final(self).store@.next_id == old(self).store@.next_id,
            local_id_of(event_id@) is None ==> r == Err::<(), LocalError>(LocalError::InvalidId),
            local_id_of(event_id@) matches Some(n) ==> {
                &&& final(self).store@.events == without_id(old(self).store@.events, n)
                &&& (r is Ok <==> exists|i: int|
                    0 <= i < old(self).store@.events.len() && #[trigger] old(self).store@.events[i].id == n)
                &&& r is Err ==> r == Err::<(), LocalError>(LocalError::NotFound)
            },
            local_id_of(event_id@) is None ==> final(self).store@ == old(self).store@,
    {
        let local = match parse_local_id(event_id) {
            Some(n) => n,
            None => {
                return Err(LocalError::InvalidId);
            },
        };
        let ghost evs = self.store@.events;
        let mut kept: Vec<LocalEvent> = Vec::new();
        let mut found = false;
        let mut i: usize = 0;
        while i < self.store.events.len()
            invariant
                i <= self.store.events@.len(),
                evs == self.store@.events,
                kept@.map_values(|e: LocalEvent| e@) == without_id(evs.take(i as int), local),
                found <==> exists|j: int| 0 <= j < i && #[trigger] evs[j].id == local,
            decreases self.store.events@.len() - i,
        {
            let e = &self.store.events[i];
            assert(evs[i as int] == e@);
            assert(evs.take(i + 1).drop_last() == evs.take(i as int));
            if e.id != local {
                kept.push(e.duplicate());
            } else {
                found = true;
            }
            i = i + 1;
            assert(kept@.map_values(|e: LocalEvent| e@) =~= without_id(evs.take(i as int), local));
        }
        assert(evs.take(evs.len() as int) == evs);
        self.store.events = kept;
        if !found {
            return Err(LocalError::NotFound);
        }
        Ok(())
    }
}

/// A stored event is listed for a range of dates just when its dates meet
/// the range: adding one to the store adds it, last, to every listing whose
/// range it meets, and leaves the other listings as they were.
pub proof fn law_added_event_listed(events: Seq<LocalEventView>, e: LocalEventView, start: Date, end: Date)
    ensures
        in_range(e, start, end) ==> listed(events.push(e), start, end) == listed(events, start, end).push(shown(e)),
        !in_range(e, start, end) ==> listed(events.push(e), start, end) == listed(events, start, end),
{
    assert(events.push(e).drop_last() =~= events);
    assert(events.push(e).last() == e);
}

/// Creating an event keeps the ids distinct and below the next id.
pub proof fn law_create_keeps_wf(before: StoreView, e: LocalEventView)
    requires
        before.wf(),
        before.next_id < u64::MAX,
        e.id == before.next_id,
    ensures
        (StoreView { events: before.events.push(e), next_id: (before.next_id + 1) as u64 }).wf(),
{
    let after = StoreView { events: before.events.push(e), next_id: (before.next_id + 1) as u64 };
    assert forall|i: int, j: int| 0 <= i < j < after.events.len() implies #[trigger] after.events[i].id
        != #[trigger] after.events[j].id by {
        if j < before.events.len() {
            assert(after.events[i] == before.events[i] && after.events[j] == before.events[j]);
        } else {
            assert(after.events[i] == before.events[i]);
        }
    }
    assert forall|i: int| 0 <= i < after.events.len() implies #[trigger] after.events[i].id < after.next_id by {
        if i < before.events.len() {
            assert(after.events[i] == before.events[i]);
        }
    }
}

/// The store without the events numbered `n` holds no such event, and
/// every event it holds was stored before.
pub proof fn law_without_id(events: Seq<LocalEventView>, n: u64)
    ensures
        forall|i: int| 0 <= i < without_id(events, n).len() ==> #[trigger] without_id(events, n)[i].id != n,
        forall|i: int| 0 <= i < without_id(events, n).len() ==> events.contains(#[trigger] without_id(events, n)[i]),
        without_id(events, n).len() <= events.len(),
    decreases events.len(),
{
    if events.len() > 0 {
        law_without_id(events.drop_last(), n);
        let rest = without_id(events.drop_last(), n);
        assert forall|i: int| 0 <= i < without_id(events, n).len() implies events.contains(#[trigger] without_id(events, n)[i]) by {
            if i < rest.len() {
                let x = rest[i];
                assert(events.drop_last().contains(x));
                let k = choose|k: int| 0 <= k < events.drop_last().len() && events.drop_last()[k] == x;
                assert(events[k] == x);
            } else {
                assert(events[events.len() - 1] == events.last());
            }
        }
    }
}

/// Updating an event in place keeps the ids distinct and below the next id.
pub proof fn law_update_keeps_wf(before: StoreView, i: int, e: LocalEventView)
    requires
        before.wf(),
        0 <= i < before.events.len(),
        e.id == before.events[i].id,
    ensures
        (StoreView { events: before.events.update(i, e), ..before }).wf(),
{
    let after = StoreView { events: before.events.update(i, e), ..before };
    assert forall|j: int| 0 <= j < after.events.len() implies #[trigger] after.events[j].id == before.events[j].id by {
    }
    assert forall|j: int, k: int| 0 <= j < k < after.events.len() implies #[trigger] after.events[j].id
        != #[trigger] after.events[k].id by {
        assert(after.events[j].id == before.events[j].id);
        assert(after.events[k].id == before.events[k].id);
    }
}

/// Whether a stored event's dates meet the days `start`..=`end`, counted by
/// day numbers: it starts no later than the last day and ends no earlier
/// than the first; an event without an end starts within the days; one
/// without a start never meets them.
pub open spec fn meets_days(e: LocalEventView, start: Date, end: Date) -> bool {
    match (e.start, e.end) {
        (Some(s), Some(f)) => s.date.num() <= end.num() && start.num() <= f.date.num(),
        (Some(s), None) => start.num() <= s.date.num() && s.date.num() <= end.num(),
        (None, _) => false,
    }
}

/// Whether the dates a stored event has are valid.
pub open spec fn dates_valid(e: LocalEventView) -> bool {
    &&& (e.start matches Some(s) ==> s.date.valid())
    &&& (e.end matches Some(f) ==> f.date.valid())
}

/// Listing the store for the days `start`..=`end` (both included) gives,
/// in stored order and as the calendar shows them, exactly the events whose
/// dates meet those days.
pub proof fn law_listed_events_meet_the_days(events: Seq<LocalEventView>, start: Date, end: Date)
    requires
        start.valid(),
        end.valid(),
        forall|i: int| 0 <= i < events.len() ==> dates_valid(#[trigger] events[i]),
    ensures
        listed(events, start, end) == events.filter(|e: LocalEventView| meets_days(e, start, end)).map_values(
            |e: LocalEventView| shown(e),
        ),
    decreases events.len(),
{
    reveal_with_fuel(Seq::<_>::filter, 1);
    let p = |e: LocalEventView| meets_days(e, start, end);
    if events.len() == 0 {
        assert(events.filter(p).map_values(|e: LocalEventView| shown(e)) =~= Seq::<EventView>::empty());
    } else {
        let init = events.drop_last();
        assert forall|i: int| 0 <= i < init.len() implies dates_valid(#[trigger] init[i]) by {
            assert(init[i] == events[i]);
        }
        law_listed_events_meet_the_days(init, start, end);
        let e = events.last();
        assert(dates_valid(events[events.len() - 1]));
        match (e.start, e.end) {
            (Some(st), Some(f)) => {
                crate::date::lemma_le_iff_num(st.date, end);
                crate::date::lemma_le_iff_num(start, f.date);
            },
            (Some(st), None) => {
                crate::date::lemma_le_iff_num(st.date, end);
                crate::date::lemma_le_iff_num(start, st.date);
            },
            (None, _) => {},
        }
        assert(in_range(e, start, end) == meets_days(e, start, end));
        let fl = init.filter(p);
        if meets_days(e, start, end) {
            assert(fl.push(e).map_values(|e: LocalEventView| shown(e)) =~= fl.map_values(
                |e: LocalEventView| shown(e),
            ).push(shown(e)));
        }
    }
}

/// Deleting the events numbered `n` keeps every other stored event, in
/// its order, and nothing else.
pub proof fn law_delete_keeps_the_others(events: Seq<LocalEventView>, n: u64)
    ensures
        without_id(events, n) == events.filter(|e: LocalEventView| e.id != n),
    decreases events.len(),
{
    reveal_with_fuel(Seq::<_>::filter, 1);
    if events.len() > 0 {
        law_delete_keeps_the_others(events.drop_last(), n);
    }
}

/// Deleting keeps the ids distinct and below the next id.
pub proof fn law_delete_keeps_wf(before: StoreView, n: u64)
    requires
        before.wf(),
    ensures
        (StoreView { events: without_id(before.events, n), next_id: before.next_id }).wf(),
{
    lemma_without_id_sub(before.events, n);
    law_without_id(before.events, n);
    let w = without_id(before.events, n);
    assert forall|i: int| 0 <= i < w.len() implies #[trigger] w[i].id < before.next_id by {
        assert(before.events.contains(w[i]));
    }
}

/// Whether the events of a sequence have distinct ids.
pub open spec fn distinct_ids(s: Seq<LocalEventView>) -> bool {
    forall|i: int, j: int| 0 <= i < j < s.len() ==> #[trigger] s[i].id != #[trigger] s[j].id
}

/// Removing events keeps the ids distinct.
proof fn lemma_without_id_sub(events: Seq<LocalEventView>, n: u64)
    requires
        distinct_ids(events),
    ensures
        distinct_ids(without_id(events, n)),
    decreases events.len(),
{
    if events.len() > 0 {
        let init = events.drop_last();
        assert(distinct_ids(init)) by {
            assert forall|i: int, j: int| 0 <= i < j < init.len() implies #[trigger] init[i].id != #[trigger] init[j].id by {
                assert(init[i] == events[i] && init[j] == events[j]);
            }
        }
        lemma_without_id_sub(init, n);
        law_without_id(init, n);
        let rest = without_id(init, n);
        if events.last().id != n {
            let w = rest.push(events.last());
            assert forall|i: int, j: int| 0 <= i < j < w.len() implies #[trigger] w[i].id != #[trigger] w[j].id by {
                if j == w.len() - 1 {
                    assert(init.contains(rest[i]));
                    let k = choose|k: int| 0 <= k < init.len() && init[k] == rest[i];
                    assert(events[k] == init[k]);
                    assert(events[events.len() - 1] == events.last());
                } else {
                    assert(w[i] == rest[i] && w[j] == rest[j]);
                }
            }
        }
    }
}

} // verus!
