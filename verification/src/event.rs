//! The event value type and the timestamp model.
//!
//! A timestamp is a count of seconds of local civil time since a midnight,
//! so that the calendar day of a timestamp and its time of day are plain
//! integer arithmetic. A committed event keeps `start <= end`; a working
//! copy under interaction is kept that way too by the clamping rules of
//! the interaction module.

use vstd::prelude::*;

verus! {

/// Opaque identity of an event: assigned at creation, stable across edits.
pub type EventId = String;

/// Seconds in one calendar day.
pub const SECS_PER_DAY: i64 = 86400;

/// Seconds in half a calendar day; the day-boundary heuristic splits a day here.
pub const HALF_DAY_SECS: i64 = 43200;

/// Upper bound of the modeled time axis (the midnight opening year 10000).
/// Keeping every timestamp in `[0, MAX_TS]` keeps all the arithmetic of this
/// crate far away from `i64` overflow.
pub const MAX_TS: i64 = 253402300800;

/// A timestamp lies on the modeled time axis.
pub open spec fn ts_ok(t: i64) -> bool {
    0 <= t <= MAX_TS
}

/// A configured minimum event duration: positive, at most half a day, so the
/// day-boundary heuristic can always place a minimum-duration span inside the
/// half day around its anchor.
pub open spec fn duration_ok(d: i64) -> bool {
    0 < d <= HALF_DAY_SECS
}

/// Calendar day of a timestamp.
pub open spec fn day_of(t: i64) -> int {
    t as int / (SECS_PER_DAY as int)
}

/// Seconds elapsed since the midnight beginning the day of `t`.
pub open spec fn time_of_day(t: i64) -> int {
    t as int % (SECS_PER_DAY as int)
}

/// Two timestamps fall on the same calendar day.
pub open spec fn on_same_day(a: i64, b: i64) -> bool {
    day_of(a) == day_of(b)
}

/// Decides whether two timestamps fall on the same calendar day.
pub fn on_the_same_day(a: i64, b: i64) -> (r: bool)
    requires
        ts_ok(a),
        ts_ok(b),
    ensures
        r == on_same_day(a, b),
{
    a / SECS_PER_DAY == b / SECS_PER_DAY
}

/// A calendar event. `changed` is the dirty marker consulted by the
/// persistence layer around this core to decide whether to re-flush.
pub struct Event {
    pub id: EventId,
    pub title: String,
    pub start: i64,
    pub end: i64,
    pub changed: bool,
}

impl Event {
    /// The invariant of a committed event: both endpoints on the time axis,
    /// in order.
    pub open spec fn wf(self) -> bool {
        ts_ok(self.start) && ts_ok(self.end) && self.start <= self.end
    }

    /// Length of the event's time range, in seconds.
    pub open spec fn duration(self) -> int {
        self.end - self.start
    }

    /// Sets the dirty marker.
    pub fn mark_changed(&mut self)
        ensures
            *final(self) == (Event { changed: true, ..*old(self) }),
    {
        self.changed = true;
    }
}

impl Clone for Event {
    fn clone(&self) -> (r: Event)
        ensures
            r == *self,
    {
        Event {
            id: self.id.clone(),
            title: self.title.clone(),
            start: self.start,
            end: self.end,
            changed: self.changed,
        }
    }
}

/// Some entry of the list carries the given identity.
pub open spec fn spec_has_id(s: Seq<Event>, id: Seq<char>) -> bool {
    exists|i: int| 0 <= i < s.len() && s[i].id@ == id
}

/// Decides whether some entry of the list carries the given identity.
pub fn has_id(events: &Vec<Event>, id: &EventId) -> (r: bool)
    ensures
        r == spec_has_id(events@, id@),
{
    let mut i: usize = 0;
    while i < events.len()
        invariant
            0 <= i <= events@.len(),
            forall|j: int| 0 <= j < i ==> events@[j].id@ != id@,
        decreases events@.len() - i,
    {
        if events[i].id == *id {
            assert(events@[i as int].id@ == id@);
            return true;
        }
        i = i + 1;
    }
    false
}

} // verus!
