//! The event-store capability: range-overlap queries and the
//! create / read / update / delete semantics over records keyed by event
//! identity, together with an in-memory realization of that capability.
//!
//! The directory-backed variant reuses the same pure pieces (the overlap
//! filter here, the naming and decode-skip logic of `local_dir`) around
//! the file system it owns.

use vstd::prelude::*;

use crate::event::{spec_has_id, Event, EventId};

verus! {

/// The range-overlap predicate of the store's range queries: an event is
/// visible in the closed interval `[from, to]` iff
/// `max(start, from) <= min(end, to)`; intervals that merely touch at an
/// endpoint count as overlapping.
pub open spec fn spec_overlaps(e: Event, from: i64, to: i64) -> bool {
    vstd::math::max(e.start as int, from as int) <= vstd::math::min(e.end as int, to as int)
}

/// Decides the overlap predicate for one event.
pub fn event_visible_in_range(e: &Event, start: i64, end: i64) -> (r: bool)
    ensures
        r == spec_overlaps(*e, start, end),
{
    let lo = if e.start > start {
        e.start
    } else {
        start
    };
    let hi = if e.end < end {
        e.end
    } else {
        end
    };
    lo <= hi
}

/// The events of a list that overlap the query interval, in their
/// original order.
pub open spec fn spec_overlapping(s: Seq<Event>, from: i64, to: i64) -> Seq<Event> {
    s.filter(|e: Event| spec_overlaps(e, from, to))
}

/// Keeps exactly the events that overlap the closed query interval.
pub fn filter_events_in_range(events: &Vec<Event>, from: i64, to: i64) -> (r: Vec<Event>)
    ensures
        r@ == spec_overlapping(events@, from, to),
{
    let mut out: Vec<Event> = Vec::new();
    let mut i: usize = 0;
    while i < events.len()
        invariant
            0 <= i <= events@.len(),
            out@ == spec_overlapping(events@.subrange(0, i as int), from, to),
        decreases events@.len() - i,
    {
        let ghost prefix = events@.subrange(0, i as int);
        if event_visible_in_range(&events[i], from, to) {
            out.push(events[i].clone());
        }
        proof {
            let next = events@.subrange(0, i as int + 1);
            assert(next.drop_last() =~= prefix);
            reveal(Seq::filter);
            assert(spec_overlapping(next, from, to) =~= (if spec_overlaps(
                events@[i as int],
                from,
                to,
            ) {
                spec_overlapping(prefix, from, to).push(events@[i as int])
            } else {
                spec_overlapping(prefix, from, to)
            }));
        }
        i = i + 1;
    }
    proof {
        assert(events@.subrange(0, events@.len() as int) =~= events@);
    }
    out
}

/// No two entries of the list carry the same identity.
pub open spec fn unique_ids(s: Seq<Event>) -> bool {
    forall|i: int, j: int| 0 <= i < j < s.len() ==> s[i].id@ != s[j].id@
}

/// What one stored record becomes when `e` is written: a record keyed by
/// `e`'s identity is overwritten in full, any other record stays.
pub open spec fn spec_store_replace(x: Event, e: Event) -> Event {
    if x.id@ == e.id@ {
        e
    } else {
        x
    }
}

/// The store's contents after writing `e`: the write simply overwrites
/// whatever record matches `e`'s identity, or adds `e` when none does.
pub open spec fn spec_stored_list(s: Seq<Event>, e: Event) -> Seq<Event> {
    if spec_has_id(s, e.id@) {
        s.map_values(|x: Event| spec_store_replace(x, e))
    } else {
        s.push(e)
    }
}

/// An in-memory event store: the full capability set over a list of
/// records with pairwise-distinct identities.
pub struct MemoryBackend {
    pub events: Vec<Event>,
}

impl MemoryBackend {
    /// No two stored records share an identity.
    pub open spec fn wf(self) -> bool {
        unique_ids(self.events@)
    }

    /// An empty store.
    pub fn new() -> (r: MemoryBackend)
        ensures
            r.wf(),
            r.events@.len() == 0,
    {
        MemoryBackend { events: Vec::new() }
    }

    /// Fetches the record with the given identity, or nothing when no
    /// record carries it.
    pub fn get_event(&self, event_id: &EventId) -> (r: Option<Event>)
        requires
            self.wf(),
        ensures
            (match r {
                Some(e) => e.id@ == event_id@ && self.events@.contains(e),
                None => !spec_has_id(self.events@, event_id@),
            }),
            (match r {
                Some(e) => forall|i: int|
                    0 <= i < self.events@.len() && self.events@[i].id@ == event_id@
                        ==> self.events@[i] == e,
                None => true,
            }),
    {
        let mut i: usize = 0;
        while i < self.events.len()
            invariant
                self.wf(),
                0 <= i <= self.events@.len(),
                forall|j: int| 0 <= j < i ==> self.events@[j].id@ != event_id@,
            decreases self.events@.len() - i,
        {
            if self.events[i].id == *event_id {
                let found = self.events[i].clone();
                assert(self.events@.contains(found)) by {
                    assert(self.events@[i as int] == found);
                }
                assert forall|j: int|
                    0 <= j < self.events@.len() && self.events@[j].id@ == event_id@ implies self
                    .events@[j] == found by {
                    if j < i as int {
                        assert(self.events@[j].id@ != self.events@[i as int].id@);
                    } else if j > i as int {
                        assert(self.events@[i as int].id@ != self.events@[j].id@);
                    }
                }
                return Some(found);
            }
            i = i + 1;
        }
        None
    }

    /// Every record overlapping the closed interval `[from, to]`; an empty
    /// result is not a failure. In memory, enumeration cannot fail, so the
    /// result is always available.
    pub fn get_events(&self, from: i64, to: i64) -> (r: Option<Vec<Event>>)
        ensures
            r matches Some(v) && v@ == spec_overlapping(self.events@, from, to),
    {
        Some(filter_events_in_range(&self.events, from, to))
    }

    /// Persists a brand-new record. The caller guarantees a fresh
    /// identity; no uniqueness check is made, the write simply overwrites
    /// whatever record matches.
    pub fn create_event(&mut self, event: &Event) -> (r: Option<()>)
        requires
            old(self).wf(),
        ensures
            r == Some(()),
            final(self).events@ == spec_stored_list(old(self).events@, *event),
            final(self).wf(),
    {
        store_event(&mut self.events, event);
        proof {
            lemma_stored_list_unique(old(self).events@, *event);
        }
        Some(())
    }

    /// Overwrites the record keyed by the event's identity in full. When
    /// no such record exists the write still succeeds, acting as an
    /// upsert; the result tells the caller whether a prior record was
    /// there, so the upsert can be surfaced as a recoverable warning.
    pub fn update_event(&mut self, updated_event: &Event) -> (r: Option<bool>)
        requires
            old(self).wf(),
        ensures
            r matches Some(existed) && existed == spec_has_id(
                old(self).events@,
                updated_event.id@,
            ),
            final(self).events@ == spec_stored_list(old(self).events@, *updated_event),
            final(self).wf(),
    {
        let existed = crate::event::has_id(&self.events, &updated_event.id);
        store_event(&mut self.events, updated_event);
        proof {
            lemma_stored_list_unique(old(self).events@, *updated_event);
        }
        Some(existed)
    }

    /// Removes the record for the identity. When no record exists this is
    /// a no-op success — the idempotent-delete rule — not a failure.
    pub fn delete_event(&mut self, event_id: &EventId) -> (r: Option<()>)
        requires
            old(self).wf(),
        ensures
            r == Some(()),
            final(self).events@ == crate::interaction::spec_removed_list(
                old(self).events@,
                event_id@,
            ),
            !spec_has_id(old(self).events@, event_id@) ==> final(self).events@ == old(
                self,
            ).events@,
            final(self).wf(),
    {
        crate::interaction::remove_deleted_events(&mut self.events, event_id.clone());
        proof {
            lemma_removed_list_unique(old(self).events@, event_id@);
            if !spec_has_id(old(self).events@, event_id@) {
                crate::interaction::lemma_remove_absent_id_is_noop(old(self).events@, event_id@);
            }
        }
        Some(())
    }
}

/// Writes `e` over the record with matching identity, or appends it.
fn store_event(events: &mut Vec<Event>, event: &Event)
    ensures
        final(events)@ == spec_stored_list(old(events)@, *event),
{
    let ghost target = *event;
    let mut out: Vec<Event> = Vec::new();
    let mut found = false;
    let mut i: usize = 0;
    while i < events.len()
        invariant
            0 <= i <= events@.len(),
            target == *event,
            out@ == events@.subrange(0, i as int).map_values(
                |x: Event| spec_store_replace(x, target),
            ),
            found == spec_has_id(events@.subrange(0, i as int), target.id@),
        decreases events@.len() - i,
    {
        let ghost prefix = events@.subrange(0, i as int);
        if events[i].id == event.id {
            out.push(event.clone());
            found = true;
            assert(events@.subrange(0, i as int + 1)[i as int].id@ == target.id@);
        } else {
            out.push(events[i].clone());
        }
        proof {
            let next = events@.subrange(0, i as int + 1);
            assert(next.drop_last() =~= prefix);
            assert(next.map_values(|x: Event| spec_store_replace(x, target)) =~= prefix.map_values(
                |x: Event| spec_store_replace(x, target),
            ).push(spec_store_replace(events@[i as int], target)));
            assert(spec_has_id(next, target.id@) == (spec_has_id(prefix, target.id@) || events@[
                i as int
            ].id@ == target.id@)) by {
                if spec_has_id(next, target.id@) {
                    let k = choose|k: int| 0 <= k < next.len() && next[k].id@ == target.id@;
                    if k < i as int {
                        assert(prefix[k].id@ == target.id@);
                    }
                }
                if spec_has_id(prefix, target.id@) {
                    let k = choose|k: int| 0 <= k < prefix.len() && prefix[k].id@ == target.id@;
                    assert(next[k].id@ == target.id@);
                }
            }
        }
        i = i + 1;
    }
    proof {
        assert(events@.subrange(0, events@.len() as int) =~= events@);
    }
    if !found {
        out.push(event.clone());
    } else {
        proof {
            assert(out@ =~= spec_stored_list(events@, target));
        }
    }
    *events = out;
}

/// Writing a record preserves pairwise-distinct identities.
pub proof fn lemma_stored_list_unique(s: Seq<Event>, e: Event)
    requires
        unique_ids(s),
    ensures
        unique_ids(spec_stored_list(s, e)),
{
    let s2 = spec_stored_list(s, e);
    if spec_has_id(s, e.id@) {
        assert forall|i: int, j: int| 0 <= i < j < s2.len() implies s2[i].id@ != s2[j].id@ by {
            assert(s2[i] == spec_store_replace(s[i], e));
            assert(s2[j] == spec_store_replace(s[j], e));
        }
    } else {
        assert forall|i: int, j: int| 0 <= i < j < s2.len() implies s2[i].id@ != s2[j].id@ by {
            if j == s.len() {
                assert(s2[i] == s[i]);
                if s[i].id@ == e.id@ {
                    assert(spec_has_id(s, e.id@));
                }
            } else {
                assert(s2[i] == s[i] && s2[j] == s[j]);
            }
        }
    }
}

/// Removing an identity preserves pairwise-distinct identities, and every
/// record it keeps was stored before.
pub proof fn lemma_removed_list_unique(s: Seq<Event>, id: Seq<char>)
    requires
        unique_ids(s),
    ensures
        unique_ids(crate::interaction::spec_removed_list(s, id)),
        forall|i: int|
            0 <= i < crate::interaction::spec_removed_list(s, id).len() ==> s.contains(
                #[trigger] crate::interaction::spec_removed_list(s, id)[i],
            ),
    decreases s.len(),
{
    reveal(Seq::filter);
    let out = crate::interaction::spec_removed_list(s, id);
    if s.len() == 0 {
        assert(out =~= s);
    } else {
        let dl = s.drop_last();
        assert(unique_ids(dl)) by {
            assert forall|i: int, j: int| 0 <= i < j < dl.len() implies dl[i].id@ != dl[j].id@ by {
                assert(dl[i] == s[i] && dl[j] == s[j]);
            }
        }
        lemma_removed_list_unique(dl, id);
        let sub = crate::interaction::spec_removed_list(dl, id);
        assert forall|i: int| 0 <= i < sub.len() implies s.contains(sub[i]) by {
            assert(dl.contains(sub[i]));
            let k = choose|k: int| 0 <= k < dl.len() && dl[k] == sub[i];
            assert(s[k] == sub[i]);
        }
        if s.last().id@ != id {
            assert(out == sub.push(s.last()));
            assert(s.contains(s.last())) by {
                assert(s[s.len() - 1] == s.last());
            }
            assert forall|i: int, j: int| 0 <= i < j < out.len() implies out[i].id@ != out[j].id@ by {
                if j < out.len() - 1 {
                    assert(out[i] == sub[i] && out[j] == sub[j]);
                } else {
                    assert(out[i] == sub[i] && out[j] == s.last());
                    assert(dl.contains(sub[i]));
                    let k = choose|k: int| 0 <= k < dl.len() && dl[k] == sub[i];
                    assert(s[k] == sub[i] && s[s.len() - 1] == s.last());
                }
            }
        } else {
            assert(out == sub);
        }
    }
}

/// Round-trip law of the store: after writing `e`, the record carrying
/// `e`'s identity exists and is equal to `e` in all fields, so a fetch of
/// `e.id` returns exactly `e`.
pub proof fn lemma_store_round_trip(s: Seq<Event>, e: Event)
    ensures
        spec_has_id(spec_stored_list(s, e), e.id@),
        forall|i: int|
            0 <= i < spec_stored_list(s, e).len() && #[trigger] spec_stored_list(s, e)[i].id@
                == e.id@ ==> spec_stored_list(s, e)[i] == e,
{
    let s2 = spec_stored_list(s, e);
    if spec_has_id(s, e.id@) {
        let k = choose|k: int| 0 <= k < s.len() && s[k].id@ == e.id@;
        assert(s2[k] == spec_store_replace(s[k], e));
        assert(s2[k].id@ == e.id@);
        assert forall|i: int| 0 <= i < s2.len() && #[trigger] s2[i].id@ == e.id@ implies s2[i]
            == e by {
            assert(s2[i] == spec_store_replace(s[i], e));
        }
    } else {
        assert(s2[s.len() as int] == e);
        assert forall|i: int| 0 <= i < s2.len() && #[trigger] s2[i].id@ == e.id@ implies s2[i]
            == e by {
            if i < s.len() {
                assert(s2[i] == s[i]);
                assert(spec_has_id(s, e.id@));
            }
        }
    }
}

/// Membership law of range queries: an event is in the result of a range
/// query iff it is stored and its range overlaps the closed query
/// interval — boundary-touching intervals included.
pub proof fn lemma_overlap_membership(s: Seq<Event>, from: i64, to: i64, e: Event)
    ensures
        spec_overlapping(s, from, to).contains(e) <==> s.contains(e) && spec_overlaps(e, from, to),
    decreases s.len(),
{
    reveal(Seq::filter);
    let out = spec_overlapping(s, from, to);
    if s.len() == 0 {
        assert(out =~= s);
    } else {
        let dl = s.drop_last();
        lemma_overlap_membership(dl, from, to, e);
        let sub = spec_overlapping(dl, from, to);
        assert(dl.contains(e) ==> s.contains(e)) by {
            if dl.contains(e) {
                let k = choose|k: int| 0 <= k < dl.len() && dl[k] == e;
                assert(s[k] == e);
            }
        }
        if spec_overlaps(s.last(), from, to) {
            assert(out == sub.push(s.last()));
            if out.contains(e) {
                let k = choose|k: int| 0 <= k < out.len() && out[k] == e;
                if k < out.len() - 1 {
                    assert(sub[k] == e);
                    assert(sub.contains(e));
                } else {
                    assert(e == s.last());
                    assert(s[s.len() - 1] == e);
                }
            }
            if s.contains(e) && spec_overlaps(e, from, to) {
                let k = choose|k: int| 0 <= k < s.len() && s[k] == e;
                if k < s.len() - 1 {
                    assert(dl[k] == e);
                    assert(dl.contains(e));
                    let m = choose|m: int| 0 <= m < sub.len() && sub[m] == e;
                    assert(out[m] == e);
                } else {
                    assert(out[out.len() - 1] == e);
                }
            }
        } else {
            assert(out == sub);
            if out.contains(e) {
                assert(sub.contains(e));
            }
            if s.contains(e) && spec_overlaps(e, from, to) {
                let k = choose|k: int| 0 <= k < s.len() && s[k] == e;
                if k < s.len() - 1 {
                    assert(dl[k] == e);
                    assert(dl.contains(e));
                } else {
                    assert(e == s.last());
                }
            }
        }
    }
}

} // verus!
