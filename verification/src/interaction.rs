//! The interaction state machine: the lifecycle of an event under active
//! manipulation (editing, dragging, resizing, cloning), its commit and
//! discard rules, and the once-per-frame reconciliation of commits and
//! deletions into the authoritative event list.
//!
//! The machine is purely functional over its own state plus a per-frame
//! snapshot of plain values (gesture flags, the pointer position already
//! mapped to a timestamp, the text of the in-place editor). The rendering
//! shell around this core computes the snapshot and draws the result; it
//! never mutates the authoritative list itself.

use vstd::prelude::*;

use crate::event::{
    duration_ok, on_same_day, on_the_same_day, spec_has_id, time_of_day, ts_ok, Event, EventId,
    HALF_DAY_SECS, MAX_TS, SECS_PER_DAY,
};

verus! {

/// The state of the one event under active manipulation.
#[derive(Debug, Clone, Copy, PartialEq, Eq, Structural)]
pub enum FocusedEventState {
    Editing,
    Dragging,
    DraggingEventStart,
    DraggingEventEnd,
    EventCloning,
}

/// What the pointer cursor should look like after a region classification:
/// hovering a resize band or a block body changes the hint only, it starts
/// no interaction.
#[derive(Debug, Clone, Copy, PartialEq, Eq, Structural)]
pub enum CursorHint {
    Unchanged,
    ResizeVertical,
    Grab,
}

/// The working copy of the event being manipulated, with the manipulation
/// it is under. Mutations of the working copy do not reach the
/// authoritative list until the interaction commits.
pub struct InteractingEvent {
    pub event: Event,
    pub state: FocusedEventState,
}

impl InteractingEvent {
    /// A live interaction is never in the transient `EventCloning` state:
    /// cloning switches immediately to `Dragging` on the fresh copy.
    pub open spec fn wf(self) -> bool {
        self.event.wf() && self.state != FocusedEventState::EventCloning
    }
}

impl Clone for InteractingEvent {
    fn clone(&self) -> (r: InteractingEvent)
        ensures
            r == *self,
    {
        InteractingEvent { event: self.event.clone(), state: self.state }
    }
}

/// The anchor of a drag that is creating a new event on empty grid space:
/// the identity of the event being formed and the timestamp first hit.
pub struct NewEventDrag {
    pub event_id: EventId,
    pub init_time: i64,
}

impl Clone for NewEventDrag {
    fn clone(&self) -> (r: NewEventDrag)
        ensures
            r == *self,
    {
        NewEventDrag { event_id: self.event_id.clone(), init_time: self.init_time }
    }
}

/// One open calendar view: the authoritative event list it owns, the
/// configured minimum event duration, and the scratch state of the single
/// interaction model — at most one active interaction, at most one
/// committed-but-unreconciled event, at most one pending deletion.
pub struct ScheduleUi {
    pub events: Vec<Event>,
    pub min_event_duration: i64,
    pub interacting: Option<InteractingEvent>,
    pub committed: Option<Event>,
    pub deleted: Option<EventId>,
    pub new_event_drag: Option<NewEventDrag>,
}

impl ScheduleUi {
    pub open spec fn wf(self) -> bool {
        &&& duration_ok(self.min_event_duration)
        &&& (match self.interacting {
            Some(ie) => ie.wf(),
            None => true,
        })
        &&& (match self.new_event_drag {
            Some(nd) => 0 <= nd.init_time <= MAX_TS - SECS_PER_DAY,
            None => true,
        })
    }

    /// A fresh view over a given authoritative list, with no interaction
    /// in flight.
    pub fn new(events: Vec<Event>, min_event_duration: i64) -> (r: ScheduleUi)
        requires
            duration_ok(min_event_duration),
        ensures
            r.wf(),
            r.events == events,
            r.min_event_duration == min_event_duration,
            r.interacting == None::<InteractingEvent>,
            r.committed == None::<Event>,
            r.deleted == None::<EventId>,
            r.new_event_drag == None::<NewEventDrag>,
    {
        ScheduleUi {
            events,
            min_event_duration,
            interacting: None,
            committed: None,
            deleted: None,
            new_event_drag: None,
        }
    }
}

impl InteractingEvent {
    /// The active interaction, if any.
    pub fn get(st: &ScheduleUi) -> (r: Option<InteractingEvent>)
        ensures
            r == st.interacting,
    {
        match &st.interacting {
            None => None,
            Some(v) => Some(v.clone()),
        }
    }

    /// Starts (or replaces) the active interaction.
    pub fn set(st: &mut ScheduleUi, event: Event, state: FocusedEventState)
        ensures
            *final(st) == (ScheduleUi {
                interacting: Some(InteractingEvent { event, state }),
                ..*old(st)
            }),
    {
        st.interacting = Some(InteractingEvent { event, state });
    }

    /// Re-saves this record for the next frame.
    pub fn save(self, st: &mut ScheduleUi)
        ensures
            *final(st) == (ScheduleUi { interacting: Some(self), ..*old(st) }),
    {
        st.interacting = Some(self);
    }

    /// Abandons the active interaction. The authoritative list is left
    /// exactly as it was before the interaction began.
    pub fn discard(st: &mut ScheduleUi)
        ensures
            *final(st) == (ScheduleUi { interacting: None, ..*old(st) }),
            final(st).events == old(st).events,
    {
        st.interacting = None;
    }

    /// Finalizes the working copy: it moves into the committed slot, which
    /// the next reconciliation pass drains, and the interaction ends.
    pub fn commit(self, st: &mut ScheduleUi)
        ensures
            *final(st) == (ScheduleUi {
                interacting: None,
                committed: Some(self.event),
                ..*old(st)
            }),
    {
        st.committed = Some(self.event);
        st.interacting = None;
    }

    /// Drains the committed slot.
    pub fn take_commited_event(st: &mut ScheduleUi) -> (r: Option<Event>)
        ensures
            r == old(st).committed,
            *final(st) == (ScheduleUi { committed: None, ..*old(st) }),
    {
        st.committed.take()
    }

    /// The active interaction, if it is on the event with the given identity.
    pub fn get_id(st: &ScheduleUi, id: &EventId) -> (r: Option<InteractingEvent>)
        ensures
            r == (match st.interacting {
                Some(v) => if v.event.id@ == id@ {
                    Some(v)
                } else {
                    None::<InteractingEvent>
                },
                None => None::<InteractingEvent>,
            }),
    {
        match &st.interacting {
            None => None,
            Some(v) => if v.event.id == *id {
                Some(v.clone())
            } else {
                None
            },
        }
    }

    /// The working copy of the active interaction, if any.
    pub fn get_event(st: &ScheduleUi) -> (r: Option<Event>)
        ensures
            r == (match st.interacting {
                Some(v) => Some(v.event),
                None => None::<Event>,
            }),
    {
        match &st.interacting {
            None => None,
            Some(v) => Some(v.event.clone()),
        }
    }
}

/// The pending deleted-event marker: a single identity recorded by the
/// context-menu delete action, consumed once per reconciliation pass.
pub struct DeletedEvent {
    pub event_id: EventId,
}

impl DeletedEvent {
    /// Records the identity to delete on the next reconciliation pass.
    pub fn set(st: &mut ScheduleUi, event_id: &EventId)
        ensures
            *final(st) == (ScheduleUi { deleted: Some(*event_id), ..*old(st) }),
    {
        st.deleted = Some(event_id.clone());
    }

    /// Drains the pending deletion marker.
    pub fn take(st: &mut ScheduleUi) -> (r: Option<EventId>)
        ensures
            r == old(st).deleted,
            *final(st) == (ScheduleUi { deleted: None, ..*old(st) }),
    {
        st.deleted.take()
    }
}

/// Editing overrides an existing drag state once the gesture turns out to
/// be a click; once in `Editing`, nothing overrides it back to a drag.
pub open spec fn spec_state_override(
    old_state: FocusedEventState,
    new_state: FocusedEventState,
) -> FocusedEventState {
    if new_state == FocusedEventState::Editing {
        new_state
    } else {
        old_state
    }
}

/// Transition-priority rule: a re-classification switches the interaction
/// only towards `Editing`, never away from it.
pub fn state_override(
    old_state: FocusedEventState,
    new_state: FocusedEventState,
) -> (r: FocusedEventState)
    ensures
        r == spec_state_override(old_state, new_state),
{
    if new_state == FocusedEventState::Editing {
        return new_state;
    }
    old_state
}

/// The committed working copy `e` with its dirty marker set.
pub open spec fn spec_marked(e: Event) -> Event {
    Event { changed: true, ..e }
}

/// What one authoritative entry becomes when `e` is committed: entries
/// carrying `e`'s identity are overwritten by the marked `e`, others stay.
pub open spec fn spec_replace(x: Event, e: Event) -> Event {
    if x.id@ == e.id@ {
        spec_marked(e)
    } else {
        x
    }
}

/// The authoritative list after committing `e`: if some entry matches
/// `e`'s identity, every matching entry is overwritten in place by the
/// marked `e`; otherwise the marked `e` is appended.
pub open spec fn spec_committed_list(s: Seq<Event>, e: Event) -> Seq<Event> {
    if spec_has_id(s, e.id@) {
        s.map_values(|x: Event| spec_replace(x, e))
    } else {
        s.push(spec_marked(e))
    }
}

/// Merges a committed working copy into the authoritative list: it
/// overwrites the entry with matching identity, or is appended as a new
/// entry if no identity matches; either way the stored copy carries the
/// dirty marker. This one path covers both "edited existing event" and
/// "newly created event".
pub fn commit_updated_event(events: &mut Vec<Event>, commited_event: Event)
    ensures
        final(events)@ == spec_committed_list(old(events)@, commited_event),
        spec_has_id(old(events)@, commited_event.id@) ==> final(events)@.len() == old(
            events,
        )@.len(),
        !spec_has_id(old(events)@, commited_event.id@) ==> final(events)@.len() == old(
            events,
        )@.len() + 1 && final(events)@.last() == spec_marked(commited_event),
        spec_has_id(old(events)@, commited_event.id@) ==> forall|j: int|
            0 <= j < final(events)@.len() && old(events)@[j].id@ == commited_event.id@
                ==> final(events)@[j] == spec_marked(commited_event),
{
    let marked = {
        let mut m = commited_event.clone();
        m.mark_changed();
        m
    };
    let ghost target = commited_event;
    let mut out: Vec<Event> = Vec::new();
    let mut updated = false;
    let mut i: usize = 0;
    while i < events.len()
        invariant
            0 <= i <= events@.len(),
            marked == spec_marked(target),
            marked.id@ == target.id@,
            out@ == events@.subrange(0, i as int).map_values(|x: Event| spec_replace(x, target)),
            updated == spec_has_id(events@.subrange(0, i as int), target.id@),
        decreases events@.len() - i,
    {
        let ghost prefix = events@.subrange(0, i as int);
        if events[i].id == marked.id {
            out.push(marked.clone());
            updated = true;
            assert(events@.subrange(0, i as int + 1)[i as int].id@ == target.id@);
        } else {
            out.push(events[i].clone());
        }
        proof {
            let next = events@.subrange(0, i as int + 1);
            assert(next.drop_last() =~= prefix);
            assert(next.map_values(|x: Event| spec_replace(x, target)) =~= prefix.map_values(
                |x: Event| spec_replace(x, target),
            ).push(spec_replace(events@[i as int], target)));
            assert(spec_has_id(next, target.id@) == (spec_has_id(prefix, target.id@) || events@[
                i as int
            ].id@ == target.id@)) by {
                if spec_has_id(next, target.id@) {
                    let k = choose|k: int| 0 <= k < next.len() && next[k].id@ == target.id@;
                    if k < i as int {
                        assert(prefix[k].id@ == target.id@);
                    }
                }
                if spec_has_id(prefix, target.id@) {
                    let k = choose|k: int| 0 <= k < prefix.len() && prefix[k].id@ == target.id@;
                    assert(next[k].id@ == target.id@);
                }
            }
        }
        i = i + 1;
    }
    proof {
        assert(events@.subrange(0, events@.len() as int) =~= events@);
    }
    if !updated {
        out.push(marked);
    } else {
        proof {
            assert(out@ =~= spec_committed_list(events@, target));
        }
    }
    *events = out;
}

/// The authoritative list after consuming a pending deletion: every entry
/// whose identity matches is removed, the rest keep their order.
pub open spec fn spec_removed_list(s: Seq<Event>, id: Seq<char>) -> Seq<Event> {
    s.filter(|x: Event| x.id@ != id)
}

/// Removes every authoritative entry whose identity matches the pending
/// deletion marker.
pub fn remove_deleted_events(events: &mut Vec<Event>, deleted_event_id: EventId)
    ensures
        final(events)@ == spec_removed_list(old(events)@, deleted_event_id@),
{
    let ghost id: Seq<char> = deleted_event_id@;
    let mut out: Vec<Event> = Vec::new();
    let mut i: usize = 0;
    while i < events.len()
        invariant
            0 <= i <= events@.len(),
            id == deleted_event_id@,
            out@ == spec_removed_list(events@.subrange(0, i as int), id),
        decreases events@.len() - i,
    {
        let ghost prefix = events@.subrange(0, i as int);
        if !(events[i].id == deleted_event_id) {
            out.push(events[i].clone());
        }
        proof {
            let next = events@.subrange(0, i as int + 1);
            assert(next.drop_last() =~= prefix);
            reveal(Seq::filter);
            assert(spec_removed_list(next, id) =~= (if events@[i as int].id@ != id {
                spec_removed_list(prefix, id).push(events@[i as int])
            } else {
                spec_removed_list(prefix, id)
            }));
        }
        i = i + 1;
    }
    proof {
        assert(events@.subrange(0, events@.len() as int) =~= events@);
    }
    *events = out;
}

/// The event after its start edge is dragged to `time`: the start is
/// clamped at `end - d` so the duration never drops below the minimum `d`;
/// the end does not move.
pub open spec fn spec_moved_start(e: Event, time: i64, d: i64) -> Event {
    Event {
        start: if time as int > e.end - d {
            (e.end - d) as i64
        } else {
            time
        },
        ..e
    }
}

/// The event after its end edge is dragged to `time`: the end is clamped
/// at `start + d`; the start does not move.
pub open spec fn spec_moved_end(e: Event, time: i64, d: i64) -> Event {
    Event {
        end: if (time as int) < e.start + d {
            (e.start + d) as i64
        } else {
            time
        },
        ..e
    }
}

/// The event after its whole block is dragged so that it starts at `t`:
/// the duration is preserved.
pub open spec fn spec_moved(e: Event, t: i64) -> Event {
    Event { start: t, end: (t + (e.end - e.start)) as i64, ..e }
}

/// The working copy seeded by a cloning gesture: a duplicate of `e` under
/// a fresh identity, not yet committed anywhere.
pub open spec fn spec_cloned(e: Event, fresh_id: EventId) -> Event {
    Event { id: fresh_id, changed: false, ..e }
}

/// Resizes the working event's start to the pointer-mapped `time`,
/// clamping so the duration never drops below `min_duration`.
pub fn move_event_start(event: &mut Event, time: i64, min_duration: i64)
    requires
        old(event).wf(),
        ts_ok(time),
        duration_ok(min_duration),
        min_duration <= old(event).end,
    ensures
        *final(event) == spec_moved_start(*old(event), time, min_duration),
        final(event).end == old(event).end,
        time as int > old(event).end - min_duration ==> final(event).start == old(event).end
            - min_duration,
        time as int <= old(event).end - min_duration ==> final(event).start == time,
        final(event).wf(),
        final(event).duration() >= min_duration,
{
    let limit = event.end - min_duration;
    let new_start = if time > limit {
        limit
    } else {
        time
    };
    event.start = new_start;
}

/// Resizes the working event's end to the pointer-mapped `time`, clamping
/// so the duration never drops below `min_duration`.
pub fn move_event_end(event: &mut Event, time: i64, min_duration: i64)
    requires
        old(event).wf(),
        ts_ok(time),
        duration_ok(min_duration),
        old(event).start + min_duration <= MAX_TS,
    ensures
        *final(event) == spec_moved_end(*old(event), time, min_duration),
        final(event).start == old(event).start,
        final(event).wf(),
        final(event).duration() >= min_duration,
{
    let limit = event.start + min_duration;
    let new_end = if time < limit {
        limit
    } else {
        time
    };
    event.end = new_end;
}

/// Moves the whole working event so that it starts at `new_start`; its
/// duration is preserved, so the end tracks along.
pub fn move_event(event: &mut Event, new_start: i64)
    requires
        old(event).wf(),
        ts_ok(new_start),
        new_start + old(event).duration() <= MAX_TS,
    ensures
        *final(event) == spec_moved(*old(event), new_start),
        final(event).start == new_start,
        final(event).duration() == old(event).duration(),
        final(event).wf(),
{
    let duration = event.end - event.start;
    event.end = new_start + duration;
    event.start = new_start;
}

/// Seeds the duplicate that a cloning gesture drags away: same title, same
/// time range (hence same duration), a fresh identity, and no dirty marker
/// yet. The original event is left untouched.
pub fn clone_to_new_event(event: &Event, fresh_id: EventId) -> (r: Event)
    ensures
        r == spec_cloned(*event, fresh_id),
{
    Event {
        id: fresh_id,
        title: event.title.clone(),
        start: event.start,
        end: event.end,
        changed: false,
    }
}

/// One pointer-driven update of the working event, with the guards the
/// machine applies: an update whose result would leave the modeled time
/// axis is skipped, like any other mapping failure, and the frame becomes
/// a no-op.
pub open spec fn spec_interact_update(e: Event, state: FocusedEventState, t: i64, d: i64) -> Event {
    match state {
        FocusedEventState::DraggingEventStart => if d <= e.end {
            spec_moved_start(e, t, d)
        } else {
            e
        },
        FocusedEventState::DraggingEventEnd => if e.start + d <= MAX_TS {
            spec_moved_end(e, t, d)
        } else {
            e
        },
        FocusedEventState::Dragging => if t + (e.end - e.start) <= MAX_TS {
            spec_moved(e, t)
        } else {
            e
        },
        _ => e,
    }
}

/// Advances a start- or end-resize interaction by one frame. While the
/// drag gesture is still active the pointer-mapped time becomes the new
/// boundary (clamped to the minimum duration) and the interaction goes on;
/// when the gesture has ended the frame reports a commit and touches
/// nothing.
pub fn handle_event_resizing(
    event: &mut Event,
    resize_start: bool,
    drag_active: bool,
    pointer_time: Option<i64>,
    min_duration: i64,
) -> (r: Option<bool>)
    requires
        old(event).wf(),
        duration_ok(min_duration),
        (match pointer_time {
            Some(t) => ts_ok(t),
            None => true,
        }),
    ensures
        !drag_active ==> r == Some(true) && *final(event) == *old(event),
        drag_active ==> r == None::<bool> && *final(event) == (match pointer_time {
            Some(t) => spec_interact_update(
                *old(event),
                if resize_start {
                    FocusedEventState::DraggingEventStart
                } else {
                    FocusedEventState::DraggingEventEnd
                },
                t,
                min_duration,
            ),
            None => *old(event),
        }),
        final(event).wf(),
{
    if !drag_active {
        return Some(true);
    }
    if let Some(t) = pointer_time {
        if resize_start {
            if min_duration <= event.end {
                move_event_start(event, t, min_duration);
            }
        } else {
            if event.start <= MAX_TS - min_duration {
                move_event_end(event, t, min_duration);
            }
        }
    }
    None
}

/// Advances a whole-block drag by one frame. The pointer time arrives with
/// the grab offset already folded in, so the block's top edge tracks its
/// grab point; the duration is preserved. A finished gesture reports a
/// commit.
pub fn handle_event_dragging(
    event: &mut Event,
    drag_active: bool,
    pointer_time: Option<i64>,
) -> (r: Option<bool>)
    requires
        old(event).wf(),
        (match pointer_time {
            Some(t) => ts_ok(t),
            None => true,
        }),
    ensures
        !drag_active ==> r == Some(true) && *final(event) == *old(event),
        drag_active ==> r == None::<bool> && *final(event) == (match pointer_time {
            Some(t) => spec_interact_update(
                *old(event),
                FocusedEventState::Dragging,
                t,
                0,
            ),
            None => *old(event),
        }),
        final(event).wf(),
{
    if !drag_active {
        return Some(true);
    }
    if let Some(t) = pointer_time {
        let duration = event.end - event.start;
        if t <= MAX_TS - duration {
            move_event(event, t);
        }
    }
    None
}

/// Advances any drag or resize interaction by one frame, dispatching on
/// the interaction state. Editing frames take another path, and a cloning
/// gesture has already become a drag of the fresh copy before any frame is
/// advanced, so neither state reaches this function.
pub fn interact_event(
    event: &mut Event,
    state: FocusedEventState,
    drag_active: bool,
    pointer_time: Option<i64>,
    min_duration: i64,
) -> (r: Option<bool>)
    requires
        old(event).wf(),
        duration_ok(min_duration),
        state != FocusedEventState::Editing,
        state != FocusedEventState::EventCloning,
        (match pointer_time {
            Some(t) => ts_ok(t),
            None => true,
        }),
    ensures
        !drag_active ==> r == Some(true) && *final(event) == *old(event),
        drag_active ==> r == None::<bool> && *final(event) == (match pointer_time {
            Some(t) => spec_interact_update(*old(event), state, t, min_duration),
            None => *old(event),
        }),
        final(event).wf(),
{
    match state {
        FocusedEventState::DraggingEventStart => handle_event_resizing(
            event,
            true,
            drag_active,
            pointer_time,
            min_duration,
        ),
        FocusedEventState::DraggingEventEnd => handle_event_resizing(
            event,
            false,
            drag_active,
            pointer_time,
            min_duration,
        ),
        _ => handle_event_dragging(event, drag_active, pointer_time),
    }
}

/// How a pointer gesture over a static event block is classified. The
/// block is divided into an upper resize band, a lower resize band, and
/// the body between them; a plain click anywhere means editing; a drag
/// started in a band resizes; a drag started in the body moves the event,
/// or clones it when the modifier key is held; hovering only adjusts the
/// cursor hint.
pub open spec fn spec_classify(
    pointer_present: bool,
    clicked: bool,
    drag_started: bool,
    ctrl_held: bool,
    in_upper: bool,
    in_lower: bool,
    in_rect: bool,
) -> (Option<FocusedEventState>, CursorHint) {
    if !pointer_present {
        (None, CursorHint::Unchanged)
    } else if clicked {
        (Some(FocusedEventState::Editing), CursorHint::Unchanged)
    } else if in_upper {
        (
            if drag_started {
                Some(FocusedEventState::DraggingEventStart)
            } else {
                None
            },
            CursorHint::ResizeVertical,
        )
    } else if in_lower {
        (
            if drag_started {
                Some(FocusedEventState::DraggingEventEnd)
            } else {
                None
            },
            CursorHint::ResizeVertical,
        )
    } else if in_rect {
        (
            if drag_started && ctrl_held {
                Some(FocusedEventState::EventCloning)
            } else if drag_started {
                Some(FocusedEventState::Dragging)
            } else {
                None
            },
            CursorHint::Grab,
        )
    } else {
        (None, CursorHint::Unchanged)
    }
}

/// Classifies the pointer gesture against one static event block, from
/// plain geometry facts computed by the rendering shell: whether a pointer
/// position is available, whether the block was clicked, whether a
/// primary-button drag started this frame, whether the modifier key is
/// held, and which region of the block the position falls in.
pub fn interact_event_region(
    pointer_present: bool,
    clicked: bool,
    drag_started: bool,
    ctrl_held: bool,
    in_upper: bool,
    in_lower: bool,
    in_rect: bool,
) -> (r: (Option<FocusedEventState>, CursorHint))
    ensures
        r == spec_classify(
            pointer_present,
            clicked,
            drag_started,
            ctrl_held,
            in_upper,
            in_lower,
            in_rect,
        ),
{
    if !pointer_present {
        return (None, CursorHint::Unchanged);
    }
    if clicked {
        return (Some(FocusedEventState::Editing), CursorHint::Unchanged);
    }
    if in_upper {
        if drag_started {
            return (Some(FocusedEventState::DraggingEventStart), CursorHint::ResizeVertical);
        }
        return (None, CursorHint::ResizeVertical);
    }
    if in_lower {
        if drag_started {
            return (Some(FocusedEventState::DraggingEventEnd), CursorHint::ResizeVertical);
        }
        return (None, CursorHint::ResizeVertical);
    }
    if in_rect {
        if drag_started && ctrl_held {
            return (Some(FocusedEventState::EventCloning), CursorHint::Grab);
        }
        if drag_started {
            return (Some(FocusedEventState::Dragging), CursorHint::Grab);
        }
        return (None, CursorHint::Grab);
    }
    (None, CursorHint::Unchanged)
}

/// Where a drag creating a new event puts the working copy, given the
/// anchor timestamp recorded at drag start and the timestamp under the
/// pointer now. The two are reordered so the earlier one is the tentative
/// start; if the span would cross a calendar day, the event is instead a
/// single minimum-duration span at the anchor — starting there when the
/// anchor falls in the first half of its day, ending there otherwise. The
/// follow-up interaction resizes the start when the anchor turned out to
/// be the later endpoint, else the end.
pub open spec fn spec_assigned_dates(init: i64, now: i64, d: i64) -> (i64, i64, FocusedEventState) {
    let reordered = now < init;
    let lo = if reordered {
        now
    } else {
        init
    };
    let hi = if reordered {
        init
    } else {
        now
    };
    let state = if reordered {
        FocusedEventState::DraggingEventStart
    } else {
        FocusedEventState::DraggingEventEnd
    };
    if on_same_day(lo, hi) {
        (lo, hi, state)
    } else if time_of_day(init) < HALF_DAY_SECS as int {
        (init, (init + d) as i64, state)
    } else {
        ((init - d) as i64, init, state)
    }
}

/// Assigns the working copy's dates while a drag on empty grid space is
/// forming a new event, applying the day-boundary heuristic, and reports
/// which resize interaction should continue the gesture.
pub fn assign_new_event_dates(
    event: &mut Event,
    init_time: i64,
    new_time: i64,
    min_duration: i64,
) -> (r: FocusedEventState)
    requires
        ts_ok(new_time),
        0 <= init_time <= MAX_TS - SECS_PER_DAY,
        duration_ok(min_duration),
    ensures
        ({
            let (s, e, st) = spec_assigned_dates(init_time, new_time, min_duration);
            final(event).start == s && final(event).end == e && r == st
        }),
        final(event).id == old(event).id,
        final(event).title == old(event).title,
        final(event).changed == old(event).changed,
        final(event).wf(),
        r != FocusedEventState::Editing && r != FocusedEventState::EventCloning,
{
    proof {
        vstd::arithmetic::div_mod::lemma_fundamental_div_mod(init_time as int, 86400);
        vstd::arithmetic::div_mod::lemma_div_pos_is_pos(init_time as int, 86400);
    }
    let reordered = new_time < init_time;
    let lo = if reordered {
        new_time
    } else {
        init_time
    };
    let hi = if reordered {
        init_time
    } else {
        new_time
    };
    let state = if reordered {
        FocusedEventState::DraggingEventStart
    } else {
        FocusedEventState::DraggingEventEnd
    };
    if on_the_same_day(lo, hi) {
        event.start = lo;
        event.end = hi;
    } else if init_time % SECS_PER_DAY < HALF_DAY_SECS {
        event.start = init_time;
        event.end = init_time + min_duration;
    } else {
        event.start = init_time - min_duration;
        event.end = init_time;
    }
    state
}

/// Deleting an identity that no entry carries leaves the list unchanged:
/// the idempotent-delete rule at the list level.
pub proof fn lemma_remove_absent_id_is_noop(s: Seq<Event>, id: Seq<char>)
    requires
        !spec_has_id(s, id),
    ensures
        spec_removed_list(s, id) == s,
    decreases s.len(),
{
    reveal(Seq::filter);
    if s.len() == 0 {
        assert(spec_removed_list(s, id) =~= s);
    } else {
        assert(!spec_has_id(s.drop_last(), id)) by {
            if spec_has_id(s.drop_last(), id) {
                let k = choose|k: int|
                    0 <= k < s.drop_last().len() && s.drop_last()[k].id@ == id;
                assert(s[k].id@ == id);
            }
        }
        lemma_remove_absent_id_is_noop(s.drop_last(), id);
        assert(s.last().id@ != id) by {
            if s.last().id@ == id {
                assert(s[s.len() - 1].id@ == id);
            }
        }
        assert(spec_removed_list(s, id) =~= s);
    }
}

/// The working copy after this frame's editor pass: the in-place editor
/// rebinds the title every frame it is shown.
pub open spec fn spec_edited_title(e: Event, editor_title: Option<String>) -> Event {
    match editor_title {
        Some(t) => Event { title: t, ..e },
        None => e,
    }
}

/// One frame of the active interaction. An editing frame keeps, commits
/// or discards the (possibly retitled) working copy as the editor
/// reported. A drag or resize frame commits untouched once the gesture
/// has ended; otherwise it applies the pointer update and then lets a
/// re-classification of the gesture switch the interaction — only towards
/// `Editing`, per the transition-priority rule.
pub open spec fn spec_frame_step(
    s: ScheduleUi,
    editor_title: Option<String>,
    editor_outcome: Option<bool>,
    drag_active: bool,
    pointer_time: Option<i64>,
    reclassified: Option<FocusedEventState>,
) -> ScheduleUi {
    match s.interacting {
        None => s,
        Some(ie) => if ie.state == FocusedEventState::Editing {
            let ev = spec_edited_title(ie.event, editor_title);
            match editor_outcome {
                None => ScheduleUi {
                    interacting: Some(
                        InteractingEvent { event: ev, state: FocusedEventState::Editing },
                    ),
                    ..s
                },
                Some(true) => ScheduleUi { interacting: None, committed: Some(ev), ..s },
                Some(false) => ScheduleUi { interacting: None, ..s },
            }
        } else if !drag_active {
            ScheduleUi { interacting: None, committed: Some(ie.event), ..s }
        } else {
            let e2 = match pointer_time {
                Some(t) => spec_interact_update(ie.event, ie.state, t, s.min_event_duration),
                None => ie.event,
            };
            let st2 = match reclassified {
                Some(ns) => spec_state_override(ie.state, ns),
                None => ie.state,
            };
            ScheduleUi { interacting: Some(InteractingEvent { event: e2, state: st2 }), ..s }
        },
    }
}

/// What starting an interaction on a static block does to the view: a
/// cloning gesture seeds a duplicate under a fresh identity and drags the
/// duplicate; any other classification puts the block's own event under
/// that interaction; no classification leaves the view alone.
pub open spec fn spec_block_interaction(
    s: ScheduleUi,
    e: Event,
    region: Option<FocusedEventState>,
    fresh_id: EventId,
) -> ScheduleUi {
    match region {
        None => s,
        Some(FocusedEventState::EventCloning) => ScheduleUi {
            interacting: Some(
                InteractingEvent {
                    event: spec_cloned(e, fresh_id),
                    state: FocusedEventState::Dragging,
                },
            ),
            ..s
        },
        Some(st) => ScheduleUi {
            interacting: Some(InteractingEvent { event: e, state: st }),
            ..s
        },
    }
}

impl ScheduleUi {
    /// Advances the active interaction by one frame, from this frame's
    /// snapshot: the editor's current text and verdict (when editing), the
    /// drag gesture's liveness and pointer-mapped time (when dragging or
    /// resizing), and the re-classification of the gesture, if any. The
    /// authoritative list is never touched here.
    pub fn put_interacting_event_block(
        &mut self,
        editor_title: Option<String>,
        editor_outcome: Option<bool>,
        drag_active: bool,
        pointer_time: Option<i64>,
        reclassified: Option<FocusedEventState>,
    )
        requires
            old(self).wf(),
            (match pointer_time {
                Some(t) => ts_ok(t),
                None => true,
            }),
        ensures
            *final(self) == spec_frame_step(
                *old(self),
                editor_title,
                editor_outcome,
                drag_active,
                pointer_time,
                reclassified,
            ),
            final(self).wf(),
            final(self).events == old(self).events,
    {
        let mut ie = match InteractingEvent::get(self) {
            None => {
                return ;
            },
            Some(v) => v,
        };
        if ie.state == FocusedEventState::Editing {
            if let Some(t) = editor_title {
                ie.event.title = t;
            }
            match editor_outcome {
                None => ie.save(self),
                Some(true) => ie.commit(self),
                Some(false) => InteractingEvent::discard(self),
            }
        } else {
            let commit = interact_event(
                &mut ie.event,
                ie.state,
                drag_active,
                pointer_time,
                self.min_event_duration,
            );
            match commit {
                None => {
                    if let Some(ns) = reclassified {
                        ie.state = state_override(ie.state, ns);
                    }
                    ie.save(self);
                },
                Some(c) => if c {
                    ie.commit(self);
                } else {
                    InteractingEvent::discard(self);
                },
            }
        }
    }

    /// Reacts to the classification of a pointer gesture over a static
    /// (not currently interacting) event block: it starts the classified
    /// interaction, seeding a fresh duplicate first when the gesture was a
    /// cloning one.
    pub fn put_non_interacting_event_block(
        &mut self,
        event: &Event,
        region: Option<FocusedEventState>,
        fresh_id: EventId,
    )
        requires
            old(self).wf(),
            event.wf(),
        ensures
            *final(self) == spec_block_interaction(*old(self), *event, region, fresh_id),
            final(self).wf(),
            final(self).events == old(self).events,
    {
        match region {
            None => {},
            Some(FocusedEventState::EventCloning) => {
                let new_event = clone_to_new_event(event, fresh_id);
                InteractingEvent::set(self, new_event, FocusedEventState::Dragging);
            },
            Some(state) => {
                InteractingEvent::set(self, event.clone(), state);
            },
        }
    }

    /// Drives the drag that creates a new event on empty grid space, from
    /// this frame's gesture flags. A starting drag seeds an empty-titled
    /// working copy under a caller-supplied fresh identity at the anchor
    /// time; further drag frames re-apply the day-boundary heuristic
    /// between the anchor and the pointer; releasing the drag turns the
    /// interaction into editing; a plain click on empty space discards
    /// whatever interaction was active. Returns `None` when a needed
    /// pointer mapping or scratch value was unavailable and the frame did
    /// nothing (or nothing more).
    pub fn handle_new_event(
        &mut self,
        drag_started: bool,
        clicked: bool,
        drag_released: bool,
        dragged: bool,
        pointer_time: Option<i64>,
        fresh_id: EventId,
    ) -> (r: Option<()>)
        requires
            old(self).wf(),
            (match pointer_time {
                Some(t) => ts_ok(t),
                None => true,
            }),
            !(drag_released && dragged),
        ensures
            final(self).wf(),
            final(self).events == old(self).events,
            final(self).committed == old(self).committed,
            final(self).deleted == old(self).deleted,
            final(self).min_event_duration == old(self).min_event_duration,
            drag_started ==> (match pointer_time {
                Some(t) => if t <= MAX_TS - SECS_PER_DAY {
                    r == Some(()) && (final(self).new_event_drag matches Some(nd) && nd.event_id
                        == fresh_id && nd.init_time == t) && (final(self).interacting matches Some(
                        ie,
                    ) && ie.event.id == fresh_id && ie.event.title@ == Seq::<char>::empty()
                        && ie.event.changed == false && ({
                        let (s, e, st) = spec_assigned_dates(t, t, old(self).min_event_duration);
                        ie.event.start == s && ie.event.end == e && ie.state == st
                    }))
                } else {
                    r == None::<()> && *final(self) == *old(self)
                },
                None => r == None::<()> && *final(self) == *old(self),
            }),
            !drag_started && clicked ==> r == Some(()) && *final(self) == (ScheduleUi {
                interacting: None,
                ..*old(self)
            }),
            !drag_started && !clicked && drag_released ==> (match old(self).new_event_drag {
                Some(nd) => (match old(self).interacting {
                    Some(ie) => if ie.event.id@ == nd.event_id@ {
                        r == Some(()) && *final(self) == (ScheduleUi {
                            interacting: Some(
                                InteractingEvent {
                                    event: ie.event,
                                    state: FocusedEventState::Editing,
                                },
                            ),
                            ..*old(self)
                        })
                    } else {
                        r == None::<()> && *final(self) == *old(self)
                    },
                    None => r == None::<()> && *final(self) == *old(self),
                }),
                None => r == None::<()> && *final(self) == *old(self),
            }),
            !drag_started && !clicked && !drag_released && dragged ==> (match old(self).new_event_drag {
                Some(nd) => (match old(self).interacting {
                    Some(ie) => if ie.event.id@ == nd.event_id@ {
                        (match pointer_time {
                            Some(t) => if t <= MAX_TS - SECS_PER_DAY {
                                r == Some(()) && (final(self).interacting matches Some(ie2)
                                    && ie2.event.id == ie.event.id && ie2.event.title
                                    == ie.event.title && ie2.event.changed == ie.event.changed
                                    && ({
                                    let (s, e, st) = spec_assigned_dates(
                                        nd.init_time,
                                        t,
                                        old(self).min_event_duration,
                                    );
                                    ie2.event.start == s && ie2.event.end == e && ie2.state == st
                                })) && final(self).new_event_drag == old(self).new_event_drag
                            } else {
                                r == None::<()> && *final(self) == *old(self)
                            },
                            None => r == None::<()> && *final(self) == *old(self),
                        })
                    } else {
                        r == None::<()> && *final(self) == *old(self)
                    },
                    None => r == None::<()> && *final(self) == *old(self),
                }),
                None => r == None::<()> && *final(self) == *old(self),
            }),
            !drag_started && !clicked && !drag_released && !dragged ==> r == Some(()) && *final(self) == *old(self),
    {
        if drag_started {
            let t = match pointer_time {
                None => {
                    return None;
                },
                Some(t) => t,
            };
            if t > MAX_TS - SECS_PER_DAY {
                return None;
            }
            let mut event = Event {
                id: fresh_id,
                title: String::new(),
                start: t,
                end: t,
                changed: false,
            };
            let state = assign_new_event_dates(&mut event, t, t, self.min_event_duration);
            self.new_event_drag = Some(NewEventDrag { event_id: event.id.clone(), init_time: t });
            InteractingEvent::set(self, event, state);
            return Some(());
        }
        if clicked {
            InteractingEvent::discard(self);
            return Some(());
        }
        if drag_released {
            let event_id = match &self.new_event_drag {
                None => {
                    return None;
                },
                Some(nd) => nd.event_id.clone(),
            };
            let mut value = match InteractingEvent::get_id(self, &event_id) {
                None => {
                    return None;
                },
                Some(v) => v,
            };
            value.state = FocusedEventState::Editing;
            value.save(self);
        }
        if dragged {
            let (event_id, init_time) = match &self.new_event_drag {
                None => {
                    return None;
                },
                Some(nd) => (nd.event_id.clone(), nd.init_time),
            };
            let mut value = match InteractingEvent::get_id(self, &event_id) {
                None => {
                    return None;
                },
                Some(v) => v,
            };
            let t = match pointer_time {
                None => {
                    return None;
                },
                Some(t) => t,
            };
            if t > MAX_TS - SECS_PER_DAY {
                return None;
            }
            let state = assign_new_event_dates(
                &mut value.event,
                init_time,
                t,
                self.min_event_duration,
            );
            value.state = state;
            value.save(self);
        }
        Some(())
    }

    /// The working copy currently under interaction, for the renderer to
    /// draw instead of the authoritative entry.
    pub fn get_interacting_event(&self) -> (r: Option<Event>)
        ensures
            r == (match self.interacting {
                Some(v) => Some(v.event),
                None => None::<Event>,
            }),
    {
        InteractingEvent::get_event(self)
    }

    /// Reconciles this frame's outcomes into the authoritative list: the
    /// committed working copy (if any) is merged first, then the pending
    /// deletion (if any) is applied, so a deletion requested alongside an
    /// unrelated commit is not starved; both scratch slots end empty.
    pub fn apply_interacting_events(&mut self)
        ensures
            final(self).events@ == spec_after_delete(
                spec_after_commit(old(self).events@, old(self).committed),
                old(self).deleted,
            ),
            final(self).committed == None::<Event>,
            final(self).deleted == None::<EventId>,
            final(self).interacting == old(self).interacting,
            final(self).min_event_duration == old(self).min_event_duration,
            final(self).new_event_drag == old(self).new_event_drag,
            old(self).wf() ==> final(self).wf(),
    {
        if let Some(event) = InteractingEvent::take_commited_event(self) {
            commit_updated_event(&mut self.events, event);
        }
        if let Some(event_id) = DeletedEvent::take(self) {
            remove_deleted_events(&mut self.events, event_id);
        }
    }
}

/// The authoritative list after the commit half of a reconciliation pass.
pub open spec fn spec_after_commit(s: Seq<Event>, c: Option<Event>) -> Seq<Event> {
    match c {
        Some(e) => spec_committed_list(s, e),
        None => s,
    }
}

/// The authoritative list after the deletion half of a reconciliation pass.
pub open spec fn spec_after_delete(s: Seq<Event>, d: Option<EventId>) -> Seq<Event> {
    match d {
        Some(id) => spec_removed_list(s, id@),
        None => s,
    }
}

/// Minimum-duration clamp: resizing the start past `end - d` pins the
/// start at exactly `end - d`, and a start-resize never produces
/// `start > end`.
pub proof fn lemma_min_duration_clamp(e: Event, time: i64, d: i64)
    requires
        e.wf(),
        ts_ok(time),
        duration_ok(d),
        d <= e.end,
    ensures
        time as int > e.end - d ==> spec_moved_start(e, time, d).start == e.end - d,
        spec_moved_start(e, time, d).start <= spec_moved_start(e, time, d).end,
        spec_moved_start(e, time, d).duration() >= d,
{
}

/// A whole-block drag preserves the working copy's duration on every
/// intermediate frame, whatever the pointer reports: the frame either
/// moves the block rigidly or leaves it alone.
pub proof fn lemma_dragging_frame_preserves_duration(
    s: ScheduleUi,
    editor_title: Option<String>,
    editor_outcome: Option<bool>,
    pointer_time: Option<i64>,
    reclassified: Option<FocusedEventState>,
)
    requires
        s.wf(),
        (s.interacting matches Some(ie) && ie.state == FocusedEventState::Dragging),
    ensures
        ({
            let s2 = spec_frame_step(s, editor_title, editor_outcome, true, pointer_time,
                reclassified);
            s2.interacting matches Some(ie2) && ie2.event.duration()
                == s.interacting.unwrap().event.duration()
        }),
{
}

/// A whole-block drag preserves the event's duration on every
/// intermediate frame.
pub proof fn lemma_drag_preserves_duration(e: Event, t: i64)
    requires
        e.wf(),
        ts_ok(t),
        t + e.duration() <= MAX_TS,
    ensures
        spec_moved(e, t).duration() == e.duration(),
        spec_moved(e, t).start == t,
{
}

/// Cloning an event of duration `D` and dragging the copy to `t` yields a
/// working copy with a different identity, an identical title, duration
/// exactly `D`, and start equal to the drag-mapped timestamp — while the
/// original keeps every field.
pub proof fn lemma_cloning(e: Event, fresh_id: EventId, t: i64)
    requires
        e.wf(),
        ts_ok(t),
        fresh_id@ != e.id@,
        t + e.duration() <= MAX_TS,
    ensures
        ({
            let w = spec_moved(spec_cloned(e, fresh_id), t);
            w.id@ != e.id@ && w.title == e.title && w.duration() == e.duration() && w.start == t
        }),
{
}

} // verus!
