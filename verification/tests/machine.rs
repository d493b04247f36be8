use calendar_core::event::Event;
use calendar_core::interaction::{
    assign_new_event_dates, clone_to_new_event, commit_updated_event, interact_event,
    interact_event_region, move_event, move_event_end, move_event_start, remove_deleted_events,
    state_override, CursorHint, DeletedEvent, FocusedEventState, ScheduleUi,
};
use calendar_core::interaction::FocusedEventState::{
    Dragging, DraggingEventEnd, DraggingEventStart, Editing, EventCloning,
};

const MIN: i64 = 1800; // 30 minutes

fn ev(id: &str, title: &str, start: i64, end: i64) -> Event {
    Event { id: id.to_string(), title: title.to_string(), start, end, changed: false }
}

fn ui(events: Vec<Event>) -> ScheduleUi {
    ScheduleUi::new(events, MIN)
}

#[test]
fn resize_start_clamps_at_minimum_duration() {
    // resizing past end - minimum pins start at exactly end - minimum
    let mut e = ev("a", "x", 3600, 7200);
    move_event_start(&mut e, 7000, MIN);
    assert_eq!(e.start, 7200 - MIN);
    assert_eq!(e.end, 7200);
    assert!(e.start <= e.end);

    // an ordinary resize follows the pointer exactly
    let mut e = ev("a", "x", 3600, 7200);
    move_event_start(&mut e, 1000, MIN);
    assert_eq!(e.start, 1000);
    assert_eq!(e.end, 7200);
}

#[test]
fn resize_end_clamps_at_minimum_duration() {
    let mut e = ev("a", "x", 3600, 7200);
    move_event_end(&mut e, 3700, MIN);
    assert_eq!(e.start, 3600);
    assert_eq!(e.end, 3600 + MIN);

    let mut e = ev("a", "x", 3600, 7200);
    move_event_end(&mut e, 90000, MIN);
    assert_eq!(e.end, 90000);
}

#[test]
fn drag_preserves_duration() {
    let mut e = ev("a", "x", 3600, 7200);
    let duration = e.end - e.start;
    move_event(&mut e, 50000);
    assert_eq!(e.start, 50000);
    assert_eq!(e.end - e.start, duration);

    // a second intermediate frame still preserves it
    move_event(&mut e, 123);
    assert_eq!(e.end - e.start, duration);
}

#[test]
fn day_boundary_first_half_anchors_start() {
    // anchor at 02:00; the drag target lands on the next day
    let mut e = ev("n", "", 0, 0);
    let state = assign_new_event_dates(&mut e, 7200, 90000, MIN);
    assert_eq!(e.start, 7200);
    assert_eq!(e.end, 7200 + MIN);
    assert_eq!(state, FocusedEventState::DraggingEventEnd);
}

#[test]
fn day_boundary_second_half_anchors_end() {
    // anchor at 22:00; the drag target lands on the next day
    let mut e = ev("n", "", 0, 0);
    let state = assign_new_event_dates(&mut e, 79200, 90000, MIN);
    assert_eq!(e.start, 79200 - MIN);
    assert_eq!(e.end, 79200);
    assert_eq!(state, FocusedEventState::DraggingEventEnd);
}

#[test]
fn same_day_drag_reorders_endpoints() {
    let mut e = ev("n", "", 0, 0);
    let state = assign_new_event_dates(&mut e, 10000, 8000, MIN);
    assert_eq!(e.start, 8000);
    assert_eq!(e.end, 10000);
    // the anchor turned out to be the later endpoint: keep pulling the start
    assert_eq!(state, FocusedEventState::DraggingEventStart);

    let mut e = ev("n", "", 0, 0);
    let state = assign_new_event_dates(&mut e, 8000, 10000, MIN);
    assert_eq!(e.start, 8000);
    assert_eq!(e.end, 10000);
    assert_eq!(state, FocusedEventState::DraggingEventEnd);
}

#[test]
fn commit_replaces_matching_entry_and_marks_it() {
    let mut events = vec![ev("a", "one", 0, 10), ev("b", "two", 20, 30)];
    commit_updated_event(&mut events, ev("a", "edited", 5, 15));
    assert_eq!(events.len(), 2);
    assert_eq!(events[0].id, "a");
    assert_eq!(events[0].title, "edited");
    assert_eq!(events[0].start, 5);
    assert_eq!(events[0].end, 15);
    assert!(events[0].changed);
    assert_eq!(events[1].title, "two");
    assert!(!events[1].changed);
}

#[test]
fn commit_appends_novel_entry_and_marks_it() {
    let mut events = vec![ev("a", "one", 0, 10)];
    commit_updated_event(&mut events, ev("c", "fresh", 40, 50));
    assert_eq!(events.len(), 2);
    assert_eq!(events[1].id, "c");
    assert!(events[1].changed);
    assert!(!events[0].changed);
}

#[test]
fn remove_deletes_exactly_the_matching_id() {
    let mut events = vec![ev("a", "one", 0, 10), ev("b", "two", 20, 30), ev("a", "dup", 1, 2)];
    remove_deleted_events(&mut events, "a".to_string());
    assert_eq!(events.len(), 1);
    assert_eq!(events[0].id, "b");

    // removing an absent id leaves the list unchanged
    remove_deleted_events(&mut events, "zzz".to_string());
    assert_eq!(events.len(), 1);
    assert_eq!(events[0].id, "b");
}

#[test]
fn editing_takes_precedence_once_entered() {
    assert_eq!(state_override(Dragging, Editing), Editing);
    assert_eq!(state_override(DraggingEventStart, Editing), Editing);
    assert_eq!(state_override(Dragging, DraggingEventEnd), Dragging);
    assert_eq!(state_override(Editing, Dragging), Editing);
}

#[test]
fn region_classification_table() {
    // no pointer: nothing happens
    assert_eq!(
        interact_event_region(false, false, true, false, true, false, true),
        (None, CursorHint::Unchanged)
    );
    // a plain click anywhere means editing
    assert_eq!(
        interact_event_region(true, true, false, false, false, false, true),
        (Some(Editing), CursorHint::Unchanged)
    );
    // drag from the upper band resizes the start
    assert_eq!(
        interact_event_region(true, false, true, false, true, false, true),
        (Some(DraggingEventStart), CursorHint::ResizeVertical)
    );
    // hovering a band only changes the cursor hint
    assert_eq!(
        interact_event_region(true, false, false, false, true, false, true),
        (None, CursorHint::ResizeVertical)
    );
    // drag from the lower band resizes the end
    assert_eq!(
        interact_event_region(true, false, true, false, false, true, true),
        (Some(DraggingEventEnd), CursorHint::ResizeVertical)
    );
    // drag from the body moves the event; with the modifier it clones
    assert_eq!(
        interact_event_region(true, false, true, false, false, false, true),
        (Some(Dragging), CursorHint::Grab)
    );
    assert_eq!(
        interact_event_region(true, false, true, true, false, false, true),
        (Some(EventCloning), CursorHint::Grab)
    );
    // hovering the body only hints a grab
    assert_eq!(
        interact_event_region(true, false, false, true, false, false, true),
        (None, CursorHint::Grab)
    );
}

#[test]
fn cloning_seeds_fresh_identity_and_drags_to_pointer() {
    let original = ev("a", "standup", 3600, 7200);
    let duration = original.end - original.start;

    let mut st = ui(vec![original.clone()]);
    st.put_non_interacting_event_block(
        &original,
        Some(FocusedEventState::EventCloning),
        "fresh".to_string(),
    );

    let working = st.get_interacting_event().expect("a clone is being dragged");
    assert_eq!(working.id, "fresh");
    assert_eq!(working.title, "standup");
    assert_eq!(working.end - working.start, duration);

    // a drag frame puts the copy's start at the drag-mapped timestamp
    st.put_interacting_event_block(None, None, true, Some(50000), None);
    let working = st.get_interacting_event().unwrap();
    assert_eq!(working.id, "fresh");
    assert_eq!(working.start, 50000);
    assert_eq!(working.end - working.start, duration);

    // the original authoritative entry is untouched
    assert_eq!(st.events.len(), 1);
    assert_eq!(st.events[0].id, "a");
    assert_eq!(st.events[0].start, 3600);
}

#[test]
fn discard_leaves_authoritative_list_identical() {
    let before = vec![ev("a", "one", 0, 10), ev("b", "two", 20, 30)];
    let mut st = ui(before.clone());
    st.put_non_interacting_event_block(&before[0], Some(FocusedEventState::Editing), String::new());

    // edit the title for a few frames, then cancel
    st.put_interacting_event_block(Some("changed mind".to_string()), None, false, None, None);
    st.put_interacting_event_block(Some("changed mind".to_string()), Some(false), false, None, None);
    assert!(st.get_interacting_event().is_none());

    st.apply_interacting_events();
    assert_eq!(st.events.len(), before.len());
    for (a, b) in st.events.iter().zip(before.iter()) {
        assert_eq!(a.id, b.id);
        assert_eq!(a.title, b.title);
        assert_eq!(a.start, b.start);
        assert_eq!(a.end, b.end);
        assert_eq!(a.changed, b.changed);
    }
}

#[test]
fn editor_commit_reconciles_into_list() {
    let before = vec![ev("a", "one", 0, 10)];
    let mut st = ui(before.clone());
    st.put_non_interacting_event_block(&before[0], Some(FocusedEventState::Editing), String::new());
    st.put_interacting_event_block(Some("renamed".to_string()), Some(true), false, None, None);
    assert!(st.get_interacting_event().is_none());

    st.apply_interacting_events();
    assert_eq!(st.events.len(), 1);
    assert_eq!(st.events[0].title, "renamed");
    assert!(st.events[0].changed);
}

#[test]
fn drag_commit_and_same_frame_deletion_both_apply() {
    let before = vec![ev("a", "one", 0, 3600), ev("b", "two", 40000, 43600)];
    let mut st = ui(before.clone());

    // drag event "a" somewhere, release, commit
    st.put_non_interacting_event_block(&before[0], Some(FocusedEventState::Dragging), String::new());
    st.put_interacting_event_block(None, None, true, Some(7200), None);
    st.put_interacting_event_block(None, None, false, None, None);

    // the same frame also asks to delete "b"
    DeletedEvent::set(&mut st, &"b".to_string());

    st.apply_interacting_events();
    assert_eq!(st.events.len(), 1);
    assert_eq!(st.events[0].id, "a");
    assert_eq!(st.events[0].start, 7200);
    assert_eq!(st.events[0].end, 7200 + 3600);
    assert!(st.events[0].changed);
    assert!(st.committed.is_none());
    assert!(st.deleted.is_none());
}

#[test]
fn quick_click_reclassifies_drag_to_editing() {
    let before = vec![ev("a", "one", 0, 3600)];
    let mut st = ui(before.clone());
    st.put_non_interacting_event_block(&before[0], Some(FocusedEventState::Dragging), String::new());

    // the gesture turns out to be a click: the re-classification wins
    st.put_interacting_event_block(None, None, true, None, Some(FocusedEventState::Editing));
    let ie = st.interacting.as_ref().unwrap();
    assert_eq!(ie.state, FocusedEventState::Editing);

    // but once editing, a drag classification does not override it back;
    // editing frames ignore the drag input entirely
    st.put_interacting_event_block(None, None, true, Some(7200), Some(FocusedEventState::Dragging));
    let ie = st.interacting.as_ref().unwrap();
    assert_eq!(ie.state, FocusedEventState::Editing);
    assert_eq!(ie.event.start, 0);
}

#[test]
fn finished_gesture_commits_untouched() {
    let mut e = ev("a", "x", 3600, 7200);
    let r = interact_event(&mut e, FocusedEventState::Dragging, false, Some(50000), MIN);
    assert_eq!(r, Some(true));
    assert_eq!(e.start, 3600);
    assert_eq!(e.end, 7200);
}

#[test]
fn mapping_failure_is_a_no_op_frame() {
    let mut e = ev("a", "x", 3600, 7200);
    let r = interact_event(&mut e, FocusedEventState::DraggingEventStart, true, None, MIN);
    assert_eq!(r, None);
    assert_eq!(e.start, 3600);
    assert_eq!(e.end, 7200);
}

#[test]
fn new_event_drag_grows_then_becomes_editor() {
    let mut st = ui(vec![]);

    // frame 1: the drag starts on empty space at 09:00
    let r = st.handle_new_event(true, false, false, false, Some(32400), "fresh".to_string());
    assert_eq!(r, Some(()));
    let w = st.get_interacting_event().unwrap();
    assert_eq!(w.id, "fresh");
    assert_eq!(w.title, "");
    assert_eq!((w.start, w.end), (32400, 32400));

    // frame 2: still dragging, now at 10:00
    let r = st.handle_new_event(false, false, false, true, Some(36000), "unused".to_string());
    assert_eq!(r, Some(()));
    let w = st.get_interacting_event().unwrap();
    assert_eq!((w.start, w.end), (32400, 36000));

    // frame 3: released; the new event opens its editor
    let r = st.handle_new_event(false, false, true, false, None, "unused".to_string());
    assert_eq!(r, Some(()));
    assert_eq!(st.interacting.as_ref().unwrap().state, FocusedEventState::Editing);

    // typing a title and committing appends the event, marked changed
    st.put_interacting_event_block(Some("new meeting".to_string()), Some(true), false, None, None);
    st.apply_interacting_events();
    assert_eq!(st.events.len(), 1);
    assert_eq!(st.events[0].id, "fresh");
    assert_eq!(st.events[0].title, "new meeting");
    assert_eq!((st.events[0].start, st.events[0].end), (32400, 36000));
    assert!(st.events[0].changed);
}

#[test]
fn click_on_empty_space_discards_interaction() {
    let before = vec![ev("a", "one", 0, 3600)];
    let mut st = ui(before.clone());
    st.put_non_interacting_event_block(&before[0], Some(FocusedEventState::Editing), String::new());
    assert!(st.get_interacting_event().is_some());

    let r = st.handle_new_event(false, true, false, false, None, "unused".to_string());
    assert_eq!(r, Some(()));
    assert!(st.get_interacting_event().is_none());
    assert_eq!(st.events.len(), 1);
}

#[test]
fn continuing_gestures_without_scratch_state_do_nothing() {
    let mut st = ui(vec![ev("a", "one", 0, 3600)]);

    // a continuing drag with no recorded anchor has nothing to grow
    let r = st.handle_new_event(false, false, false, true, Some(7200), "unused".to_string());
    assert_eq!(r, None);
    assert!(st.get_interacting_event().is_none());

    // a release with no recorded anchor has nothing to open
    let r = st.handle_new_event(false, false, true, false, None, "unused".to_string());
    assert_eq!(r, None);

    // a starting drag whose pointer maps to no timestamp starts nothing
    let r = st.handle_new_event(true, false, false, false, None, "fresh".to_string());
    assert_eq!(r, None);
    assert!(st.get_interacting_event().is_none());
    assert_eq!(st.events.len(), 1);
}

#[test]
fn clone_to_new_event_copies_all_but_identity() {
    let original = ev("a", "standup", 3600, 7200);
    let copy = clone_to_new_event(&original, "fresh".to_string());
    assert_eq!(copy.id, "fresh");
    assert_eq!(copy.title, "standup");
    assert_eq!(copy.start, 3600);
    assert_eq!(copy.end, 7200);
    assert!(!copy.changed);
}
