use calendar_core::backend::{event_visible_in_range, MemoryBackend};
use calendar_core::event::Event;
use calendar_core::local_dir::{is_event_file, LocalDir, LocalDirBuilder};

fn ev(id: &str, title: &str, start: i64, end: i64) -> Event {
    Event { id: id.to_string(), title: title.to_string(), start, end, changed: false }
}

#[test]
fn overlap_includes_boundary_touching() {
    let e = ev("a", "standup", 10, 20);
    // merely touching at an endpoint counts as overlapping
    assert!(event_visible_in_range(&e, 20, 30));
    assert!(event_visible_in_range(&e, 0, 10));
    assert!(event_visible_in_range(&e, 12, 18));
    assert!(!event_visible_in_range(&e, 21, 30));
    assert!(!event_visible_in_range(&e, 0, 9));
}

#[test]
fn range_query_includes_iff_overlapping() {
    let mut store = MemoryBackend::new();
    assert_eq!(store.create_event(&ev("a", "one", 0, 100)), Some(()));
    assert_eq!(store.create_event(&ev("b", "two", 200, 300)), Some(()));
    assert_eq!(store.create_event(&ev("c", "three", 300, 400)), Some(()));

    let hits = store.get_events(100, 300).unwrap();
    let ids: Vec<&str> = hits.iter().map(|e| e.id.as_str()).collect();
    assert_eq!(ids, vec!["a", "b", "c"]);

    let hits = store.get_events(101, 199).unwrap();
    assert!(hits.is_empty());

    let hits = store.get_events(350, 500).unwrap();
    let ids: Vec<&str> = hits.iter().map(|e| e.id.as_str()).collect();
    assert_eq!(ids, vec!["c"]);
}

#[test]
fn create_then_get_round_trip() {
    let mut store = MemoryBackend::new();
    let e = ev("meeting-1", "planning", 3600, 7200);
    assert_eq!(store.create_event(&e), Some(()));

    let got = store.get_event(&"meeting-1".to_string()).expect("event must be found");
    assert_eq!(got.id, e.id);
    assert_eq!(got.title, e.title);
    assert_eq!(got.start, e.start);
    assert_eq!(got.end, e.end);
    assert_eq!(got.changed, e.changed);
}

#[test]
fn get_event_absent_is_none() {
    let mut store = MemoryBackend::new();
    store.create_event(&ev("a", "one", 0, 1)).unwrap();
    assert!(store.get_event(&"b".to_string()).is_none());
}

#[test]
fn delete_is_idempotent() {
    let mut store = MemoryBackend::new();
    store.create_event(&ev("a", "one", 0, 1)).unwrap();
    store.create_event(&ev("b", "two", 2, 3)).unwrap();

    // deleting a nonexistent id succeeds and leaves the store unchanged
    assert_eq!(store.delete_event(&"zzz".to_string()), Some(()));
    assert_eq!(store.events.len(), 2);
    assert_eq!(store.events[0].id, "a");
    assert_eq!(store.events[1].id, "b");

    assert_eq!(store.delete_event(&"a".to_string()), Some(()));
    assert_eq!(store.events.len(), 1);
    assert_eq!(store.events[0].id, "b");

    // deleting it again is still a success
    assert_eq!(store.delete_event(&"a".to_string()), Some(()));
    assert_eq!(store.events.len(), 1);
}

#[test]
fn update_overwrites_in_full_and_upserts() {
    let mut store = MemoryBackend::new();
    store.create_event(&ev("a", "one", 0, 10)).unwrap();

    let existed = store.update_event(&ev("a", "renamed", 5, 15)).unwrap();
    assert!(existed);
    assert_eq!(store.events.len(), 1);
    assert_eq!(store.events[0].title, "renamed");
    assert_eq!(store.events[0].start, 5);
    assert_eq!(store.events[0].end, 15);

    // updating an absent id still succeeds, as an upsert
    let existed = store.update_event(&ev("b", "new", 1, 2)).unwrap();
    assert!(!existed);
    assert_eq!(store.events.len(), 2);
    assert_eq!(store.events[1].id, "b");
}

#[test]
fn event_path_is_dir_slash_id_ics() {
    let dir = LocalDir::new("/tmp/calendar".to_string(), "work".to_string());
    let path = dir.event_path(&"meeting-1".to_string());
    assert_eq!(path, "/tmp/calendar/meeting-1.ics");
}

#[test]
fn only_recognized_extension_participates() {
    assert!(is_event_file("meeting.ics"));
    assert!(is_event_file("a.b.ics"));
    assert!(!is_event_file("meeting.txt"));
    assert!(!is_event_file("ics"));
    // a bare hidden file with no base name is not an event artifact
    assert!(!is_event_file(".ics"));
    assert!(!is_event_file(""));
}

#[test]
fn scan_skips_undecodable_records() {
    let dir = LocalDir::new("/tmp/c".to_string(), "cal".to_string());
    let parsed = vec![
        Some(ev("a", "one", 0, 10)),
        None, // a corrupt artifact does not abort the scan
        Some(ev("b", "two", 20, 30)),
        None,
    ];
    let all = dir.all_events(&parsed);
    assert_eq!(all.len(), 2);
    assert_eq!(all[0].id, "a");
    assert_eq!(all[1].id, "b");

    let hits = dir.get_events(&parsed, 10, 20).unwrap();
    let ids: Vec<&str> = hits.iter().map(|e| e.id.as_str()).collect();
    assert_eq!(ids, vec!["a", "b"]);

    let hits = dir.get_events(&parsed, 11, 19).unwrap();
    assert!(hits.is_empty());
}

#[test]
fn builder_requires_both_fields() {
    let built = LocalDirBuilder::new()
        .dir("/data/cal".to_string())
        .calendar("personal".to_string())
        .build()
        .expect("both fields were given");
    assert_eq!(built.dir, "/data/cal");
    assert_eq!(built.calendar, "personal");

    assert!(LocalDirBuilder::new().dir("/data/cal".to_string()).build().is_none());
    assert!(LocalDirBuilder::new().calendar("personal".to_string()).build().is_none());
}
