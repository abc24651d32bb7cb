use icalctl::cache::{
    cache_path, cached_event_reference, event_cache, reminder_cache_path, resolve_event_show_ref,
    resolve_reminder_ref, CachedEvent, CachedReminder, EventCache, ReminderCache,
};

fn no_event_cache() -> Result<EventCache, String> {
    Err("no cached event list; run a list command first".to_string())
}

fn no_reminder_cache() -> Result<ReminderCache, String> {
    Err("no cached reminder list".to_string())
}

fn cached(row: usize, id: &str, start: &str) -> CachedEvent {
    CachedEvent {
        row,
        id: id.to_string(),
        title: "Weekly sync".to_string(),
        start: start.to_string(),
        end: "2026-07-20T09:30:00+03:00".to_string(),
        calendar: Some("Work".to_string()),
    }
}

#[test]
fn non_numeric_reminder_reference_is_left_as_id() {
    assert_eq!(
        resolve_reminder_ref("REM-123", &no_reminder_cache()).unwrap(),
        "REM-123"
    );
}

#[test]
fn explicit_show_reference_preserves_occurrence_start() {
    let reference = resolve_event_show_ref(
        "ABC-123",
        Some("2026-07-11T09:00:00+03:00".to_string()),
        &no_event_cache(),
    )
    .unwrap();
    assert_eq!(reference.id, "ABC-123");
    assert_eq!(
        reference.occurrence_start,
        Some("2026-07-11T09:00:00+03:00".to_string())
    );
}

#[test]
fn cached_show_reference_keeps_the_selected_occurrence_start() {
    let reference = cached_event_reference(&CachedEvent {
        row: 3,
        id: "SERIES-ID".to_string(),
        title: "Weekly sync".to_string(),
        start: "2026-07-20T09:00:00+03:00".to_string(),
        end: "2026-07-20T09:30:00+03:00".to_string(),
        calendar: Some("Work".to_string()),
    });

    assert_eq!(reference.id, "SERIES-ID");
    assert_eq!(
        reference.occurrence_start.as_deref(),
        Some("2026-07-20T09:00:00+03:00")
    );
}

#[test]
fn reminder_and_event_caches_are_separate_files() {
    assert_eq!(
        cache_path(None, Some("/Users/me")).unwrap().last().unwrap(),
        "last-events.json"
    );
    assert_eq!(
        reminder_cache_path(None, Some("/Users/me")).unwrap().last().unwrap(),
        "last-reminders.json"
    );
}

#[test]
fn cache_paths_prefer_xdg_and_need_home_otherwise() {
    assert_eq!(
        cache_path(Some("/tmp/xdg"), Some("/Users/me")).unwrap(),
        vec!["/tmp/xdg", "icalctl", "last-events.json"]
    );
    assert_eq!(
        cache_path(None, Some("/Users/me")).unwrap(),
        vec!["/Users/me", "Library", "Caches", "icalctl", "last-events.json"]
    );
    assert_eq!(cache_path(None, None).expect_message(), "HOME is not set");
}

#[test]
fn cached_rows_resolve_in_listing_order() {
    let cache = event_cache(vec![
        cached(0, "FIRST", "2026-07-20T09:00:00+03:00"),
        cached(0, "SECOND", "2026-07-21T09:00:00+03:00"),
    ]);
    assert_eq!(cache.events[0].row, 1);
    assert_eq!(cache.events[1].row, 2);
    let cache = Ok(cache);
    let second = resolve_event_show_ref("2", None, &cache).unwrap();
    assert_eq!(second.id, "SECOND");
    assert_eq!(
        second.occurrence_start.as_deref(),
        Some("2026-07-21T09:00:00+03:00")
    );
    assert_eq!(
        resolve_event_show_ref("3", None, &cache).expect_message(),
        "no cached event at row 3; run a list command first"
    );
    assert_eq!(
        resolve_event_show_ref("0", None, &cache).expect_message(),
        "row numbers start at 1"
    );
    assert_eq!(
        resolve_event_show_ref("1", Some("2026-07-20T09:00:00+03:00".to_string()), &cache)
            .expect_message(),
        "--occurrence-start cannot be combined with a cached row number"
    );
}

#[test]
fn a_cache_of_another_version_is_refused() {
    let cache = Ok(EventCache { version: 2, events: vec![] });
    assert_eq!(
        resolve_event_show_ref("1", None, &cache).expect_message(),
        "cached event list is from an unsupported cache version; run a list command again"
    );
}

#[test]
fn reminder_rows_resolve_and_missing_rows_fail() {
    let cache = Ok(ReminderCache {
        version: 1,
        reminders: vec![CachedReminder {
            row: 1,
            id: "REM-1".to_string(),
            title: "Buy milk".to_string(),
            due: None,
            list: Some("Home".to_string()),
        }],
    });
    assert_eq!(resolve_reminder_ref("1", &cache).unwrap(), "REM-1");
    assert_eq!(
        resolve_reminder_ref("2", &cache).expect_message(),
        "no cached reminder at row 2; run `icalctl reminders list` or `icalctl reminders search` first"
    );
    assert_eq!(
        resolve_reminder_ref("1", &no_reminder_cache()).expect_message(),
        "no cached reminder list"
    );
}

trait ExpectMessage {
    fn expect_message(self) -> String;
}

impl<T> ExpectMessage for Result<T, String> {
    fn expect_message(self) -> String {
        match self {
            Err(message) => message,
            Ok(_) => panic!("expected an error message"),
        }
    }
}
