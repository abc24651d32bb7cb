use icalctl::batch::{
    check_batch_version, event_slots, record_preparation, BatchRow,
    blocked_reports, dry_run_reports, execute_rows, has_event_patch, not_attempted_report, row_plan, stops_batch, ExecutionStep, RowPlan,
    mark_duplicate_client_ids, mark_duplicate_identities, BatchSlot, EventIdentity, PreparedEvent,
    existing_match_action, merged_recurrence, merged_time_zone, summarize, validate_defaults,
    validate_selector_fields, BatchDefaults, BatchEvent, PatchValue, PlannedAction,
};
use icalctl::cli::{EventJsonRecurrence, EventRepeatArg, IfExistsArg};
use icalctl::dates::Instant;
use icalctl::eventkit::CalendarInfo;
use icalctl::models::{BatchItemReport, CalendarSelection};
use icalctl::recurrence::validate_recurring_all_day_inputs;

fn item(index: usize, status: &str) -> BatchItemReport {
    BatchItemReport {
        index,
        client_id: None,
        status: status.to_string(),
        event_id: None,
        matched_event_id: None,
        draft: None,
        error: None,
    }
}

fn daily() -> EventJsonRecurrence {
    EventJsonRecurrence {
        frequency: EventRepeatArg::Daily,
        interval: None,
        weekdays: Vec::new(),
        month_days: Vec::new(),
        count: None,
        until: None,
    }
}

fn event(title: &str, start: &str, end: &str) -> BatchEvent {
    BatchEvent {
        client_id: None,
        title: title.to_string(),
        start: start.to_string(),
        end: end.to_string(),
        calendar: None,
        calendar_id: None,
        calendar_source: None,
        source_id: None,
        notes: PatchValue::Missing,
        location: PatchValue::Missing,
        url: PatchValue::Missing,
        time_zone: PatchValue::Missing,
        availability: None,
        all_day: None,
        alarm_minutes_before: None,
        recurrence: PatchValue::Missing,
    }
}

#[test]
fn invalid_shared_defaults_are_rejected_before_writes() {
    let defaults = BatchDefaults {
        alarm_minutes_before: Some(vec![-5]),
        ..Default::default()
    };

    assert!(validate_defaults(&defaults, true).is_err());
}

#[test]
fn valid_shared_defaults_are_accepted() {
    let defaults = BatchDefaults {
        alarm_minutes_before: Some(vec![0, 15]),
        time_zone: Some("Europe/Berlin".to_string()),
        ..Default::default()
    };
    assert!(validate_defaults(&defaults, true).is_ok());
}

#[test]
fn default_time_zone_unknown_to_eventkit_is_rejected() {
    let defaults = BatchDefaults {
        time_zone: Some("Europe/Berlin".to_string()),
        ..Default::default()
    };
    assert_eq!(
        validate_defaults(&defaults, false).unwrap_err(),
        "unknown IANA time zone: Europe/Berlin"
    );
}

#[test]
fn selector_qualifiers_require_a_title() {
    let error = validate_selector_fields(None, None, Some("iCloud"), None)
        .unwrap_err()
        .to_string();
    assert!(error.contains("require calendar"));
}

#[test]
fn selector_id_excludes_other_fields_and_qualifiers_exclude_each_other() {
    assert_eq!(
        validate_selector_fields(Some("Work"), Some("CAL-1"), None, None).unwrap_err(),
        "calendar_id cannot be combined with calendar, calendar_source, or source_id"
    );
    assert_eq!(
        validate_selector_fields(Some("Work"), None, Some("iCloud"), Some("SRC")).unwrap_err(),
        "calendar_source and source_id cannot be combined"
    );
    assert!(validate_selector_fields(Some("Work"), None, Some("iCloud"), None).is_ok());
    assert!(validate_selector_fields(None, Some("CAL-1"), None, None).is_ok());
}

#[test]
fn summary_counts_each_status() {
    let items = ["created", "skipped", "failed", "would_update"]
        .into_iter()
        .enumerate()
        .map(|(index, status)| item(index, status))
        .collect::<Vec<_>>();
    let summary = summarize(&items);

    assert_eq!(summary.total, 4);
    assert_eq!(summary.created, 1);
    assert_eq!(summary.skipped, 1);
    assert_eq!(summary.failed, 1);
    assert_eq!(summary.would_update, 1);
}

#[test]
fn summary_counts_add_up_to_the_total() {
    let items = [
        "created", "created", "not_attempted", "would_create", "would_skip", "updated",
    ]
    .into_iter()
    .enumerate()
    .map(|(index, status)| item(index, status))
    .collect::<Vec<_>>();
    let s = summarize(&items);
    assert_eq!(s.total, 6);
    assert_eq!(s.created, 2);
    assert_eq!(s.not_attempted, 1);
    assert_eq!(s.would_create, 1);
    assert_eq!(s.would_skip, 1);
    assert_eq!(s.updated, 1);
    assert_eq!(
        s.created + s.skipped + s.updated + s.failed + s.not_attempted + s.would_create
            + s.would_skip + s.would_update,
        s.total
    );
}

#[test]
fn existing_match_policy_is_explicit_and_idempotent() {
    let (skip, skip_error) = existing_match_action(IfExistsArg::Skip, "EVENT-1");
    let (update, update_error) = existing_match_action(IfExistsArg::Update, "EVENT-1");
    let (error, error_message) = existing_match_action(IfExistsArg::Error, "EVENT-1");

    assert!(skip == Some(PlannedAction::Skip));
    assert!(skip_error.is_none());
    assert!(update == Some(PlannedAction::Update));
    assert!(update_error.is_none());
    assert!(error.is_none());
    assert!(error_message.unwrap().contains("EVENT-1"));
}

#[test]
fn event_timezone_overrides_or_clears_the_default() {
    let defaults = BatchDefaults {
        time_zone: Some("Europe/Berlin".to_string()),
        ..Default::default()
    };

    assert!(matches!(
        merged_time_zone(&defaults, &PatchValue::Missing),
        PatchValue::Value(value) if value == "Europe/Berlin"
    ));
    assert!(matches!(
        merged_time_zone(&defaults, &PatchValue::Value("Asia/Shanghai".to_string())),
        PatchValue::Value(value) if value == "Asia/Shanghai"
    ));
    assert!(matches!(
        merged_time_zone(&defaults, &PatchValue::Null),
        PatchValue::Null
    ));
}

#[test]
fn recurring_all_day_validation_uses_effective_batch_defaults_and_overrides() {
    let defaults = BatchDefaults {
        all_day: Some(true),
        recurrence: Some(daily()),
        ..Default::default()
    };
    let validate = |event: &BatchEvent| {
        let all_day = event.all_day.or(defaults.all_day).unwrap_or(false);
        let recurring = matches!(
            merged_recurrence(&defaults, &event.recurrence),
            PatchValue::Value(_)
        );
        validate_recurring_all_day_inputs(all_day, recurring, &event.start, &event.end)
    };
    let timed = |f: &dyn Fn(&mut BatchEvent)| {
        let mut e = event(
            "DST dates",
            "2030-03-30T00:00:00+01:00",
            "2030-03-31T00:00:00+01:00",
        );
        f(&mut e);
        e
    };

    assert!(validate(&timed(&|_| {})).is_err());
    assert!(validate(&timed(&|e| e.recurrence = PatchValue::Null)).is_ok());
    assert!(validate(&timed(&|e| e.all_day = Some(false))).is_ok());

    let date_only = event("DST dates", "2030-03-30", "2030-03-30");
    assert!(validate(&date_only).is_ok());

    let ordinary_defaults = BatchDefaults {
        all_day: Some(true),
        ..Default::default()
    };
    assert!(validate_recurring_all_day_inputs(
        ordinary_defaults.all_day.unwrap(),
        ordinary_defaults.recurrence.is_some(),
        "2030-03-30T00:00:00+01:00",
        "2030-03-31T00:00:00+01:00"
    )
    .is_ok());
}

fn prepared_event(title: &str) -> PreparedEvent {
    let start = Instant { seconds: 1_783_674_000, nanos: 0 };
    let end = Instant { seconds: 1_783_677_600, nanos: 0 };
    let calendar = CalendarInfo {
        identifier: "CAL-1".to_string(),
        title: "Calendar".to_string(),
        source: Some("iCloud".to_string()),
        source_id: Some("SOURCE-1".to_string()),
        calendar_type: "CalDAV".to_string(),
        allows_modifications: true,
        is_immutable: false,
        is_subscribed: false,
        allowed_entity_types: vec!["event".to_string()],
        supported_event_availabilities: vec!["busy".to_string()],
    };
    PreparedEvent {
        identity: EventIdentity {
            calendar_id: calendar.identifier.clone(),
            title: title.to_string(),
            start_utc: "2026-07-10T01:00:00+00:00".to_string(),
            end_utc: "2026-07-10T02:00:00+00:00".to_string(),
            all_day: false,
        },
        client_id: None,
        title: title.to_string(),
        start_input: "2026-07-10T09:00".to_string(),
        end_input: "2026-07-10T10:00".to_string(),
        start,
        end,
        calendar,
        calendar_selection: CalendarSelection::Explicit,
        notes: PatchValue::Missing,
        location: PatchValue::Missing,
        url: PatchValue::Missing,
        time_zone: PatchValue::Missing,
        availability: None,
        all_day: false,
        all_day_patch: None,
        alarms: None,
        recurrence: None,
        matched: None,
        action: Some(PlannedAction::Create),
        policy_error: None,
    }
}

fn slot_with_client_id(index: usize, client_id: &str, title: &str) -> BatchSlot {
    let mut e = event(title, "2026-07-10T09:00", "2026-07-10T10:00");
    e.client_id = Some(client_id.to_string());
    BatchSlot {
        index,
        client_id: Some(client_id.to_string()),
        event: Some(e),
        prepared: None,
        error: None,
    }
}

#[test]
fn duplicate_client_ids_fail_every_matching_row() {
    let mut slots = vec![
        slot_with_client_id(0, "same", "One"),
        slot_with_client_id(1, "same", "Two"),
    ];
    mark_duplicate_client_ids(&mut slots);

    assert!(slots.iter().all(|slot| slot.error.is_some()));
    assert_eq!(slots[0].error.as_deref(), Some("duplicate client_id: \"same\""));
}

#[test]
fn distinct_client_ids_leave_rows_untouched() {
    let mut slots = vec![
        slot_with_client_id(0, "one", "One"),
        slot_with_client_id(1, "two", "Two"),
        slot_with_client_id(2, "one", "Three"),
    ];
    mark_duplicate_client_ids(&mut slots);
    assert!(slots[0].error.is_some());
    assert!(slots[1].error.is_none());
    assert!(slots[2].error.is_some());
}

#[test]
fn duplicate_event_identities_fail_every_matching_row() {
    let mut slots = vec![
        BatchSlot {
            index: 0,
            client_id: None,
            event: None,
            prepared: Some(prepared_event("Meeting")),
            error: None,
        },
        BatchSlot {
            index: 1,
            client_id: None,
            event: None,
            prepared: Some(prepared_event("Meeting")),
            error: None,
        },
    ];
    mark_duplicate_identities(&mut slots);

    assert!(slots.iter().all(|slot| slot.error.is_some()));
    assert!(slots[0].error.as_deref().unwrap().contains("rows 1, 2"));
}

#[test]
fn different_titles_are_different_identities() {
    let mut slots = vec![
        BatchSlot {
            index: 0,
            client_id: None,
            event: None,
            prepared: Some(prepared_event("Meeting")),
            error: None,
        },
        BatchSlot {
            index: 1,
            client_id: None,
            event: None,
            prepared: Some(prepared_event("Standup")),
            error: None,
        },
    ];
    mark_duplicate_identities(&mut slots);
    assert!(slots.iter().all(|slot| slot.error.is_none()));
}

fn planned_slot(index: usize, title: &str) -> BatchSlot {
    BatchSlot {
        index,
        client_id: None,
        event: None,
        prepared: Some(prepared_event(title)),
        error: None,
    }
}

fn failed_slot(index: usize, message: &str) -> BatchSlot {
    BatchSlot {
        index,
        client_id: Some("row".to_string()),
        event: None,
        prepared: None,
        error: Some(message.to_string()),
    }
}

#[test]
fn dry_runs_report_what_each_row_would_do() {
    let slots = vec![planned_slot(0, "Meeting"), failed_slot(1, "invalid start: x")];
    let items = dry_run_reports(&slots, vec![None, None]);
    assert_eq!(items.len(), 2);
    assert_eq!(items[0].status, "would_create");
    assert!(items[0].error.is_none());
    assert_eq!(items[1].status, "failed");
    assert_eq!(items[1].client_id.as_deref(), Some("row"));
    assert_eq!(items[1].error.as_ref().unwrap().message, "invalid start: x");
}

#[test]
fn blocked_batches_attempt_nothing() {
    let slots = vec![planned_slot(0, "Meeting"), failed_slot(1, "bad row")];
    let items = blocked_reports(&slots, vec![None, None]);
    assert_eq!(items[0].status, "not_attempted");
    assert_eq!(
        items[0].error.as_ref().unwrap().message,
        "batch blocked by preflight errors"
    );
    assert_eq!(items[1].status, "failed");
}

#[test]
fn a_write_failure_stops_later_rows_unless_continuing() {
    assert!(stops_batch(false, true, false));
    assert!(!stops_batch(false, true, true));
    assert!(stops_batch(true, false, true));
    assert!(!stops_batch(false, false, false));
    assert!(matches!(row_plan(&planned_slot(0, "Meeting"), true), RowPlan::NotAttempted));
    assert!(matches!(
        row_plan(&planned_slot(0, "Meeting"), false),
        RowPlan::Run(ExecutionStep::Create)
    ));
    assert!(matches!(
        row_plan(&failed_slot(0, "bad row"), false),
        RowPlan::Failed(m) if m == "bad row"
    ));
}

#[test]
fn rows_after_a_write_failure_are_reported_not_attempted() {
    let slot = planned_slot(3, "Meeting");
    let item = not_attempted_report(&slot, None);
    assert_eq!(item.index, 3);
    assert_eq!(item.status, "not_attempted");
    assert!(item.event_id.is_none());
    assert_eq!(
        item.error.as_ref().unwrap().message,
        "not attempted after an earlier write failure"
    );
}

#[test]
fn only_field_patches_count_as_event_patches() {
    let mut prepared = prepared_event("Meeting");
    assert!(!has_event_patch(&prepared));
    prepared.time_zone = PatchValue::Value("Europe/Berlin".to_string());
    assert!(!has_event_patch(&prepared));
    prepared.notes = PatchValue::Null;
    assert!(has_event_patch(&prepared));
}

#[test]
fn parses_rows_independently() {
    let slots = event_slots(vec![
        BatchRow {
            client_id: Some("valid".to_string()),
            event: Ok({
                let mut e = event("Meeting", "2026-07-10T09:00", "2026-07-10T10:00");
                e.client_id = Some("valid".to_string());
                e
            }),
        },
        BatchRow {
            client_id: Some("invalid".to_string()),
            event: Err("missing field `start`".to_string()),
        },
    ]);

    assert!(slots[0].error.is_none());
    assert!(slots[1].error.as_deref().unwrap().contains("missing field"));
    assert_eq!(slots[1].client_id.as_deref(), Some("invalid"));
    assert_eq!(slots[1].index, 1);
    assert_eq!(
        slots[1].error.as_deref(),
        Some("invalid event: missing field `start`")
    );
}

#[test]
fn only_the_current_batch_version_is_read() {
    assert!(check_batch_version(1).is_ok());
    assert_eq!(
        check_batch_version(2).unwrap_err(),
        "unsupported batch version 2; expected 1"
    );
}

#[test]
fn a_policy_error_fails_the_prepared_row() {
    let mut slot = planned_slot(0, "Meeting");
    slot.prepared = None;
    let mut prepared = prepared_event("Meeting");
    prepared.policy_error = Some("recurring batch update requires explicit series scope".to_string());
    record_preparation(&mut slot, Ok(prepared));
    assert!(slot.prepared.is_some());
    assert_eq!(
        slot.error.as_deref(),
        Some("recurring batch update requires explicit series scope")
    );
    let mut other = planned_slot(1, "Meeting");
    record_preparation(&mut other, Err("unknown IANA time zone: Mars".to_string()));
    assert_eq!(other.error.as_deref(), Some("unknown IANA time zone: Mars"));
}

#[test]
fn a_failed_write_stops_the_rows_after_it() {
    let slots = vec![
        planned_slot(0, "First"),
        failed_slot(1, "bad row"),
        planned_slot(2, "Second"),
        planned_slot(3, "Third"),
    ];
    let write = |k: usize, _step: ExecutionStep| {
        if k == 0 {
            Err("disk full".to_string())
        } else {
            Ok(format!("id-{k}"))
        }
    };
    let items = execute_rows(&slots, false, write, |_k: usize| None);
    let statuses: Vec<&str> = items.iter().map(|item| item.status.as_str()).collect();
    assert_eq!(statuses, vec!["failed", "failed", "not_attempted", "not_attempted"]);
    assert_eq!(items[0].error.as_ref().unwrap().message, "disk full");
    assert_eq!(items[1].error.as_ref().unwrap().message, "bad row");
    assert_eq!(
        items[2].error.as_ref().unwrap().message,
        "not attempted after an earlier write failure"
    );

    let items = execute_rows(&slots, true, write, |_k: usize| None);
    let statuses: Vec<&str> = items.iter().map(|item| item.status.as_str()).collect();
    assert_eq!(statuses, vec!["failed", "failed", "created", "created"]);
    assert_eq!(items[3].event_id.as_deref(), Some("id-3"));
}
