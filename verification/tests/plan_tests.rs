use icalctl::add_command::{check_json_file_fields, AddCommandInput, AddEventInput};
use icalctl::cli::EventRecurrenceArgs;
use icalctl::add_plan::{add_dry_run_draft, add_times};
use icalctl::batch::EventKitChecks;
use icalctl::cli::{AvailabilityArg, IfExistsArg, WriteCalendarSelectorArgs};
use icalctl::dates::Instant;
use icalctl::eventkit::{CalendarInfo, EventAvailability, EventItem};
use icalctl::models::CalendarSelection;
use icalctl::update_plan::{
    plan_update, update_dry_run_draft, update_duplicate_query, UpdateEventInput,
};

const OK: EventKitChecks = EventKitChecks {
    zone_ok: true,
    url_ok: true,
};

fn selector() -> WriteCalendarSelectorArgs {
    WriteCalendarSelectorArgs {
        calendar: None,
        calendar_id: None,
        calendar_source: None,
        source_id: None,
    }
}

fn add_input(start: &str, end: &str) -> AddEventInput {
    AddEventInput {
        title: "Meeting".to_string(),
        start: start.to_string(),
        end: end.to_string(),
        calendar_selector: selector(),
        notes: None,
        location: None,
        url: None,
        all_day: false,
        availability: None,
        time_zone: None,
        alarm_minutes_before: Vec::new(),
        recurrence: None,
        if_exists: IfExistsArg::Error,
        duplicate_window_seconds: 0,
        dry_run: true,
    }
}

fn calendar(id: &str, title: &str) -> CalendarInfo {
    CalendarInfo {
        identifier: id.to_string(),
        title: title.to_string(),
        source: Some("iCloud".to_string()),
        source_id: Some("SOURCE-1".to_string()),
        calendar_type: "CalDAV".to_string(),
        allows_modifications: true,
        is_immutable: false,
        is_subscribed: false,
        allowed_entity_types: vec!["event".to_string()],
        supported_event_availabilities: vec!["busy".to_string(), "free".to_string()],
    }
}

fn event(id: &str, calendar_id: &str) -> EventItem {
    EventItem {
        identifier: id.to_string(),
        title: "Meeting".to_string(),
        // 2026-07-10T01:00:00Z to 02:00:00Z
        start_date: Instant { seconds: 1_783_645_200, nanos: 0 },
        end_date: Instant { seconds: 1_783_648_800, nanos: 0 },
        all_day: false,
        calendar_id: Some(calendar_id.to_string()),
        calendar_title: Some("Work".to_string()),
        timezone: None,
        availability: EventAvailability::Busy,
        notes: Some("agenda".to_string()),
        location: None,
        url: None,
        status: "Confirmed".to_string(),
        is_detached: false,
        occurrence_date: None,
        creation_date: None,
        last_modified_date: None,
        external_identifier: None,
        attachments_count: 0,
    }
}

#[test]
fn add_checks_run_in_order() {
    let mut input = add_input("2026-07-10T09:00:00+08:00", "2026-07-10T10:00:00+08:00");
    input.duplicate_window_seconds = -1;
    assert_eq!(
        add_times(&input, OK).expect_message(),
        "--duplicate-window-seconds must be zero or greater"
    );
    let mut input = add_input("2026-07-10T09:00:00+08:00", "2026-07-10T10:00:00+08:00");
    input.time_zone = Some("Mars/Olympus_Mons".to_string());
    assert_eq!(
        add_times(&input, OK).expect_message(),
        "unknown IANA time zone: Mars/Olympus_Mons"
    );
    let input = add_input("tomorrow", "2026-07-10T10:00:00+08:00");
    assert!(add_times(&input, OK)
        .expect_message()
        .starts_with("invalid --start: tomorrow: "));
    let input = add_input("2026-07-10T10:00:00+08:00", "2026-07-10T09:00:00+08:00");
    assert_eq!(
        add_times(&input, OK).expect_message(),
        "event start must be before event end"
    );
    let mut input = add_input("2026-07-10T09:00:00+08:00", "2026-07-10T10:00:00+08:00");
    input.url = Some("https://exa mple.com".to_string());
    let refused = EventKitChecks {
        zone_ok: true,
        url_ok: false,
    };
    assert_eq!(
        add_times(&input, refused).expect_message(),
        "invalid URL: https://exa mple.com"
    );
}

#[test]
fn add_times_read_explicit_offsets() {
    let input = add_input("2026-07-10T09:00:00+08:00", "2026-07-10T10:00:00+08:00");
    let (start, end) = add_times(&input, OK).unwrap();
    assert_eq!(start.seconds, 1_783_645_200);
    assert_eq!(end.seconds - start.seconds, 3600);
}

#[test]
fn dry_run_output_exposes_resolved_write_plan() {
    let mut input = add_input("2026-07-10T09:00:00+08:00", "2026-07-10T10:00:00+08:00");
    input.time_zone = Some("Europe/Berlin".to_string());
    input.availability = Some(AvailabilityArg::Busy);
    input.alarm_minutes_before = vec![10];
    let (start, end) = add_times(&input, OK).unwrap();
    let draft = add_dry_run_draft(
        &input,
        start,
        end,
        &calendar("CAL-1", "Work"),
        CalendarSelection::Explicit,
        &vec![],
        None,
    )
    .unwrap();
    assert_eq!(draft.operation, "add");
    assert_eq!(draft.calendar_id, "CAL-1");
    assert_eq!(draft.start_utc, "2026-07-10T01:00:00+00:00");
    assert_eq!(
        draft.start_in_event_time_zone.as_deref(),
        Some("2026-07-10T03:00:00+02:00")
    );
    assert_eq!(draft.duration_seconds, 3600);
    assert_eq!(draft.availability, "busy");
    assert_eq!(draft.alarm_count, 1);
    assert!(draft.timed);
    assert!(draft.duplicate_warnings.is_empty());
}

#[test]
fn dry_run_reports_duplicates_and_policy() {
    let input = add_input("2026-07-10T09:00:00+08:00", "2026-07-10T10:00:00+08:00");
    let (start, end) = add_times(&input, OK).unwrap();
    let draft = add_dry_run_draft(
        &input,
        start,
        end,
        &calendar("CAL-1", "Work"),
        CalendarSelection::EventkitDefault,
        &vec![event("EVENT-1", "CAL-1")],
        Some("policy".to_string()),
    )
    .unwrap();
    assert_eq!(draft.operation, "error_recurrence_policy");
    assert_eq!(draft.event_id.as_deref(), Some("EVENT-1"));
    assert_eq!(draft.availability, "default");
    assert_eq!(draft.duplicate_warnings.len(), 2);
    assert!(draft.duplicate_warnings[0].starts_with("possible duplicate within 0 seconds: \"Meeting\" at "));
    assert!(draft.duplicate_warnings[0].ends_with(" [EVENT-1]"));
    assert_eq!(draft.duplicate_warnings[1], "policy");
}

fn update_input() -> UpdateEventInput {
    UpdateEventInput {
        id: "EVENT-1".to_string(),
        title: None,
        start: None,
        end: None,
        calendar_selector: selector(),
        notes: None,
        clear_notes: false,
        location: None,
        clear_location: false,
        url: None,
        clear_url: false,
        all_day: false,
        timed: false,
        availability: None,
        time_zone: None,
        clear_time_zone: false,
        add_alarm_minutes_before: Vec::new(),
        dry_run: true,
    }
}

#[test]
fn an_update_without_changes_is_refused() {
    let current = event("EVENT-1", "CAL-1");
    let calendars = vec![calendar("CAL-1", "Work")];
    assert_eq!(
        plan_update(&update_input(), &current, &None, &calendars, OK).expect_message(),
        "no update fields provided"
    );
    let mut alarms_only = update_input();
    alarms_only.add_alarm_minutes_before = vec![5];
    assert!(plan_update(&alarms_only, &current, &None, &calendars, OK).is_ok());
}

#[test]
fn update_keeps_unchanged_times_and_checks_the_range() {
    let current = event("EVENT-1", "CAL-1");
    let calendars = vec![calendar("CAL-1", "Work")];
    let mut input = update_input();
    input.end = Some("2026-07-10T08:30:00+08:00".to_string());
    assert_eq!(
        plan_update(&input, &current, &None, &calendars, OK).expect_message(),
        "event start must be before event end"
    );
    input.end = Some("2026-07-10T11:00:00+08:00".to_string());
    input.clear_notes = true;
    input.notes = Some("ignored".to_string());
    let plan = plan_update(&input, &current, &None, &calendars, OK).unwrap();
    assert_eq!(plan.effective_start.seconds, current.start_date.seconds);
    assert_eq!(plan.effective_end.seconds, 1_783_652_400);
    assert_eq!(plan.notes, Some(None));
    assert!(plan.changes_event);
    assert!(!plan.moves_calendar);

    let mut bad = update_input();
    bad.start = Some("soon".to_string());
    assert!(plan_update(&bad, &current, &None, &calendars, OK)
        .expect_message()
        .starts_with("invalid --start for event EVENT-1: "));
}

#[test]
fn update_checks_availability_on_the_target_calendar() {
    let current = event("EVENT-1", "CAL-1");
    let calendars = vec![calendar("CAL-1", "Work")];
    let mut target = calendar("CAL-2", "Home");
    target.supported_event_availabilities = vec!["busy".to_string()];
    let mut input = update_input();
    input.availability = Some(AvailabilityArg::Free);
    assert!(plan_update(&input, &current, &None, &calendars, OK).is_ok());
    let refused = plan_update(&input, &current, &Some(target), &calendars, OK).expect_message();
    assert!(refused.starts_with("calendar \"Home\" does not support availability \"free\""));
    assert_eq!(
        plan_update(&input, &event("EVENT-1", "GONE"), &None, &Vec::new(), OK).expect_message(),
        "event calendar is no longer available"
    );
}

#[test]
fn update_dry_run_describes_the_event_as_left() {
    let current = event("EVENT-1", "CAL-1");
    let calendars = vec![calendar("CAL-1", "Work")];
    let mut input = update_input();
    input.title = Some("Planning".to_string());
    input.add_alarm_minutes_before = vec![10, 20];
    input.time_zone = Some("Asia/Shanghai".to_string());
    let plan = plan_update(&input, &current, &None, &calendars, OK).unwrap();
    let query = update_duplicate_query("EVENT-1", &input, &current, &plan);
    assert_eq!(query.title, "Planning");
    assert_eq!(query.excluded_event_id.as_deref(), Some("EVENT-1"));
    let draft = update_dry_run_draft("EVENT-1", &input, &current, &plan, 1, &vec![]).unwrap();
    assert_eq!(draft.operation, "update");
    assert_eq!(draft.title, "Planning");
    assert_eq!(draft.alarm_count, 3);
    assert_eq!(draft.time_zone.as_deref(), Some("Asia/Shanghai"));
    assert_eq!(
        draft.start_in_event_time_zone.as_deref(),
        Some("2026-07-10T09:00:00+08:00")
    );
    assert!(draft.has_notes);
    assert!(draft.calendar_selection.is_none());
    assert_eq!(draft.availability, "busy");
}

trait ExpectMessage {
    fn expect_message(self) -> String;
}

impl<T> ExpectMessage for Result<T, String> {
    fn expect_message(self) -> String {
        match self {
            Err(message) => message,
            Ok(_) => panic!("expected an error message"),
        }
    }
}

fn command_input(json_file: Option<&str>, title: Option<&str>) -> AddCommandInput {
    AddCommandInput {
        title: title.map(str::to_string),
        start: None,
        end: None,
        calendar_selector: WriteCalendarSelectorArgs {
            calendar: None,
            calendar_id: None,
            calendar_source: None,
            source_id: None,
        },
        notes: None,
        notes_file: None,
        json_file: json_file.map(str::to_string),
        location: None,
        url: None,
        all_day: false,
        availability: None,
        time_zone: None,
        alarm_minutes_before: Vec::new(),
        recurrence: EventRecurrenceArgs::default(),
        if_exists: IfExistsArg::Error,
        duplicate_window_seconds: 0,
        dry_run: false,
    }
}

#[test]
fn a_json_file_with_individual_fields_is_refused_before_reading() {
    assert!(check_json_file_fields(&command_input(Some("event.json"), None)).is_ok());
    assert!(check_json_file_fields(&command_input(None, Some("Meeting"))).is_ok());
    assert!(check_json_file_fields(&command_input(Some("event.json"), Some("Meeting")))
        .unwrap_err()
        .starts_with("--json-file cannot be combined with individual event fields"));
}
