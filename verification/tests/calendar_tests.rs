use icalctl::calendar::{
    calendar_selection_for_write_with_config, datetime_within_window, ensure_availability_supported,
    ensure_valid_event_range, filter_calendar_list, nullable_patch, patched_field_present,
    resolve_event_mutation_scope, validate_alarm_minutes,
};
use icalctl::cli::{
    AvailabilityArg, EventRecurrenceArgs, EventRepeatArg, EventScopeArg, EventWeekdayArg,
    WriteCalendarSelectorArgs,
};
use icalctl::dates::{parse_end_datetime, parse_start_datetime, Instant};
use icalctl::event_writes::parse_occurrence_start;
use icalctl::eventkit::{CalendarInfo, EventAvailability, EventSpan};
use icalctl::models::{CalendarSelection, EventRecurrenceWeekdayReport};
use icalctl::recurrence::{
    copy_recurrence_report, parse_event_recurrence, recurrence_rules_match,
    validate_recurring_all_day_inputs,
};

fn calendar(id: &str, title: &str) -> CalendarInfo {
    CalendarInfo {
        identifier: id.to_string(),
        title: title.to_string(),
        source: Some("iCloud".to_string()),
        source_id: Some("SOURCE".to_string()),
        calendar_type: "CalDAV".to_string(),
        allows_modifications: true,
        is_immutable: false,
        is_subscribed: false,
        allowed_entity_types: vec!["event".to_string()],
        supported_event_availabilities: Vec::new(),
    }
}

fn check_nullable_patch_clear_wins() {
    assert_eq!(nullable_patch(Some("notes"), false), Some(Some("notes")));
    assert_eq!(nullable_patch(Some("notes"), true), Some(None));
    assert_eq!(nullable_patch(None, true), Some(None));
    assert_eq!(nullable_patch(None, false), None);
}

#[test]
fn calendar_nullable_patch_clear_wins() {
    check_nullable_patch_clear_wins();
}

#[test]
fn tests_nullable_patch_clear_wins() {
    check_nullable_patch_clear_wins();
}

fn check_availability_arg_maps_to_eventkit_availability() {
    assert!(EventAvailability::from(AvailabilityArg::Free) == EventAvailability::Free);
    assert!(EventAvailability::from(AvailabilityArg::Unavailable) == EventAvailability::Unavailable);
}

#[test]
fn calendar_availability_arg_maps_to_eventkit_availability() {
    check_availability_arg_maps_to_eventkit_availability();
}

#[test]
fn tests_availability_arg_maps_to_eventkit_availability() {
    check_availability_arg_maps_to_eventkit_availability();
}

fn check_calendar_list_filters_source_and_writability() {
    let icloud = calendar("A", "Personal");
    let mut exchange = calendar("B", "Work");
    exchange.source = Some("Exchange".to_string());
    let mut read_only = calendar("C", "Holidays");
    read_only.allows_modifications = false;
    let calendars = vec![icloud, exchange, read_only];

    let icloud_writable = filter_calendar_list(calendars, Some("iCloud"), true);

    assert_eq!(icloud_writable.len(), 1);
    assert_eq!(icloud_writable[0].identifier, "A");
}

#[test]
fn tests_calendar_list_filters_source_and_writability() {
    check_calendar_list_filters_source_and_writability();
}

#[test]
fn calendar_calendar_list_filters_source_and_writability() {
    check_calendar_list_filters_source_and_writability();
}

#[test]
fn calendar_list_without_filters_keeps_every_calendar_in_order() {
    let mut read_only = calendar("C", "Holidays");
    read_only.allows_modifications = false;
    let all = filter_calendar_list(vec![calendar("A", "Personal"), read_only], None, false);
    assert_eq!(all.len(), 2);
    assert_eq!(all[0].identifier, "A");
    assert_eq!(all[1].identifier, "C");
}

fn check_add_selection_reports_explicit_or_eventkit_default() {
    let implicit = WriteCalendarSelectorArgs {
        calendar: None,
        calendar_id: None,
        calendar_source: None,
        source_id: None,
    };
    let explicit = WriteCalendarSelectorArgs {
        calendar: None,
        calendar_id: Some("B".to_string()),
        calendar_source: None,
        source_id: None,
    };

    assert!(
        calendar_selection_for_write_with_config(&implicit, false) == CalendarSelection::EventkitDefault
    );
    assert!(
        calendar_selection_for_write_with_config(&implicit, true) == CalendarSelection::ConfiguredDefault
    );
    assert!(calendar_selection_for_write_with_config(&explicit, true) == CalendarSelection::Explicit);
}

#[test]
fn calendar_add_selection_reports_explicit_or_eventkit_default() {
    check_add_selection_reports_explicit_or_eventkit_default();
}

#[test]
fn tests_add_selection_reports_explicit_or_eventkit_default() {
    check_add_selection_reports_explicit_or_eventkit_default();
}

fn check_alarm_validation_rejects_negative_values_before_writes() {
    assert!(validate_alarm_minutes(&[0, 10]).is_ok());
    assert_eq!(
        validate_alarm_minutes(&[-1]).unwrap_err().to_string(),
        "alarm minutes before must be zero or greater: -1"
    );
}

#[test]
fn calendar_alarm_validation_rejects_negative_values_before_writes() {
    check_alarm_validation_rejects_negative_values_before_writes();
}

#[test]
fn tests_alarm_validation_rejects_negative_values_before_writes() {
    check_alarm_validation_rejects_negative_values_before_writes();
}

#[test]
fn alarm_validation_reports_the_first_negative_value() {
    assert_eq!(
        validate_alarm_minutes(&[5, -3, -7]).unwrap_err(),
        "alarm minutes before must be zero or greater: -3"
    );
}

fn check_event_range_validation_rejects_non_positive_duration() {
    let start = parse_start_datetime("2026-07-10T10:00").unwrap();
    let same = parse_end_datetime("2026-07-10T10:00").unwrap();
    let earlier = parse_end_datetime("2026-07-10T09:00").unwrap();

    assert!(ensure_valid_event_range(start, same).is_err());
    assert!(ensure_valid_event_range(start, earlier).is_err());
}

#[test]
fn calendar_event_range_validation_rejects_non_positive_duration() {
    check_event_range_validation_rejects_non_positive_duration();
}

#[test]
fn tests_event_range_validation_rejects_non_positive_duration() {
    check_event_range_validation_rejects_non_positive_duration();
}

#[test]
fn event_range_accepts_a_positive_duration() {
    let start = Instant { seconds: 100, nanos: 0 };
    let end = Instant { seconds: 100, nanos: 1 };
    assert!(ensure_valid_event_range(start, end).is_ok());
    assert_eq!(
        ensure_valid_event_range(end, start).unwrap_err(),
        "event start must be before event end"
    );
}

fn check_duplicate_window_is_exact_by_default_and_tolerant_when_requested() {
    let expected = parse_start_datetime("2026-07-10T10:00:00+08:00").unwrap();
    let thirty_seconds_later = Instant {
        seconds: expected.seconds + 30,
        nanos: expected.nanos,
    };

    assert!(!datetime_within_window(thirty_seconds_later, expected, 0));
    assert!(datetime_within_window(thirty_seconds_later, expected, 30));
    assert!(!datetime_within_window(thirty_seconds_later, expected, 29));
}

#[test]
fn calendar_duplicate_window_is_exact_by_default_and_tolerant_when_requested() {
    check_duplicate_window_is_exact_by_default_and_tolerant_when_requested();
}

#[test]
fn tests_duplicate_window_is_exact_by_default_and_tolerant_when_requested() {
    check_duplicate_window_is_exact_by_default_and_tolerant_when_requested();
}

fn check_availability_validation_uses_calendar_capabilities() {
    let mut calendar = calendar("A", "Work");
    calendar.supported_event_availabilities = vec!["busy".to_string(), "free".to_string()];

    assert!(ensure_availability_supported(&calendar, Some(EventAvailability::Free)).is_ok());
    assert!(ensure_availability_supported(&calendar, Some(EventAvailability::Tentative)).is_err());
}

#[test]
fn tests_availability_validation_uses_calendar_capabilities() {
    check_availability_validation_uses_calendar_capabilities();
}

#[test]
fn calendar_availability_validation_uses_calendar_capabilities() {
    check_availability_validation_uses_calendar_capabilities();
}

fn check_nullable_patch_presence_matches_resulting_field() {
    assert!(patched_field_present(Some("old"), None));
    assert!(patched_field_present(None, Some(Some("new"))));
    assert!(!patched_field_present(Some("old"), Some(None)));
}

#[test]
fn calendar_nullable_patch_presence_matches_resulting_field() {
    check_nullable_patch_presence_matches_resulting_field();
}

#[test]
fn tests_nullable_patch_presence_matches_resulting_field() {
    check_nullable_patch_presence_matches_resulting_field();
}

fn check_occurrence_start_requires_an_explicit_rfc3339_offset() {
    assert!(parse_occurrence_start("2026-07-20T09:00:00+03:00").is_ok());
    assert!(parse_occurrence_start("2026-07-20T09:00:00").is_err());
    assert_eq!(
        parse_occurrence_start("1969-12-31T23:59:59.750+00:00")
            .unwrap()
            .seconds,
        0
    );
}

#[test]
fn calendar_occurrence_start_requires_an_explicit_rfc3339_offset() {
    check_occurrence_start_requires_an_explicit_rfc3339_offset();
}

#[test]
fn tests_occurrence_start_requires_an_explicit_rfc3339_offset() {
    check_occurrence_start_requires_an_explicit_rfc3339_offset();
}

#[test]
fn occurrence_start_is_cut_to_the_whole_second() {
    let start = parse_occurrence_start("2026-07-20T09:00:00.900+03:00").unwrap();
    assert_eq!(start.seconds, 1_784_527_200);
    assert_eq!(start.nanos, 0);
}

fn check_recurring_creation_normalizes_weekdays_and_count() {
    let recurrence = parse_event_recurrence(
        &EventRecurrenceArgs {
            repeat: Some(EventRepeatArg::Weekly),
            interval: Some(2),
            weekdays: vec![
                EventWeekdayArg::Wednesday,
                EventWeekdayArg::Monday,
                EventWeekdayArg::Monday,
            ],
            month_days: Vec::new(),
            count: Some(8),
            until: None,
        },
        "2026-07-20T09:00:00+03:00",
        None,
    )
    .unwrap()
    .unwrap();

    assert_eq!(recurrence.frequency, "weekly");
    assert_eq!(recurrence.interval, 2);
    assert_eq!(recurrence.end.occurrence_count, Some(8));
    assert!(
        recurrence.days_of_week.unwrap()
            == vec![
                EventRecurrenceWeekdayReport {
                    weekday: 2,
                    week_number: 0,
                },
                EventRecurrenceWeekdayReport {
                    weekday: 4,
                    week_number: 0,
                },
            ]
    );
}

#[test]
fn calendar_recurring_creation_normalizes_weekdays_and_count() {
    check_recurring_creation_normalizes_weekdays_and_count();
}

#[test]
fn tests_recurring_creation_normalizes_weekdays_and_count() {
    check_recurring_creation_normalizes_weekdays_and_count();
}

fn check_recurring_creation_rejects_invalid_combinations_and_end() {
    let mut args = EventRecurrenceArgs {
        repeat: Some(EventRepeatArg::Daily),
        weekdays: vec![EventWeekdayArg::Monday],
        ..Default::default()
    };
    assert!(parse_event_recurrence(&args, "2026-07-20T09:00:00+03:00", None).is_err());
    args = EventRecurrenceArgs {
        repeat: Some(EventRepeatArg::Monthly),
        month_days: vec![0],
        ..Default::default()
    };
    assert!(parse_event_recurrence(&args, "2026-07-20T09:00:00+03:00", None).is_err());
    args = EventRecurrenceArgs {
        repeat: Some(EventRepeatArg::Yearly),
        until: Some("2026-07-19T09:00:00+03:00".to_string()),
        ..Default::default()
    };
    assert!(parse_event_recurrence(&args, "2026-07-20T09:00:00+03:00", None).is_err());
    args = EventRecurrenceArgs {
        repeat: Some(EventRepeatArg::Yearly),
        month_days: vec![1],
        ..Default::default()
    };
    assert!(parse_event_recurrence(&args, "2026-07-20T09:00:00+03:00", None).is_err());
}

#[test]
fn calendar_recurring_creation_rejects_invalid_combinations_and_end() {
    check_recurring_creation_rejects_invalid_combinations_and_end();
}

#[test]
fn tests_recurring_creation_rejects_invalid_combinations_and_end() {
    check_recurring_creation_rejects_invalid_combinations_and_end();
}

#[test]
fn no_recurrence_options_mean_no_rule() {
    let args = EventRecurrenceArgs::default();
    assert!(parse_event_recurrence(&args, "2026-07-20T09:00:00+03:00", None)
        .unwrap()
        .is_none());
}

fn check_recurring_duplicate_identity_requires_the_exact_normalized_rule() {
    let requested = parse_event_recurrence(
        &EventRecurrenceArgs {
            repeat: Some(EventRepeatArg::Weekly),
            weekdays: vec![EventWeekdayArg::Monday],
            ..Default::default()
        },
        "2026-07-20T09:00:00+03:00",
        None,
    )
    .unwrap()
    .unwrap();
    let mut different = copy_recurrence_report(&requested);
    different.interval = 2;

    assert!(recurrence_rules_match(
        Some(&requested),
        std::slice::from_ref(&requested)
    ));
    assert!(!recurrence_rules_match(Some(&requested), &[different]));
    assert!(!recurrence_rules_match(
        None,
        std::slice::from_ref(&requested)
    ));
    assert!(recurrence_rules_match(None, &[]));
}

#[test]
fn calendar_recurring_duplicate_identity_requires_the_exact_normalized_rule() {
    check_recurring_duplicate_identity_requires_the_exact_normalized_rule();
}

#[test]
fn tests_recurring_duplicate_identity_requires_the_exact_normalized_rule() {
    check_recurring_duplicate_identity_requires_the_exact_normalized_rule();
}

#[test]
fn recurring_mutations_require_occurrence_and_explicit_scope() {
    assert!(resolve_event_mutation_scope(true, false, Some(EventScopeArg::Future)).is_err());
    assert!(resolve_event_mutation_scope(true, true, None).is_err());
    assert!(
        resolve_event_mutation_scope(true, true, Some(EventScopeArg::Occurrence)).unwrap()
            == (EventSpan::This, Some("occurrence"))
    );
    assert!(
        resolve_event_mutation_scope(true, true, Some(EventScopeArg::Future)).unwrap()
            == (EventSpan::Future, Some("future"))
    );
}

#[test]
fn nonrecurring_mutations_reject_series_scope() {
    assert!(resolve_event_mutation_scope(false, false, None).unwrap() == (EventSpan::This, None));
    assert!(resolve_event_mutation_scope(false, true, Some(EventScopeArg::Occurrence)).is_err());
}

#[test]
fn recurring_all_day_events_require_date_only_boundaries() {
    assert!(validate_recurring_all_day_inputs(true, true, "2030-03-30", "2030-03-30").is_ok());
    assert!(validate_recurring_all_day_inputs(
        true,
        true,
        "2030-03-30T00:00:00+01:00",
        "2030-03-31T00:00:00+01:00"
    )
    .is_err());
    assert!(validate_recurring_all_day_inputs(
        false,
        true,
        "2030-03-30T09:00:00+01:00",
        "2030-03-30T10:00:00+01:00"
    )
    .is_ok());
}
