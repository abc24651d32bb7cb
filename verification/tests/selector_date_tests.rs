use icalctl::calendar_selector::{resolve_calendars, CalendarSelector};
use icalctl::dates::{
    local_day_range, midnight_of, next_date, CivilDate, Instant, Resolution,
    datetime_in_time_zone, local_rfc3339, parse_end_datetime, parse_end_datetime_in_time_zone,
    parse_start_datetime, parse_start_datetime_in_time_zone, seconds_between, utc_datetime,
    validate_time_zone,
};
use icalctl::eventkit::CalendarInfo;

fn expect_message<T>(result: Result<T, String>) -> String {
    match result {
        Err(message) => message,
        Ok(_) => panic!("expected an error message"),
    }
}

fn calendar(id: &str, title: &str, source: &str, source_id: &str) -> CalendarInfo {
    CalendarInfo {
        identifier: id.to_string(),
        title: title.to_string(),
        source: Some(source.to_string()),
        source_id: Some(source_id.to_string()),
        calendar_type: "CalDAV".to_string(),
        allows_modifications: true,
        is_immutable: false,
        is_subscribed: false,
        allowed_entity_types: vec!["event".to_string()],
        supported_event_availabilities: Vec::new(),
    }
}

#[test]
fn unique_title_resolves() {
    let calendars = vec![calendar("A", "Work", "iCloud", "S1")];
    let titles = vec!["Work".to_string()];
    let resolved = resolve_calendars(
        &calendars,
        &CalendarSelector {
            titles: &titles,
            ..Default::default()
        },
    )
    .unwrap();

    assert_eq!(resolved[0].identifier, "A");
}

#[test]
fn duplicate_title_is_ambiguous_and_lists_candidates() {
    let calendars = vec![
        calendar("A", "Calendar", "iCloud", "S1"),
        calendar("B", "Calendar", "Exchange", "S2"),
    ];
    let titles = vec!["Calendar".to_string()];
    let error = match resolve_calendars(
        &calendars,
        &CalendarSelector {
            titles: &titles,
            ..Default::default()
        },
    ) {
        Ok(_) => panic!("an ambiguous title must not resolve"),
        Err(error) => error,
    };

    assert!(error.contains("calendar title \"Calendar\" is ambiguous"));
    assert!(error.contains("source=\"iCloud\""));
    assert!(error.contains("source_id=\"S2\""));
    assert!(error.contains("calendar_id=\"A\""));
    assert!(error.contains("writable=true"));
}

#[test]
fn source_qualified_title_resolves() {
    let calendars = vec![
        calendar("A", "Calendar", "iCloud", "S1"),
        calendar("B", "Calendar", "Exchange", "S2"),
    ];
    let titles = vec!["Calendar".to_string()];
    let resolved = resolve_calendars(
        &calendars,
        &CalendarSelector {
            titles: &titles,
            source: Some("Exchange"),
            ..Default::default()
        },
    )
    .unwrap();

    assert_eq!(resolved[0].identifier, "B");
}

#[test]
fn source_id_qualified_title_resolves() {
    let calendars = vec![
        calendar("A", "Calendar", "iCloud", "S1"),
        calendar("B", "Calendar", "Exchange", "S2"),
    ];
    let titles = vec!["Calendar".to_string()];
    let resolved = resolve_calendars(
        &calendars,
        &CalendarSelector {
            titles: &titles,
            source_id: Some("S1"),
            ..Default::default()
        },
    )
    .unwrap();

    assert_eq!(resolved[0].identifier, "A");
}

#[test]
fn exact_id_resolves_duplicate_title() {
    let calendars = vec![
        calendar("A", "Calendar", "iCloud", "S1"),
        calendar("B", "Calendar", "Exchange", "S2"),
    ];
    let ids = vec!["A".to_string()];
    let resolved = resolve_calendars(
        &calendars,
        &CalendarSelector {
            ids: &ids,
            ..Default::default()
        },
    )
    .unwrap();

    assert_eq!(resolved[0].source.as_deref(), Some("iCloud"));
}

#[test]
fn date_only_start_uses_start_of_day() {
    let parsed = parse_start_datetime("2026-07-06").unwrap();

    assert!(local_rfc3339(parsed).starts_with("2026-07-06T00:00:00"));
}

#[test]
fn date_only_end_is_exclusive_next_day() {
    let parsed = parse_end_datetime("2026-07-06").unwrap();

    assert!(local_rfc3339(parsed).starts_with("2026-07-07T00:00:00"));
}

#[test]
fn local_datetime_accepts_minute_precision() {
    let parsed = parse_start_datetime("2026-07-06T09:30").unwrap();

    assert!(local_rfc3339(parsed).starts_with("2026-07-06T09:30:00"));
}

#[test]
fn crossing_offsets_with_same_clock_time_is_one_hour() {
    let start = parse_start_datetime("2026-07-12T15:55:00+03:00").unwrap();
    let end = parse_end_datetime("2026-07-12T15:55:00+02:00").unwrap();

    assert_eq!(seconds_between(start, end), 3600);
    assert_eq!(utc_datetime(start), "2026-07-12T12:55:00+00:00");
    assert_eq!(utc_datetime(end), "2026-07-12T13:55:00+00:00");
}

#[test]
fn renders_instants_in_requested_iana_time_zone() {
    let start = parse_start_datetime("2026-07-12T15:55:00+03:00").unwrap();

    assert_eq!(
        datetime_in_time_zone(start, "Europe/Berlin").unwrap(),
        "2026-07-12T14:55:00+02:00"
    );
    assert!(validate_time_zone("Mars/Olympus_Mons").is_err());
}

#[test]
fn time_zone_controls_naive_datetime_parsing() {
    let start = parse_start_datetime_in_time_zone("2026-07-12T15:55", Some("Europe/Berlin")).unwrap();
    let end = parse_end_datetime_in_time_zone("2026-07-12T16:55", Some("Europe/Berlin")).unwrap();

    assert_eq!(utc_datetime(start), "2026-07-12T13:55:00+00:00");
    assert_eq!(utc_datetime(end), "2026-07-12T14:55:00+00:00");
    assert_eq!(seconds_between(start, end), 3600);
}

#[test]
fn no_time_zone_flag_uses_mac_local_time() {
    let parsed = parse_start_datetime_in_time_zone("2026-07-12T15:55", None).unwrap();

    assert!(local_rfc3339(parsed).starts_with("2026-07-12T15:55:00"));
}

#[test]
fn explicit_offset_remains_authoritative_with_time_zone() {
    let start = parse_start_datetime_in_time_zone("2026-07-12T15:55:00+03:00", Some("Europe/Berlin")).unwrap();

    assert_eq!(utc_datetime(start), "2026-07-12T12:55:00+00:00");
}

#[test]
fn explicit_offset_is_authoritative_without_time_zone_flag() {
    let start = parse_start_datetime_in_time_zone("2026-07-12T15:55:00+03:00", None).unwrap();

    assert_eq!(utc_datetime(start), "2026-07-12T12:55:00+00:00");
}

#[test]
fn time_zone_controls_date_only_midnight_boundaries() {
    let start = parse_start_datetime_in_time_zone("2026-07-12", Some("Europe/Berlin")).unwrap();
    let end = parse_end_datetime_in_time_zone("2026-07-12", Some("Europe/Berlin")).unwrap();

    assert_eq!(utc_datetime(start), "2026-07-11T22:00:00+00:00");
    assert_eq!(utc_datetime(end), "2026-07-12T22:00:00+00:00");
}

#[test]
fn rejects_naive_datetime_in_dst_gap() {
    let result = parse_start_datetime_in_time_zone("2026-03-29T02:30", Some("Europe/Berlin"));

    assert_eq!(
        expect_message(result),
        "datetime does not exist in time zone Europe/Berlin"
    );
}

#[test]
fn rejects_ambiguous_naive_datetime_without_guessing_offset() {
    let result = parse_start_datetime_in_time_zone("2026-10-25T02:30", Some("Europe/Berlin"));

    assert_eq!(
        expect_message(result),
        "datetime is ambiguous in time zone Europe/Berlin; include an explicit UTC offset"
    );
}

#[test]
fn end_of_a_date_in_an_unknown_zone_is_refused() {
    let result = parse_end_datetime_in_time_zone("2026-07-12", Some("Mars/Olympus_Mons"));

    assert!(result.is_err());
}

fn date(year: i32, month: u32, day: u32) -> CivilDate {
    CivilDate { year, month, day }
}

fn same_date(a: Option<CivilDate>, b: (i32, u32, u32)) -> bool {
    matches!(a, Some(d) if d.year == b.0 && d.month == b.1 && d.day == b.2)
}

#[test]
fn the_next_date_rolls_over_months_years_and_leap_days() {
    assert!(same_date(next_date(date(2026, 7, 12)), (2026, 7, 13)));
    assert!(same_date(next_date(date(2026, 4, 30)), (2026, 5, 1)));
    assert!(same_date(next_date(date(2026, 12, 31)), (2027, 1, 1)));
    assert!(same_date(next_date(date(2024, 2, 28)), (2024, 2, 29)));
    assert!(same_date(next_date(date(2026, 2, 28)), (2026, 3, 1)));
    assert!(same_date(next_date(date(1900, 2, 28)), (1900, 3, 1)));
    assert!(same_date(next_date(date(2000, 2, 28)), (2000, 2, 29)));
    assert!(next_date(date(262142, 12, 31)).is_none());
}

#[test]
fn midnight_starts_the_date() {
    let m = midnight_of(date(2026, 7, 12));
    assert_eq!((m.date.year, m.date.month, m.date.day), (2026, 7, 12));
    assert_eq!((m.hour, m.minute, m.second, m.nanos), (0, 0, 0, 0));
}

#[test]
fn a_day_range_needs_both_midnights_placed_once() {
    let start = Instant { seconds: 100, nanos: 0 };
    let end = Instant { seconds: 86_500, nanos: 0 };
    match local_day_range(Resolution::Single(start), Resolution::Single(end)) {
        Ok((s, e)) => assert_eq!((s.seconds, e.seconds), (100, 86_500)),
        Err(_) => panic!("both midnights were placed"),
    }
    assert_eq!(
        expect_message(local_day_range(Resolution::Missing, Resolution::Single(end))),
        "local datetime does not exist in the current timezone"
    );
    assert_eq!(
        expect_message(local_day_range(Resolution::Single(start), Resolution::Ambiguous)),
        "local datetime is ambiguous; include an explicit UTC offset"
    );
}
