use icalctl::dates::Instant;
use icalctl::eventkit::{CalendarInfo, EventAvailability, EventItem, ParticipantInfo};
use icalctl::calendar_selector::CalendarSelector;
use icalctl::reports::{
    calendar_reports, ensure_listing_range, listing_range, upcoming_range, event_report, events_in_calendars, participant_report,
    selected_calendar_ids,
};

fn calendar(id: &str, title: &str) -> CalendarInfo {
    CalendarInfo {
        identifier: id.to_string(),
        title: title.to_string(),
        source: Some("iCloud".to_string()),
        source_id: Some("SOURCE".to_string()),
        calendar_type: "CalDAV".to_string(),
        allows_modifications: true,
        is_immutable: false,
        is_subscribed: false,
        allowed_entity_types: vec!["event".to_string()],
        supported_event_availabilities: Vec::new(),
    }
}

fn check_exactly_one_calendar_is_marked_as_default() {
    let calendars = vec![calendar("A", "Work"), calendar("B", "Personal")];
    let reports = calendar_reports(&calendars, Some("B"));

    assert_eq!(
        reports
            .iter()
            .filter(|calendar| calendar.is_default_for_new_events)
            .count(),
        1
    );
    assert!(reports[1].is_default_for_new_events);
    assert!(reports[1].allows_modifications);
}

#[test]
fn calendar_exactly_one_calendar_is_marked_as_default() {
    check_exactly_one_calendar_is_marked_as_default();
}

#[test]
fn tests_exactly_one_calendar_is_marked_as_default() {
    check_exactly_one_calendar_is_marked_as_default();
}

#[test]
fn without_a_default_no_calendar_is_marked() {
    let calendars = vec![calendar("A", "Work")];
    let reports = calendar_reports(&calendars, None);
    assert!(!reports[0].is_default_for_new_events);
    assert_eq!(reports[0].id, "A");
    assert_eq!(reports[0].calendar_type, "CalDAV");
}

fn event() -> EventItem {
    EventItem {
        identifier: "EVENT-1".to_string(),
        title: "Flight".to_string(),
        // 2026-07-12T12:55:00Z to 13:55:00Z
        start_date: Instant { seconds: 1_783_860_900, nanos: 0 },
        end_date: Instant { seconds: 1_783_864_500, nanos: 0 },
        all_day: false,
        calendar_id: Some("CAL-1".to_string()),
        calendar_title: Some("Travel".to_string()),
        timezone: Some("Europe/Berlin".to_string()),
        availability: EventAvailability::Busy,
        notes: Some("Flight notes".to_string()),
        location: None,
        url: Some("https://example.com/flight".to_string()),
        status: "Confirmed".to_string(),
        is_detached: false,
        occurrence_date: None,
        creation_date: None,
        last_modified_date: None,
        external_identifier: None,
        attachments_count: 0,
    }
}

fn attendee() -> ParticipantInfo {
    ParticipantInfo {
        name: Some("Ada".to_string()),
        url: Some("mailto:ada@example.com".to_string()),
        role: "Required".to_string(),
        status: "Accepted".to_string(),
        is_current_user: false,
    }
}

#[test]
fn event_readback_reports_utc_and_stored_time_zone() {
    let mut travel = calendar("CAL-1", "Travel");
    travel.source = Some("iCloud".to_string());
    let report = event_report(&event(), &vec![attendee()], &None, &vec![calendar("X", "Other"), travel]);

    assert_eq!(report.id, "EVENT-1");
    assert_eq!(report.start_utc, "2026-07-12T12:55:00+00:00");
    assert_eq!(report.end_utc, "2026-07-12T13:55:00+00:00");
    assert_eq!(
        report.start_in_event_time_zone.as_deref(),
        Some("2026-07-12T14:55:00+02:00")
    );
    assert_eq!(report.duration_seconds, 3600);
    assert_eq!(report.availability, "Busy");
    assert!(report.has_notes);
    assert!(report.has_url);
    assert_eq!(report.calendar_source.as_deref(), Some("iCloud"));
    assert_eq!(report.calendar_type.as_deref(), Some("CalDAV"));
    assert_eq!(report.allows_calendar_modifications, Some(true));
    assert_eq!(report.attendees.len(), 1);
    assert_eq!(report.attendees[0].role, "Required");
    assert_eq!(report.start, report.start_local);
}

#[test]
fn an_unlisted_calendar_adds_no_details() {
    let report = event_report(&event(), &vec![], &Some(attendee()), &vec![]);
    assert!(report.calendar_source.is_none());
    assert!(report.calendar_type.is_none());
    assert_eq!(report.organizer.unwrap().name.as_deref(), Some("Ada"));
}

#[test]
fn participants_are_reported_as_listed() {
    let report = participant_report(&attendee());
    assert_eq!(report.status, "Accepted");
    assert!(!report.is_current_user);
}

fn event_in(id: &str, calendar_id: Option<&str>) -> EventItem {
    let mut e = event();
    e.identifier = id.to_string();
    e.calendar_id = calendar_id.map(str::to_string);
    e
}

#[test]
fn listings_keep_the_events_of_the_selected_calendars_in_order() {
    let events = vec![
        event_in("E1", Some("A")),
        event_in("E2", Some("B")),
        event_in("E3", None),
        event_in("E4", Some("A")),
    ];
    let kept = events_in_calendars(events, &Some(vec!["A".to_string()]));
    let ids: Vec<&str> = kept.iter().map(|e| e.identifier.as_str()).collect();
    assert_eq!(ids, ["E1", "E4"]);

    let all = events_in_calendars(vec![event_in("E3", None)], &None);
    assert_eq!(all.len(), 1);
}

#[test]
fn selected_calendars_become_identifiers() {
    let calendars = vec![calendar("A", "Work"), calendar("B", "Personal")];
    let titles = vec!["Personal".to_string()];
    let selector = CalendarSelector {
        titles: &titles,
        ids: &[],
        source: None,
        source_id: None,
    };
    assert_eq!(
        selected_calendar_ids(&calendars, &selector).unwrap(),
        Some(vec!["B".to_string()])
    );
    assert_eq!(
        selected_calendar_ids(&calendars, &CalendarSelector::default()).unwrap(),
        None
    );
    let ids = vec!["MISSING".to_string()];
    let missing = CalendarSelector {
        titles: &[],
        ids: &ids,
        source: None,
        source_id: None,
    };
    assert!(selected_calendar_ids(&calendars, &missing).is_err());
}

#[test]
fn listing_ranges_must_not_be_empty() {
    let a = Instant { seconds: 10, nanos: 0 };
    let b = Instant { seconds: 20, nanos: 0 };
    assert!(ensure_listing_range(a, b).is_ok());
    assert_eq!(ensure_listing_range(b, a).unwrap_err(), "--from must be before --to");
    assert!(ensure_listing_range(a, a).is_err());
}

#[test]
fn listing_ranges_read_both_ends() {
    let (start, end) = listing_range("2026-07-10T00:00:00Z", "2026-07-11T00:00:00Z").unwrap_or_else(|m| panic!("{m}"));
    assert_eq!(end.seconds - start.seconds, 86_400);
    let error = match listing_range("later", "2026-07-11T00:00:00Z") {
        Err(m) => m,
        Ok(_) => panic!("an unreadable start was accepted"),
    };
    assert_eq!(
        error,
        "invalid --from: later: expected YYYY-MM-DD, YYYY-MM-DDTHH:MM, or RFC3339 datetime"
    );
    assert!(matches!(
        listing_range("2026-07-11T00:00:00Z", "2026-07-10T00:00:00Z"),
        Err(m) if m == "--from must be before --to"
    ));
}

#[test]
fn upcoming_needs_a_positive_number_of_days() {
    let now = Instant { seconds: 1_000, nanos: 5 };
    assert!(matches!(
        upcoming_range(now, 0),
        Err(m) if m == "--days must be greater than zero"
    ));
    let (start, end) = upcoming_range(now, 2).unwrap_or_else(|m| panic!("{m}"));
    assert_eq!(start.seconds, 1_000);
    assert_eq!(end.seconds, 1_000 + 2 * 86_400);
    assert_eq!(end.nanos, 5);
}
