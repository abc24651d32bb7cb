use icalctl::dates::Instant;
use icalctl::flightaware::{
    backoff_seconds, cache_file_name, encode_path_segment, has_queryable_leg, ident_rank,
    normalize_ident, query_window, record_failure, record_success, reserve_result_set, select_match,
    timestamp, utc_month, AirportMetadata, ApiAirport, ApiFlight, CacheKey, MatchSelection,
    TravelAirport, TravelEventSource, TravelLeg, TravelMoment, UsageState,
};

fn at(seconds: i64) -> Instant {
    Instant { seconds, nanos: 0 }
}

// 2026-07-11T00:00:00Z
const NOW: i64 = 1_783_728_000;

fn airport(code: &str, iata: &str, icao: &str) -> TravelAirport {
    TravelAirport {
        code: code.to_string(),
        metadata: Some(AirportMetadata {
            iata_code: iata.to_string(),
            icao_code: Some(icao.to_string()),
            name: format!("{iata} Airport"),
            municipality: None,
        }),
    }
}

fn leg(event_id: &str, flight_number: &str, departure_utc: &str, arrival_utc: &str) -> TravelLeg {
    TravelLeg {
        flight_number: flight_number.to_string(),
        route: "PVG to HEL".to_string(),
        departure_airport: airport("PVG", "PVG", "ZSPD"),
        arrival_airport: airport("HEL", "HEL", "EFHK"),
        departure: TravelMoment {
            scheduled: departure_utc.to_string(),
            utc: departure_utc.to_string(),
        },
        arrival: TravelMoment {
            scheduled: arrival_utc.to_string(),
            utc: arrival_utc.to_string(),
        },
        live_status: None,
        source: TravelEventSource {
            event_id: event_id.to_string(),
            occurrence_date: None,
            title: format!("Flight {flight_number}: PVG to HEL"),
            calendar: Some("Travel".to_string()),
            calendar_id: Some("calendar-id".to_string()),
        },
    }
}

fn api_airport(code: &str, iata: &str, icao: &str) -> ApiAirport {
    ApiAirport {
        code: Some(code.to_string()),
        code_icao: Some(icao.to_string()),
        code_iata: Some(iata.to_string()),
    }
}

fn api_flight(
    provider_flight_id: &str,
    ident: &str,
    codeshares: &[&str],
    origin: (&str, &str, &str),
    destination: (&str, &str, &str),
    scheduled_out: &str,
) -> ApiFlight {
    ApiFlight {
        ident: ident.to_string(),
        ident_icao: Some(ident.to_string()),
        ident_iata: None,
        fa_flight_id: provider_flight_id.to_string(),
        codeshares: Some(codeshares.iter().map(|value| value.to_string()).collect()),
        codeshares_iata: None,
        origin: Some(api_airport(origin.0, origin.1, origin.2)),
        destination: Some(api_airport(destination.0, destination.1, destination.2)),
        status: "Scheduled".to_string(),
        scheduled_out: Some(scheduled_out.to_string()),
        estimated_out: None,
        actual_out: None,
        scheduled_off: None,
        estimated_off: None,
        actual_off: None,
        scheduled_on: None,
        estimated_on: None,
        actual_on: None,
        scheduled_in: Some("2026-07-11T11:00:00Z".to_string()),
        estimated_in: None,
        actual_in: None,
        departure_delay: None,
        arrival_delay: None,
        terminal_origin: Some("2".to_string()),
        gate_origin: Some("D71".to_string()),
        terminal_destination: Some("2".to_string()),
        gate_destination: Some("32".to_string()),
        cancelled: false,
        diverted: false,
    }
}

fn scheduled_flight() -> ApiFlight {
    api_flight(
        "FA-HO1607",
        "DKH1607",
        &["HO1607"],
        ("ZSPD", "PVG", "ZSPD"),
        ("EFHK", "HEL", "EFHK"),
        "2026-07-11T01:25:00Z",
    )
}

fn check_matching_requires_ident_route_and_nearest_departure() {
    let travel_leg = leg(
        "event-1",
        "HO1607",
        "2026-07-11T01:25:00Z",
        "2026-07-11T11:00:00Z",
    );
    let wrong_route = api_flight(
        "FA-WRONG-ROUTE",
        "HO1607",
        &[],
        ("ZSPD", "PVG", "ZSPD"),
        ("EDDF", "FRA", "EDDF"),
        "2026-07-11T01:25:00Z",
    );
    let wrong_time = api_flight(
        "FA-WRONG-TIME",
        "HO1607",
        &[],
        ("ZSPD", "PVG", "ZSPD"),
        ("EFHK", "HEL", "EFHK"),
        "2026-07-12T01:25:00Z",
    );
    let codeshare_match = scheduled_flight();

    let flights = [wrong_route, wrong_time, codeshare_match];
    let selection = select_match(&flights, &travel_leg);

    assert!(matches!(
        selection,
        MatchSelection::Matched(flight) if flight.fa_flight_id == "FA-HO1607"
    ));
}

#[test]
fn flightaware_matching_requires_ident_route_and_nearest_departure() {
    check_matching_requires_ident_route_and_nearest_departure();
}

#[test]
fn tests_matching_requires_ident_route_and_nearest_departure() {
    check_matching_requires_ident_route_and_nearest_departure();
}

fn check_equally_scored_provider_results_are_ambiguous() {
    let travel_leg = leg(
        "event-1",
        "HO1607",
        "2026-07-11T01:25:00Z",
        "2026-07-11T11:00:00Z",
    );
    let first = api_flight(
        "FA-1",
        "HO1607",
        &[],
        ("ZSPD", "PVG", "ZSPD"),
        ("EFHK", "HEL", "EFHK"),
        "2026-07-11T01:25:00Z",
    );
    let second = api_flight(
        "FA-2",
        "HO1607",
        &[],
        ("ZSPD", "PVG", "ZSPD"),
        ("EFHK", "HEL", "EFHK"),
        "2026-07-11T01:25:00Z",
    );

    assert!(matches!(
        select_match(&[second, first], &travel_leg),
        MatchSelection::Ambiguous
    ));
}

#[test]
fn flightaware_equally_scored_provider_results_are_ambiguous() {
    check_equally_scored_provider_results_are_ambiguous();
}

#[test]
fn tests_equally_scored_provider_results_are_ambiguous() {
    check_equally_scored_provider_results_are_ambiguous();
}

fn check_sole_candidates_outside_four_hour_tolerance_are_rejected() {
    let travel_leg = leg(
        "event-1",
        "HO1607",
        "2026-07-11T01:25:00Z",
        "2026-07-11T11:00:00Z",
    );
    let too_far = api_flight(
        "FA-TOO-FAR",
        "HO1607",
        &[],
        ("ZSPD", "PVG", "ZSPD"),
        ("EFHK", "HEL", "EFHK"),
        "2026-07-11T06:25:01Z",
    );
    assert!(matches!(
        select_match(&[too_far], &travel_leg),
        MatchSelection::NoMatch
    ));

    let within_tolerance = api_flight(
        "FA-WITHIN-TOLERANCE",
        "HO1607",
        &[],
        ("ZSPD", "PVG", "ZSPD"),
        ("EFHK", "HEL", "EFHK"),
        "2026-07-11T05:25:00Z",
    );
    assert!(matches!(
        select_match(&[within_tolerance], &travel_leg),
        MatchSelection::Matched(_)
    ));
}

#[test]
fn flightaware_sole_candidates_outside_four_hour_tolerance_are_rejected() {
    check_sole_candidates_outside_four_hour_tolerance_are_rejected();
}

#[test]
fn tests_sole_candidates_outside_four_hour_tolerance_are_rejected() {
    check_sole_candidates_outside_four_hour_tolerance_are_rejected();
}

#[test]
fn an_empty_reply_matches_nothing() {
    let travel_leg = leg("event-1", "HO1607", "2026-07-11T01:25:00Z", "2026-07-11T11:00:00Z");
    assert!(matches!(select_match(&[], &travel_leg), MatchSelection::NoMatch));
}

fn check_path_segments_are_percent_encoded() {
    assert_eq!(encode_path_segment("HO 16/07"), "HO%2016%2F07");
}

#[test]
fn flightaware_path_segments_are_percent_encoded() {
    check_path_segments_are_percent_encoded();
}

#[test]
fn tests_path_segments_are_percent_encoded() {
    check_path_segments_are_percent_encoded();
}

#[test]
fn unreserved_characters_pass_and_others_become_utf8_escapes() {
    assert_eq!(encode_path_segment("Az09-._~"), "Az09-._~");
    assert_eq!(encode_path_segment("ä"), "%C3%A4");
    assert_eq!(encode_path_segment(""), "");
}

#[test]
fn flight_numbers_are_compacted_and_upper_cased() {
    assert_eq!(normalize_ident("ho 1607"), "HO1607");
    assert_eq!(normalize_ident(" HO\t16 07 "), "HO1607");
}

#[test]
fn the_operating_ident_ranks_above_a_codeshare() {
    let flight = scheduled_flight();
    assert_eq!(ident_rank(&flight, "DKH1607"), Some(0));
    assert_eq!(ident_rank(&flight, "HO 1607"), Some(1));
    assert_eq!(ident_rank(&flight, "AY1234"), None);
}

#[test]
fn backoff_follows_the_provider_and_the_failure_streak() {
    assert_eq!(backoff_seconds(0, 500, Some(90)), 90);
    assert_eq!(backoff_seconds(0, 429, None), 600);
    assert_eq!(backoff_seconds(3, 401, None), 86_400);
    assert_eq!(backoff_seconds(1, 500, None), 60);
    assert_eq!(backoff_seconds(3, 500, None), 240);
    assert_eq!(backoff_seconds(20, 500, None), 3600);
    assert_eq!(backoff_seconds(0, 500, Some(u64::MAX)), 86_400);
}

#[test]
fn reservations_stop_at_the_monthly_limit() {
    let mut usage = UsageState::new(at(NOW));
    assert_eq!(usage.month, "2026-07");
    assert!(reserve_result_set(&mut usage, 2));
    assert!(reserve_result_set(&mut usage, 2));
    assert!(!reserve_result_set(&mut usage, 2));
    assert_eq!(usage.result_sets, 2);
}

#[test]
fn a_failure_starts_a_backoff_that_a_success_ends() {
    let mut usage = UsageState::new(at(NOW));
    record_failure(&mut usage, at(NOW), 429, None);
    assert_eq!(usage.failure_count, 1);
    assert_eq!(usage.backoff_until.as_deref(), Some("2026-07-11T00:10:00Z"));
    assert!(usage.backoff_is_active(at(NOW)));
    assert!(!usage.backoff_is_active(at(NOW + 600)));
    record_success(&mut usage);
    assert_eq!(usage.failure_count, 0);
    assert!(usage.backoff_until.is_none());
}

#[test]
fn timestamps_render_in_utc_with_whole_seconds() {
    assert_eq!(timestamp(at(NOW)), "2026-07-11T00:00:00Z");
    assert_eq!(utc_month(at(0)), "1970-01");
}

#[test]
fn the_query_window_is_eighteen_hours_either_side() {
    let current = leg("event-1", "HO1607", "2026-07-11T01:25:00Z", "2026-07-11T11:00:00Z");
    let (start, end) = query_window(&current, at(NOW)).unwrap();
    assert_eq!(start, "2026-07-10T07:25:00Z");
    assert_eq!(end, "2026-07-11T19:25:00Z");
}

#[test]
fn far_future_flights_are_not_queried() {
    let future = leg("event-future", "FI342", "2026-07-20T01:25:00Z", "2026-07-20T11:00:00Z");
    assert!(query_window(&future, at(NOW)).is_none());
    assert!(!has_queryable_leg(&vec![future], at(NOW)));
    let current = leg("event-1", "HO1607", "2026-07-11T01:25:00Z", "2026-07-11T11:00:00Z");
    assert!(has_queryable_leg(&vec![current], at(NOW)));
}

#[test]
fn cache_file_names_depend_on_the_whole_key() {
    let travel_leg = leg("event-1", "HO1607", "2026-07-11T01:25:00Z", "2026-07-11T11:00:00Z");
    let key = CacheKey::from_leg(&travel_leg).unwrap();
    let name = cache_file_name(&key);
    assert!(name.ends_with(".json"));
    assert!(name.starts_with("flight-"));
    assert_eq!(name.len(), 28);
    let other = CacheKey::from_leg(&leg("event-2", "HO1608", "2026-07-11T01:25:00Z", "2026-07-11T11:00:00Z")).unwrap();
    assert_ne!(cache_file_name(&other), name);
}
