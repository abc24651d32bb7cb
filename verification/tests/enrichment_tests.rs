use icalctl::config::FlightAwareConfig;
use icalctl::dates::{parse_rfc3339, Instant};
use icalctl::enrichment::{
    begin_leg, copy_status, enrichment_start, on_cache_read, on_failure_saved, on_flights, on_no_match_saved,
    on_no_match_written, on_pages_saved, on_position, on_position_failure_saved, on_position_reservation_saved,
    on_reservation_saved, on_status_written, on_success_saved, EnrichmentStart, FlightsReply, LegAction, LegPhase,
    PositionReply,
};
use icalctl::flightaware::{
    cache_file_name, check_usage, normalize_status, query_window, record_failure, timestamp, AirportMetadata,
    ApiAirport, ApiFlight, CacheEntry, CacheKey, FlightStatus, TravelAirport, TravelEventSource, TravelLeg,
    TravelMoment, TravelWarning, UsageState, FLIGHT_CACHE_VERSION,
};
use std::collections::{HashMap, VecDeque};

// 2026-07-11T00:00:00Z
const NOW: i64 = 1_783_728_000;
const HOUR: i64 = 3600;

fn at(seconds: i64) -> Instant {
    Instant { seconds, nanos: 0 }
}

fn now() -> Instant {
    at(NOW)
}

fn config(limit: u32, stale_if_error: bool) -> FlightAwareConfig {
    FlightAwareConfig {
        api_key: Some("TEST-API-KEY".to_string()),
        enabled: true,
        monthly_result_set_limit: limit,
        request_timeout_seconds: 10,
        stale_if_error,
    }
}

fn airport(code: &str, iata: &str, icao: &str) -> TravelAirport {
    TravelAirport {
        code: code.to_string(),
        metadata: Some(AirportMetadata {
            iata_code: iata.to_string(),
            icao_code: Some(icao.to_string()),
            name: format!("{iata} Airport"),
            municipality: None,
        }),
    }
}

fn leg(event_id: &str, flight_number: &str, departure_utc: &str, arrival_utc: &str) -> TravelLeg {
    TravelLeg {
        flight_number: flight_number.to_string(),
        route: "PVG to HEL".to_string(),
        departure_airport: airport("PVG", "PVG", "ZSPD"),
        arrival_airport: airport("HEL", "HEL", "EFHK"),
        departure: TravelMoment {
            scheduled: departure_utc.to_string(),
            utc: departure_utc.to_string(),
        },
        arrival: TravelMoment {
            scheduled: arrival_utc.to_string(),
            utc: arrival_utc.to_string(),
        },
        live_status: None,
        source: TravelEventSource {
            event_id: event_id.to_string(),
            occurrence_date: None,
            title: format!("Flight {flight_number}: PVG to HEL"),
            calendar: Some("Travel".to_string()),
            calendar_id: Some("calendar-id".to_string()),
        },
    }
}

fn api_airport(code: &str, iata: &str, icao: &str) -> ApiAirport {
    ApiAirport {
        code: Some(code.to_string()),
        code_icao: Some(icao.to_string()),
        code_iata: Some(iata.to_string()),
    }
}

fn scheduled_flight() -> ApiFlight {
    ApiFlight {
        ident: "DKH1607".to_string(),
        ident_icao: Some("DKH1607".to_string()),
        ident_iata: None,
        fa_flight_id: "FA-HO1607".to_string(),
        codeshares: Some(vec!["HO1607".to_string()]),
        codeshares_iata: None,
        origin: Some(api_airport("ZSPD", "PVG", "ZSPD")),
        destination: Some(api_airport("EFHK", "HEL", "EFHK")),
        status: "Scheduled".to_string(),
        scheduled_out: Some("2026-07-11T01:25:00Z".to_string()),
        estimated_out: None,
        actual_out: None,
        scheduled_off: None,
        estimated_off: None,
        actual_off: None,
        scheduled_on: None,
        estimated_on: None,
        actual_on: None,
        scheduled_in: Some("2026-07-11T11:00:00Z".to_string()),
        estimated_in: None,
        actual_in: None,
        departure_delay: None,
        arrival_delay: None,
        terminal_origin: Some("2".to_string()),
        gate_origin: Some("D71".to_string()),
        terminal_destination: Some("2".to_string()),
        gate_destination: Some("32".to_string()),
        cancelled: false,
        diverted: false,
    }
}

fn in_progress_flight() -> ApiFlight {
    let mut flight = scheduled_flight();
    flight.status = "En Route".to_string();
    flight.actual_off = Some("2026-07-11T01:40:00Z".to_string());
    flight
}

/// What the provider answers to one request.
enum Response {
    Unreachable,
    Http(u16, Option<u64>),
    Flights(Vec<ApiFlight>),
    Invalid,
}

/// The provider: queued answers and the requests made.
struct Provider {
    responses: VecDeque<Response>,
    requests: Vec<String>,
}

impl Provider {
    fn new(responses: Vec<Response>) -> Provider {
        Provider {
            responses: responses.into(),
            requests: Vec::new(),
        }
    }

    fn next(&mut self, request: String) -> Response {
        self.requests.push(request);
        self.responses.pop_front().unwrap_or(Response::Unreachable)
    }
}

fn copy_key(key: &CacheKey) -> CacheKey {
    CacheKey {
        flight_number: key.flight_number.clone(),
        origin: key.origin.clone(),
        destination: key.destination.clone(),
        departure_utc: key.departure_utc.clone(),
    }
}

fn copy_entry(entry: &CacheEntry) -> CacheEntry {
    CacheEntry {
        version: entry.version,
        key: copy_key(&entry.key),
        fetched_at: entry.fetched_at.clone(),
        expires_at: entry.expires_at.clone(),
        outcome: entry.outcome.clone(),
        status: entry.status.as_ref().map(copy_status),
    }
}

fn copy_usage(usage: &UsageState) -> UsageState {
    UsageState {
        version: usage.version,
        month: usage.month.clone(),
        result_sets: usage.result_sets,
        failure_count: usage.failure_count,
        backoff_until: usage.backoff_until.clone(),
    }
}

/// The cache files and the saved usage ledger, kept in memory.
#[derive(Default)]
struct Store {
    files: HashMap<String, CacheEntry>,
    usage: Option<UsageState>,
}

impl Store {
    fn put(&mut self, entry: CacheEntry) {
        self.files.insert(cache_file_name(&entry.key), entry);
    }

    fn saved_usage(&self) -> &UsageState {
        self.usage.as_ref().expect("the ledger was saved")
    }
}

/// Runs one leg through the enrichment machine, performing each action
/// against the store and the provider.
fn drive(
    leg: &mut TravelLeg,
    usage: &mut UsageState,
    config: &FlightAwareConfig,
    now: Instant,
    store: &mut Store,
    provider: &mut Provider,
    warnings: &mut Vec<TravelWarning>,
) {
    let (mut phase, mut action) = begin_leg(leg, now, warnings);
    loop {
        let next = match action {
            LegAction::Done => return,
            LegAction::ReadCache(name) => {
                let read = Ok(store.files.get(&name).map(copy_entry));
                match phase {
                    LegPhase::ReadingCache { key, start, end } => {
                        on_cache_read(key, start, end, read, leg, usage, config, now, warnings)
                    }
                    _ => panic!("a cache read outside its phase"),
                }
            }
            LegAction::SaveUsage => {
                store.usage = Some(copy_usage(usage));
                match phase {
                    LegPhase::SavingReservation { key, start, end, cached } => {
                        on_reservation_saved(key, start, end, cached, Ok(()), leg, usage, config, warnings)
                    }
                    LegPhase::SavingFailure { cached, kind, message } => {
                        on_failure_saved(cached, kind, message, Ok(()), leg, config, warnings)
                    }
                    LegPhase::SavingPages { key, flights } => {
                        on_pages_saved(key, flights, leg, usage, config, now, warnings)
                    }
                    LegPhase::SavingNoMatch { key, ambiguous } => on_no_match_saved(key, ambiguous, now),
                    LegPhase::SavingPositionReservation { key, status, flight_id } => {
                        on_position_reservation_saved(key, status, flight_id, Ok(()), leg, usage, warnings)
                    }
                    LegPhase::SavingPositionFailure { key, status, kind, message } => {
                        on_position_failure_saved(key, status, kind, message, Ok(()), leg, now, warnings)
                    }
                    LegPhase::SavingSuccess { key, status } => on_success_saved(key, status, leg, now),
                    _ => panic!("a ledger save outside its phase"),
                }
            }
            LegAction::RequestFlights { ident, .. } => {
                let reply = match provider.next(format!("flights {ident}")) {
                    Response::Unreachable => FlightsReply::Unreachable,
                    Response::Http(status, retry_after) => FlightsReply::Http { status, retry_after },
                    Response::Flights(flights) => FlightsReply::Flights { num_pages: 1, flights },
                    Response::Invalid => FlightsReply::Invalid,
                };
                match phase {
                    LegPhase::AwaitingFlights { key, cached } => {
                        on_flights(key, cached, reply, leg, usage, config, now, warnings)
                    }
                    _ => panic!("a flights request outside its phase"),
                }
            }
            LegAction::RequestPosition(flight_id) => {
                let reply = match provider.next(format!("position {flight_id}")) {
                    Response::Unreachable => PositionReply::Unreachable,
                    Response::Http(404, _) => PositionReply::NotFound,
                    Response::Http(status, retry_after) => PositionReply::Http { status, retry_after },
                    Response::Flights(_) | Response::Invalid => PositionReply::Invalid,
                };
                match phase {
                    LegPhase::AwaitingPosition { key, status } => on_position(key, status, reply, usage, now),
                    _ => panic!("a position request outside its phase"),
                }
            }
            LegAction::WriteCache(name, entry) => {
                store.files.insert(name, entry);
                match phase {
                    LegPhase::WritingNoMatch { ambiguous } => on_no_match_written(ambiguous, Ok(()), leg, warnings),
                    LegPhase::WritingStatus { status } => on_status_written(status, Ok(()), leg, warnings),
                    _ => panic!("a cache write outside its phase"),
                }
            }
        };
        phase = next.0;
        action = next.1;
    }
}

/// Enriches a listing's legs, starting from the saved ledger (or a fresh
/// one), and gives back the warnings.
fn enrich(
    config: &FlightAwareConfig,
    legs: &mut Vec<TravelLeg>,
    store: &mut Store,
    provider: &mut Provider,
    now: Instant,
) -> Vec<TravelWarning> {
    let mut warnings = Vec::new();
    match enrichment_start(config, legs, now, &mut warnings) {
        EnrichmentStart::Proceed(_) => {}
        EnrichmentStart::Skip | EnrichmentStart::Unconfigured => return warnings,
    }
    let mut usage = match store.usage.as_ref() {
        Some(saved) => check_usage(copy_usage(saved), now).expect("the saved ledger is valid"),
        None => UsageState::new(now),
    };
    for leg in legs.iter_mut() {
        drive(leg, &mut usage, config, now, store, provider, &mut warnings);
    }
    warnings
}

fn status_of(leg: &TravelLeg) -> &FlightStatus {
    leg.live_status.as_ref().expect("the leg has a live status")
}

fn matched_entry(leg: &TravelLeg, fetched: i64, expires: i64) -> CacheEntry {
    let key = CacheKey::from_leg(leg).unwrap();
    let mut status = normalize_status(&scheduled_flight(), at(fetched));
    status.freshness.expires_at = timestamp(at(expires));
    CacheEntry {
        version: FLIGHT_CACHE_VERSION,
        key,
        fetched_at: timestamp(at(fetched)),
        expires_at: timestamp(at(expires)),
        outcome: "matched".to_string(),
        status: Some(status),
    }
}

#[test]
fn provider_queries_compact_spaced_flight_numbers() {
    let mut store = Store::default();
    let mut provider = Provider::new(vec![Response::Flights(vec![scheduled_flight()])]);
    let mut legs = vec![leg("event-1", "HO 1607", "2026-07-11T01:25:00Z", "2026-07-11T11:00:00Z")];

    enrich(&config(10, true), &mut legs, &mut store, &mut provider, now());

    assert_eq!(legs[0].flight_number, "HO 1607");
    assert_eq!(provider.requests.len(), 1);
    assert_eq!(provider.requests[0], "flights HO1607");
    assert_eq!(status_of(&legs[0]).status, "scheduled");
}

fn check_fresh_normalized_cache_prevents_repeat_provider_calls() {
    let mut store = Store::default();
    let mut first_provider = Provider::new(vec![Response::Flights(vec![scheduled_flight()])]);
    let mut first = vec![leg("event-1", "HO1607", "2026-07-11T01:25:00Z", "2026-07-11T11:00:00Z")];
    enrich(&config(10, true), &mut first, &mut store, &mut first_provider, now());
    assert_eq!(first_provider.requests.len(), 1);
    assert_eq!(status_of(&first[0]).status, "scheduled");

    let mut cached_provider = Provider::new(Vec::new());
    let mut cached = vec![leg("event-1", "HO1607", "2026-07-11T01:25:00Z", "2026-07-11T11:00:00Z")];
    enrich(&config(10, true), &mut cached, &mut store, &mut cached_provider, at(NOW + 60));

    assert_eq!(cached_provider.requests.len(), 0);
    assert_eq!(status_of(&cached[0]).freshness.state, "fresh");
}

#[test]
fn flightaware_fresh_normalized_cache_prevents_repeat_provider_calls() {
    check_fresh_normalized_cache_prevents_repeat_provider_calls();
}

#[test]
fn tests_fresh_normalized_cache_prevents_repeat_provider_calls() {
    check_fresh_normalized_cache_prevents_repeat_provider_calls();
}

fn check_monthly_limit_blocks_additional_result_sets() {
    let mut store = Store::default();
    let mut provider = Provider::new(vec![Response::Flights(vec![scheduled_flight()])]);
    let mut legs = vec![
        leg("event-1", "HO1607", "2026-07-11T01:25:00Z", "2026-07-11T11:00:00Z"),
        leg("event-2", "HO1608", "2026-07-11T03:25:00Z", "2026-07-11T13:00:00Z"),
    ];

    let warnings = enrich(&config(1, true), &mut legs, &mut store, &mut provider, now());

    assert_eq!(provider.requests.len(), 1);
    assert!(warnings.iter().any(|warning| warning.kind == "flightaware_monthly_limit"));
    assert_eq!(store.saved_usage().result_sets, 1);
}

#[test]
fn flightaware_monthly_limit_blocks_additional_result_sets() {
    check_monthly_limit_blocks_additional_result_sets();
}

#[test]
fn tests_monthly_limit_blocks_additional_result_sets() {
    check_monthly_limit_blocks_additional_result_sets();
}

fn check_provider_backoff_prevents_follow_on_calls() {
    let mut store = Store::default();
    let mut provider = Provider::new(vec![Response::Http(429, Some(600))]);
    let mut legs = vec![
        leg("event-1", "HO1607", "2026-07-11T01:25:00Z", "2026-07-11T11:00:00Z"),
        leg("event-2", "HO1608", "2026-07-11T03:25:00Z", "2026-07-11T13:00:00Z"),
    ];

    let warnings = enrich(&config(10, true), &mut legs, &mut store, &mut provider, now());

    assert_eq!(provider.requests.len(), 1);
    assert!(warnings.iter().any(|warning| warning.kind == "flightaware_backoff"));
    assert!(store.saved_usage().backoff_is_active(now()));
}

#[test]
fn flightaware_provider_backoff_prevents_follow_on_calls() {
    check_provider_backoff_prevents_follow_on_calls();
}

#[test]
fn tests_provider_backoff_prevents_follow_on_calls() {
    check_provider_backoff_prevents_follow_on_calls();
}

fn check_expired_cache_is_used_only_when_stale_fallback_is_enabled() {
    let travel_leg = leg("event-1", "HO1607", "2026-07-11T01:25:00Z", "2026-07-11T11:00:00Z");
    let mut store = Store::default();
    store.put(matched_entry(&travel_leg, NOW - 2 * HOUR, NOW - HOUR));
    let mut provider = Provider::new(vec![Response::Unreachable]);
    let mut with_stale = vec![travel_leg];
    let warnings = enrich(&config(10, true), &mut with_stale, &mut store, &mut provider, now());

    assert_eq!(status_of(&with_stale[0]).freshness.state, "stale");
    assert!(warnings.iter().any(|warning| warning.kind == "flightaware_stale_cache"));

    let later = NOW + 2 * HOUR;
    let mut without_stale = vec![leg("event-1", "HO1607", "2026-07-11T01:25:00Z", "2026-07-11T11:00:00Z")];
    let mut separate = Store::default();
    separate.put(matched_entry(&without_stale[0], later - 2 * HOUR, later - HOUR));
    let mut provider = Provider::new(vec![Response::Unreachable]);
    enrich(&config(10, false), &mut without_stale, &mut separate, &mut provider, at(later));

    assert!(without_stale[0].live_status.is_none());
}

#[test]
fn flightaware_expired_cache_is_used_only_when_stale_fallback_is_enabled() {
    check_expired_cache_is_used_only_when_stale_fallback_is_enabled();
}

#[test]
fn tests_expired_cache_is_used_only_when_stale_fallback_is_enabled() {
    check_expired_cache_is_used_only_when_stale_fallback_is_enabled();
}

fn check_position_failures_accumulate_backoff_across_summary_successes() {
    let mut store = Store::default();
    let mut first = vec![leg("event-1", "HO1607", "2026-07-11T01:25:00Z", "2026-07-11T11:00:00Z")];
    let mut first_provider = Provider::new(vec![Response::Flights(vec![in_progress_flight()]), Response::Unreachable]);
    enrich(&config(10, true), &mut first, &mut store, &mut first_provider, now());
    assert_eq!(first_provider.requests.len(), 2);
    assert_eq!(store.saved_usage().failure_count, 1);

    let second_now = at(NOW + 121);
    let mut second = vec![leg("event-1", "HO1607", "2026-07-11T01:25:00Z", "2026-07-11T11:00:00Z")];
    let mut second_provider = Provider::new(vec![Response::Flights(vec![in_progress_flight()]), Response::Unreachable]);
    enrich(&config(10, true), &mut second, &mut store, &mut second_provider, second_now);

    assert_eq!(second_provider.requests.len(), 2);
    assert_eq!(store.saved_usage().failure_count, 2);
    assert!(store.saved_usage().backoff_is_active(second_now));
}

#[test]
fn flightaware_position_failures_accumulate_backoff_across_summary_successes() {
    check_position_failures_accumulate_backoff_across_summary_successes();
}

#[test]
fn tests_position_failures_accumulate_backoff_across_summary_successes() {
    check_position_failures_accumulate_backoff_across_summary_successes();
}

fn check_invalid_position_payload_enters_provider_backoff() {
    let mut store = Store::default();
    let mut provider = Provider::new(vec![Response::Flights(vec![in_progress_flight()]), Response::Invalid]);
    let mut legs = vec![leg("event-1", "HO1607", "2026-07-11T01:25:00Z", "2026-07-11T11:00:00Z")];

    let warnings = enrich(&config(10, true), &mut legs, &mut store, &mut provider, now());

    assert!(store.saved_usage().backoff_is_active(now()));
    assert!(warnings.iter().any(|warning| warning.kind == "flightaware_invalid_position"));
}

#[test]
fn flightaware_invalid_position_payload_enters_provider_backoff() {
    check_invalid_position_payload_enters_provider_backoff();
}

#[test]
fn tests_invalid_position_payload_enters_provider_backoff() {
    check_invalid_position_payload_enters_provider_backoff();
}

fn check_provider_tracking_end_flag_is_not_presented_as_confirmed_cancellation() {
    let mut tracking_ended = scheduled_flight();
    tracking_ended.cancelled = true;
    tracking_ended.status = "No longer tracked".to_string();
    let normalized = normalize_status(&tracking_ended, now());
    assert_eq!(normalized.status, "tracking_ended");
    assert!(normalized.tracking_ended);

    let mut arrived = tracking_ended;
    arrived.actual_in = Some("2026-07-11T11:02:00Z".to_string());
    assert_eq!(normalize_status(&arrived, now()).status, "arrived");

    let mut diverted = arrived;
    diverted.diverted = true;
    assert_eq!(normalize_status(&diverted, now()).status, "diverted");
}

#[test]
fn flightaware_provider_tracking_end_flag_is_not_presented_as_confirmed_cancellation() {
    check_provider_tracking_end_flag_is_not_presented_as_confirmed_cancellation();
}

#[test]
fn tests_provider_tracking_end_flag_is_not_presented_as_confirmed_cancellation() {
    check_provider_tracking_end_flag_is_not_presented_as_confirmed_cancellation();
}

fn check_oversized_retry_after_is_capped_without_panicking() {
    let mut usage = UsageState::new(now());

    record_failure(&mut usage, now(), 429, Some(u64::MAX));

    let until = parse_rfc3339(usage.backoff_until.as_deref().unwrap()).unwrap();
    assert_eq!(until.seconds - NOW, 24 * HOUR);
}

#[test]
fn flightaware_oversized_retry_after_is_capped_without_panicking() {
    check_oversized_retry_after_is_capped_without_panicking();
}

#[test]
fn tests_oversized_retry_after_is_capped_without_panicking() {
    check_oversized_retry_after_is_capped_without_panicking();
}

fn check_far_future_flights_do_not_consume_provider_quota() {
    let travel_leg = leg("event-future", "HO1607", "2026-07-20T01:25:00Z", "2026-07-20T11:00:00Z");

    assert!(query_window(&travel_leg, now()).is_none());
}

#[test]
fn flightaware_far_future_flights_do_not_consume_provider_quota() {
    check_far_future_flights_do_not_consume_provider_quota();
}

#[test]
fn tests_far_future_flights_do_not_consume_provider_quota() {
    check_far_future_flights_do_not_consume_provider_quota();
}

#[test]
fn far_future_flights_stay_calendar_only_without_warnings() {
    let mut store = Store::default();
    let mut provider = Provider::new(Vec::new());
    let mut legs = vec![leg("event-future", "FI342", "2026-07-20T01:25:00Z", "2026-07-20T11:00:00Z")];

    let warnings = enrich(&config(10, true), &mut legs, &mut store, &mut provider, now());

    assert_eq!(provider.requests.len(), 0);
    assert!(legs[0].live_status.is_none());
    assert!(warnings.is_empty());
}

#[test]
fn mixed_collection_skips_future_positive_negative_and_stale_cache_entries() {
    let mut store = Store::default();
    let positive_leg = leg("event-positive", "FI342", "2026-07-20T01:25:00Z", "2026-07-20T11:00:00Z");
    store.put(matched_entry(&positive_leg, NOW, NOW + HOUR));
    let negative_leg = leg("event-negative", "HO1608", "2026-07-20T03:25:00Z", "2026-07-20T13:00:00Z");
    store.put(CacheEntry::negative(CacheKey::from_leg(&negative_leg).unwrap(), now(), "no_match"));
    let stale_leg = leg("event-stale", "DY627", "2026-07-20T05:25:00Z", "2026-07-20T07:00:00Z");
    store.put(matched_entry(&stale_leg, NOW - 2 * HOUR, NOW - HOUR));

    let mut provider = Provider::new(vec![Response::Flights(vec![scheduled_flight()])]);
    let current_leg = leg("event-current", "HO1607", "2026-07-11T01:25:00Z", "2026-07-11T11:00:00Z");
    let mut legs = vec![current_leg, positive_leg, negative_leg, stale_leg];
    let warnings = enrich(&config(10, true), &mut legs, &mut store, &mut provider, now());

    assert_eq!(provider.requests.len(), 1);
    assert!(legs[0].live_status.is_some());
    assert!(legs[1..].iter().all(|leg| leg.live_status.is_none()));
    assert!(warnings.is_empty());
}

#[test]
fn far_future_flights_stay_silent_during_provider_backoff() {
    let mut store = Store::default();
    let mut provider = Provider::new(vec![Response::Http(429, Some(600))]);
    let mut legs = vec![
        leg("event-current", "HO1607", "2026-07-11T01:25:00Z", "2026-07-11T11:00:00Z"),
        leg("event-future", "FI342", "2026-07-20T01:25:00Z", "2026-07-20T11:00:00Z"),
    ];

    let warnings = enrich(&config(10, true), &mut legs, &mut store, &mut provider, now());

    assert_eq!(provider.requests.len(), 1);
    assert!(legs[1].live_status.is_none());
    assert_eq!(warnings.len(), 1);
    assert_eq!(warnings[0].kind, "flightaware_request_failed");
}

#[test]
fn an_unconfigured_key_is_reported_once() {
    let mut store = Store::default();
    let mut provider = Provider::new(Vec::new());
    let mut legs = vec![leg("event-1", "HO1607", "2026-07-11T01:25:00Z", "2026-07-11T11:00:00Z")];
    let mut unconfigured = config(10, true);
    unconfigured.api_key = None;

    let warnings = enrich(&unconfigured, &mut legs, &mut store, &mut provider, now());

    assert_eq!(provider.requests.len(), 0);
    assert_eq!(warnings.len(), 1);
    assert_eq!(warnings[0].kind, "flightaware_unconfigured");
}

#[test]
fn an_unmatched_flight_is_cached_as_no_match() {
    let mut store = Store::default();
    let mut provider = Provider::new(vec![Response::Flights(Vec::new())]);
    let mut legs = vec![leg("event-1", "HO1607", "2026-07-11T01:25:00Z", "2026-07-11T11:00:00Z")];

    let warnings = enrich(&config(10, true), &mut legs, &mut store, &mut provider, now());

    assert!(legs[0].live_status.is_none());
    assert_eq!(warnings.len(), 1);
    let key = CacheKey::from_leg(&legs[0]).unwrap();
    let entry = store.files.get(&cache_file_name(&key)).expect("the outcome is cached");
    assert!(entry.status.is_none());
    assert_eq!(entry.outcome, "no_match");

    let mut again = Provider::new(Vec::new());
    enrich(&config(10, true), &mut legs, &mut store, &mut again, at(NOW + 60));
    assert_eq!(again.requests.len(), 0);
}
