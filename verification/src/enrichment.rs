//! Enriching one travel leg with its live status, as a state machine. The
//! application runs it: it performs each action (read or write a cache
//! file, save the usage ledger, ask the provider) and hands back what came
//! of it; this module decides every next step, the warnings, the usage
//! accounting and the status the leg ends with.

use crate::config::FlightAwareConfig;
use crate::dates::Instant;
use crate::eventkit::{copy_opt_string, copy_string};
use crate::flightaware::{
    ApiFlight, CacheEntry, CacheKey, FLIGHT_CACHE_VERSION, FlightFreshness, FlightStatus, MatchSelection,
    TravelLeg, TravelWarning, UsageState, account_for_extra_pages, backoff_active, cache_file_name, cache_ttl,
    cache_ttl_seconds, check_cache_entry, entry_fresh, flight_is_in_progress, in_progress, normalize_ident,
    normalize_status, opt_view, query_window, record_failure, record_success, release_result_set,
    reserve_result_set, select_match, shift, shifted, timestamp, utc_seconds_text, whole_second,
};
use crate::dates::instant_before;
use crate::text::{push_decimal, str_eq, text_of};
use vstd::prelude::*;

verus! {

/// A warning's kind, event and message, as text.
pub open spec fn warning_is(w: TravelWarning, kind: Seq<char>, event_id: Option<Seq<char>>, message: Seq<char>) -> bool {
    w.kind@ == kind && opt_view(w.event_id) == event_id && w.message@ == message
}

/// Appends a warning.
pub fn push_warning(warnings: &mut Vec<TravelWarning>, kind: &str, event_id: Option<String>, message: String)
    ensures
        final(warnings)@.len() == old(warnings)@.len() + 1,
        final(warnings)@.take(old(warnings)@.len() as int) == old(warnings)@,
        warning_is(final(warnings)@.last(), kind@, opt_view(event_id), message@),
{
    warnings.push(TravelWarning { kind: text_of(kind), event_id, message });
    assert(warnings@.take(old(warnings)@.len() as int) =~= old(warnings)@);
}

/// A copy of a status.
pub fn copy_status(s: &FlightStatus) -> (r: FlightStatus)
    ensures
        r == *s,
{
    FlightStatus {
        provider: copy_string(&s.provider),
        provider_flight_id: copy_string(&s.provider_flight_id),
        status: copy_string(&s.status),
        description: copy_string(&s.description),
        scheduled_departure: copy_opt_string(&s.scheduled_departure),
        estimated_departure: copy_opt_string(&s.estimated_departure),
        actual_departure: copy_opt_string(&s.actual_departure),
        scheduled_arrival: copy_opt_string(&s.scheduled_arrival),
        estimated_arrival: copy_opt_string(&s.estimated_arrival),
        actual_arrival: copy_opt_string(&s.actual_arrival),
        departure_delay_seconds: s.departure_delay_seconds,
        arrival_delay_seconds: s.arrival_delay_seconds,
        departure_terminal: copy_opt_string(&s.departure_terminal),
        departure_gate: copy_opt_string(&s.departure_gate),
        arrival_terminal: copy_opt_string(&s.arrival_terminal),
        arrival_gate: copy_opt_string(&s.arrival_gate),
        tracking_ended: s.tracking_ended,
        diverted: s.diverted,
        freshness: FlightFreshness {
            state: copy_string(&s.freshness.state),
            fetched_at: copy_string(&s.freshness.fetched_at),
            expires_at: copy_string(&s.freshness.expires_at),
        },
    }
}

/// `r` is `s` with another freshness.
pub open spec fn restamped(r: FlightStatus, s: FlightStatus, state: Seq<char>, fetched_at: Seq<char>, expires_at: Seq<char>) -> bool {
    &&& r.provider == s.provider
    &&& r.provider_flight_id == s.provider_flight_id
    &&& r.status == s.status
    &&& r.description == s.description
    &&& r.scheduled_departure == s.scheduled_departure
    &&& r.estimated_departure == s.estimated_departure
    &&& r.actual_departure == s.actual_departure
    &&& r.scheduled_arrival == s.scheduled_arrival
    &&& r.estimated_arrival == s.estimated_arrival
    &&& r.actual_arrival == s.actual_arrival
    &&& r.departure_delay_seconds == s.departure_delay_seconds
    &&& r.arrival_delay_seconds == s.arrival_delay_seconds
    &&& r.departure_terminal == s.departure_terminal
    &&& r.departure_gate == s.departure_gate
    &&& r.arrival_terminal == s.arrival_terminal
    &&& r.arrival_gate == s.arrival_gate
    &&& r.tracking_ended == s.tracking_ended
    &&& r.diverted == s.diverted
    &&& r.freshness.state@ == state
    &&& r.freshness.fetched_at@ == fetched_at
    &&& r.freshness.expires_at@ == expires_at
}

/// A cached status with the entry's times and the given state.
fn restamp(entry_status: &FlightStatus, state: &str, fetched_at: &String, expires_at: &String) -> (r: FlightStatus)
    ensures
        restamped(r, *entry_status, state@, fetched_at@, expires_at@),
{
    let mut s = copy_status(entry_status);
    s.freshness = FlightFreshness { state: text_of(state), fetched_at: fetched_at.clone(), expires_at: expires_at.clone() };
    s
}

/// The message for a leg no provider flight matches.
pub open spec fn no_match_text(leg: TravelLeg) -> Seq<char> {
    "FlightAware returned no unambiguous match for "@ + leg.flight_number@ + " "@ + leg.route@
}

/// The message for a leg several provider flights match equally.
pub open spec fn ambiguous_text(leg: TravelLeg) -> Seq<char> {
    "FlightAware returned multiple equally plausible matches for "@ + leg.flight_number@ + " "@ + leg.route@
}

/// The message for a leg with no match, or with several.
fn match_message(leg: &TravelLeg, ambiguous: bool) -> (r: String)
    ensures
        r@ == if ambiguous {
            ambiguous_text(*leg)
        } else {
            no_match_text(*leg)
        },
{
    let mut m = if ambiguous {
        text_of("FlightAware returned multiple equally plausible matches for ")
    } else {
        text_of("FlightAware returned no unambiguous match for ")
    };
    m.append(leg.flight_number.as_str());
    m.append(" ");
    m.append(leg.route.as_str());
    m
}

/// The leg's own warning for a cached or fresh no-match outcome.
pub fn push_match_warning(warnings: &mut Vec<TravelWarning>, leg: &TravelLeg, ambiguous: bool)
    ensures
        final(warnings)@.len() == old(warnings)@.len() + 1,
        final(warnings)@.take(old(warnings)@.len() as int) == old(warnings)@,
        warning_is(
            final(warnings)@.last(),
            if ambiguous {
                "flightaware_ambiguous_match"@
            } else {
                "flightaware_no_match"@
            },
            Some(leg.source.event_id@),
            if ambiguous {
                ambiguous_text(*leg)
            } else {
                no_match_text(*leg)
            },
        ),
{
    let kind = if ambiguous {
        "flightaware_ambiguous_match"
    } else {
        "flightaware_no_match"
    };
    push_warning(warnings, kind, Some(leg.source.event_id.clone()), match_message(leg, ambiguous));
}

/// Uses a fresh cache entry: its status, marked fresh with the entry's
/// times, or else the warning for its no-match outcome.
pub fn apply_fresh_cache(leg: &mut TravelLeg, entry: &CacheEntry, warnings: &mut Vec<TravelWarning>)
    ensures
        final(leg).flight_number == old(leg).flight_number,
        final(leg).route == old(leg).route,
        final(leg).source == old(leg).source,
        final(leg).departure == old(leg).departure,
        match entry.status {
            Some(s) => final(warnings)@ == old(warnings)@ && final(leg).live_status is Some && restamped(
                final(leg).live_status->Some_0,
                s,
                "fresh"@,
                entry.fetched_at@,
                entry.expires_at@,
            ),
            None => final(leg).live_status == old(leg).live_status && final(warnings)@.len() == old(
                warnings,
            )@.len() + 1 && final(warnings)@.take(old(warnings)@.len() as int) == old(warnings)@
                && warning_is(
                final(warnings)@.last(),
                if entry.outcome@ == "ambiguous"@ {
                    "flightaware_ambiguous_match"@
                } else {
                    "flightaware_no_match"@
                },
                Some(old(leg).source.event_id@),
                if entry.outcome@ == "ambiguous"@ {
                    ambiguous_text(*old(leg))
                } else {
                    no_match_text(*old(leg))
                },
            ),
        },
{
    match &entry.status {
        Some(s) => {
            leg.live_status = Some(restamp(s, "fresh", &entry.fetched_at, &entry.expires_at));
        },
        None => {
            let ambiguous = str_eq(entry.outcome.as_str(), "ambiguous");
            push_match_warning(warnings, leg, ambiguous);
        },
    }
}

/// The message for a status shown from a stale cache.
pub open spec fn stale_text(message: Seq<char>) -> Seq<char> {
    message + "; showing stale cached status"@
}

/// After a provider problem: the cached status marked stale when the
/// configuration allows it and one is cached (with a note), else only the
/// warning for the problem.
pub fn use_stale_or_calendar(
    leg: &mut TravelLeg,
    cached: &Option<CacheEntry>,
    stale_if_error: bool,
    warnings: &mut Vec<TravelWarning>,
    kind: &str,
    message: String,
)
    ensures
        final(leg).flight_number == old(leg).flight_number,
        final(leg).route == old(leg).route,
        final(leg).source == old(leg).source,
        final(leg).departure == old(leg).departure,
        final(warnings)@.len() == old(warnings)@.len() + 1,
        final(warnings)@.take(old(warnings)@.len() as int) == old(warnings)@,
        if stale_if_error && cached is Some && cached->Some_0.status is Some {
            final(leg).live_status is Some && restamped(
                final(leg).live_status->Some_0,
                cached->Some_0.status->Some_0,
                "stale"@,
                cached->Some_0.fetched_at@,
                cached->Some_0.expires_at@,
            ) && warning_is(
                final(warnings)@.last(),
                "flightaware_stale_cache"@,
                Some(old(leg).source.event_id@),
                stale_text(message@),
            )
        } else {
            final(leg).live_status == old(leg).live_status && warning_is(
                final(warnings)@.last(),
                kind@,
                Some(old(leg).source.event_id@),
                message@,
            )
        },
{
    if stale_if_error {
        if let Some(entry) = cached {
            if let Some(s) = &entry.status {
                leg.live_status = Some(restamp(s, "stale", &entry.fetched_at, &entry.expires_at));
                let mut m = message;
                m.append("; showing stale cached status");
                push_warning(warnings, "flightaware_stale_cache", Some(leg.source.event_id.clone()), m);
                return;
            }
        }
    }
    push_warning(warnings, kind, Some(leg.source.event_id.clone()), message);
}

} // verus!

verus! {

/// Instants this machine may shift by a day and compare.
pub open spec fn usable_now(now: Instant) -> bool {
    -1_000_000_000_000_000 <= now.seconds <= 1_000_000_000_000_000
}

/// The flights request's reply, as the application read it: unreachable,
/// an HTTP status other than 200, a 200 whose body is not the expected
/// JSON, or the flights of a 200.
pub enum FlightsReply {
    Unreachable,
    Http { status: u16, retry_after: Option<u64> },
    Invalid,
    Flights { num_pages: u32, flights: Vec<ApiFlight> },
}

/// The position request's reply: unreachable, an HTTP status other than
/// 200 and 404, a 404, a 200 whose body is not the expected JSON, a 200
/// without a position, or a 200 with a position whose values the
/// application found in range (or not).
pub enum PositionReply {
    Unreachable,
    Http { status: u16, retry_after: Option<u64> },
    NotFound,
    Invalid,
    Empty,
    Position { valid: bool },
}

/// What the application does next for the leg.
pub enum LegAction {
    /// Nothing more.
    Done,
    /// Read the cache file of this name and answer with what it held.
    ReadCache(String),
    /// Save the usage ledger and answer whether that worked.
    SaveUsage,
    /// Ask the provider for the flights of `ident` between the two times.
    RequestFlights { ident: String, start: String, end: String },
    /// Ask the provider for the position of this provider flight.
    RequestPosition(String),
    /// Write the entry to the cache file of this name and answer whether
    /// that worked.
    WriteCache(String, CacheEntry),
}

/// Where the leg's enrichment stands.
pub enum LegPhase {
    /// Waiting for the cache file.
    ReadingCache { key: CacheKey, start: String, end: String },
    /// Waiting for the reservation of a result set to be saved.
    SavingReservation { key: CacheKey, start: String, end: String, cached: Option<CacheEntry> },
    /// Waiting for the flights reply.
    AwaitingFlights { key: CacheKey, cached: Option<CacheEntry> },
    /// Waiting for a failure to be saved; then the problem is reported.
    SavingFailure { cached: Option<CacheEntry>, kind: String, message: String },
    /// Waiting for the extra pages to be saved; then the flights are matched.
    SavingPages { key: CacheKey, flights: Vec<ApiFlight> },
    /// Waiting for a no-match success to be saved.
    SavingNoMatch { key: CacheKey, ambiguous: bool },
    /// Waiting for a no-match outcome to be cached.
    WritingNoMatch { ambiguous: bool },
    /// Waiting for the position's reservation to be saved.
    SavingPositionReservation { key: CacheKey, status: FlightStatus, flight_id: String },
    /// Waiting for the position reply.
    AwaitingPosition { key: CacheKey, status: FlightStatus },
    /// Waiting for a position failure to be saved; then it is reported.
    SavingPositionFailure { key: CacheKey, status: FlightStatus, kind: String, message: String },
    /// Waiting for the success to be saved.
    SavingSuccess { key: CacheKey, status: FlightStatus },
    /// Waiting for the status to be cached.
    WritingStatus { status: FlightStatus },
    /// Nothing more to do.
    Finished,
}

/// The leg's identity and schedule are left alone.
pub open spec fn leg_kept(a: TravelLeg, b: TravelLeg) -> bool {
    a.flight_number == b.flight_number && a.route == b.route && a.source == b.source && a.departure
        == b.departure
}

/// Nothing but the leg's status may have changed, and it has not.
pub open spec fn leg_unchanged(a: TravelLeg, b: TravelLeg) -> bool {
    leg_kept(a, b) && a.live_status == b.live_status
}

/// `w1` is `w0` and one more warning.
pub open spec fn one_more(w0: Seq<TravelWarning>, w1: Seq<TravelWarning>) -> bool {
    w1.len() == w0.len() + 1 && w1.take(w0.len() as int) == w0
}

/// `w1` is `w0` and one more warning of this kind, event and message.
pub open spec fn warned(
    w0: Seq<TravelWarning>,
    w1: Seq<TravelWarning>,
    kind: Seq<char>,
    event_id: Seq<char>,
    message: Seq<char>,
) -> bool {
    one_more(w0, w1) && warning_is(w1.last(), kind, Some(event_id), message)
}

/// The outcome of `use_stale_or_calendar`.
pub open spec fn stale_applied(
    l0: TravelLeg,
    l1: TravelLeg,
    cached: Option<CacheEntry>,
    stale_if_error: bool,
    w0: Seq<TravelWarning>,
    w1: Seq<TravelWarning>,
    kind: Seq<char>,
    message: Seq<char>,
) -> bool {
    &&& leg_kept(l0, l1)
    &&& one_more(w0, w1)
    &&& if stale_if_error && cached is Some && cached->Some_0.status is Some {
        l1.live_status is Some && restamped(
            l1.live_status->Some_0,
            cached->Some_0.status->Some_0,
            "stale"@,
            cached->Some_0.fetched_at@,
            cached->Some_0.expires_at@,
        ) && warning_is(w1.last(), "flightaware_stale_cache"@, Some(l0.source.event_id@), stale_text(message))
    } else {
        l1.live_status == l0.live_status && warning_is(w1.last(), kind, Some(l0.source.event_id@), message)
    }
}

/// The usage ledger is unchanged but for its result sets.
pub open spec fn usage_same_but_sets(a: UsageState, b: UsageState) -> bool {
    a.version == b.version && a.month == b.month && a.failure_count == b.failure_count && a.backoff_until
        == b.backoff_until
}

/// The message for an unreadable cache entry.
pub open spec fn cache_ignored_text(leg: TravelLeg, error: Seq<char>) -> Seq<char> {
    leg.flight_number@ + " cache entry was ignored: "@ + error
}

/// The message for a status that could not be cached.
pub open spec fn cache_write_text(leg: TravelLeg, error: Seq<char>) -> Seq<char> {
    leg.flight_number@ + " live status could not be cached: "@ + error
}

/// The message for a backoff that could not be saved.
pub open spec fn backoff_unsaved_text(error: Seq<char>) -> Seq<char> {
    "FlightAware backoff could not be persisted; provider requests are disabled for this refresh: "@ + error
}

/// Starts a leg: one outside the query window is left alone; one whose
/// departure does not parse gets a warning; otherwise its cache file is
/// read.
pub fn begin_leg(leg: &TravelLeg, now: Instant, warnings: &mut Vec<TravelWarning>) -> (r: (LegPhase, LegAction))
    requires
        usable_now(now),
    ensures
        crate::flightaware::query_window_of(leg.departure.utc@, now) is None ==> r.0 is Finished && r.1 is Done
            && final(warnings)@ == old(warnings)@,
        crate::flightaware::query_window_of(leg.departure.utc@, now) is Some ==> r.0 is ReadingCache
            && final(warnings)@ == old(warnings)@ && r.1 is ReadCache && r.1->ReadCache_0@ == crate::flightaware::cache_file_name_text(
            r.0->ReadingCache_key,
        ) && r.0->ReadingCache_start@ == utc_seconds_text(
            crate::flightaware::query_window_of(leg.departure.utc@, now)->Some_0.0,
        ) && r.0->ReadingCache_end@ == utc_seconds_text(
            crate::flightaware::query_window_of(leg.departure.utc@, now)->Some_0.1,
        ) && r.0->ReadingCache_key.flight_number@ == leg.flight_number@ && r.0->ReadingCache_key.origin@
            == leg.departure_airport.code@ && r.0->ReadingCache_key.destination@ == leg.arrival_airport.code@,
{
    let (start, end) = match query_window(leg, now) {
        None => {
            return (LegPhase::Finished, LegAction::Done);
        },
        Some(w) => w,
    };
    match CacheKey::from_leg(leg) {
        Err(e) => {
            let mut m = leg.flight_number.clone();
            m.append(" cannot be enriched: ");
            m.append(e.as_str());
            push_warning(warnings, "flightaware_invalid_leg", Some(leg.source.event_id.clone()), m);
            (LegPhase::Finished, LegAction::Done)
        },
        Ok(key) => {
            let name = cache_file_name(&key);
            (LegPhase::ReadingCache { key, start, end }, LegAction::ReadCache(name))
        },
    }
}

} // verus!

verus! {

/// What a cache read leaves usable: nothing for a missing file or a read
/// error; else the entry once checked against the key (a stale version or
/// another key counts as nothing; bad timestamps as an error).
pub open spec fn cache_read_usable(read: Result<Option<CacheEntry>, String>, key: CacheKey) -> Option<CacheEntry> {
    match read {
        Ok(Some(e)) => if e.version == FLIGHT_CACHE_VERSION && crate::flightaware::same_key(e.key, key)
            && crate::dates::rfc3339_instant(e.fetched_at@) is Some && crate::dates::rfc3339_instant(
            e.expires_at@,
        ) is Some {
            Some(e)
        } else {
            None
        },
        _ => None,
    }
}

/// The error a cache read reports, if any.
pub open spec fn cache_read_error(read: Result<Option<CacheEntry>, String>, key: CacheKey) -> Option<Seq<char>> {
    match read {
        Err(m) => Some(m@),
        Ok(Some(e)) => if e.version == FLIGHT_CACHE_VERSION && crate::flightaware::same_key(e.key, key) && (
        crate::dates::rfc3339_instant(e.fetched_at@) is None || crate::dates::rfc3339_instant(
            e.expires_at@,
        ) is None) {
            Some("cache entry contains invalid timestamps"@)
        } else {
            None
        },
        Ok(None) => None,
    }
}

/// The ledger's limit has room and the request was counted.
pub open spec fn reserved(u0: UsageState, u1: UsageState, limit: u32) -> bool {
    u0.result_sets < limit && u1.result_sets == u0.result_sets + 1 && usage_same_but_sets(u0, u1)
}

/// After the cache file was read: a fresh entry is used as it is; while
/// requests are paused, or when the monthly budget is spent, the cached
/// status (stale) or a warning stands in; otherwise a result set is
/// reserved and the ledger is saved before the request.
pub fn on_cache_read(
    key: CacheKey,
    start: String,
    end: String,
    read: Result<Option<CacheEntry>, String>,
    leg: &mut TravelLeg,
    usage: &mut UsageState,
    config: &FlightAwareConfig,
    now: Instant,
    warnings: &mut Vec<TravelWarning>,
) -> (r: (LegPhase, LegAction))
    ensures
        ({
            let cached = cache_read_usable(read, key);
            let w_mid: int = if cache_read_error(read, key) is Some {
                old(warnings)@.len() + 1int
            } else {
                old(warnings)@.len() as int
            };
            &&& final(warnings)@.len() >= w_mid
            &&& cache_read_error(read, key) matches Some(m) ==> warned(
                old(warnings)@,
                final(warnings)@.take(w_mid),
                "flightaware_cache_error"@,
                old(leg).source.event_id@,
                cache_ignored_text(*old(leg), m),
            )
            &&& cache_read_error(read, key) is None ==> final(warnings)@.take(w_mid) == old(warnings)@
            &&& if cached is Some && entry_fresh(cached->Some_0, now) {
                r.0 is Finished && r.1 is Done && *final(usage) == *old(usage) && leg_kept(*old(leg), *final(leg))
                    && match cached->Some_0.status {
                    Some(s) => final(warnings)@.len() == w_mid && final(leg).live_status is Some && restamped(
                        final(leg).live_status->Some_0,
                        s,
                        "fresh"@,
                        cached->Some_0.fetched_at@,
                        cached->Some_0.expires_at@,
                    ),
                    None => final(leg).live_status == old(leg).live_status && warned(
                        final(warnings)@.take(w_mid),
                        final(warnings)@,
                        if cached->Some_0.outcome@ == "ambiguous"@ {
                            "flightaware_ambiguous_match"@
                        } else {
                            "flightaware_no_match"@
                        },
                        old(leg).source.event_id@,
                        if cached->Some_0.outcome@ == "ambiguous"@ {
                            ambiguous_text(*old(leg))
                        } else {
                            no_match_text(*old(leg))
                        },
                    ),
                }
            } else if backoff_active(*old(usage), now) {
                r.0 is Finished && r.1 is Done && *final(usage) == *old(usage) && stale_applied(
                    *old(leg),
                    *final(leg),
                    cached,
                    config.stale_if_error,
                    final(warnings)@.take(w_mid),
                    final(warnings)@,
                    "flightaware_backoff"@,
                    "FlightAware requests are temporarily paused after a provider failure"@,
                )
            } else if old(usage).result_sets >= config.monthly_result_set_limit {
                r.0 is Finished && r.1 is Done && *final(usage) == *old(usage) && stale_applied(
                    *old(leg),
                    *final(leg),
                    cached,
                    config.stale_if_error,
                    final(warnings)@.take(w_mid),
                    final(warnings)@,
                    "flightaware_monthly_limit"@,
                    "FlightAware monthly result-set limit has been reached"@,
                )
            } else {
                &&& reserved(*old(usage), *final(usage), config.monthly_result_set_limit)
                &&& leg_unchanged(*old(leg), *final(leg))
                &&& final(warnings)@.len() == w_mid
                &&& r.1 is SaveUsage
                &&& r.0 == LegPhase::SavingReservation { key, start, end, cached }
            }
        }),
{
    let cached = match read {
        Ok(None) => None,
        Ok(Some(e)) => match check_cache_entry(e, &key) {
            Ok(x) => x,
            Err(m) => {
                let mut text = leg.flight_number.clone();
                text.append(" cache entry was ignored: ");
                text.append(m.as_str());
                push_warning(warnings, "flightaware_cache_error", Some(leg.source.event_id.clone()), text);
                None
            },
        },
        Err(m) => {
            let mut text = leg.flight_number.clone();
            text.append(" cache entry was ignored: ");
            text.append(m.as_str());
            push_warning(warnings, "flightaware_cache_error", Some(leg.source.event_id.clone()), text);
            None
        },
    };
    let ghost w_mid = warnings@;
    assert(warnings@.take(warnings@.len() as int) =~= warnings@);
    if let Some(entry) = &cached {
        if entry.is_fresh(now) {
            apply_fresh_cache(leg, entry, warnings);
            return (LegPhase::Finished, LegAction::Done);
        }
    }
    if usage.backoff_is_active(now) {
        use_stale_or_calendar(
            leg,
            &cached,
            config.stale_if_error,
            warnings,
            "flightaware_backoff",
            text_of("FlightAware requests are temporarily paused after a provider failure"),
        );
        return (LegPhase::Finished, LegAction::Done);
    }
    if !reserve_result_set(usage, config.monthly_result_set_limit) {
        use_stale_or_calendar(
            leg,
            &cached,
            config.stale_if_error,
            warnings,
            "flightaware_monthly_limit",
            text_of("FlightAware monthly result-set limit has been reached"),
        );
        return (LegPhase::Finished, LegAction::Done);
    }
    (LegPhase::SavingReservation { key, start, end, cached }, LegAction::SaveUsage)
}

} // verus!

verus! {

/// The message for an HTTP status.
fn http_message(prefix: &str, status: u16) -> (r: String)
    ensures
        r@ == prefix@ + crate::text::decimal(status as nat),
{
    let mut m = text_of(prefix);
    push_decimal(&mut m, status as u64);
    m
}

/// After the reservation was saved (or not): a failed save gives the result
/// set back and the cached status or a warning stands in; a saved one lets
/// the flights request go out for the compacted flight number.
pub fn on_reservation_saved(
    key: CacheKey,
    start: String,
    end: String,
    cached: Option<CacheEntry>,
    saved: Result<(), String>,
    leg: &mut TravelLeg,
    usage: &mut UsageState,
    config: &FlightAwareConfig,
    warnings: &mut Vec<TravelWarning>,
) -> (r: (LegPhase, LegAction))
    requires
        saved is Err ==> old(usage).result_sets > 0,
    ensures
        match saved {
            Err(e) => r.0 is Finished && r.1 is Done && final(usage).result_sets == old(usage).result_sets - 1
                && usage_same_but_sets(*old(usage), *final(usage)) && stale_applied(
                *old(leg),
                *final(leg),
                cached,
                config.stale_if_error,
                old(warnings)@,
                final(warnings)@,
                "flightaware_usage_unavailable"@,
                "FlightAware usage ledger could not be updated: "@ + e@,
            ),
            Ok(_) => *final(usage) == *old(usage) && leg_unchanged(*old(leg), *final(leg)) && final(warnings)@
                == old(warnings)@ && r.0 == LegPhase::AwaitingFlights { key, cached } && r.1 is RequestFlights
                && r.1->ident@ == crate::flightaware::normalized_ident_text(old(leg).flight_number@)
                && r.1->start == start && r.1->end == end,
        },
{
    match saved {
        Err(e) => {
            release_result_set(usage);
            let mut m = text_of("FlightAware usage ledger could not be updated: ");
            m.append(e.as_str());
            use_stale_or_calendar(leg, &cached, config.stale_if_error, warnings, "flightaware_usage_unavailable", m);
            (LegPhase::Finished, LegAction::Done)
        },
        Ok(_) => {
            let ident = normalize_ident(leg.flight_number.as_str());
            (LegPhase::AwaitingFlights { key, cached }, LegAction::RequestFlights { ident, start, end })
        },
    }
}

/// The ledger after a failure was recorded at `now`.
pub open spec fn failure_recorded(u0: UsageState, u1: UsageState, now: Instant, status: u16, retry_after: Option<u64>) -> bool {
    &&& u1.failure_count == if u0.failure_count == u32::MAX {
        u32::MAX as int
    } else {
        u0.failure_count + 1
    }
    &&& u1.backoff_until is Some
    &&& u1.backoff_until->Some_0@ == utc_seconds_text(
        shifted(now, crate::flightaware::backoff_seconds_of(u1.failure_count, status, retry_after) as int),
    )
    &&& u1.version == u0.version
    &&& u1.month == u0.month
    &&& u1.result_sets == u0.result_sets
}

/// The ledger after a success.
pub open spec fn success_recorded(u0: UsageState, u1: UsageState) -> bool {
    u1.failure_count == 0 && u1.backoff_until is None && u1.version == u0.version && u1.month == u0.month
        && u1.result_sets == u0.result_sets
}

/// The ledger after the extra pages of a reply were counted.
pub open spec fn pages_counted(u0: UsageState, u1: UsageState, num_pages: u32) -> bool {
    &&& u1.result_sets == if num_pages > 1 {
        if u0.result_sets + num_pages - 1 > u32::MAX {
            u32::MAX as int
        } else {
            u0.result_sets + num_pages - 1
        }
    } else {
        u0.result_sets as int
    }
    &&& usage_same_but_sets(u0, u1)
}

/// What matching the flights leads to: after a no-match the success is
/// saved; after a match the status is made and, for a flight in progress
/// with budget left, its position is reserved and saved; otherwise the
/// success is saved (with a note when the budget had no room).
pub open spec fn planned_after_match(
    key: CacheKey,
    flights: Seq<ApiFlight>,
    l0: TravelLeg,
    l1: TravelLeg,
    u0: UsageState,
    u1: UsageState,
    limit: u32,
    now: Instant,
    w0: Seq<TravelWarning>,
    w1: Seq<TravelWarning>,
    r: (LegPhase, LegAction),
) -> bool {
    &&& leg_unchanged(l0, l1)
    &&& r.1 is SaveUsage
    &&& if exists|i: int| #[trigger] crate::flightaware::is_best_candidate(flights, l0, i) && forall|j: int|
        j != i ==> !#[trigger] crate::flightaware::is_best_candidate(flights, l0, j) {
        let i = choose|i: int| #[trigger] crate::flightaware::is_best_candidate(flights, l0, i) && forall|j: int|
            j != i ==> !#[trigger] crate::flightaware::is_best_candidate(flights, l0, j);
        let f = flights[i];
        if in_progress(f) && u0.result_sets < limit {
            &&& reserved(u0, u1, limit)
            &&& w1 == w0
            &&& r.0 is SavingPositionReservation
            &&& r.0->SavingPositionReservation_key == key
            &&& crate::flightaware::is_normalized_status(r.0->SavingPositionReservation_status, f, now)
            &&& r.0->SavingPositionReservation_flight_id@ == f.fa_flight_id@
        } else {
            &&& success_recorded(u0, u1)
            &&& r.0 is SavingSuccess
            &&& r.0->SavingSuccess_key == key
            &&& crate::flightaware::is_normalized_status(r.0->SavingSuccess_status, f, now)
            &&& if in_progress(f) {
                warned(
                    w0,
                    w1,
                    "flightaware_position_skipped"@,
                    l0.source.event_id@,
                    "FlightAware position was skipped because the monthly result-set limit was reached"@,
                )
            } else {
                w1 == w0
            }
        }
    } else {
        &&& success_recorded(u0, u1)
        &&& w1 == w0
        &&& r.0 == LegPhase::SavingNoMatch {
            key,
            ambiguous: exists|i: int, j: int|
                i != j && #[trigger] crate::flightaware::is_best_candidate(flights, l0, i)
                    && #[trigger] crate::flightaware::is_best_candidate(flights, l0, j),
        }
    }
}

/// Matches the flights to the leg and plans the next step.
fn plan_after_match(
    key: CacheKey,
    flights: &Vec<ApiFlight>,
    leg: &TravelLeg,
    usage: &mut UsageState,
    config: &FlightAwareConfig,
    now: Instant,
    warnings: &mut Vec<TravelWarning>,
) -> (r: (LegPhase, LegAction))
    ensures
        planned_after_match(
            key,
            flights@,
            *leg,
            *leg,
            *old(usage),
            *final(usage),
            config.monthly_result_set_limit,
            now,
            old(warnings)@,
            final(warnings)@,
            r,
        ),
{
    let selection = select_match(flights.as_slice(), leg);
    match selection {
        MatchSelection::Matched(f) => {
            let ghost i = choose|i: int| #[trigger] crate::flightaware::is_best_candidate(flights@, *leg, i) && *f
                == flights@[i] && forall|j: int| j != i ==> !#[trigger] crate::flightaware::is_best_candidate(
                    flights@,
                    *leg,
                    j,
                );
            let status = normalize_status(f, now);
            proof {
                let c = choose|k: int| #[trigger] crate::flightaware::is_best_candidate(flights@, *leg, k)
                    && forall|j: int| j != k ==> !#[trigger] crate::flightaware::is_best_candidate(flights@, *leg, j);
                assert(c == i) by {
                    if c != i {
                        assert(crate::flightaware::is_best_candidate(flights@, *leg, c));
                    }
                }
            }
            if flight_is_in_progress(f) {
                if reserve_result_set(usage, config.monthly_result_set_limit) {
                    let flight_id = f.fa_flight_id.clone();
                    return (
                        LegPhase::SavingPositionReservation { key, status, flight_id },
                        LegAction::SaveUsage,
                    );
                }
                push_warning(
                    warnings,
                    "flightaware_position_skipped",
                    Some(leg.source.event_id.clone()),
                    text_of("FlightAware position was skipped because the monthly result-set limit was reached"),
                );
            }
            record_success(usage);
            (LegPhase::SavingSuccess { key, status }, LegAction::SaveUsage)
        },
        MatchSelection::NoMatch => {
            record_success(usage);
            (LegPhase::SavingNoMatch { key, ambiguous: false }, LegAction::SaveUsage)
        },
        MatchSelection::Ambiguous => {
            record_success(usage);
            (LegPhase::SavingNoMatch { key, ambiguous: true }, LegAction::SaveUsage)
        },
    }
}

} // verus!

verus! {

/// After the flights reply: a failed request records the failure and saves
/// it before the problem is reported; a good reply counts its extra pages
/// (saving them first when there are any) and is matched.
pub fn on_flights(
    key: CacheKey,
    cached: Option<CacheEntry>,
    reply: FlightsReply,
    leg: &mut TravelLeg,
    usage: &mut UsageState,
    config: &FlightAwareConfig,
    now: Instant,
    warnings: &mut Vec<TravelWarning>,
) -> (r: (LegPhase, LegAction))
    requires
        usable_now(now),
    ensures
        match reply {
            FlightsReply::Http { status, retry_after } => failure_recorded(*old(usage), *final(usage), now, status, retry_after)
                && leg_unchanged(*old(leg), *final(leg)) && final(warnings)@ == old(warnings)@ && r.1 is SaveUsage
                && r.0 is SavingFailure && r.0->SavingFailure_cached == cached && r.0->SavingFailure_kind@
                == "flightaware_request_failed"@ && r.0->SavingFailure_message@ == "FlightAware returned HTTP "@
                + crate::text::decimal(status as nat),
            FlightsReply::Unreachable => failure_recorded(*old(usage), *final(usage), now, 0, None) && leg_unchanged(
                *old(leg),
                *final(leg),
            ) && final(warnings)@ == old(warnings)@ && r.1 is SaveUsage && r.0 is SavingFailure
                && r.0->SavingFailure_cached == cached && r.0->SavingFailure_kind@ == "flightaware_request_failed"@
                && r.0->SavingFailure_message@ == "FlightAware could not be reached"@,
            FlightsReply::Invalid => failure_recorded(*old(usage), *final(usage), now, 0, None) && leg_unchanged(
                *old(leg),
                *final(leg),
            ) && final(warnings)@ == old(warnings)@ && r.1 is SaveUsage && r.0 is SavingFailure
                && r.0->SavingFailure_cached == cached && r.0->SavingFailure_kind@ == "flightaware_invalid_response"@
                && r.0->SavingFailure_message@ == "FlightAware returned an invalid response"@,
            FlightsReply::Flights { num_pages, flights } => if num_pages > 1 {
                pages_counted(*old(usage), *final(usage), num_pages) && leg_unchanged(*old(leg), *final(leg))
                    && final(warnings)@ == old(warnings)@ && r.1 is SaveUsage && r.0 is SavingPages
                    && r.0->SavingPages_key == key && r.0->SavingPages_flights@ == flights@
            } else {
                planned_after_match(
                    key,
                    flights@,
                    *old(leg),
                    *final(leg),
                    *old(usage),
                    *final(usage),
                    config.monthly_result_set_limit,
                    now,
                    old(warnings)@,
                    final(warnings)@,
                    r,
                )
            },
        },
{
    match reply {
        FlightsReply::Http { status, retry_after } => {
            record_failure(usage, now, status, retry_after);
            let message = http_message("FlightAware returned HTTP ", status);
            (
                LegPhase::SavingFailure { cached, kind: text_of("flightaware_request_failed"), message },
                LegAction::SaveUsage,
            )
        },
        FlightsReply::Unreachable => {
            record_failure(usage, now, 0, None);
            (
                LegPhase::SavingFailure {
                    cached,
                    kind: text_of("flightaware_request_failed"),
                    message: text_of("FlightAware could not be reached"),
                },
                LegAction::SaveUsage,
            )
        },
        FlightsReply::Invalid => {
            record_failure(usage, now, 0, None);
            (
                LegPhase::SavingFailure {
                    cached,
                    kind: text_of("flightaware_invalid_response"),
                    message: text_of("FlightAware returned an invalid response"),
                },
                LegAction::SaveUsage,
            )
        },
        FlightsReply::Flights { num_pages, flights } => {
            account_for_extra_pages(usage, num_pages);
            if num_pages > 1 {
                (LegPhase::SavingPages { key, flights }, LegAction::SaveUsage)
            } else {
                plan_after_match(key, &flights, leg, usage, config, now, warnings)
            }
        },
    }
}

/// After a failure was saved (or not): an unsaved backoff gets a note, then
/// the cached status or a warning stands in for the problem.
pub fn on_failure_saved(
    cached: Option<CacheEntry>,
    kind: String,
    message: String,
    saved: Result<(), String>,
    leg: &mut TravelLeg,
    config: &FlightAwareConfig,
    warnings: &mut Vec<TravelWarning>,
) -> (r: (LegPhase, LegAction))
    ensures
        r.0 is Finished && r.1 is Done,
        match saved {
            Err(e) => final(warnings)@.len() == old(warnings)@.len() + 2 && warned(
                old(warnings)@,
                final(warnings)@.take(old(warnings)@.len() + 1int),
                "flightaware_usage_unavailable"@,
                old(leg).source.event_id@,
                backoff_unsaved_text(e@),
            ) && stale_applied(
                *old(leg),
                *final(leg),
                cached,
                config.stale_if_error,
                final(warnings)@.take(old(warnings)@.len() + 1int),
                final(warnings)@,
                kind@,
                message@,
            ),
            Ok(_) => stale_applied(
                *old(leg),
                *final(leg),
                cached,
                config.stale_if_error,
                old(warnings)@,
                final(warnings)@,
                kind@,
                message@,
            ),
        },
{
    if let Err(e) = saved {
        let mut m = text_of("FlightAware backoff could not be persisted; provider requests are disabled for this refresh: ");
        m.append(e.as_str());
        push_warning(warnings, "flightaware_usage_unavailable", Some(leg.source.event_id.clone()), m);
    }
    let ghost mid = warnings@;
    assert(warnings@.take(warnings@.len() as int) =~= warnings@);
    use_stale_or_calendar(leg, &cached, config.stale_if_error, warnings, kind.as_str(), message);
    (LegPhase::Finished, LegAction::Done)
}

/// After the extra pages were saved (whether or not that worked), the
/// flights are matched.
pub fn on_pages_saved(
    key: CacheKey,
    flights: Vec<ApiFlight>,
    leg: &mut TravelLeg,
    usage: &mut UsageState,
    config: &FlightAwareConfig,
    now: Instant,
    warnings: &mut Vec<TravelWarning>,
) -> (r: (LegPhase, LegAction))
    ensures
        planned_after_match(
            key,
            flights@,
            *old(leg),
            *final(leg),
            *old(usage),
            *final(usage),
            config.monthly_result_set_limit,
            now,
            old(warnings)@,
            final(warnings)@,
            r,
        ),
{
    plan_after_match(key, &flights, leg, usage, config, now, warnings)
}

/// After a no-match success was saved (whether or not that worked), the
/// outcome is cached for half an hour.
pub fn on_no_match_saved(key: CacheKey, ambiguous: bool, now: Instant) -> (r: (LegPhase, LegAction))
    requires
        usable_now(now),
    ensures
        r.0 == (LegPhase::WritingNoMatch { ambiguous }),
        r.1 is WriteCache,
        r.1->WriteCache_0@ == crate::flightaware::cache_file_name_text(key),
        r.1->WriteCache_1.version == FLIGHT_CACHE_VERSION,
        r.1->WriteCache_1.key == key,
        r.1->WriteCache_1.fetched_at@ == utc_seconds_text(now),
        r.1->WriteCache_1.expires_at@ == utc_seconds_text(
            shifted(now, crate::flightaware::NEGATIVE_CACHE_SECONDS as int),
        ),
        r.1->WriteCache_1.outcome@ == if ambiguous {
            "ambiguous"@
        } else {
            "no_match"@
        },
        r.1->WriteCache_1.status is None,
        cacheable_now(now) ==> read_back_fresh(
            r.1->WriteCache_1,
            key,
            whole_second(shifted(now, crate::flightaware::NEGATIVE_CACHE_SECONDS as int)),
        ),
{
    let name = cache_file_name(&key);
    let outcome = if ambiguous {
        "ambiguous"
    } else {
        "no_match"
    };
    let entry = CacheEntry::negative(key, now, outcome);
    (LegPhase::WritingNoMatch { ambiguous }, LegAction::WriteCache(name, entry))
}

/// After a no-match outcome was cached (or not): a failed write gets a
/// note, then the leg's no-match warning.
pub fn on_no_match_written(
    ambiguous: bool,
    written: Result<(), String>,
    leg: &TravelLeg,
    warnings: &mut Vec<TravelWarning>,
) -> (r: (LegPhase, LegAction))
    ensures
        r.0 is Finished && r.1 is Done,
        ({
            let mid: int = if written is Err {
                old(warnings)@.len() + 1int
            } else {
                old(warnings)@.len() as int
            };
            &&& written matches Err(e) ==> warned(
                old(warnings)@,
                final(warnings)@.take(mid),
                "flightaware_cache_error"@,
                leg.source.event_id@,
                cache_write_text(*leg, e@),
            )
            &&& written is Ok ==> final(warnings)@.take(mid) == old(warnings)@
            &&& warned(
                final(warnings)@.take(mid),
                final(warnings)@,
                if ambiguous {
                    "flightaware_ambiguous_match"@
                } else {
                    "flightaware_no_match"@
                },
                leg.source.event_id@,
                if ambiguous {
                    ambiguous_text(*leg)
                } else {
                    no_match_text(*leg)
                },
            )
        }),
{
    if let Err(e) = written {
        let mut m = leg.flight_number.clone();
        m.append(" live status could not be cached: ");
        m.append(e.as_str());
        push_warning(warnings, "flightaware_cache_error", Some(leg.source.event_id.clone()), m);
    }
    let ghost mid = warnings@;
    push_match_warning(warnings, leg, ambiguous);
    assert(warnings@.take(mid.len() as int) == mid);
    (LegPhase::Finished, LegAction::Done)
}

} // verus!

verus! {

/// The cache entry and status a matched leg ends with: the status expires
/// after its cache lifetime from `now`.
pub open spec fn matched_entry_is(
    entry: CacheEntry,
    kept: FlightStatus,
    status: FlightStatus,
    key: CacheKey,
    leg: TravelLeg,
    now: Instant,
) -> bool {
    let expires = utc_seconds_text(shifted(now, cache_ttl_seconds(status.status@, leg.departure.utc@, now)));
    &&& restamped(kept, status, status.freshness.state@, status.freshness.fetched_at@, expires)
    &&& entry.version == FLIGHT_CACHE_VERSION
    &&& entry.key == key
    &&& entry.fetched_at@ == utc_seconds_text(now)
    &&& entry.expires_at@ == expires
    &&& entry.outcome@ == "matched"@
    &&& entry.status == Some(kept)
}

/// An entry a later read takes as the key's, and as fresh exactly before
/// `until`.
pub open spec fn read_back_fresh(entry: CacheEntry, key: CacheKey, until: Instant) -> bool {
    &&& cache_read_usable(Ok(Some(entry)), key) == Some(entry)
    &&& forall|later: Instant| #[trigger] entry_fresh(entry, later) <==> instant_before(later, until)
}

/// Times at which every entry the cache writes is read back exactly.
pub open spec fn cacheable_now(now: Instant) -> bool {
    0 <= now.seconds <= 253_402_279_199 && now.nanos < 1_000_000_000
}

/// Plans the write of a matched status.
fn plan_status_write(key: CacheKey, status: FlightStatus, leg: &TravelLeg, now: Instant) -> (r: (LegPhase, LegAction))
    requires
        usable_now(now),
    ensures
        r.0 is WritingStatus,
        r.1 is WriteCache,
        r.1->WriteCache_0@ == crate::flightaware::cache_file_name_text(key),
        matched_entry_is(r.1->WriteCache_1, r.0->WritingStatus_status, status, key, *leg, now),
        cacheable_now(now) ==> read_back_fresh(
            r.1->WriteCache_1,
            key,
            whole_second(shifted(now, cache_ttl_seconds(status.status@, leg.departure.utc@, now))),
        ),
{
    let name = cache_file_name(&key);
    let ttl = cache_ttl(&status, leg, now);
    let expires = shift(now, ttl);
    let expires_text = timestamp(expires);
    let mut kept = status;
    kept.freshness.expires_at = expires_text;
    let entry = CacheEntry {
        version: FLIGHT_CACHE_VERSION,
        key,
        fetched_at: timestamp(now),
        expires_at: timestamp(expires),
        outcome: text_of("matched"),
        status: Some(copy_status(&kept)),
    };
    (LegPhase::WritingStatus { status: kept }, LegAction::WriteCache(name, entry))
}

/// After the position's reservation was saved (or not): an unsaved one is
/// given back and the position skipped (with a note), so the success is
/// saved; a saved one lets the position request go out.
pub fn on_position_reservation_saved(
    key: CacheKey,
    status: FlightStatus,
    flight_id: String,
    saved: Result<(), String>,
    leg: &TravelLeg,
    usage: &mut UsageState,
    warnings: &mut Vec<TravelWarning>,
) -> (r: (LegPhase, LegAction))
    requires
        saved is Err ==> old(usage).result_sets > 0,
    ensures
        match saved {
            Err(e) => {
                &&& final(usage).result_sets == old(usage).result_sets - 1
                &&& final(usage).failure_count == 0
                &&& final(usage).backoff_until is None
                &&& final(usage).version == old(usage).version
                &&& final(usage).month == old(usage).month
                &&& warned(
                    old(warnings)@,
                    final(warnings)@,
                    "flightaware_usage_unavailable"@,
                    leg.source.event_id@,
                    "FlightAware position was skipped because the usage ledger could not be updated: "@ + e@,
                )
                &&& r.0 == LegPhase::SavingSuccess { key, status }
                &&& r.1 is SaveUsage
            },
            Ok(_) => *final(usage) == *old(usage) && final(warnings)@ == old(warnings)@ && r.0
                == LegPhase::AwaitingPosition { key, status } && r.1 == LegAction::RequestPosition(flight_id),
        },
{
    match saved {
        Err(e) => {
            release_result_set(usage);
            let mut m = text_of("FlightAware position was skipped because the usage ledger could not be updated: ");
            m.append(e.as_str());
            push_warning(warnings, "flightaware_usage_unavailable", Some(leg.source.event_id.clone()), m);
            record_success(usage);
            (LegPhase::SavingSuccess { key, status }, LegAction::SaveUsage)
        },
        Ok(_) => (LegPhase::AwaitingPosition { key, status }, LegAction::RequestPosition(flight_id)),
    }
}

/// After the position reply: none found, none given, or a position in
/// range is a success, saved as such; an invalid position, an invalid
/// body, another HTTP status or no connection records a failure, saved
/// before it is reported.
pub fn on_position(
    key: CacheKey,
    status: FlightStatus,
    reply: PositionReply,
    usage: &mut UsageState,
    now: Instant,
) -> (r: (LegPhase, LegAction))
    requires
        usable_now(now),
    ensures
        r.1 is SaveUsage,
        match reply {
            PositionReply::NotFound | PositionReply::Empty | PositionReply::Position { valid: true } => success_recorded(
                *old(usage),
                *final(usage),
            ) && r.0 == LegPhase::SavingSuccess { key, status },
            PositionReply::Position { valid: false } => failure_recorded(*old(usage), *final(usage), now, 0, None)
                && r.0 is SavingPositionFailure && r.0->SavingPositionFailure_key == key
                && r.0->SavingPositionFailure_status == status && r.0->SavingPositionFailure_kind@
                == "flightaware_invalid_position"@ && r.0->SavingPositionFailure_message@
                == "FlightAware returned invalid position values"@,
            PositionReply::Invalid => failure_recorded(*old(usage), *final(usage), now, 0, None)
                && r.0 is SavingPositionFailure && r.0->SavingPositionFailure_key == key
                && r.0->SavingPositionFailure_status == status && r.0->SavingPositionFailure_kind@
                == "flightaware_invalid_position"@ && r.0->SavingPositionFailure_message@
                == "FlightAware returned an invalid position response"@,
            PositionReply::Http { status: code, retry_after } => failure_recorded(
                *old(usage),
                *final(usage),
                now,
                code,
                retry_after,
            ) && r.0 is SavingPositionFailure && r.0->SavingPositionFailure_key == key
                && r.0->SavingPositionFailure_status == status && r.0->SavingPositionFailure_kind@
                == "flightaware_position_unavailable"@ && r.0->SavingPositionFailure_message@
                == "FlightAware position returned HTTP "@ + crate::text::decimal(code as nat),
            PositionReply::Unreachable => failure_recorded(*old(usage), *final(usage), now, 0, None)
                && r.0 is SavingPositionFailure && r.0->SavingPositionFailure_key == key
                && r.0->SavingPositionFailure_status == status && r.0->SavingPositionFailure_kind@
                == "flightaware_position_unavailable"@ && r.0->SavingPositionFailure_message@
                == "FlightAware position could not be reached"@,
        },
{
    match reply {
        PositionReply::NotFound | PositionReply::Empty => {
            record_success(usage);
            (LegPhase::SavingSuccess { key, status }, LegAction::SaveUsage)
        },
        PositionReply::Position { valid } => {
            if valid {
                record_success(usage);
                (LegPhase::SavingSuccess { key, status }, LegAction::SaveUsage)
            } else {
                record_failure(usage, now, 0, None);
                (
                    LegPhase::SavingPositionFailure {
                        key,
                        status,
                        kind: text_of("flightaware_invalid_position"),
                        message: text_of("FlightAware returned invalid position values"),
                    },
                    LegAction::SaveUsage,
                )
            }
        },
        PositionReply::Invalid => {
            record_failure(usage, now, 0, None);
            (
                LegPhase::SavingPositionFailure {
                    key,
                    status,
                    kind: text_of("flightaware_invalid_position"),
                    message: text_of("FlightAware returned an invalid position response"),
                },
                LegAction::SaveUsage,
            )
        },
        PositionReply::Http { status: code, retry_after } => {
            record_failure(usage, now, code, retry_after);
            let message = http_message("FlightAware position returned HTTP ", code);
            (
                LegPhase::SavingPositionFailure {
                    key,
                    status,
                    kind: text_of("flightaware_position_unavailable"),
                    message,
                },
                LegAction::SaveUsage,
            )
        },
        PositionReply::Unreachable => {
            record_failure(usage, now, 0, None);
            (
                LegPhase::SavingPositionFailure {
                    key,
                    status,
                    kind: text_of("flightaware_position_unavailable"),
                    message: text_of("FlightAware position could not be reached"),
                },
                LegAction::SaveUsage,
            )
        },
    }
}

/// After a position failure was saved (or not): an unsaved backoff gets a
/// note, the problem is reported, and the status is cached without a
/// recorded success.
pub fn on_position_failure_saved(
    key: CacheKey,
    status: FlightStatus,
    kind: String,
    message: String,
    saved: Result<(), String>,
    leg: &TravelLeg,
    now: Instant,
    warnings: &mut Vec<TravelWarning>,
) -> (r: (LegPhase, LegAction))
    requires
        usable_now(now),
    ensures
        ({
            let mid: int = if saved is Err {
                old(warnings)@.len() + 1int
            } else {
                old(warnings)@.len() as int
            };
            &&& saved matches Err(e) ==> warned(
                old(warnings)@,
                final(warnings)@.take(mid),
                "flightaware_usage_unavailable"@,
                leg.source.event_id@,
                backoff_unsaved_text(e@),
            )
            &&& saved is Ok ==> final(warnings)@.take(mid) == old(warnings)@
            &&& warned(final(warnings)@.take(mid), final(warnings)@, kind@, leg.source.event_id@, message@)
        }),
        r.0 is WritingStatus,
        r.1 is WriteCache,
        r.1->WriteCache_0@ == crate::flightaware::cache_file_name_text(key),
        matched_entry_is(r.1->WriteCache_1, r.0->WritingStatus_status, status, key, *leg, now),
{
    if let Err(e) = saved {
        let mut m = text_of("FlightAware backoff could not be persisted; provider requests are disabled for this refresh: ");
        m.append(e.as_str());
        push_warning(warnings, "flightaware_usage_unavailable", Some(leg.source.event_id.clone()), m);
    }
    let ghost mid = warnings@;
    push_warning(warnings, kind.as_str(), Some(leg.source.event_id.clone()), message);
    assert(warnings@.take(mid.len() as int) == mid);
    plan_status_write(key, status, leg, now)
}

/// After the success was saved (whether or not that worked), the status is
/// cached.
pub fn on_success_saved(key: CacheKey, status: FlightStatus, leg: &TravelLeg, now: Instant) -> (r: (
    LegPhase,
    LegAction,
))
    requires
        usable_now(now),
    ensures
        r.0 is WritingStatus,
        r.1 is WriteCache,
        r.1->WriteCache_0@ == crate::flightaware::cache_file_name_text(key),
        matched_entry_is(r.1->WriteCache_1, r.0->WritingStatus_status, status, key, *leg, now),
        cacheable_now(now) ==> read_back_fresh(
            r.1->WriteCache_1,
            key,
            whole_second(shifted(now, cache_ttl_seconds(status.status@, leg.departure.utc@, now))),
        ),
{
    plan_status_write(key, status, leg, now)
}

/// After the status was cached (or not): a failed write gets a note; the
/// leg shows the status.
pub fn on_status_written(
    status: FlightStatus,
    written: Result<(), String>,
    leg: &mut TravelLeg,
    warnings: &mut Vec<TravelWarning>,
) -> (r: (LegPhase, LegAction))
    ensures
        r.0 is Finished && r.1 is Done,
        leg_kept(*old(leg), *final(leg)),
        final(leg).live_status == Some(status),
        match written {
            Err(e) => warned(
                old(warnings)@,
                final(warnings)@,
                "flightaware_cache_error"@,
                old(leg).source.event_id@,
                cache_write_text(*old(leg), e@),
            ),
            Ok(_) => final(warnings)@ == old(warnings)@,
        },
{
    if let Err(e) = written {
        let mut m = leg.flight_number.clone();
        m.append(" live status could not be cached: ");
        m.append(e.as_str());
        push_warning(warnings, "flightaware_cache_error", Some(leg.source.event_id.clone()), m);
    }
    leg.live_status = Some(status);
    (LegPhase::Finished, LegAction::Done)
}

} // verus!

verus! {

/// Whether a listing gets live statuses at all.
pub enum EnrichmentStart {
    /// Disabled, nothing to enrich, or no leg inside the query window.
    Skip,
    /// Enabled without a key; a warning says so.
    Unconfigured,
    /// Go ahead with this key.
    Proceed(String),
}

/// Decides whether a listing gets live statuses: only when enabled, with
/// legs, one of them inside the query window, and a key configured (else a
/// warning).
pub fn enrichment_start(
    config: &FlightAwareConfig,
    legs: &Vec<TravelLeg>,
    now: Instant,
    warnings: &mut Vec<TravelWarning>,
) -> (r: EnrichmentStart)
    requires
        usable_now(now),
    ensures
        ({
            let queryable = exists|i: int|
                0 <= i < legs@.len() && (#[trigger] crate::flightaware::query_window_of(legs@[i].departure.utc@, now)) is Some;
            if !config.enabled || legs@.len() == 0 || !queryable {
                r is Skip && final(warnings)@ == old(warnings)@
            } else if config.api_key is None {
                r is Unconfigured && one_more(old(warnings)@, final(warnings)@) && warning_is(
                    final(warnings)@.last(),
                    "flightaware_unconfigured"@,
                    None,
                    "FlightAware enrichment is enabled but flightaware.api_key is not configured"@,
                )
            } else {
                r is Proceed && r->Proceed_0 == config.api_key->Some_0 && final(warnings)@ == old(warnings)@
            }
        }),
{
    if !config.enabled || legs.len() == 0 {
        return EnrichmentStart::Skip;
    }
    if !crate::flightaware::has_queryable_leg(legs, now) {
        return EnrichmentStart::Skip;
    }
    match &config.api_key {
        None => {
            push_warning(
                warnings,
                "flightaware_unconfigured",
                None,
                text_of("FlightAware enrichment is enabled but flightaware.api_key is not configured"),
            );
            EnrichmentStart::Unconfigured
        },
        Some(k) => EnrichmentStart::Proceed(k.clone()),
    }
}

} // verus!
