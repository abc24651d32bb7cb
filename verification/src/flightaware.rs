//! Live flight status from FlightAware AeroAPI: which provider flight
//! matches a calendar leg, how a provider record becomes a status, how long
//! a status is cached, the request window, the monthly result-set budget and
//! the failure backoff. The requests, the JSON and the files are the
//! application's; every decision about them is made here.

use crate::dates::{Instant, instant_before, is_before, parse_rfc3339, rfc3339_instant, total_nanos};
use crate::text::{
    eq_ignore_ascii_case, eq_ignore_ascii_case_text, is_blank, is_blank_text, push_char, text_of, texts,
};
use crate::eventkit::copy_opt_string;
use vstd::prelude::*;

verus! {

/// What the travel view knows of an airport beyond its code.
pub struct AirportMetadata {
    pub iata_code: String,
    pub icao_code: Option<String>,
    pub name: String,
    pub municipality: Option<String>,
}

/// An airport as the calendar names it.
pub struct TravelAirport {
    pub code: String,
    pub metadata: Option<AirportMetadata>,
}

/// A scheduled time as written and in UTC.
pub struct TravelMoment {
    pub scheduled: String,
    pub utc: String,
}

/// The calendar event a leg was read from.
pub struct TravelEventSource {
    pub event_id: String,
    pub occurrence_date: Option<String>,
    pub title: String,
    pub calendar: Option<String>,
    pub calendar_id: Option<String>,
}

/// How fresh a status is: `fresh` or `stale`, when it was fetched and when
/// it expires.
pub struct FlightFreshness {
    pub state: String,
    pub fetched_at: String,
    pub expires_at: String,
}

/// A flight's live status. The aircraft position, which carries
/// coordinates, is attached by the application.
pub struct FlightStatus {
    pub provider: String,
    pub provider_flight_id: String,
    pub status: String,
    pub description: String,
    pub scheduled_departure: Option<String>,
    pub estimated_departure: Option<String>,
    pub actual_departure: Option<String>,
    pub scheduled_arrival: Option<String>,
    pub estimated_arrival: Option<String>,
    pub actual_arrival: Option<String>,
    pub departure_delay_seconds: Option<i64>,
    pub arrival_delay_seconds: Option<i64>,
    pub departure_terminal: Option<String>,
    pub departure_gate: Option<String>,
    pub arrival_terminal: Option<String>,
    pub arrival_gate: Option<String>,
    pub tracking_ended: bool,
    pub diverted: bool,
    pub freshness: FlightFreshness,
}

/// One flight of a trip, read from a calendar event.
pub struct TravelLeg {
    pub flight_number: String,
    pub route: String,
    pub departure_airport: TravelAirport,
    pub arrival_airport: TravelAirport,
    pub departure: TravelMoment,
    pub arrival: TravelMoment,
    pub live_status: Option<FlightStatus>,
    pub source: TravelEventSource,
}

/// A note attached to a travel listing.
pub struct TravelWarning {
    pub kind: String,
    pub event_id: Option<String>,
    pub message: String,
}

/// An airport as AeroAPI describes it.
pub struct ApiAirport {
    pub code: Option<String>,
    pub code_icao: Option<String>,
    pub code_iata: Option<String>,
}

/// A flight as AeroAPI describes it.
pub struct ApiFlight {
    pub ident: String,
    pub ident_icao: Option<String>,
    pub ident_iata: Option<String>,
    pub fa_flight_id: String,
    pub codeshares: Option<Vec<String>>,
    pub codeshares_iata: Option<Vec<String>>,
    pub origin: Option<ApiAirport>,
    pub destination: Option<ApiAirport>,
    pub status: String,
    pub scheduled_out: Option<String>,
    pub estimated_out: Option<String>,
    pub actual_out: Option<String>,
    pub scheduled_off: Option<String>,
    pub estimated_off: Option<String>,
    pub actual_off: Option<String>,
    pub scheduled_on: Option<String>,
    pub estimated_on: Option<String>,
    pub actual_on: Option<String>,
    pub scheduled_in: Option<String>,
    pub estimated_in: Option<String>,
    pub actual_in: Option<String>,
    pub departure_delay: Option<i64>,
    pub arrival_delay: Option<i64>,
    pub terminal_origin: Option<String>,
    pub gate_origin: Option<String>,
    pub terminal_destination: Option<String>,
    pub gate_destination: Option<String>,
    pub cancelled: bool,
    pub diverted: bool,
}

// ---------------------------------------------------------------------
// Flight numbers

/// ASCII white space as `char::is_ascii_whitespace` defines it.
pub open spec fn is_ascii_space(c: char) -> bool {
    c == ' ' || c == '\t' || c == '\n' || c == '\x0C' || c == '\r'
}

/// What `char::to_uppercase` yields for a character.
pub uninterp spec fn upper_text(c: char) -> Seq<char>;

/// The upper-case form of a character (`char::to_uppercase`), which may be
/// more than one character; an ASCII character maps to its ASCII upper case.
#[verifier::external_body]
fn char_upper(c: char) -> (r: String)
    ensures
        r@ == upper_text(c),
        'a' <= c <= 'z' ==> r@ == seq![((c as u32) - 32) as char],
        (c as u32) < 128 && !('a' <= c <= 'z') ==> r@ == seq![c],
{
    c.to_uppercase().collect()
}

/// A flight number compared loosely: ASCII white space dropped and every
/// character upper-cased.
pub open spec fn normalized_ident_text(s: Seq<char>) -> Seq<char>
    decreases s.len(),
{
    if s.len() == 0 {
        seq![]
    } else {
        normalized_ident_text(s.drop_last()) + if is_ascii_space(s.last()) {
            seq![]
        } else {
            upper_text(s.last())
        }
    }
}

/// A flight number with ASCII white space dropped and upper-cased.
pub fn normalize_ident(value: &str) -> (r: String)
    ensures
        r@ == normalized_ident_text(value@),
{
    let n = value.unicode_len();
    let mut r = String::new();
    let mut i: usize = 0;
    while i < n
        invariant
            n == value@.len(),
            i <= n,
            r@ == normalized_ident_text(value@.take(i as int)),
        decreases n - i,
    {
        let c = value.get_char(i);
        assert(value@.take(i + 1).drop_last() =~= value@.take(i as int));
        assert(value@.take(i + 1).last() == c);
        if !(c == ' ' || c == '\t' || c == '\n' || c == '\x0C' || c == '\r') {
            let upper = char_upper(c);
            r.append(upper.as_str());
        } else {
            assert(normalized_ident_text(value@.take(i + 1)) =~= normalized_ident_text(value@.take(i as int)));
        }
        i = i + 1;
    }
    assert(value@.take(n as int) =~= value@);
    r
}

/// Some item of an optional list normalizes to the flight number.
pub open spec fn list_names(list: Option<Vec<String>>, expected: Seq<char>) -> bool {
    list is Some && exists|i: int|
        0 <= i < list->Some_0@.len() && normalized_ident_text(#[trigger] list->Some_0@[i]@) == expected
}

/// An optional identifier normalizes to the flight number.
pub open spec fn opt_names(o: Option<String>, expected: Seq<char>) -> bool {
    o is Some && normalized_ident_text(o->Some_0@) == expected
}

/// How a provider flight carries the calendar's flight number: 0 as its own
/// identifier (ident, ICAO or IATA), 1 as a codeshare, none otherwise.
pub open spec fn ident_rank_of(flight: ApiFlight, flight_number: Seq<char>) -> Option<u8> {
    let expected = normalized_ident_text(flight_number);
    if normalized_ident_text(flight.ident@) == expected || opt_names(flight.ident_icao, expected)
        || opt_names(flight.ident_iata, expected) {
        Some(0)
    } else if list_names(flight.codeshares, expected) || list_names(flight.codeshares_iata, expected) {
        Some(1)
    } else {
        None
    }
}

/// Whether an optional identifier normalizes to `expected`.
fn opt_matches(o: &Option<String>, expected: &String) -> (r: bool)
    ensures
        r == opt_names(*o, expected@),
{
    match o {
        Some(s) => normalize_ident(s.as_str()) == *expected,
        None => false,
    }
}

/// Whether some item of an optional list normalizes to `expected`.
fn list_matches(list: &Option<Vec<String>>, expected: &String) -> (r: bool)
    ensures
        r == list_names(*list, expected@),
{
    match list {
        None => false,
        Some(items) => {
            let mut i: usize = 0;
            while i < items.len()
                invariant
                    i <= items@.len(),
                    *list == Some(*items),
                    forall|j: int| 0 <= j < i ==> normalized_ident_text(#[trigger] items@[j]@) != expected@,
                decreases items.len() - i,
            {
                if normalize_ident(items[i].as_str()) == *expected {
                    assert(list->Some_0@[i as int] == items@[i as int]);
                    assert(normalized_ident_text(list->Some_0@[i as int]@) == expected@);
                    return true;
                }
                i = i + 1;
            }
            false
        },
    }
}

/// How a provider flight carries the calendar's flight number.
pub fn ident_rank(flight: &ApiFlight, flight_number: &str) -> (r: Option<u8>)
    ensures
        r == ident_rank_of(*flight, flight_number@),
{
    let expected = normalize_ident(flight_number);
    if normalize_ident(flight.ident.as_str()) == expected || opt_matches(&flight.ident_icao, &expected)
        || opt_matches(&flight.ident_iata, &expected) {
        Some(0)
    } else if list_matches(&flight.codeshares, &expected) || list_matches(&flight.codeshares_iata, &expected) {
        Some(1)
    } else {
        None
    }
}

// ---------------------------------------------------------------------
// Airports

/// The codes the calendar gives an airport: its code, then its IATA and,
/// if known, ICAO codes.
pub open spec fn calendar_codes(airport: TravelAirport) -> Seq<Seq<char>> {
    match airport.metadata {
        None => seq![airport.code@],
        Some(m) => match m.icao_code {
            Some(icao) => seq![airport.code@, m.iata_code@, icao@],
            None => seq![airport.code@, m.iata_code@],
        },
    }
}

/// The codes the provider gives an airport, those it sets.
pub open spec fn provider_codes(airport: ApiAirport) -> Seq<Seq<char>> {
    (if airport.code is Some {
        seq![airport.code->Some_0@]
    } else {
        seq![]
    }) + (if airport.code_icao is Some {
        seq![airport.code_icao->Some_0@]
    } else {
        seq![]
    }) + (if airport.code_iata is Some {
        seq![airport.code_iata->Some_0@]
    } else {
        seq![]
    })
}

/// The provider's airport is the calendar's: some calendar code equals some
/// provider code, ignoring ASCII case.
pub open spec fn airport_matches_spec(calendar: TravelAirport, provider: Option<ApiAirport>) -> bool {
    provider is Some && exists|i: int, j: int|
        0 <= i < calendar_codes(calendar).len() && 0 <= j < provider_codes(provider->Some_0).len()
            && #[trigger] eq_ignore_ascii_case_text(
            calendar_codes(calendar)[i],
            provider_codes(provider->Some_0)[j],
        )
}

/// Whether one calendar code equals one of an optional provider code.
fn code_is(calendar_code: &str, provider_code: &Option<String>) -> (r: bool)
    ensures
        r == (provider_code is Some && eq_ignore_ascii_case_text(calendar_code@, provider_code->Some_0@)),
{
    match provider_code {
        Some(p) => eq_ignore_ascii_case(calendar_code, p.as_str()),
        None => false,
    }
}

/// Whether a calendar code equals one of the provider's codes.
fn code_matches_provider(calendar_code: &str, provider: &ApiAirport) -> (r: bool)
    ensures
        r == exists|j: int|
            0 <= j < provider_codes(*provider).len() && #[trigger] eq_ignore_ascii_case_text(
                calendar_code@,
                provider_codes(*provider)[j],
            ),
{
    let a = code_is(calendar_code, &provider.code);
    let b = code_is(calendar_code, &provider.code_icao);
    let c = code_is(calendar_code, &provider.code_iata);
    let ghost codes = provider_codes(*provider);
    let ghost n0: int = if provider.code is Some { 1int } else { 0int };
    let ghost n1: int = n0 + if provider.code_icao is Some { 1int } else { 0int };
    proof {
        if a {
            assert(codes[0] == provider.code->Some_0@);
            assert(eq_ignore_ascii_case_text(calendar_code@, codes[0]));
        }
        if b {
            assert(codes[n0] == provider.code_icao->Some_0@);
            assert(eq_ignore_ascii_case_text(calendar_code@, codes[n0]));
        }
        if c {
            assert(codes[n1] == provider.code_iata->Some_0@);
            assert(eq_ignore_ascii_case_text(calendar_code@, codes[n1]));
        }
        if !(a || b || c) {
            assert forall|j: int| 0 <= j < codes.len() implies !eq_ignore_ascii_case_text(
                calendar_code@,
                #[trigger] codes[j],
            ) by {
                if j < n0 {
                    assert(codes[j] == provider.code->Some_0@);
                } else if j < n1 {
                    assert(codes[j] == provider.code_icao->Some_0@);
                } else {
                    assert(codes[j] == provider.code_iata->Some_0@);
                }
            }
        }
    }
    a || b || c
}

/// Whether the provider's airport is the calendar's.
pub fn airport_matches(calendar: &TravelAirport, provider: Option<&ApiAirport>) -> (r: bool)
    ensures
        r == airport_matches_spec(*calendar, match provider {
            Some(p) => Some(*p),
            None => None,
        }),
{
    let provider = match provider {
        None => {
            return false;
        },
        Some(p) => p,
    };
    let ghost cc = calendar_codes(*calendar);
    let ghost pc = provider_codes(*provider);
    let first = code_matches_provider(calendar.code.as_str(), provider);
    let (second, third) = match &calendar.metadata {
        None => (false, false),
        Some(m) => (
            code_matches_provider(m.iata_code.as_str(), provider),
            match &m.icao_code {
                Some(icao) => code_matches_provider(icao.as_str(), provider),
                None => false,
            },
        ),
    };
    proof {
        assert(cc[0] == calendar.code@);
        if calendar.metadata is Some {
            assert(cc[1] == calendar.metadata->Some_0.iata_code@);
            if calendar.metadata->Some_0.icao_code is Some {
                assert(cc[2] == calendar.metadata->Some_0.icao_code->Some_0@);
            }
        }
        if !(first || second || third) {
            assert forall|i: int, j: int| 0 <= i < cc.len() && 0 <= j < pc.len() implies !#[trigger] eq_ignore_ascii_case_text(
                cc[i],
                pc[j],
            ) by {
                if i == 0 {
                } else if i == 1 {
                } else {
                }
            }
        }
    }
    first || second || third
}

} // verus!

verus! {

// ---------------------------------------------------------------------
// Matching a provider flight to a leg

/// The widest gap, in seconds, between the calendar's and the provider's
/// scheduled departure for a flight to be the leg's.
pub const MATCH_TOLERANCE_SECONDS: u64 = 14400;

/// A provider time: the primary field when it parses as RFC 3339, else the
/// fallback field when that does.
pub open spec fn provider_time_of(primary: Option<String>, fallback: Option<String>) -> Option<Instant> {
    match primary {
        Some(p) if rfc3339_instant(p@) is Some => rfc3339_instant(p@),
        _ => match fallback {
            Some(f) => rfc3339_instant(f@),
            None => None,
        },
    }
}

/// A provider time from a primary field and a fallback field.
pub fn provider_time(primary: &Option<String>, fallback: &Option<String>) -> (r: Option<Instant>)
    ensures
        r == provider_time_of(*primary, *fallback),
{
    let first = match primary {
        Some(p) => parse_rfc3339(p.as_str()),
        None => None,
    };
    match first {
        Some(t) => Some(t),
        None => match fallback {
            Some(f) => parse_rfc3339(f.as_str()),
            None => None,
        },
    }
}

/// The whole seconds between two instants, whichever is first.
pub open spec fn delta_seconds(a: Instant, b: Instant) -> int {
    let d = total_nanos(a) - total_nanos(b);
    (if d >= 0 {
        d
    } else {
        -d
    }) / 1_000_000_000
}

/// How well a provider flight fits the leg, lower being better: the
/// departure gap in whole seconds, then the identifier rank. `None` when
/// it does not fit at all: another flight number, another origin or
/// destination, no usable departure time, or a gap over four hours.
pub open spec fn candidate_score(flight: ApiFlight, leg: TravelLeg) -> Option<(int, int)> {
    match ident_rank_of(flight, leg.flight_number@) {
        None => None,
        Some(rank) => if !airport_matches_spec(leg.departure_airport, flight.origin)
            || !airport_matches_spec(leg.arrival_airport, flight.destination) {
            None
        } else {
            match (provider_time_of(flight.scheduled_out, flight.scheduled_off), rfc3339_instant(leg.departure.utc@)) {
                (Some(p), Some(c)) => if delta_seconds(p, c) <= MATCH_TOLERANCE_SECONDS {
                    Some((delta_seconds(p, c), rank as int))
                } else {
                    None
                },
                _ => None,
            }
        }
    }
}

/// Lexicographic order of scores.
pub open spec fn score_below(a: (int, int), b: (int, int)) -> bool {
    a.0 < b.0 || (a.0 == b.0 && a.1 < b.1)
}

/// Flight `i` fits and no flight fits better.
pub open spec fn is_best_candidate(flights: Seq<ApiFlight>, leg: TravelLeg, i: int) -> bool {
    &&& 0 <= i < flights.len()
    &&& candidate_score(flights[i], leg) is Some
    &&& forall|j: int|
        0 <= j < flights.len() && (#[trigger] candidate_score(flights[j], leg)) is Some ==> !score_below(
            candidate_score(flights[j], leg)->Some_0,
            candidate_score(flights[i], leg)->Some_0,
        )
}

/// The outcome of matching: one best flight, none that fits, or several
/// that fit equally well.
pub enum MatchSelection<'a> {
    Matched(&'a ApiFlight),
    NoMatch,
    Ambiguous,
}

/// The fit of a flight, computed.
fn score(flight: &ApiFlight, leg: &TravelLeg, departure: Option<Instant>) -> (r: Option<(u64, u8)>)
    requires
        departure == rfc3339_instant(leg.departure.utc@),
    ensures
        match candidate_score(*flight, *leg) {
            Some(s) => r is Some && r->Some_0.0 == s.0 && r->Some_0.1 == s.1,
            None => r is None,
        },
{
    let rank = match ident_rank(flight, leg.flight_number.as_str()) {
        None => {
            return None;
        },
        Some(rank) => rank,
    };
    let origin = match &flight.origin {
        Some(o) => Some(o),
        None => None,
    };
    let destination = match &flight.destination {
        Some(d) => Some(d),
        None => None,
    };
    if !airport_matches(&leg.departure_airport, origin) || !airport_matches(&leg.arrival_airport, destination) {
        return None;
    }
    let provider = match provider_time(&flight.scheduled_out, &flight.scheduled_off) {
        None => {
            return None;
        },
        Some(p) => p,
    };
    let calendar = match departure {
        None => {
            return None;
        },
        Some(c) => c,
    };
    let a: i128 = (provider.seconds as i128) * 1_000_000_000 + provider.nanos as i128;
    let b: i128 = (calendar.seconds as i128) * 1_000_000_000 + calendar.nanos as i128;
    let d: i128 = a - b;
    let magnitude: i128 = if d >= 0 {
        d
    } else {
        -d
    };
    let delta: i128 = magnitude / 1_000_000_000;
    if delta <= 14400 {
        Some((delta as u64, rank))
    } else {
        None
    }
}

/// Picks the provider flight for a leg: the one that fits best, if exactly
/// one does; `Ambiguous` if several fit equally best; `NoMatch` if none
/// fits.
pub fn select_match<'a>(flights: &'a [ApiFlight], leg: &TravelLeg) -> (r: MatchSelection<'a>)
    ensures
        r is NoMatch <==> forall|i: int| 0 <= i < flights@.len() ==> (#[trigger] candidate_score(flights@[i], *leg)) is None,
        r is Ambiguous <==> exists|i: int, j: int|
            i != j && #[trigger] is_best_candidate(flights@, *leg, i) && #[trigger] is_best_candidate(flights@, *leg, j),
        r matches MatchSelection::Matched(f) ==> exists|i: int|
            #[trigger] is_best_candidate(flights@, *leg, i) && *f == flights@[i] && forall|j: int|
                j != i ==> !#[trigger] is_best_candidate(flights@, *leg, j),
{
    let departure = parse_rfc3339(leg.departure.utc.as_str());
    let mut best: Option<(u64, u8, usize)> = None;
    let mut tie = false;
    let mut i: usize = 0;
    while i < flights.len()
        invariant
            i <= flights@.len(),
            departure == rfc3339_instant(leg.departure.utc@),
            best is None ==> forall|j: int| 0 <= j < i ==> (#[trigger] candidate_score(flights@[j], *leg)) is None,
            best matches Some(b) ==> {
                &&& b.2 < i
                &&& candidate_score(flights@[b.2 as int], *leg) == Some((b.0 as int, b.1 as int))
                &&& forall|j: int|
                    0 <= j < i && (#[trigger] candidate_score(flights@[j], *leg)) is Some ==> !score_below(
                        candidate_score(flights@[j], *leg)->Some_0,
                        (b.0 as int, b.1 as int),
                    )
                &&& tie == exists|j: int|
                    0 <= j < i && j != b.2 && #[trigger] candidate_score(flights@[j], *leg) == Some(
                        (b.0 as int, b.1 as int),
                    )
            },
        decreases flights.len() - i,
    {
        let s = score(&flights[i], leg, departure);
        match s {
            None => {},
            Some((delta, rank)) => {
                match best {
                    None => {
                        best = Some((delta, rank, i));
                        tie = false;
                    },
                    Some((bd, br, bi)) => {
                        if delta < bd || (delta == bd && rank < br) {
                            best = Some((delta, rank, i));
                            tie = false;
                            proof {
                                assert forall|j: int|
                                    0 <= j < i && (#[trigger] candidate_score(flights@[j], *leg)) is Some implies candidate_score(
                                    flights@[j],
                                    *leg,
                                ) != Some((delta as int, rank as int)) by {
                                    if candidate_score(flights@[j], *leg) == Some((delta as int, rank as int)) {
                                        assert(!score_below(
                                            candidate_score(flights@[j], *leg)->Some_0,
                                            (bd as int, br as int),
                                        ));
                                    }
                                }
                            }
                        } else if delta == bd && rank == br {
                            tie = true;
                            assert(candidate_score(flights@[i as int], *leg) == Some((bd as int, br as int)));
                        }
                    },
                }
            },
        }
        i = i + 1;
    }
    match best {
        None => MatchSelection::NoMatch,
        Some((bd, br, bi)) => {
            proof {
                assert(is_best_candidate(flights@, *leg, bi as int));
                assert forall|k: int| #[trigger] is_best_candidate(flights@, *leg, k) implies candidate_score(
                    flights@[k],
                    *leg,
                ) == Some((bd as int, br as int)) by {
                    assert(!score_below(candidate_score(flights@[k], *leg)->Some_0, (bd as int, br as int)));
                    assert(!score_below((bd as int, br as int), candidate_score(flights@[k], *leg)->Some_0));
                }
                assert forall|k: int|
                    0 <= k < flights@.len() && candidate_score(flights@[k], *leg) == Some(
                        (bd as int, br as int),
                    ) implies #[trigger] is_best_candidate(flights@, *leg, k) by {
                }
            }
            if tie {
                proof {
                    let j = choose|j: int|
                        0 <= j < i && j != bi && #[trigger] candidate_score(flights@[j], *leg) == Some(
                            (bd as int, br as int),
                        );
                    assert(is_best_candidate(flights@, *leg, j));
                    assert(is_best_candidate(flights@, *leg, bi as int));
                }
                MatchSelection::Ambiguous
            } else {
                proof {
                    assert forall|a: int, b: int|
                        a != b && #[trigger] is_best_candidate(flights@, *leg, a) && #[trigger] is_best_candidate(
                            flights@,
                            *leg,
                            b,
                        ) implies false by {
                        assert(candidate_score(flights@[a], *leg) == Some((bd as int, br as int)));
                        assert(candidate_score(flights@[b], *leg) == Some((bd as int, br as int)));
                    }
                }
                MatchSelection::Matched(&flights[bi])
            }
        },
    }
}

} // verus!

verus! {

// ---------------------------------------------------------------------
// Request path segments

/// A byte that may stand unescaped in a path segment: an ASCII letter or
/// digit, `-`, `.`, `_` or `~`.
pub open spec fn is_unreserved(b: u8) -> bool {
    (48 <= b <= 57) || (65 <= b <= 90) || (97 <= b <= 122) || b == 45 || b == 46 || b == 95 || b == 126
}

/// The upper-case hexadecimal digit of a value below sixteen.
pub open spec fn hex_digit(v: u8) -> char {
    if v < 10 {
        (48 + v) as char
    } else {
        (55 + v) as char
    }
}

/// The escape of one byte: itself when unreserved, else `%` and two
/// upper-case hexadecimal digits.
pub open spec fn escape_byte(b: u8) -> Seq<char> {
    if is_unreserved(b) {
        seq![b as char]
    } else {
        seq!['%', hex_digit(b / 16), hex_digit(b % 16)]
    }
}

/// The percent-encoding of a byte string.
pub open spec fn percent_encoded(bytes: Seq<u8>) -> Seq<char>
    decreases bytes.len(),
{
    if bytes.len() == 0 {
        seq![]
    } else {
        percent_encoded(bytes.drop_last()) + escape_byte(bytes.last())
    }
}

/// The hexadecimal digit of a value below sixteen.
fn hex_char(v: u8) -> (r: char)
    requires
        v < 16,
    ensures
        r == hex_digit(v),
{
    if v < 10 {
        (48 + v) as char
    } else {
        (55 + v) as char
    }
}

/// Percent-encodes a value for one path segment of a request URL: the
/// UTF-8 bytes of the value, each unreserved byte as itself and every other
/// byte as `%XX`.
pub fn encode_path_segment(value: &str) -> (r: String)
    ensures
        r@ == percent_encoded(vstd::utf8::encode_utf8(value@)),
{
    let bytes = value.as_bytes();
    let mut r = String::new();
    let mut i: usize = 0;
    while i < bytes.len()
        invariant
            i <= bytes@.len(),
            bytes@ == vstd::utf8::encode_utf8(value@),
            r@ == percent_encoded(bytes@.take(i as int)),
        decreases bytes.len() - i,
    {
        let b = bytes[i];
        assert(bytes@.take(i + 1).drop_last() =~= bytes@.take(i as int));
        assert(bytes@.take(i + 1).last() == b);
        if (48 <= b && b <= 57) || (65 <= b && b <= 90) || (97 <= b && b <= 122) || b == 45 || b == 46 || b == 95
            || b == 126 {
            push_char(&mut r, b as char);
            assert(r@ =~= percent_encoded(bytes@.take(i + 1)));
        } else {
            push_char(&mut r, '%');
            push_char(&mut r, hex_char(b / 16));
            push_char(&mut r, hex_char(b % 16));
            assert(r@ =~= percent_encoded(bytes@.take(i + 1)));
        }
        i = i + 1;
    }
    assert(bytes@.take(bytes@.len() as int) =~= bytes@);
    r
}

} // verus!

verus! {

// ---------------------------------------------------------------------
// Provider records as statuses

/// The RFC 3339 text of an instant in UTC to the whole second, with `Z`
/// (`to_rfc3339_opts(SecondsFormat::Secs, true)`).
pub uninterp spec fn utc_seconds_text(i: Instant) -> Seq<char>;

/// Instants whose whole second is written with a four-digit year and read
/// back by `DateTime::parse_from_rfc3339`: from 1970 to the end of the year
/// 9999, and not inside a leap second.
pub open spec fn written_exactly(i: Instant) -> bool {
    0 <= i.seconds <= 253_402_300_799 && i.nanos < 1_000_000_000
}

/// An instant cut to its whole second.
pub open spec fn whole_second(i: Instant) -> Instant {
    Instant { seconds: i.seconds, nanos: 0 }
}

/// Formats an instant as the provider cache and the status records write
/// it; empty for a count chrono cannot represent. chrono writes such an
/// instant as `YYYY-MM-DDTHH:MM:SSZ`, which its RFC 3339 parser reads back
/// as the same whole second.
#[verifier::external_body]
pub fn timestamp(value: Instant) -> (r: String)
    ensures
        r@ == utc_seconds_text(value),
        written_exactly(value) ==> rfc3339_instant(r@) == Some(whole_second(value)),
{
    chrono::DateTime::from_timestamp(value.seconds, value.nanos).map(
        |d| d.to_rfc3339_opts(chrono::SecondsFormat::Secs, true),
    ).unwrap_or_default()
}

/// A provider time, formatted.
pub open spec fn normalized_time_text(primary: Option<String>, fallback: Option<String>) -> Option<Seq<char>> {
    match provider_time_of(primary, fallback) {
        Some(t) => Some(utc_seconds_text(t)),
        None => None,
    }
}

/// A provider time, formatted.
fn normalized_time(primary: &Option<String>, fallback: &Option<String>) -> (r: Option<String>)
    ensures
        match normalized_time_text(*primary, *fallback) {
            Some(t) => r is Some && r->Some_0@ == t,
            None => r is None,
        },
{
    match provider_time(primary, fallback) {
        Some(t) => Some(timestamp(t)),
        None => None,
    }
}

/// The status word for a provider flight: diverted, arrived, tracking ended
/// (cancelled), en route, delayed (over fifteen minutes either way) or
/// scheduled, the first that applies.
pub open spec fn status_word(flight: ApiFlight) -> Seq<char> {
    if flight.diverted {
        "diverted"@
    } else if flight.actual_in is Some || flight.actual_on is Some {
        "arrived"@
    } else if flight.cancelled {
        "tracking_ended"@
    } else if flight.actual_out is Some || flight.actual_off is Some {
        "en_route"@
    } else if (match flight.departure_delay {
        Some(d) => d,
        None => 0,
    }) > 900 || (match flight.arrival_delay {
        Some(d) => d,
        None => 0,
    }) > 900 {
        "delayed"@
    } else {
        "scheduled"@
    }
}

/// The status word with its underscores as spaces, the description used
/// when the provider gives none.
pub open spec fn spaced_status_word(flight: ApiFlight) -> Seq<char> {
    if flight.diverted {
        "diverted"@
    } else if flight.actual_in is Some || flight.actual_on is Some {
        "arrived"@
    } else if flight.cancelled {
        "tracking ended"@
    } else if flight.actual_out is Some || flight.actual_off is Some {
        "en route"@
    } else if (match flight.departure_delay {
        Some(d) => d,
        None => 0,
    }) > 900 || (match flight.arrival_delay {
        Some(d) => d,
        None => 0,
    }) > 900 {
        "delayed"@
    } else {
        "scheduled"@
    }
}

/// The status word and its description for a provider flight.
fn status_words(flight: &ApiFlight) -> (r: (&'static str, &'static str))
    ensures
        r.0@ == status_word(*flight),
        r.1@ == spaced_status_word(*flight),
{
    let departure_delay = match flight.departure_delay {
        Some(d) => d,
        None => 0,
    };
    let arrival_delay = match flight.arrival_delay {
        Some(d) => d,
        None => 0,
    };
    if flight.diverted {
        ("diverted", "diverted")
    } else if flight.actual_in.is_some() || flight.actual_on.is_some() {
        ("arrived", "arrived")
    } else if flight.cancelled {
        ("tracking_ended", "tracking ended")
    } else if flight.actual_out.is_some() || flight.actual_off.is_some() {
        ("en_route", "en route")
    } else if departure_delay > 900 || arrival_delay > 900 {
        ("delayed", "delayed")
    } else {
        ("scheduled", "scheduled")
    }
}

/// `r` is the provider flight as a fresh status fetched at `now`: the
/// status word, the provider's own description unless it is blank, the
/// times (gate time first, runway time as fallback), delays, terminals and
/// gates.
pub open spec fn is_normalized_status(r: FlightStatus, flight: ApiFlight, now: Instant) -> bool {
    &&& r.provider@ == "flightaware"@
    &&& r.provider_flight_id@ == flight.fa_flight_id@
    &&& r.status@ == status_word(flight)
    &&& r.description@ == if is_blank_text(flight.status@) {
        spaced_status_word(flight)
    } else {
        flight.status@
    }
    &&& opt_view(r.scheduled_departure) == normalized_time_text(flight.scheduled_out, flight.scheduled_off)
    &&& opt_view(r.estimated_departure) == normalized_time_text(flight.estimated_out, flight.estimated_off)
    &&& opt_view(r.actual_departure) == normalized_time_text(flight.actual_out, flight.actual_off)
    &&& opt_view(r.scheduled_arrival) == normalized_time_text(flight.scheduled_in, flight.scheduled_on)
    &&& opt_view(r.estimated_arrival) == normalized_time_text(flight.estimated_in, flight.estimated_on)
    &&& opt_view(r.actual_arrival) == normalized_time_text(flight.actual_in, flight.actual_on)
    &&& r.departure_delay_seconds == flight.departure_delay
    &&& r.arrival_delay_seconds == flight.arrival_delay
    &&& r.departure_terminal == flight.terminal_origin
    &&& r.departure_gate == flight.gate_origin
    &&& r.arrival_terminal == flight.terminal_destination
    &&& r.arrival_gate == flight.gate_destination
    &&& r.tracking_ended == flight.cancelled
    &&& r.diverted == flight.diverted
    &&& r.freshness.state@ == "fresh"@
    &&& r.freshness.fetched_at@ == utc_seconds_text(now)
    &&& r.freshness.expires_at@ == utc_seconds_text(now)
}

/// The provider flight as a fresh status fetched at `now`.
pub fn normalize_status(flight: &ApiFlight, now: Instant) -> (r: FlightStatus)
    ensures
        is_normalized_status(r, *flight, now),
{
    let (word, spaced) = status_words(flight);
    let description = if is_blank(flight.status.as_str()) {
        text_of(spaced)
    } else {
        flight.status.clone()
    };
    FlightStatus {
        provider: text_of("flightaware"),
        provider_flight_id: flight.fa_flight_id.clone(),
        status: text_of(word),
        description,
        scheduled_departure: normalized_time(&flight.scheduled_out, &flight.scheduled_off),
        estimated_departure: normalized_time(&flight.estimated_out, &flight.estimated_off),
        actual_departure: normalized_time(&flight.actual_out, &flight.actual_off),
        scheduled_arrival: normalized_time(&flight.scheduled_in, &flight.scheduled_on),
        estimated_arrival: normalized_time(&flight.estimated_in, &flight.estimated_on),
        actual_arrival: normalized_time(&flight.actual_in, &flight.actual_on),
        departure_delay_seconds: flight.departure_delay,
        arrival_delay_seconds: flight.arrival_delay,
        departure_terminal: copy_opt_string(&flight.terminal_origin),
        departure_gate: copy_opt_string(&flight.gate_origin),
        arrival_terminal: copy_opt_string(&flight.terminal_destination),
        arrival_gate: copy_opt_string(&flight.gate_destination),
        tracking_ended: flight.cancelled,
        diverted: flight.diverted,
        freshness: FlightFreshness {
            state: text_of("fresh"),
            fetched_at: timestamp(now),
            expires_at: timestamp(now),
        },
    }
}

/// The text of an optional string.
pub open spec fn opt_view(o: Option<String>) -> Option<Seq<char>> {
    match o {
        Some(s) => Some(s@),
        None => None,
    }
}

/// The flight is under way: it has departed or taken off, has neither
/// landed nor arrived, and is not cancelled.
pub open spec fn in_progress(flight: ApiFlight) -> bool {
    !flight.cancelled && (flight.actual_out is Some || flight.actual_off is Some) && flight.actual_in is None
        && flight.actual_on is None
}

/// Whether a position is worth fetching for the flight.
pub fn flight_is_in_progress(flight: &ApiFlight) -> (r: bool)
    ensures
        r == in_progress(*flight),
{
    !flight.cancelled && (flight.actual_out.is_some() || flight.actual_off.is_some()) && flight.actual_in.is_none()
        && flight.actual_on.is_none()
}

// ---------------------------------------------------------------------
// Time arithmetic on instants

/// Instants whose second count leaves room for the shifts made here (a few
/// weeks either way).
pub open spec fn shiftable(i: Instant) -> bool {
    -9_000_000_000_000_000_000 <= i.seconds <= 9_000_000_000_000_000_000
}

/// The instant `seconds` later (earlier when negative).
pub open spec fn shifted(i: Instant, seconds: int) -> Instant {
    Instant { seconds: (i.seconds + seconds) as i64, nanos: i.nanos }
}

/// Shifts an instant by a whole number of seconds.
pub fn shift(i: Instant, seconds: i64) -> (r: Instant)
    requires
        shiftable(i),
        -100_000_000 <= seconds <= 100_000_000,
    ensures
        r == shifted(i, seconds as int),
{
    Instant { seconds: i.seconds + seconds, nanos: i.nanos }
}

/// How long a status stays cached, in seconds: six hours once the flight
/// arrived or tracking ended, two minutes en route, and otherwise by the
/// time left to departure (taken as zero when it does not parse): five
/// minutes up to six hours ahead, fifteen up to a day, else an hour.
pub open spec fn cache_ttl_seconds(status: Seq<char>, departure_utc: Seq<char>, now: Instant) -> int {
    if status == "arrived"@ || status == "tracking_ended"@ {
        21600
    } else if status == "en_route"@ {
        120
    } else {
        let until = match rfc3339_instant(departure_utc) {
            Some(d) => total_nanos(d) - total_nanos(now),
            None => 0,
        };
        if until <= 21600 * 1_000_000_000 {
            300
        } else if until <= 86400 * 1_000_000_000 {
            900
        } else {
            3600
        }
    }
}

/// How long a status stays cached, in seconds.
pub fn cache_ttl(status: &FlightStatus, leg: &TravelLeg, now: Instant) -> (r: i64)
    ensures
        r == cache_ttl_seconds(status.status@, leg.departure.utc@, now),
{
    let s = status.status.as_str();
    if crate::text::str_eq(s, "arrived") || crate::text::str_eq(s, "tracking_ended") {
        return 21600;
    }
    if crate::text::str_eq(s, "en_route") {
        return 120;
    }
    let until: i128 = match parse_rfc3339(leg.departure.utc.as_str()) {
        Some(d) => ((d.seconds as i128) * 1_000_000_000 + d.nanos as i128) - ((now.seconds as i128)
            * 1_000_000_000 + now.nanos as i128),
        None => 0,
    };
    if until <= 21600 * 1_000_000_000 {
        300
    } else if until <= 86400 * 1_000_000_000 {
        900
    } else {
        3600
    }
}

/// How far back a query may reach: nine days.
pub const QUERY_LOOKBACK_SECONDS: i64 = 777600;

/// How far ahead a query may reach: 47 hours.
pub const QUERY_LOOKAHEAD_SECONDS: i64 = 169200;

/// How far either side of the departure a query reaches: 18 hours.
pub const QUERY_WINDOW_SECONDS: i64 = 64800;

/// The later of two instants.
pub open spec fn later_of(a: Instant, b: Instant) -> Instant {
    if instant_before(a, b) {
        b
    } else {
        a
    }
}

/// The earlier of two instants.
pub open spec fn earlier_of(a: Instant, b: Instant) -> Instant {
    if instant_before(b, a) {
        b
    } else {
        a
    }
}

/// The provider query window for a leg, as instants: the departure must lie
/// between nine days ago and 47 hours ahead; the window reaches 18 hours
/// either side of it, clipped to those bounds, and must contain it.
pub open spec fn query_window_of(departure_utc: Seq<char>, now: Instant) -> Option<(Instant, Instant)> {
    match rfc3339_instant(departure_utc) {
        None => None,
        Some(d) => {
            let earliest = shifted(now, -QUERY_LOOKBACK_SECONDS);
            let latest = shifted(now, QUERY_LOOKAHEAD_SECONDS as int);
            if instant_before(d, earliest) || !instant_before(d, latest) {
                None
            } else {
                let start = later_of(shifted(d, -QUERY_WINDOW_SECONDS), earliest);
                let end = earlier_of(shifted(d, QUERY_WINDOW_SECONDS as int), latest);
                if instant_before(start, d) && instant_before(d, end) {
                    Some((start, end))
                } else {
                    None
                }
            }
        },
    }
}

/// The provider query window for a leg, formatted.
pub fn query_window(leg: &TravelLeg, now: Instant) -> (r: Option<(String, String)>)
    requires
        -1_000_000_000_000_000 <= now.seconds <= 1_000_000_000_000_000,
    ensures
        match query_window_of(leg.departure.utc@, now) {
            Some((start, end)) => r is Some && r->Some_0.0@ == utc_seconds_text(start) && r->Some_0.1@
                == utc_seconds_text(end),
            None => r is None,
        },
{
    let departure = match parse_rfc3339(leg.departure.utc.as_str()) {
        None => {
            return None;
        },
        Some(d) => d,
    };
    let earliest = shift(now, -QUERY_LOOKBACK_SECONDS);
    let latest = shift(now, QUERY_LOOKAHEAD_SECONDS);
    if is_before(departure, earliest) || !is_before(departure, latest) {
        return None;
    }
    let back = shift(departure, -QUERY_WINDOW_SECONDS);
    let start = if is_before(back, earliest) {
        earliest
    } else {
        back
    };
    let ahead = shift(departure, QUERY_WINDOW_SECONDS);
    let end = if is_before(latest, ahead) {
        latest
    } else {
        ahead
    };
    if is_before(start, departure) && is_before(departure, end) {
        Some((timestamp(start), timestamp(end)))
    } else {
        None
    }
}

/// Whether some leg can be queried now.
pub fn has_queryable_leg(legs: &Vec<TravelLeg>, now: Instant) -> (r: bool)
    requires
        -1_000_000_000_000_000 <= now.seconds <= 1_000_000_000_000_000,
    ensures
        r == exists|i: int| 0 <= i < legs@.len() && (#[trigger] query_window_of(legs@[i].departure.utc@, now)) is Some,
{
    let mut i: usize = 0;
    while i < legs.len()
        invariant
            i <= legs@.len(),
            -1_000_000_000_000_000 <= now.seconds <= 1_000_000_000_000_000,
            forall|j: int| 0 <= j < i ==> (#[trigger] query_window_of(legs@[j].departure.utc@, now)) is None,
        decreases legs.len() - i,
    {
        if query_window(&legs[i], now).is_some() {
            return true;
        }
        i = i + 1;
    }
    false
}

} // verus!

verus! {

// ---------------------------------------------------------------------
// The monthly result-set budget and the failure backoff

/// The only usage-ledger format version this build reads.
pub const USAGE_VERSION: u8 = 1;

/// The longest backoff, one day.
pub const MAX_BACKOFF_SECONDS: u64 = 86400;

/// The `YYYY-MM` of an instant in UTC (`format!("{:04}-{:02}", year, month)`).
pub uninterp spec fn utc_month_text(i: Instant) -> Seq<char>;

/// The month a usage ledger counts for.
#[verifier::external_body]
pub fn utc_month(now: Instant) -> (r: String)
    ensures
        r@ == utc_month_text(now),
{
    match chrono::DateTime::from_timestamp(now.seconds, now.nanos) {
        Some(d) => format!("{:04}-{:02}", chrono::Datelike::year(&d), chrono::Datelike::month(&d)),
        None => String::new(),
    }
}

/// The provider usage ledger: the month it counts for, the result sets
/// used in it, the consecutive failures and the end of the current backoff.
pub struct UsageState {
    pub version: u8,
    pub month: String,
    pub result_sets: u32,
    pub failure_count: u32,
    pub backoff_until: Option<String>,
}

/// A fresh ledger for the month of `now`.
pub open spec fn is_fresh_ledger(u: UsageState, now: Instant) -> bool {
    u.version == USAGE_VERSION && u.month@ == utc_month_text(now) && u.result_sets == 0 && u.failure_count
        == 0 && u.backoff_until is None
}

impl UsageState {
    /// A fresh ledger for the month of `now`.
    pub fn new(now: Instant) -> (r: Self)
        ensures
            is_fresh_ledger(r, now),
    {
        UsageState { version: USAGE_VERSION, month: utc_month(now), result_sets: 0, failure_count: 0, backoff_until: None }
    }

    /// Whether requests are paused: the backoff end parses and lies after
    /// `now`.
    pub fn backoff_is_active(&self, now: Instant) -> (r: bool)
        ensures
            r == backoff_active(*self, now),
    {
        match &self.backoff_until {
            Some(until) => match parse_rfc3339(until.as_str()) {
                Some(t) => is_before(now, t),
                None => false,
            },
            None => false,
        }
    }
}

/// Requests are paused until the backoff end.
pub open spec fn backoff_active(u: UsageState, now: Instant) -> bool {
    match u.backoff_until {
        Some(until) => match rfc3339_instant(until@) {
            Some(t) => instant_before(now, t),
            None => false,
        },
        None => false,
    }
}

/// The ledger a read gives: one of another version is refused; one of an
/// earlier month starts over; a backoff end that does not parse is refused.
pub fn check_usage(usage: UsageState, now: Instant) -> (r: Result<UsageState, String>)
    ensures
        usage.version != USAGE_VERSION ==> r is Err && r->Err_0@ == "usage ledger has an unsupported version"@,
        usage.version == USAGE_VERSION && usage.month@ != utc_month_text(now) ==> r is Ok && is_fresh_ledger(
            r->Ok_0,
            now,
        ),
        usage.version == USAGE_VERSION && usage.month@ == utc_month_text(now) ==> match usage.backoff_until {
            Some(b) if rfc3339_instant(b@) is None => r is Err && r->Err_0@
                == "usage ledger contains an invalid backoff timestamp"@,
            _ => r == Ok::<UsageState, String>(usage),
        },
{
    if usage.version != USAGE_VERSION {
        return Err(text_of("usage ledger has an unsupported version"));
    }
    let month = utc_month(now);
    if usage.month != month {
        return Ok(UsageState::new(now));
    }
    if let Some(b) = &usage.backoff_until {
        if parse_rfc3339(b.as_str()).is_none() {
            return Err(text_of("usage ledger contains an invalid backoff timestamp"));
        }
    }
    Ok(usage)
}

/// Takes one result set from the monthly budget when one is left.
pub fn reserve_result_set(usage: &mut UsageState, limit: u32) -> (r: bool)
    ensures
        r == (old(usage).result_sets < limit),
        final(usage).result_sets == if r {
            old(usage).result_sets + 1
        } else {
            old(usage).result_sets as int
        },
        final(usage).version == old(usage).version,
        final(usage).month == old(usage).month,
        final(usage).failure_count == old(usage).failure_count,
        final(usage).backoff_until == old(usage).backoff_until,
{
    if usage.result_sets >= limit {
        return false;
    }
    usage.result_sets = usage.result_sets + 1;
    true
}

/// Gives back a result set whose reservation could not be saved.
pub fn release_result_set(usage: &mut UsageState)
    requires
        old(usage).result_sets > 0,
    ensures
        final(usage).result_sets == old(usage).result_sets - 1,
        final(usage).version == old(usage).version,
        final(usage).month == old(usage).month,
        final(usage).failure_count == old(usage).failure_count,
        final(usage).backoff_until == old(usage).backoff_until,
{
    usage.result_sets = usage.result_sets - 1;
}

/// Counts the pages beyond the first that a reply cost, saturating.
pub fn account_for_extra_pages(usage: &mut UsageState, num_pages: u32)
    ensures
        final(usage).result_sets == if num_pages > 1 {
            if old(usage).result_sets + num_pages - 1 > u32::MAX {
                u32::MAX as int
            } else {
                old(usage).result_sets + num_pages - 1
            }
        } else {
            old(usage).result_sets as int
        },
        final(usage).version == old(usage).version,
        final(usage).month == old(usage).month,
        final(usage).failure_count == old(usage).failure_count,
        final(usage).backoff_until == old(usage).backoff_until,
{
    if num_pages > 1 {
        usage.result_sets = usage.result_sets.saturating_add(num_pages - 1);
    }
}

/// A success ends the failure streak and the backoff.
pub fn record_success(usage: &mut UsageState)
    ensures
        final(usage).failure_count == 0,
        final(usage).backoff_until is None,
        final(usage).version == old(usage).version,
        final(usage).month == old(usage).month,
        final(usage).result_sets == old(usage).result_sets,
{
    usage.failure_count = 0;
    usage.backoff_until = None;
}

/// Two to the power of a small exponent.
pub open spec fn pow2(e: nat) -> nat
    decreases e,
{
    if e == 0 {
        1
    } else {
        2 * pow2((e - 1) as nat)
    }
}

/// The backoff after a failure, in seconds: the provider's `Retry-After`
/// if it sent one; else a day for a refused key (401, 403), ten minutes
/// when rate limited (429), and otherwise a minute doubled per earlier
/// consecutive failure (at most six times) up to an hour; never over a day.
pub open spec fn backoff_seconds_of(failure_count: u32, status: u16, retry_after: Option<u64>) -> nat {
    let chosen: nat = match retry_after {
        Some(s) => s as nat,
        None => if status == 401 || status == 403 {
            MAX_BACKOFF_SECONDS as nat
        } else if status == 429 {
            600
        } else {
            let e: nat = if failure_count == 0 {
                0
            } else if failure_count - 1 > 6 {
                6
            } else {
                (failure_count - 1) as nat
            };
            if 60 * pow2(e) > 3600 {
                3600
            } else {
                60 * pow2(e)
            }
        },
    };
    if chosen > MAX_BACKOFF_SECONDS {
        MAX_BACKOFF_SECONDS as nat
    } else {
        chosen
    }
}

/// The backoff after a failure, in seconds.
pub fn backoff_seconds(failure_count: u32, status: u16, retry_after: Option<u64>) -> (r: u64)
    ensures
        r == backoff_seconds_of(failure_count, status, retry_after),
        r <= MAX_BACKOFF_SECONDS,
{
    let chosen: u64 = match retry_after {
        Some(s) => s,
        None => {
            if status == 401 || status == 403 {
                MAX_BACKOFF_SECONDS
            } else if status == 429 {
                600
            } else {
                let e: u32 = if failure_count == 0 {
                    0
                } else if failure_count - 1 > 6 {
                    6
                } else {
                    failure_count - 1
                };
                let mut p: u64 = 1;
                let mut k: u32 = 0;
                while k < e
                    invariant
                        k <= e <= 6,
                        p == pow2(k as nat),
                        p <= 64,
                    decreases e - k,
                {
                    assert(pow2((k + 1) as nat) == 2 * pow2(k as nat));
                    p = p * 2;
                    k = k + 1;
                    assert(p <= 64) by {
                        assert(pow2(0) == 1);
                        assert(pow2(1) == 2);
                        assert(pow2(2) == 4);
                        assert(pow2(3) == 8);
                        assert(pow2(4) == 16);
                        assert(pow2(5) == 32);
                        assert(pow2(6) == 64);
                    }
                }
                if 60 * p > 3600 {
                    3600
                } else {
                    60 * p
                }
            }
        },
    };
    if chosen > MAX_BACKOFF_SECONDS {
        MAX_BACKOFF_SECONDS
    } else {
        chosen
    }
}

/// A failure lengthens the streak (saturating) and pauses requests for the
/// backoff from `now`.
pub fn record_failure(usage: &mut UsageState, now: Instant, status: u16, retry_after: Option<u64>)
    requires
        -1_000_000_000_000_000 <= now.seconds <= 1_000_000_000_000_000,
    ensures
        final(usage).failure_count == if old(usage).failure_count == u32::MAX {
            u32::MAX as int
        } else {
            old(usage).failure_count + 1
        },
        final(usage).backoff_until is Some,
        final(usage).backoff_until->Some_0@ == utc_seconds_text(
            shifted(now, backoff_seconds_of(final(usage).failure_count, status, retry_after) as int),
        ),
        final(usage).version == old(usage).version,
        final(usage).month == old(usage).month,
        final(usage).result_sets == old(usage).result_sets,
{
    usage.failure_count = usage.failure_count.saturating_add(1);
    let seconds = backoff_seconds(usage.failure_count, status, retry_after);
    let until = shift(now, seconds as i64);
    usage.backoff_until = Some(timestamp(until));
}

} // verus!

verus! {

// ---------------------------------------------------------------------
// The status cache

/// The only status-cache format version this build reads.
pub const FLIGHT_CACHE_VERSION: u8 = 1;

/// How long a no-match or ambiguous outcome is cached: 30 minutes.
pub const NEGATIVE_CACHE_SECONDS: i64 = 1800;

/// What identifies a cached status: the flight number, the two airport
/// codes and the departure in UTC.
pub struct CacheKey {
    pub flight_number: String,
    pub origin: String,
    pub destination: String,
    pub departure_utc: String,
}

/// The message for a leg whose departure does not parse.
pub open spec fn invalid_departure_text() -> Seq<char> {
    "Calendar departure is not a valid RFC3339 timestamp"@
}

impl CacheKey {
    /// The key of a leg; its departure must parse.
    pub fn from_leg(leg: &TravelLeg) -> (r: Result<CacheKey, String>)
        ensures
            match rfc3339_instant(leg.departure.utc@) {
                None => r is Err && r->Err_0@ == invalid_departure_text(),
                Some(d) => r is Ok && r->Ok_0.flight_number@ == leg.flight_number@ && r->Ok_0.origin@
                    == leg.departure_airport.code@ && r->Ok_0.destination@ == leg.arrival_airport.code@
                    && r->Ok_0.departure_utc@ == utc_seconds_text(d),
            },
    {
        match parse_rfc3339(leg.departure.utc.as_str()) {
            None => Err(text_of("Calendar departure is not a valid RFC3339 timestamp")),
            Some(d) => Ok(
                CacheKey {
                    flight_number: leg.flight_number.clone(),
                    origin: leg.departure_airport.code.clone(),
                    destination: leg.arrival_airport.code.clone(),
                    departure_utc: timestamp(d),
                },
            ),
        }
    }
}

/// The two keys name the same leg.
pub open spec fn same_key(a: CacheKey, b: CacheKey) -> bool {
    a.flight_number@ == b.flight_number@ && a.origin@ == b.origin@ && a.destination@ == b.destination@
        && a.departure_utc@ == b.departure_utc@
}

/// Compares two keys.
pub fn key_eq(a: &CacheKey, b: &CacheKey) -> (r: bool)
    ensures
        r == same_key(*a, *b),
{
    a.flight_number == b.flight_number && a.origin == b.origin && a.destination == b.destination
        && a.departure_utc == b.departure_utc
}

/// A cached outcome: `matched` with a status, or `no_match` or `ambiguous`
/// without one.
pub struct CacheEntry {
    pub version: u8,
    pub key: CacheKey,
    pub fetched_at: String,
    pub expires_at: String,
    pub outcome: String,
    pub status: Option<FlightStatus>,
}

impl CacheEntry {
    /// An outcome without a status, kept for half an hour.
    pub fn negative(key: CacheKey, now: Instant, outcome: &str) -> (r: CacheEntry)
        requires
            shiftable(now),
        ensures
            r.version == FLIGHT_CACHE_VERSION,
            r.key == key,
            r.fetched_at@ == utc_seconds_text(now),
            r.expires_at@ == utc_seconds_text(shifted(now, NEGATIVE_CACHE_SECONDS as int)),
            r.outcome@ == outcome@,
            r.status is None,
            written_exactly(now) && written_exactly(shifted(now, NEGATIVE_CACHE_SECONDS as int)) ==> rfc3339_instant(
                r.fetched_at@,
            ) == Some(whole_second(now)) && rfc3339_instant(r.expires_at@) == Some(
                whole_second(shifted(now, NEGATIVE_CACHE_SECONDS as int)),
            ),
    {
        CacheEntry {
            version: FLIGHT_CACHE_VERSION,
            key,
            fetched_at: timestamp(now),
            expires_at: timestamp(shift(now, NEGATIVE_CACHE_SECONDS)),
            outcome: text_of(outcome),
            status: None,
        }
    }

    /// Whether the entry has not expired at `now`.
    pub fn is_fresh(&self, now: Instant) -> (r: bool)
        ensures
            r == entry_fresh(*self, now),
    {
        match parse_rfc3339(self.expires_at.as_str()) {
            Some(t) => is_before(now, t),
            None => false,
        }
    }
}

/// The entry expires after `now`.
pub open spec fn entry_fresh(e: CacheEntry, now: Instant) -> bool {
    match rfc3339_instant(e.expires_at@) {
        Some(t) => instant_before(now, t),
        None => false,
    }
}

/// The entry a read gives: one of another version or another key is
/// ignored; one whose times do not parse is refused.
pub fn check_cache_entry(entry: CacheEntry, key: &CacheKey) -> (r: Result<Option<CacheEntry>, String>)
    ensures
        entry.version != FLIGHT_CACHE_VERSION || !same_key(entry.key, *key) ==> r == Ok::<
            Option<CacheEntry>,
            String,
        >(None),
        entry.version == FLIGHT_CACHE_VERSION && same_key(entry.key, *key) ==> if rfc3339_instant(
            entry.fetched_at@,
        ) is None || rfc3339_instant(entry.expires_at@) is None {
            r is Err && r->Err_0@ == "cache entry contains invalid timestamps"@
        } else {
            r == Ok::<Option<CacheEntry>, String>(Some(entry))
        },
{
    if entry.version != FLIGHT_CACHE_VERSION || !key_eq(&entry.key, key) {
        return Ok(None);
    }
    if parse_rfc3339(entry.fetched_at.as_str()).is_none() || parse_rfc3339(entry.expires_at.as_str()).is_none() {
        return Err(text_of("cache entry contains invalid timestamps"));
    }
    Ok(Some(entry))
}

/// The FNV-1a 64-bit hash of a byte string.
pub open spec fn fnv1a(bytes: Seq<u8>) -> u64
    decreases bytes.len(),
{
    if bytes.len() == 0 {
        0xcbf29ce484222325u64
    } else {
        (fnv1a(bytes.drop_last()) ^ (bytes.last() as u64)).wrapping_mul(0x100000001b3u64)
    }
}

/// The bytes the cache file name is hashed from: the four key fields
/// separated by NUL bytes.
pub open spec fn key_bytes(key: CacheKey) -> Seq<u8> {
    vstd::utf8::encode_utf8(key.flight_number@) + seq![0u8] + vstd::utf8::encode_utf8(key.origin@) + seq![0u8]
        + vstd::utf8::encode_utf8(key.destination@) + seq![0u8] + vstd::utf8::encode_utf8(key.departure_utc@)
}

/// The lower-case hexadecimal digit of a value below sixteen.
pub open spec fn lower_hex_digit(v: u64) -> char {
    if v < 10 {
        (48 + v) as char
    } else {
        (87 + v) as char
    }
}

/// The sixteen lower-case hexadecimal digits of a 64-bit value.
pub open spec fn hex16(v: u64) -> Seq<char> {
    Seq::new(16, |i: int| lower_hex_digit(((v as nat) / pow16((15 - i) as nat)) as u64 % 16))
}

/// Sixteen to a power.
pub open spec fn pow16(e: nat) -> nat
    decreases e,
{
    if e == 0 {
        1
    } else {
        16 * pow16((e - 1) as nat)
    }
}

/// Hashes bytes into a running FNV-1a state.
fn fnv_extend(state: u64, bytes: &[u8], Ghost(done): Ghost<Seq<u8>>) -> (r: u64)
    requires
        state == fnv1a(done),
    ensures
        r == fnv1a(done + bytes@),
{
    let mut h = state;
    let mut i: usize = 0;
    while i < bytes.len()
        invariant
            i <= bytes@.len(),
            h == fnv1a(done + bytes@.take(i as int)),
        decreases bytes.len() - i,
    {
        let b = bytes[i];
        assert((done + bytes@.take(i + 1)).drop_last() =~= done + bytes@.take(i as int));
        assert((done + bytes@.take(i + 1)).last() == b);
        h = (h ^ (b as u64)).wrapping_mul(0x100000001b3u64);
        i = i + 1;
    }
    assert(bytes@.take(bytes@.len() as int) =~= bytes@);
    h
}

/// The name of the file that caches a key's status:
/// `flight-<hash>.json`, the FNV-1a hash of the key in sixteen lower-case
/// hexadecimal digits.
pub fn cache_file_name(key: &CacheKey) -> (r: String)
    ensures
        r@ == "flight-"@ + hex16(fnv1a(key_bytes(*key))) + ".json"@,
{
    let zero: [u8; 1] = [0u8];
    assert(zero@ =~= seq![0u8]);
    let h0 = fnv_extend(0xcbf29ce484222325u64, key.flight_number.as_str().as_bytes(), Ghost(Seq::empty()));
    let ghost d1 = Seq::<u8>::empty() + vstd::utf8::encode_utf8(key.flight_number@);
    let h1 = fnv_extend(h0, zero.as_slice(), Ghost(d1));
    let ghost d2 = d1 + seq![0u8];
    let h2 = fnv_extend(h1, key.origin.as_str().as_bytes(), Ghost(d2));
    let ghost d3 = d2 + vstd::utf8::encode_utf8(key.origin@);
    let h3 = fnv_extend(h2, zero.as_slice(), Ghost(d3));
    let ghost d4 = d3 + seq![0u8];
    let h4 = fnv_extend(h3, key.destination.as_str().as_bytes(), Ghost(d4));
    let ghost d5 = d4 + vstd::utf8::encode_utf8(key.destination@);
    let h5 = fnv_extend(h4, zero.as_slice(), Ghost(d5));
    let ghost d6 = d5 + seq![0u8];
    let h6 = fnv_extend(h5, key.departure_utc.as_str().as_bytes(), Ghost(d6));
    proof {
        assert(zero@ =~= seq![0u8]);
        assert(d6 + vstd::utf8::encode_utf8(key.departure_utc@) =~= key_bytes(*key));
    }
    let mut r = text_of("flight-");
    let mut k: usize = 0;
    while k < 16
        invariant
            k <= 16,
            r@ == "flight-"@ + hex16(h6).take(k as int),
        decreases 16 - k,
    {
        let mut divisor: u64 = 1;
        let mut j: usize = 0;
        proof {
            lemma_pow16_monotone(0, 15);
        }
        while j < 15 - k
            invariant
                j <= 15 - k,
                k < 16,
                divisor == pow16(j as nat),
                divisor <= pow16(15),
                divisor >= 1,
                pow16(15) == 0x1000000000000000,
            decreases 15 - k - j,
        {
            proof {
                assert(pow16((j + 1) as nat) == 16 * pow16(j as nat));
                lemma_pow16_monotone((j + 1) as nat, 15);
            }
            divisor = divisor * 16;
            j = j + 1;
        }
        let digit = (h6 / divisor) % 16;
        let c = if digit < 10 {
            (48 + digit as u8) as char
        } else {
            (87 + digit as u8) as char
        };
        assert(c == hex16(h6)[k as int]);
        push_char(&mut r, c);
        assert(hex16(h6).take(k + 1) =~= hex16(h6).take(k as int).push(c));
        k = k + 1;
    }
    assert(hex16(h6).take(16) =~= hex16(h6));
    r.append(".json");
    r
}

/// Powers of sixteen grow with the exponent.
proof fn lemma_pow16_monotone(a: nat, b: nat)
    requires
        a <= b,
    ensures
        pow16(a) <= pow16(b),
        pow16(15) == 0x1000000000000000,
    decreases b - a,
{
    assert(pow16(15) == 0x1000000000000000) by {
        reveal_with_fuel(pow16, 16);
    }
    if a < b {
        lemma_pow16_monotone(a, (b - 1) as nat);
        assert(pow16(b) == 16 * pow16((b - 1) as nat));
    }
}

} // verus!

verus! {

/// The name of the file that caches a key's status.
pub open spec fn cache_file_name_text(key: CacheKey) -> Seq<char> {
    "flight-"@ + hex16(fnv1a(key_bytes(key))) + ".json"@
}

} // verus!
