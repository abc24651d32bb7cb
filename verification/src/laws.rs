//! Properties of the library as a whole: what holds across calls and for
//! every input, stated over the same specifications the functions' own
//! contracts use.

use crate::batch::{
    BatchDefaults, BatchEvent, PatchValue, row_has_selector, row_selector, row_zone, row_alarms, row_availability,
    row_all_day_patch, row_recurrence_args,
    PreparedDraft, exact_matches_of, BatchSlot, client_id_checked_error, client_id_count, duplicate_client_id_text, eligibility, flagged_rows,
    identity_checked_error, identity_eligible, identity_rows, known_status, opt_text, same_identity, status_count,
};
use crate::cache::{CachedEvent, first_event_at_row, is_first_event_row};
use crate::calendar::{nullable_patch_of, present_after_patch};
use crate::config::{BindAddress, Config, config_error, effective_text, is_default_config};
use crate::dates::{Instant, instant_before};
use crate::flightaware::{
    ApiFlight, TravelLeg, candidate_score, is_best_candidate, score_below, UsageState, backoff_active, backoff_seconds_of, escape_byte, hex_digit, is_unreserved, percent_encoded,
    query_window_of, shifted,
};
use crate::models::BatchItemReport;
use crate::recurrence::{rules_agree, rules_match_spec};
use crate::config::without_line_ends;
use crate::models::{CalendarReport, EventRecurrenceReport};
use crate::eventkit::CalendarInfo;
use crate::calendar_selector::{
    CalendarSelector, all_ids_present, all_titles_unique, candidates_for, first_with_id, id_present,
    is_first_bad_title, is_first_missing_id, lemma_candidates_listed, lemma_first_with_id,
    lemma_unique_by_id_facts, opt_view, picked, seq_has_id, unique_by_id, resolution_outcome,
    single_calendar_outcome, selector_required_text, multiple_calendars_text,
};
use crate::eventkit::{same_calendar, EventItem};
use crate::flightaware::{ident_rank_of, normalized_ident_text, status_word, in_progress, cache_ttl_seconds};
use crate::flightaware::{airport_matches_spec, calendar_codes, provider_codes, provider_time_of, delta_seconds, ApiAirport, TravelAirport};
use crate::text::{eq_ignore_ascii_case_text, ascii_fold};
use crate::calendar::{availability_of, availability_text};
use crate::reports::{availability_value_text, events_in_selection, in_selection};
use crate::cli::AvailabilityArg;
use crate::eventkit::EventAvailability;
use crate::dates::{rfc3339_instant, total_nanos};
use crate::recurrence::{weekday_number, frequency_text, canonical_first_day, rule_from_options, interval_of};
use crate::cli::{EventRecurrenceArgs, EventRepeatArg};
use crate::cli::EventWeekdayArg;
use crate::event_writes::{lower_text, query_in, event_search_hit};
use crate::text::{contains_text, decimal, all_digits, digits_value, digit_char, signed_literal, unsigned_literal};
use crate::config::{key_kind_of, typed_value_spec, ConfigValue, KeyKind};
use crate::config::{bool_text, or_unset, toml_string_array_text};
use crate::text::texts;
use crate::enrichment::{cache_read_usable, read_back_fresh};
use crate::flightaware::{CacheEntry, CacheKey, entry_fresh};
use crate::reports::{is_default_calendar, reports_calendar};
use crate::update_plan::{UpdateEventInput, patch_of, changes_event_fields, changes_anything, all_day_change};
use vstd::prelude::*;

verus! {

// ---------------------------------------------------------------------
// Event patches

/// Clearing a field wins over a new value: after a nullable patch the field
/// is set exactly when it is not cleared and either a value is given or it
/// was set before.
pub proof fn law_nullable_patch_presence(current: Option<&str>, value: Option<&str>, clear: bool)
    ensures
        present_after_patch(current, nullable_patch_of(value, clear)) == (!clear && (value is Some
            || current is Some)),
{
}

// ---------------------------------------------------------------------
// Recurrence identity

/// Two rules agreeing is an equivalence: every rule agrees with itself, and
/// agreement is symmetric and transitive.
pub proof fn law_rules_agree_equivalence(a: EventRecurrenceReport, b: EventRecurrenceReport, c: EventRecurrenceReport)
    ensures
        rules_agree(a, a),
        rules_agree(a, b) ==> rules_agree(b, a),
        rules_agree(a, b) && rules_agree(b, c) ==> rules_agree(a, c),
{
}

/// An event created with a rule is the same recurring event as one that
/// carries exactly that rule: a rule matches a list holding only itself,
/// and no rule matches an empty list of an event without recurrence.
pub proof fn law_rule_matches_itself(q: EventRecurrenceReport)
    ensures
        rules_match_spec(Some(&q), seq![q]),
        rules_match_spec(None, Seq::<EventRecurrenceReport>::empty()),
        !rules_match_spec(Some(&q), Seq::<EventRecurrenceReport>::empty()),
{
}

// ---------------------------------------------------------------------
// Batches

/// The status names differ.
proof fn lemma_statuses_differ()
    ensures
        "created"@ != "skipped"@,
        "created"@ != "updated"@,
        "created"@ != "failed"@,
        "created"@ != "not_attempted"@,
        "created"@ != "would_create"@,
        "created"@ != "would_skip"@,
        "created"@ != "would_update"@,
        "skipped"@ != "updated"@,
        "skipped"@ != "failed"@,
        "skipped"@ != "not_attempted"@,
        "skipped"@ != "would_create"@,
        "skipped"@ != "would_skip"@,
        "skipped"@ != "would_update"@,
        "updated"@ != "failed"@,
        "updated"@ != "not_attempted"@,
        "updated"@ != "would_create"@,
        "updated"@ != "would_skip"@,
        "updated"@ != "would_update"@,
        "failed"@ != "not_attempted"@,
        "failed"@ != "would_create"@,
        "failed"@ != "would_skip"@,
        "failed"@ != "would_update"@,
        "not_attempted"@ != "would_create"@,
        "not_attempted"@ != "would_skip"@,
        "not_attempted"@ != "would_update"@,
        "would_create"@ != "would_skip"@,
        "would_create"@ != "would_update"@,
        "would_skip"@ != "would_update"@,
{
    reveal_strlit("created");
    reveal_strlit("skipped");
    reveal_strlit("updated");
    reveal_strlit("failed");
    reveal_strlit("not_attempted");
    reveal_strlit("would_create");
    reveal_strlit("would_skip");
    reveal_strlit("would_update");
    assert("created"@[0] == 'c' && "skipped"@[0] == 's' && "updated"@[0] == 'u');
    assert("failed"@.len() == 6 && "not_attempted"@.len() == 13 && "would_skip"@.len() == 10);
    assert("would_create"@[6] == 'c' && "would_update"@[6] == 'u');
    assert("would_create"@.len() == 12 && "created"@.len() == 7);
}

/// The per-status counts of a batch add up to its total: every item has
/// exactly one of the known statuses.
pub proof fn law_summary_counts_add_up(items: Seq<BatchItemReport>)
    requires
        forall|i: int| 0 <= i < items.len() ==> known_status(#[trigger] items[i].status@),
    ensures
        status_count(items, "created"@) + status_count(items, "skipped"@) + status_count(items, "updated"@)
            + status_count(items, "failed"@) + status_count(items, "not_attempted"@) + status_count(
            items,
            "would_create"@,
        ) + status_count(items, "would_skip"@) + status_count(items, "would_update"@) == items.len(),
    decreases items.len(),
{
    if items.len() > 0 {
        law_summary_counts_add_up(items.drop_last());
        assert(known_status(items[items.len() - 1].status@));
        lemma_statuses_differ();
    }
}

/// Slots with the client id are counted.
proof fn lemma_client_id_counted(slots: Seq<BatchSlot>, id: Seq<char>, j: int, k: int, n: int)
    requires
        0 <= j < k < n <= slots.len(),
        opt_text(slots[j].client_id) == Some(id),
        opt_text(slots[k].client_id) == Some(id),
    ensures
        client_id_count(slots, id, n) >= 2,
    decreases n,
{
    if n - 1 > k {
        lemma_client_id_counted(slots, id, j, k, n - 1);
    } else {
        lemma_client_id_at_least_one(slots, id, j, n - 1);
    }
}

/// A slot with the client id is counted.
proof fn lemma_client_id_at_least_one(slots: Seq<BatchSlot>, id: Seq<char>, j: int, n: int)
    requires
        0 <= j < n <= slots.len(),
        opt_text(slots[j].client_id) == Some(id),
    ensures
        client_id_count(slots, id, n) >= 1,
    decreases n,
{
    if n - 1 > j {
        lemma_client_id_at_least_one(slots, id, j, n - 1);
    }
}

/// Every row whose client id another row shares fails, with the message
/// naming that id; which of them comes first does not matter.
pub proof fn law_shared_client_id_fails_every_row(slots: Seq<BatchSlot>, j: int, k: int)
    requires
        0 <= j < slots.len(),
        0 <= k < slots.len(),
        j != k,
        slots[j].client_id is Some,
        opt_text(slots[j].client_id) == opt_text(slots[k].client_id),
    ensures
        client_id_checked_error(slots, j) == Some(duplicate_client_id_text(slots[j].client_id->Some_0@)),
        client_id_checked_error(slots, k) == Some(duplicate_client_id_text(slots[j].client_id->Some_0@)),
{
    let id = slots[j].client_id->Some_0@;
    if j < k {
        lemma_client_id_counted(slots, id, j, k, slots.len() as int);
    } else {
        lemma_client_id_counted(slots, id, k, j, slots.len() as int);
    }
}

/// A flagged slot with the identity is listed.
proof fn lemma_flagged_rows_grow(slots: Seq<BatchSlot>, flags: Seq<bool>, id: crate::batch::EventIdentity, j: int, n: int)
    requires
        0 <= j < n <= slots.len(),
        flags[j] && slots[j].prepared is Some && same_identity(slots[j].prepared->Some_0.identity, id),
    ensures
        flagged_rows(slots, flags, id, n).len() >= flagged_rows(slots, flags, id, j).len() + 1,
    decreases n,
{
    if n - 1 > j {
        lemma_flagged_rows_grow(slots, flags, id, j, n - 1);
    }
}

/// Listing never shrinks as more slots are seen.
proof fn lemma_flagged_rows_monotone(slots: Seq<BatchSlot>, flags: Seq<bool>, id: crate::batch::EventIdentity, m: int, n: int)
    requires
        0 <= m <= n <= slots.len(),
    ensures
        flagged_rows(slots, flags, id, n).len() >= flagged_rows(slots, flags, id, m).len(),
    decreases n - m,
{
    if m < n {
        lemma_flagged_rows_monotone(slots, flags, id, m, n - 1);
    }
}

/// Every eligible row whose identity another eligible row shares fails,
/// and all of them name the same rows.
pub proof fn law_shared_identity_fails_every_row(slots: Seq<BatchSlot>, j: int, k: int)
    requires
        0 <= j < slots.len(),
        0 <= k < slots.len(),
        j != k,
        identity_eligible(slots[j]),
        identity_eligible(slots[k]),
        same_identity(slots[j].prepared->Some_0.identity, slots[k].prepared->Some_0.identity),
    ensures
        identity_checked_error(slots, j) is Some,
        identity_checked_error(slots, k) is Some,
        identity_rows(slots, slots[j].prepared->Some_0.identity) == identity_rows(
            slots,
            slots[k].prepared->Some_0.identity,
        ) ==> identity_checked_error(slots, j) == identity_checked_error(slots, k),
{
    let flags = eligibility(slots);
    let a = slots[j].prepared->Some_0.identity;
    let b = slots[k].prepared->Some_0.identity;
    let (lo, hi) = if j < k {
        (j, k)
    } else {
        (k, j)
    };
    assert(flags[lo] && flags[hi]);
    lemma_flagged_rows_grow(slots, flags, a, lo, hi);
    lemma_flagged_rows_monotone(slots, flags, a, lo + 1, hi);
    lemma_flagged_rows_grow(slots, flags, a, hi, slots.len() as int);
    lemma_flagged_rows_grow(slots, flags, b, lo, hi);
    lemma_flagged_rows_monotone(slots, flags, b, lo + 1, hi);
    lemma_flagged_rows_grow(slots, flags, b, hi, slots.len() as int);
}

// ---------------------------------------------------------------------
// Configuration

/// The configuration that applies without a file is valid once its bind
/// address reads as a loopback address.
pub proof fn law_default_config_is_valid(c: Config)
    requires
        is_default_config(c),
    ensures
        config_error(c, BindAddress::Loopback) is None,
{
    assert(!crate::config::has_blank_id(c.travel.calendar_ids@));
}

/// `config get` never shows the FlightAware key: it reads as redacted when
/// set and `<unset>` otherwise.
pub proof fn law_api_key_never_shown(c: Config)
    ensures
        effective_text(c, "flightaware.api_key"@) == (if c.flightaware.api_key is Some {
            "********"@
        } else {
            "<unset>"@
        }),
{
}

/// Trimming line ends twice trims nothing more.
pub proof fn law_trim_line_ends_idempotent(s: Seq<char>)
    ensures
        without_line_ends(without_line_ends(s)) == without_line_ends(s),
    decreases s.len(),
{
    if s.len() > 0 && crate::config::is_line_end(s.last()) {
        law_trim_line_ends_idempotent(s.drop_last());
    }
}

// ---------------------------------------------------------------------
// The row cache

/// A listing's cache gives back its rows: in a cache numbered from 1 in
/// order, row `k` names the `k`-th listed event.
pub proof fn law_cached_rows_resolve_in_order(events: Seq<CachedEvent>, k: int)
    requires
        forall|i: int| 0 <= i < events.len() ==> (#[trigger] events[i]).row == i + 1,
        1 <= k <= events.len(),
    ensures
        first_event_at_row(events, k as nat) == Some(k - 1),
{
    assert(is_first_event_row(events, k as nat, k - 1));
    let c = choose|i: int| #[trigger] is_first_event_row(events, k as nat, i);
    assert(c == k - 1) by {
        if c < k - 1 {
            assert(events[c].row == c + 1);
        } else if c > k - 1 {
            assert(events[k - 1].row == k);
        }
    }
}

// ---------------------------------------------------------------------
// FlightAware

/// The value of an upper-case hexadecimal digit.
pub open spec fn hex_value(c: char) -> u8 {
    if '0' <= c <= '9' {
        ((c as u32) - 48) as u8
    } else {
        ((c as u32) - 55) as u8
    }
}

/// Reads a percent-encoded path segment back into bytes, from the end: a
/// `%` three characters from the end starts an escape; any other last
/// character stands for itself.
pub open spec fn percent_decoded(s: Seq<char>) -> Seq<u8>
    decreases s.len(),
{
    if s.len() == 0 {
        seq![]
    } else if s.len() >= 3 && s[s.len() - 3] == '%' {
        percent_decoded(s.take(s.len() - 3)).push(
            (hex_value(s[s.len() - 2]) as int * 16 + hex_value(s[s.len() - 1]) as int) as u8,
        )
    } else {
        percent_decoded(s.drop_last()).push(s.last() as u8)
    }
}

/// The last character of an encoding is never `%`, nor is the one before
/// it.
proof fn lemma_encoding_tail(bytes: Seq<u8>)
    ensures
        percent_encoded(bytes).len() >= 1 ==> percent_encoded(bytes).last() != '%',
        percent_encoded(bytes).len() >= 2 ==> percent_encoded(bytes)[percent_encoded(bytes).len() - 2] != '%',
    decreases bytes.len(),
{
    if bytes.len() > 0 {
        let b = bytes.last();
        lemma_encoding_tail(bytes.drop_last());
        let prefix = percent_encoded(bytes.drop_last());
        let e = escape_byte(b);
        assert(percent_encoded(bytes) == prefix + e);
        if is_unreserved(b) {
            assert(e == seq![b as char]);
            assert((b as char) != '%');
        } else {
            assert(b / 16 < 16 && b % 16 < 16);
            assert(hex_digit(b / 16) != '%');
            assert(hex_digit(b % 16) != '%');
        }
    }
}

/// The percent-encoding of a request path segment can be read back: decoding
/// an encoding gives the bytes it was made from, so distinct values never
/// share a path.
pub proof fn law_path_segment_encoding_reversible(bytes: Seq<u8>)
    ensures
        percent_decoded(percent_encoded(bytes)) == bytes,
    decreases bytes.len(),
{
    if bytes.len() > 0 {
        let b = bytes.last();
        let rest = bytes.drop_last();
        law_path_segment_encoding_reversible(rest);
        lemma_encoding_tail(rest);
        let prefix = percent_encoded(rest);
        let s = percent_encoded(bytes);
        assert(s == prefix + escape_byte(b));
        if is_unreserved(b) {
            assert(s.drop_last() =~= prefix);
            assert(s.last() == b as char);
            if s.len() >= 3 {
                assert(s[s.len() - 3] == prefix[prefix.len() - 2]);
            }
            assert((b as char) as u8 == b);
        } else {
            let hi = b / 16;
            let lo = b % 16;
            assert(s.take(s.len() - 3) =~= prefix);
            assert(s[s.len() - 3] == '%');
            assert(s[s.len() - 2] == hex_digit(hi));
            assert(s[s.len() - 1] == hex_digit(lo));
            assert(hex_value(hex_digit(hi)) == hi);
            assert(hex_value(hex_digit(lo)) == lo);
            assert(hi as int * 16 + lo as int == b as int);
        }
        assert(bytes =~= rest.push(b));
    }
}

/// Distinct values are sent as distinct path segments.
pub proof fn law_path_segment_encoding_injective(a: Seq<u8>, b: Seq<u8>)
    requires
        percent_encoded(a) == percent_encoded(b),
    ensures
        a == b,
{
    law_path_segment_encoding_reversible(a);
    law_path_segment_encoding_reversible(b);
}

/// A reservation never takes the ledger past its monthly limit.
pub proof fn law_reservation_within_limit(u0: UsageState, u1: UsageState, limit: u32)
    requires
        crate::enrichment::reserved(u0, u1, limit),
    ensures
        u1.result_sets <= limit,
{
}

/// After a recorded success no backoff is active, whatever the time.
pub proof fn law_success_ends_backoff(u0: UsageState, u1: UsageState, now: Instant)
    requires
        crate::enrichment::success_recorded(u0, u1),
    ensures
        !backoff_active(u1, now),
{
}

/// A backoff lasts at most a day; without a `Retry-After` it lasts at least
/// a minute.
pub proof fn law_backoff_bounds(failure_count: u32, status: u16, retry_after: Option<u64>)
    ensures
        backoff_seconds_of(failure_count, status, retry_after) <= 86400,
        retry_after is None ==> backoff_seconds_of(failure_count, status, retry_after) >= 60,
{
    let e: nat = if failure_count == 0 {
        0
    } else if failure_count - 1 > 6 {
        6
    } else {
        (failure_count - 1) as nat
    };
    lemma_pow2_positive(e);
}

/// Powers of two are at least one.
proof fn lemma_pow2_positive(e: nat)
    ensures
        crate::flightaware::pow2(e) >= 1,
    decreases e,
{
    if e > 0 {
        lemma_pow2_positive((e - 1) as nat);
    }
}

/// A query window surrounds the departure and spans at most 36 hours.
pub proof fn law_query_window_surrounds_departure(departure_utc: Seq<char>, now: Instant)
    requires
        -1_000_000_000_000_000 <= now.seconds <= 1_000_000_000_000_000,
        query_window_of(departure_utc, now) is Some,
    ensures
        ({
            let (start, end) = query_window_of(departure_utc, now)->Some_0;
            let d = crate::dates::rfc3339_instant(departure_utc)->Some_0;
            &&& instant_before(start, d)
            &&& instant_before(d, end)
            &&& !instant_before(shifted(d, -crate::flightaware::QUERY_WINDOW_SECONDS as int), start)
                || start == shifted(now, -crate::flightaware::QUERY_LOOKBACK_SECONDS as int)
            &&& !instant_before(end, shifted(d, crate::flightaware::QUERY_WINDOW_SECONDS as int)) || end == shifted(
                now,
                crate::flightaware::QUERY_LOOKAHEAD_SECONDS as int,
            )
        }),
{
}

// ---------------------------------------------------------------------
// Calendar listings

/// `reports` is what `calendar_reports` gives for the calendars and the
/// default calendar's id.
pub open spec fn lists_calendars(
    calendars: Seq<CalendarInfo>,
    default_id: Option<&str>,
    reports: Seq<CalendarReport>,
) -> bool {
    &&& reports.len() == calendars.len()
    &&& forall|i: int|
        0 <= i < calendars.len() ==> reports_calendar(#[trigger] reports[i], calendars[i])
            && reports[i].is_default_for_new_events == is_default_calendar(calendars[i], default_id)
}

/// When the calendars have distinct identifiers and the default calendar is
/// among them, exactly that calendar is marked as the default.
pub proof fn law_exactly_one_default_marked(
    calendars: Seq<CalendarInfo>,
    default_id: Option<&str>,
    reports: Seq<CalendarReport>,
    k: int,
)
    requires
        lists_calendars(calendars, default_id, reports),
        forall|i: int, j: int|
            0 <= i < calendars.len() && 0 <= j < calendars.len() && i != j ==> calendars[i].identifier@
                != calendars[j].identifier@,
        0 <= k < calendars.len(),
        default_id is Some && default_id->Some_0@ == calendars[k].identifier@,
    ensures
        forall|i: int| 0 <= i < reports.len() ==> (#[trigger] reports[i].is_default_for_new_events <==> i == k),
{
    assert forall|i: int| 0 <= i < reports.len() implies (#[trigger] reports[i].is_default_for_new_events <==> i
        == k) by {
        assert(reports_calendar(reports[i], calendars[i]));
    }
}

// ---------------------------------------------------------------------
// Flight matching

/// A matched flight fits strictly better than every other fitting flight:
/// when flight `i` is the only best candidate, every other flight that fits
/// scores below it (a smaller gap, or the same gap and a better ident rank).
pub proof fn law_matched_flight_beats_every_other(flights: Seq<ApiFlight>, leg: TravelLeg, i: int)
    requires
        is_best_candidate(flights, leg, i),
        forall|j: int| j != i ==> !#[trigger] is_best_candidate(flights, leg, j),
    ensures
        forall|j: int|
            0 <= j < flights.len() && j != i && (#[trigger] candidate_score(flights[j], leg)) is Some ==> score_below(
                candidate_score(flights[i], leg)->Some_0,
                candidate_score(flights[j], leg)->Some_0,
            ),
{
    assert forall|j: int|
        0 <= j < flights.len() && j != i && (#[trigger] candidate_score(flights[j], leg)) is Some implies score_below(
            candidate_score(flights[i], leg)->Some_0,
            candidate_score(flights[j], leg)->Some_0,
        ) by {
        assert(!is_best_candidate(flights, leg, j));
        let k = choose|k: int|
            0 <= k < flights.len() && (#[trigger] candidate_score(flights[k], leg)) is Some && score_below(
                candidate_score(flights[k], leg)->Some_0,
                candidate_score(flights[j], leg)->Some_0,
            );
        assert(!score_below(candidate_score(flights[k], leg)->Some_0, candidate_score(flights[i], leg)->Some_0));
    }
}

/// Matching does not depend on the order the provider lists its flights
/// in: when `other` holds the same flights, `flights[i]` standing at
/// `p(i)` and `other[k]` at `q(k)`, a flight is a best candidate in one
/// list exactly when it is in the other, and no flight fits in one exactly
/// when none fits in the other.
pub proof fn law_matching_ignores_order(
    flights: Seq<ApiFlight>,
    other: Seq<ApiFlight>,
    leg: TravelLeg,
    p: spec_fn(int) -> int,
    q: spec_fn(int) -> int,
)
    requires
        other.len() == flights.len(),
        forall|i: int| 0 <= i < flights.len() ==> 0 <= #[trigger] p(i) < other.len() && other[p(i)] == flights[i],
        forall|k: int| 0 <= k < other.len() ==> 0 <= #[trigger] q(k) < flights.len() && flights[q(k)] == other[k],
    ensures
        forall|i: int|
            0 <= i < flights.len() ==> (#[trigger] is_best_candidate(flights, leg, i) <==> is_best_candidate(
                other,
                leg,
                p(i),
            )),
        (forall|i: int| 0 <= i < flights.len() ==> (#[trigger] candidate_score(flights[i], leg)) is None) <==> (
        forall|k: int| 0 <= k < other.len() ==> (#[trigger] candidate_score(other[k], leg)) is None),
{
    assert forall|i: int| 0 <= i < flights.len() implies (#[trigger] is_best_candidate(flights, leg, i)
        <==> is_best_candidate(other, leg, p(i))) by {
        if is_best_candidate(flights, leg, i) {
            assert forall|k: int|
                0 <= k < other.len() && (#[trigger] candidate_score(other[k], leg)) is Some implies !score_below(
                candidate_score(other[k], leg)->Some_0,
                candidate_score(other[p(i)], leg)->Some_0,
            ) by {
                assert(flights[q(k)] == other[k]);
                assert(candidate_score(flights[q(k)], leg) is Some);
            }
        }
        if is_best_candidate(other, leg, p(i)) {
            assert forall|j: int|
                0 <= j < flights.len() && (#[trigger] candidate_score(flights[j], leg)) is Some implies !score_below(
                candidate_score(flights[j], leg)->Some_0,
                candidate_score(flights[i], leg)->Some_0,
            ) by {
                assert(other[p(j)] == flights[j]);
                assert(candidate_score(other[p(j)], leg) is Some);
            }
        }
    }
    if forall|i: int| 0 <= i < flights.len() ==> (#[trigger] candidate_score(flights[i], leg)) is None {
        assert forall|k: int| 0 <= k < other.len() implies (#[trigger] candidate_score(other[k], leg)) is None by {
            assert(flights[q(k)] == other[k]);
            assert(candidate_score(flights[q(k)], leg) is None);
        }
    }
    if forall|k: int| 0 <= k < other.len() ==> (#[trigger] candidate_score(other[k], leg)) is None {
        assert forall|i: int| 0 <= i < flights.len() implies (#[trigger] candidate_score(flights[i], leg)) is None by {
            assert(other[p(i)] == flights[i]);
            assert(candidate_score(other[p(i)], leg) is None);
        }
    }
}

// ---------------------------------------------------------------------
// Calendar selection

/// When every id is listed and every title has one candidate, the selected
/// calendars are listed calendars, each identifier appears once, there are
/// no more than the ids and titles asked for, every requested id is among
/// them, and an empty selector selects nothing.
pub proof fn law_selected_calendars_are_listed_and_distinct(cals: Seq<CalendarInfo>, sel: CalendarSelector)
    requires
        all_ids_present(cals, sel.ids@),
        all_titles_unique(cals, sel),
    ensures
        forall|k: int|
            0 <= k < unique_by_id(picked(cals, sel)).len() ==> exists|j: int|
                0 <= j < cals.len() && cals[j] == #[trigger] unique_by_id(picked(cals, sel))[k],
        forall|a: int, b: int|
            0 <= a < b < unique_by_id(picked(cals, sel)).len() ==> (#[trigger] unique_by_id(picked(cals, sel))[a]).identifier@
                != (#[trigger] unique_by_id(picked(cals, sel))[b]).identifier@,
        unique_by_id(picked(cals, sel)).len() <= sel.ids@.len() + sel.titles@.len(),
        forall|i: int| 0 <= i < sel.ids@.len() ==> seq_has_id(unique_by_id(picked(cals, sel)), #[trigger] sel.ids@[i]@),
        sel.ids@.len() == 0 && sel.titles@.len() == 0 ==> unique_by_id(picked(cals, sel)).len() == 0,
{
    let all = picked(cals, sel);
    let n = sel.ids@.len();
    lemma_unique_by_id_facts(all);
    assert forall|m: int| 0 <= m < all.len() implies exists|j: int| 0 <= j < cals.len() && cals[j] == #[trigger] all[m] by {
        if m < n {
            assert(id_present(cals, sel.ids@[m]@));
            lemma_first_with_id(cals, sel.ids@[m]@);
            assert(all[m] == cals[first_with_id(cals, sel.ids@[m]@)]);
        } else {
            let t = sel.titles@[m - n]@;
            assert(candidates_for(cals, sel, sel.titles@[m - n]@).len() == 1);
            lemma_candidates_listed(cals, t, opt_view(sel.source), opt_view(sel.source_id));
            assert(all[m] == candidates_for(cals, sel, t)[0]);
        }
    }
    let u = unique_by_id(all);
    assert forall|k: int| 0 <= k < u.len() implies exists|j: int| 0 <= j < cals.len() && cals[j] == #[trigger] u[k] by {
        let m = choose|m: int| 0 <= m < all.len() && all[m] == #[trigger] u[k];
        let j = choose|j: int| 0 <= j < cals.len() && cals[j] == #[trigger] all[m];
    }
    assert forall|i: int| 0 <= i < n implies seq_has_id(u, #[trigger] sel.ids@[i]@) by {
        assert(id_present(cals, sel.ids@[i]@));
        lemma_first_with_id(cals, sel.ids@[i]@);
        assert(all[i] == cals[first_with_id(cals, sel.ids@[i]@)]);
        assert(seq_has_id(u, all[i].identifier@));
    }
}

/// Resolving fails exactly when the selector has a fault: when some id is
/// not listed there is a first such id, and when every id is listed but
/// some title does not have exactly one candidate there is a first such
/// title; `resolve_calendars` reports that first fault.
pub proof fn law_selector_fault_has_a_first(cals: Seq<CalendarInfo>, sel: CalendarSelector)
    ensures
        !all_ids_present(cals, sel.ids@) ==> exists|i: int| #[trigger] is_first_missing_id(cals, sel.ids@, i),
        all_ids_present(cals, sel.ids@) && !all_titles_unique(cals, sel) ==> exists|i: int|
            #[trigger] is_first_bad_title(cals, sel, i),
{
    if !all_ids_present(cals, sel.ids@) {
        let k = choose|k: int| 0 <= k < sel.ids@.len() && !id_present(cals, #[trigger] sel.ids@[k]@);
        lemma_first_missing(cals, sel, k);
    }
    if all_ids_present(cals, sel.ids@) && !all_titles_unique(cals, sel) {
        let k = choose|k: int| 0 <= k < sel.titles@.len() && #[trigger] candidates_for(cals, sel, sel.titles@[k]@).len() != 1;
        lemma_first_bad(cals, sel, k);
    }
}

proof fn lemma_first_missing(cals: Seq<CalendarInfo>, sel: CalendarSelector, k: int)
    requires
        0 <= k < sel.ids@.len(),
        !id_present(cals, sel.ids@[k]@),
    ensures
        exists|i: int| #[trigger] is_first_missing_id(cals, sel.ids@, i),
    decreases k,
{
    if exists|j: int| 0 <= j < k && !id_present(cals, #[trigger] sel.ids@[j]@) {
        let j = choose|j: int| 0 <= j < k && !id_present(cals, #[trigger] sel.ids@[j]@);
        lemma_first_missing(cals, sel, j);
    } else {
        assert(is_first_missing_id(cals, sel.ids@, k));
    }
}

proof fn lemma_first_bad(cals: Seq<CalendarInfo>, sel: CalendarSelector, k: int)
    requires
        0 <= k < sel.titles@.len(),
        candidates_for(cals, sel, sel.titles@[k]@).len() != 1,
    ensures
        exists|i: int| #[trigger] is_first_bad_title(cals, sel, i),
    decreases k,
{
    if exists|j: int| 0 <= j < k && #[trigger] candidates_for(cals, sel, sel.titles@[j]@).len() != 1 {
        let j = choose|j: int| 0 <= j < k && #[trigger] candidates_for(cals, sel, sel.titles@[j]@).len() != 1;
        lemma_first_bad(cals, sel, j);
    } else {
        assert(is_first_bad_title(cals, sel, k));
    }
}

/// Selecting exactly one calendar follows resolution: an error of the
/// resolution passes through unchanged; a resolution to one calendar gives
/// that calendar; to none, the selector-required error; to several, the
/// multiple-calendars error.
pub proof fn law_single_calendar_follows_resolution(
    cals: Seq<CalendarInfo>,
    sel: CalendarSelector,
    resolved: Result<Vec<CalendarInfo>, String>,
    single: Result<CalendarInfo, String>,
)
    requires
        resolution_outcome(cals, sel, resolved),
        single_calendar_outcome(cals, sel, single),
    ensures
        match resolved {
            Err(e) => single is Err && single->Err_0@ == e@,
            Ok(v) => {
                &&& v@.len() == 1 ==> single is Ok && same_calendar(single->Ok_0, v@[0])
                &&& v@.len() == 0 ==> single is Err && single->Err_0@ == selector_required_text()
                &&& v@.len() > 1 ==> single is Err && single->Err_0@ == multiple_calendars_text()
            },
        },
{
    law_selector_fault_has_a_first(cals, sel);
    if !all_ids_present(cals, sel.ids@) {
        let i = choose|i: int| #[trigger] is_first_missing_id(cals, sel.ids@, i);
        assert(is_first_missing_id(cals, sel.ids@, i));
    } else if !all_titles_unique(cals, sel) {
        let i = choose|i: int| #[trigger] is_first_bad_title(cals, sel, i);
        assert(is_first_bad_title(cals, sel, i));
    } else {
        let u = unique_by_id(picked(cals, sel));
        if u.len() > 0 {
            assert(same_calendar(resolved->Ok_0@[0], u[0]));
        }
    }
}

// ---------------------------------------------------------------------
// Flight status cache

/// A status or no-match outcome the cache wrote (`on_success_saved` and
/// `on_no_match_saved` state `read_back_fresh` of what they write) is taken
/// back by a later read of its key, and counts as fresh exactly before it
/// expires; `on_cache_read` finishes a leg on such a fresh entry without a
/// provider request and without touching the usage ledger.
pub proof fn law_written_entry_served_until_expiry(entry: CacheEntry, key: CacheKey, until: Instant, later: Instant)
    requires
        read_back_fresh(entry, key, until),
    ensures
        cache_read_usable(Ok(Some(entry)), key) == Some(entry),
        entry_fresh(entry, later) <==> instant_before(later, until),
{
}

// ---------------------------------------------------------------------
// Identifier ranks

/// A provider flight ranks 0 when one of its own identifiers (its ident, its
/// ICAO ident or its IATA ident) reads as the leg's flight number once
/// spaces are dropped and letters upper-cased; otherwise it ranks 1 when a
/// codeshare (ICAO or IATA form) reads so; otherwise it has no rank.
pub proof fn law_own_identifier_ranks_first(f: ApiFlight, n: Seq<char>)
    ensures
        normalized_ident_text(f.ident@) == normalized_ident_text(n) ==> ident_rank_of(f, n) == Some(0u8),
        f.ident_icao is Some && normalized_ident_text(f.ident_icao->Some_0@) == normalized_ident_text(n)
            ==> ident_rank_of(f, n) == Some(0u8),
        f.ident_iata is Some && normalized_ident_text(f.ident_iata->Some_0@) == normalized_ident_text(n)
            ==> ident_rank_of(f, n) == Some(0u8),
        ident_rank_of(f, n) == Some(0u8) ==> normalized_ident_text(f.ident@) == normalized_ident_text(n) || (
        f.ident_icao is Some && normalized_ident_text(f.ident_icao->Some_0@) == normalized_ident_text(n)) || (
        f.ident_iata is Some && normalized_ident_text(f.ident_iata->Some_0@) == normalized_ident_text(n)),
        ident_rank_of(f, n) is None ==> normalized_ident_text(f.ident@) != normalized_ident_text(n) && !(
        f.ident_iata is Some && normalized_ident_text(f.ident_iata->Some_0@) == normalized_ident_text(n)),
        f.codeshares is Some && ident_rank_of(f, n) != Some(0u8) ==> forall|i: int|
            0 <= i < f.codeshares->Some_0@.len() && normalized_ident_text(
                (#[trigger] f.codeshares->Some_0@[i])@,
            ) == normalized_ident_text(n) ==> ident_rank_of(f, n) == Some(1u8),
        ident_rank_of(f, n) == Some(1u8) || ident_rank_of(f, n) == Some(0u8) || ident_rank_of(f, n) is None,
{
}

// ---------------------------------------------------------------------
// Existing events a batch row matches

/// The events a batch row matches are exactly the listed events with the
/// row's title, start, end and all-day flag in the row's calendar, in the
/// order they were listed: every match has those values and was listed, and
/// every listed event with those values is a match.
pub proof fn law_exact_matches_share_the_row_identity(events: Seq<EventItem>, d: PreparedDraft)
    ensures
        forall|k: int|
            0 <= k < exact_matches_of(events, d).len() ==> {
                let e = #[trigger] exact_matches_of(events, d)[k];
                &&& e.title@ == d.title@
                &&& e.start_date == d.start
                &&& e.end_date == d.end
                &&& e.all_day == d.all_day
                &&& e.calendar_id is Some && e.calendar_id->Some_0@ == d.calendar.identifier@
                &&& exists|j: int| 0 <= j < events.len() && events[j] == e
            },
        forall|j: int|
            0 <= j < events.len() && (#[trigger] events[j]).title@ == d.title@ && events[j].start_date == d.start
                && events[j].end_date == d.end && events[j].all_day == d.all_day && events[j].calendar_id is Some
                && events[j].calendar_id->Some_0@ == d.calendar.identifier@ ==> exists|k: int|
                0 <= k < exact_matches_of(events, d).len() && exact_matches_of(events, d)[k] == events[j],
    decreases events.len(),
{
    if events.len() > 0 {
        let rest = events.drop_last();
        law_exact_matches_share_the_row_identity(rest, d);
        let m = exact_matches_of(events, d);
        let mr = exact_matches_of(rest, d);
        assert forall|k: int| 0 <= k < m.len() implies exists|j: int| 0 <= j < events.len() && events[j] == #[trigger] m[k] by {
            if k < mr.len() {
                assert(m[k] == mr[k]);
                let j = choose|j: int| 0 <= j < rest.len() && rest[j] == mr[k];
                assert(events[j] == rest[j]);
            } else {
                assert(m[k] == events[events.len() - 1]);
            }
        }
        assert forall|j: int|
            0 <= j < events.len() && (#[trigger] events[j]).title@ == d.title@ && events[j].start_date == d.start
                && events[j].end_date == d.end && events[j].all_day == d.all_day && events[j].calendar_id is Some
                && events[j].calendar_id->Some_0@ == d.calendar.identifier@ implies exists|k: int|
                0 <= k < m.len() && m[k] == events[j] by {
            if j < rest.len() {
                assert(rest[j] == events[j]);
                let k = choose|k: int| 0 <= k < mr.len() && mr[k] == rest[j];
                assert(m[k] == mr[k]);
            } else {
                assert(m[m.len() - 1] == events[j]);
            }
        }
        assert forall|k: int| 0 <= k < m.len() implies {
            let e = #[trigger] m[k];
            &&& e.title@ == d.title@
            &&& e.start_date == d.start
            &&& e.end_date == d.end
            &&& e.all_day == d.all_day
            &&& e.calendar_id is Some && e.calendar_id->Some_0@ == d.calendar.identifier@
        } by {
            if k < mr.len() {
                assert(m[k] == mr[k]);
            }
        }
    }
}

// ---------------------------------------------------------------------
// Weekdays

/// The days of the week, from Sunday to Saturday.
pub open spec fn week_days() -> Seq<EventWeekdayArg> {
    seq![
        EventWeekdayArg::Sunday,
        EventWeekdayArg::Monday,
        EventWeekdayArg::Tuesday,
        EventWeekdayArg::Wednesday,
        EventWeekdayArg::Thursday,
        EventWeekdayArg::Friday,
        EventWeekdayArg::Saturday,
    ]
}

/// EventKit numbers the days of the week in their order from Sunday: the
/// number of a day is its place in the week plus one, so each day of the
/// week has the next number of the day before it, and no two days share one.
pub proof fn law_weekday_numbers_follow_the_week()
    ensures
        forall|i: int| 0 <= i < 7 ==> weekday_number(#[trigger] week_days()[i]) == i + 1,
        forall|i: int| 1 <= i < 7 ==> weekday_number(#[trigger] week_days()[i]) == weekday_number(week_days()[i - 1]) + 1,
        forall|a: EventWeekdayArg, b: EventWeekdayArg| a != b ==> weekday_number(a) != weekday_number(b),
{
    assert forall|i: int| 0 <= i < 7 implies weekday_number(#[trigger] week_days()[i]) == i + 1 by {
        if i == 0 {
        } else if i == 1 {
        } else if i == 2 {
        } else if i == 3 {
        } else if i == 4 {
        } else if i == 5 {
        } else {
        }
    }
}

// ---------------------------------------------------------------------
// Search

/// Search ignores case: texts that lower-case alike match the same queries,
/// and a text matches every query found in its lower-cased form.
pub proof fn law_search_ignores_case(v: Seq<char>, w: Seq<char>, q: Seq<char>)
    ensures
        lower_text(v) == lower_text(w) ==> (query_in(v, q) <==> query_in(w, q)),
        contains_text(lower_text(v), q) ==> query_in(v, q),
        query_in(v, q) ==> contains_text(lower_text(v), q),
{
}

/// A search finds an event through any one of the texts it looks in (the
/// title, the notes, the location, the URL and the calendar's title), each
/// compared in lower case, and through nothing else: an event none of whose
/// texts holds the query is not found, and texts that are absent never match.
pub proof fn law_search_looks_in_every_field(
    title: Seq<char>,
    notes: Option<String>,
    location: Option<String>,
    url: Option<String>,
    calendar: Option<String>,
    q: Seq<char>,
)
    ensures
        contains_text(lower_text(title), q) ==> event_search_hit(title, notes, location, url, calendar, q),
        notes is Some && contains_text(lower_text(notes->Some_0@), q) ==> event_search_hit(title, notes, location, url, calendar, q),
        location is Some && contains_text(lower_text(location->Some_0@), q) ==> event_search_hit(title, notes, location, url, calendar, q),
        url is Some && contains_text(lower_text(url->Some_0@), q) ==> event_search_hit(title, notes, location, url, calendar, q),
        calendar is Some && contains_text(lower_text(calendar->Some_0@), q) ==> event_search_hit(title, notes, location, url, calendar, q),
        event_search_hit(title, notes, location, url, calendar, q) ==> contains_text(lower_text(title), q)
            || (notes is Some && contains_text(lower_text(notes->Some_0@), q))
            || (location is Some && contains_text(lower_text(location->Some_0@), q))
            || (url is Some && contains_text(lower_text(url->Some_0@), q))
            || (calendar is Some && contains_text(lower_text(calendar->Some_0@), q)),
        !contains_text(lower_text(title), q) ==> (event_search_hit(title, None, None, None, None, q) == false),
{
}

// ---------------------------------------------------------------------
// config get

/// `config get` prints the value stored under the key it is given: each key
/// shows its own field, as TOML or plain text, with secrets redacted.
pub proof fn law_config_get_prints_the_named_field(c: Config)
    ensures
        effective_text(c, "flightaware.enabled"@) == bool_text(c.flightaware.enabled),
        effective_text(c, "flightaware.stale_if_error"@) == bool_text(c.flightaware.stale_if_error),
        effective_text(c, "flightaware.monthly_result_set_limit"@) == decimal(
            c.flightaware.monthly_result_set_limit as nat,
        ),
        effective_text(c, "flightaware.request_timeout_seconds"@) == decimal(
            c.flightaware.request_timeout_seconds as nat,
        ),
        effective_text(c, "calendar.default_calendar_id"@) == or_unset(c.calendar.default_calendar_id),
        effective_text(c, "reminders.default_list_id"@) == or_unset(c.reminders.default_list_id),
        effective_text(c, "travel.default_range_days"@) == decimal(c.travel.default_range_days as nat),
        effective_text(c, "travel.calendar_ids"@) == toml_string_array_text(texts(c.travel.calendar_ids@)),
        effective_text(c, "travel.server.bind"@) == c.travel.server.bind@,
        effective_text(c, "travel.server.port"@) == decimal(c.travel.server.port as nat),
        effective_text(c, "travel.server.open_browser"@) == bool_text(c.travel.server.open_browser),
        effective_text(c, "travel.map.projection"@) == c.travel.map.projection@,
        effective_text(c, "travel.map.style_url"@) == or_unset(c.travel.map.style_url),
{
    reveal_strlit("flightaware.api_key");
    reveal_strlit("flightaware.enabled");
    reveal_strlit("flightaware.monthly_result_set_limit");
    reveal_strlit("flightaware.request_timeout_seconds");
    reveal_strlit("flightaware.stale_if_error");
    reveal_strlit("calendar.default_calendar_id");
    reveal_strlit("reminders.default_list_id");
    reveal_strlit("travel.default_range_days");
    reveal_strlit("travel.calendar_ids");
    reveal_strlit("travel.server.bind");
    reveal_strlit("travel.server.port");
    reveal_strlit("travel.server.open_browser");
    reveal_strlit("travel.map.projection");
    reveal_strlit("travel.map.style_url");
    assert("flightaware.api_key"@.len() == 19 && "flightaware.api_key"@[0] == 'f' && "flightaware.api_key"@[12] == 'a' && "flightaware.api_key"@[14] == 'i');
    assert("flightaware.enabled"@.len() == 19 && "flightaware.enabled"@[0] == 'f' && "flightaware.enabled"@[12] == 'e' && "flightaware.enabled"@[14] == 'a');
    assert("flightaware.monthly_result_set_limit"@.len() == 36 && "flightaware.monthly_result_set_limit"@[0] == 'f' && "flightaware.monthly_result_set_limit"@[12] == 'm' && "flightaware.monthly_result_set_limit"@[14] == 'n');
    assert("flightaware.request_timeout_seconds"@.len() == 35 && "flightaware.request_timeout_seconds"@[0] == 'f' && "flightaware.request_timeout_seconds"@[12] == 'r' && "flightaware.request_timeout_seconds"@[14] == 'q');
    assert("flightaware.stale_if_error"@.len() == 26 && "flightaware.stale_if_error"@[0] == 'f' && "flightaware.stale_if_error"@[12] == 's' && "flightaware.stale_if_error"@[14] == 'a');
    assert("calendar.default_calendar_id"@.len() == 28 && "calendar.default_calendar_id"@[0] == 'c' && "calendar.default_calendar_id"@[12] == 'a' && "calendar.default_calendar_id"@[14] == 'l');
    assert("reminders.default_list_id"@.len() == 25 && "reminders.default_list_id"@[0] == 'r' && "reminders.default_list_id"@[12] == 'f' && "reminders.default_list_id"@[14] == 'u');
    assert("travel.default_range_days"@.len() == 25 && "travel.default_range_days"@[0] == 't' && "travel.default_range_days"@[12] == 'l' && "travel.default_range_days"@[14] == '_');
    assert("travel.calendar_ids"@.len() == 19 && "travel.calendar_ids"@[0] == 't' && "travel.calendar_ids"@[12] == 'd' && "travel.calendar_ids"@[14] == 'r');
    assert("travel.server.bind"@.len() == 18 && "travel.server.bind"@[0] == 't' && "travel.server.bind"@[12] == 'r' && "travel.server.bind"@[14] == 'b');
    assert("travel.server.port"@.len() == 18 && "travel.server.port"@[0] == 't' && "travel.server.port"@[12] == 'r' && "travel.server.port"@[14] == 'p');
    assert("travel.server.open_browser"@.len() == 26 && "travel.server.open_browser"@[0] == 't' && "travel.server.open_browser"@[12] == 'r' && "travel.server.open_browser"@[14] == 'o');
    assert("travel.map.projection"@.len() == 21 && "travel.map.projection"@[0] == 't' && "travel.map.projection"@[12] == 'r' && "travel.map.projection"@[14] == 'j');
    assert("travel.map.style_url"@.len() == 20 && "travel.map.style_url"@[0] == 't' && "travel.map.style_url"@[12] == 't' && "travel.map.style_url"@[14] == 'l');
}

/// Changing a boolean setting changes what `config get` prints for its key,
/// and for no other boolean key.
pub proof fn law_config_get_follows_a_boolean_change(c: Config, d: Config)
    requires
        d.flightaware.enabled == c.flightaware.enabled,
        d.travel.server.open_browser == c.travel.server.open_browser,
        d.flightaware.stale_if_error != c.flightaware.stale_if_error,
    ensures
        effective_text(d, "flightaware.stale_if_error"@) != effective_text(c, "flightaware.stale_if_error"@),
        effective_text(d, "flightaware.enabled"@) == effective_text(c, "flightaware.enabled"@),
        effective_text(d, "travel.server.open_browser"@) == effective_text(c, "travel.server.open_browser"@),
{
    law_config_get_prints_the_named_field(c);
    law_config_get_prints_the_named_field(d);
    reveal_strlit("true");
    reveal_strlit("false");
    assert("true"@.len() != "false"@.len());
}

// ---------------------------------------------------------------------
// Flight statuses and how long they are cached

/// The status word of a flight: a diversion wins over everything;
/// a landing (an actual arrival time, in or on) means arrived; a
/// provider cancellation flag means tracking ended, never a confirmed
/// cancellation; a recorded departure of a flight that has not landed means
/// en route, exactly the flights whose position is fetched; a delay of more
/// than fifteen minutes on a flight not yet departed means delayed; anything
/// else is scheduled.
pub proof fn law_flight_status_follows_its_progress(f: ApiFlight)
    ensures
        f.diverted ==> status_word(f) == "diverted"@,
        !f.diverted && (f.actual_in is Some || f.actual_on is Some) ==> status_word(f) == "arrived"@,
        !f.diverted && f.actual_in is None && f.actual_on is None && f.cancelled ==> status_word(f)
            == "tracking_ended"@,
        !f.diverted ==> (in_progress(f) <==> status_word(f) == "en_route"@),
        !f.diverted && !f.cancelled && f.actual_in is None && f.actual_on is None && f.actual_out is None
            && f.actual_off is None && ((f.departure_delay is Some && f.departure_delay->Some_0 > 900) || (
        f.arrival_delay is Some && f.arrival_delay->Some_0 > 900)) ==> status_word(f) == "delayed"@,
        !f.diverted && !f.cancelled && f.actual_in is None && f.actual_on is None && f.actual_out is None
            && f.actual_off is None && (f.departure_delay is None || f.departure_delay->Some_0 <= 900) && (
        f.arrival_delay is None || f.arrival_delay->Some_0 <= 900) ==> status_word(f) == "scheduled"@,
{
    reveal_strlit("diverted");
    reveal_strlit("arrived");
    reveal_strlit("tracking_ended");
    reveal_strlit("en_route");
    reveal_strlit("delayed");
    reveal_strlit("scheduled");
    assert("diverted"@.len() == 8 && "arrived"@.len() == 7 && "tracking_ended"@.len() == 14);
    assert("en_route"@[0] == 'e' && "delayed"@.len() == 7 && "scheduled"@.len() == 9 && "delayed"@[0] == 'd');
}

/// A status is cached longest once the flight arrived or tracking ended,
/// shortest while it is en route, and otherwise the longer the further off
/// its departure is: for a flight not yet under way, a later departure is
/// never cached for a shorter time.
pub proof fn law_cache_time_grows_with_time_to_departure(
    status: Seq<char>,
    early: Seq<char>,
    late: Seq<char>,
    now: Instant,
)
    requires
        status != "arrived"@ && status != "tracking_ended"@ && status != "en_route"@,
        rfc3339_instant(early) is Some && rfc3339_instant(late) is Some,
        total_nanos(rfc3339_instant(early)->Some_0) <= total_nanos(rfc3339_instant(late)->Some_0),
    ensures
        cache_ttl_seconds(status, early, now) <= cache_ttl_seconds(status, late, now),
        cache_ttl_seconds("en_route"@, early, now) < cache_ttl_seconds(status, early, now),
        cache_ttl_seconds(status, early, now) < cache_ttl_seconds("arrived"@, early, now),
        cache_ttl_seconds("arrived"@, early, now) == cache_ttl_seconds("tracking_ended"@, late, now),
{
    reveal_strlit("arrived");
    reveal_strlit("tracking_ended");
    reveal_strlit("en_route");
    assert("arrived"@.len() == 7 && "tracking_ended"@.len() == 14 && "en_route"@.len() == 8);
}

// ---------------------------------------------------------------------
// config get, then config set

/// A number written in decimal reads back as itself: every character is a
/// digit, and the digits are worth the number.
proof fn lemma_decimal_reads_back(n: nat)
    ensures
        decimal(n).len() > 0,
        all_digits(decimal(n)),
        digits_value(decimal(n)) == n,
    decreases n,
{
    if n < 10 {
        let s = decimal(n);
        assert(s == seq![digit_char(n)]);
        assert(s.drop_last() =~= Seq::<char>::empty());
        assert(digits_value(Seq::<char>::empty()) == 0);
    } else {
        lemma_decimal_reads_back(n / 10);
        let s = decimal(n);
        assert(s == decimal(n / 10).push(digit_char(n % 10)));
        assert(s.drop_last() =~= decimal(n / 10));
        assert(s.last() == digit_char(n % 10));
        assert forall|i: int| 0 <= i < s.len() implies '0' <= #[trigger] s[i] <= '9' by {
            if i < s.len() - 1 {
                assert(s[i] == decimal(n / 10)[i]);
            }
        }
    }
}

/// What `config get` prints for a boolean or a number reads back, through
/// the parser `config set` uses for that key, as the value stored there: a
/// printed setting can be set again unchanged.
pub proof fn law_config_get_reads_back_through_set(c: Config)
    ensures
        typed_value_spec("flightaware.enabled"@, key_kind_of("flightaware.enabled"@)->Some_0,
            effective_text(c, "flightaware.enabled"@)) == Ok::<ConfigValue, Seq<char>>(ConfigValue::Bool(c.flightaware.enabled)),
        typed_value_spec("flightaware.stale_if_error"@, key_kind_of("flightaware.stale_if_error"@)->Some_0,
            effective_text(c, "flightaware.stale_if_error"@)) == Ok::<ConfigValue, Seq<char>>(ConfigValue::Bool(c.flightaware.stale_if_error)),
        typed_value_spec("travel.server.open_browser"@, key_kind_of("travel.server.open_browser"@)->Some_0,
            effective_text(c, "travel.server.open_browser"@)) == Ok::<ConfigValue, Seq<char>>(ConfigValue::Bool(c.travel.server.open_browser)),
        typed_value_spec("flightaware.monthly_result_set_limit"@, key_kind_of("flightaware.monthly_result_set_limit"@)->Some_0,
            effective_text(c, "flightaware.monthly_result_set_limit"@)) == Ok::<ConfigValue, Seq<char>>(ConfigValue::Integer(c.flightaware.monthly_result_set_limit as i64)),
        c.flightaware.request_timeout_seconds <= i64::MAX ==> typed_value_spec("flightaware.request_timeout_seconds"@, key_kind_of("flightaware.request_timeout_seconds"@)->Some_0,
            effective_text(c, "flightaware.request_timeout_seconds"@)) == Ok::<ConfigValue, Seq<char>>(ConfigValue::Integer(c.flightaware.request_timeout_seconds as i64)),
        typed_value_spec("travel.default_range_days"@, key_kind_of("travel.default_range_days"@)->Some_0,
            effective_text(c, "travel.default_range_days"@)) == Ok::<ConfigValue, Seq<char>>(ConfigValue::Integer(c.travel.default_range_days as i64)),
        typed_value_spec("travel.server.port"@, key_kind_of("travel.server.port"@)->Some_0,
            effective_text(c, "travel.server.port"@)) == Ok::<ConfigValue, Seq<char>>(ConfigValue::Integer(c.travel.server.port as i64)),
{
    law_config_get_prints_the_named_field(c);
    reveal_strlit("flightaware.api_key");
    reveal_strlit("flightaware.enabled");
    reveal_strlit("flightaware.monthly_result_set_limit");
    reveal_strlit("flightaware.request_timeout_seconds");
    reveal_strlit("flightaware.stale_if_error");
    reveal_strlit("calendar.default_calendar_id");
    reveal_strlit("reminders.default_list_id");
    reveal_strlit("travel.default_range_days");
    reveal_strlit("travel.calendar_ids");
    reveal_strlit("travel.server.bind");
    reveal_strlit("travel.server.port");
    reveal_strlit("travel.server.open_browser");
    reveal_strlit("true");
    reveal_strlit("false");
    assert("flightaware.api_key"@.len() == 19 && "flightaware.api_key"@[12] == 'a');
    assert("flightaware.enabled"@.len() == 19 && "flightaware.enabled"@[12] == 'e');
    assert("flightaware.monthly_result_set_limit"@.len() == 36);
    assert("flightaware.request_timeout_seconds"@.len() == 35);
    assert("flightaware.stale_if_error"@.len() == 26 && "flightaware.stale_if_error"@[14] == 'a');
    assert("calendar.default_calendar_id"@.len() == 28);
    assert("reminders.default_list_id"@.len() == 25 && "reminders.default_list_id"@[0] == 'r');
    assert("travel.default_range_days"@.len() == 25 && "travel.default_range_days"@[0] == 't');
    assert("travel.calendar_ids"@.len() == 19 && "travel.calendar_ids"@[0] == 't');
    assert("travel.server.bind"@.len() == 18 && "travel.server.bind"@[14] == 'b');
    assert("travel.server.port"@.len() == 18 && "travel.server.port"@[14] == 'p');
    assert("travel.server.open_browser"@.len() == 26 && "travel.server.open_browser"@[0] == 't' && "travel.server.open_browser"@[14] == 'o');
    assert("true"@.len() == 4);
    assert("false"@.len() == 5);
    assert forall|n: nat| #[trigger] decimal(n).len() > 0 && signed_literal(decimal(n)) == Some(n as int) by {
        lemma_decimal_reads_back(n);
        assert('0' <= decimal(n)[0] <= '9');
        assert(unsigned_literal(decimal(n)) == Some(n));
    }
    assert(signed_literal(decimal(c.flightaware.monthly_result_set_limit as nat)) == Some(c.flightaware.monthly_result_set_limit as int));
    assert(signed_literal(decimal(c.flightaware.request_timeout_seconds as nat)) == Some(c.flightaware.request_timeout_seconds as int));
    assert(signed_literal(decimal(c.travel.default_range_days as nat)) == Some(c.travel.default_range_days as int));
    assert(signed_literal(decimal(c.travel.server.port as nat)) == Some(c.travel.server.port as int));
}

// ---------------------------------------------------------------------
// Which provider flights can be a leg's

/// A provider flight can be the leg's only when it carries the leg's flight
/// number, leaves from the leg's departure airport, lands at its arrival
/// airport, and is scheduled to leave within four hours of the calendar's
/// departure, early or late alike; its score is then that gap in whole
/// seconds, and its identifier rank to break ties.
pub proof fn law_flight_fits_only_its_route_and_time(f: ApiFlight, leg: TravelLeg)
    ensures
        candidate_score(f, leg) is Some <==> {
            &&& ident_rank_of(f, leg.flight_number@) is Some
            &&& airport_matches_spec(leg.departure_airport, f.origin)
            &&& airport_matches_spec(leg.arrival_airport, f.destination)
            &&& provider_time_of(f.scheduled_out, f.scheduled_off) is Some
            &&& rfc3339_instant(leg.departure.utc@) is Some
            &&& delta_seconds(
                provider_time_of(f.scheduled_out, f.scheduled_off)->Some_0,
                rfc3339_instant(leg.departure.utc@)->Some_0,
            ) <= 4 * 60 * 60
        },
        candidate_score(f, leg) is Some ==> candidate_score(f, leg)->Some_0 == (
            delta_seconds(
                provider_time_of(f.scheduled_out, f.scheduled_off)->Some_0,
                rfc3339_instant(leg.departure.utc@)->Some_0,
            ),
            ident_rank_of(f, leg.flight_number@)->Some_0 as int,
        ),
{
}

/// The gap between two departures does not depend on which is earlier, and
/// is nothing between a time and itself.
pub proof fn law_departure_gap_is_symmetric(a: Instant, b: Instant)
    ensures
        delta_seconds(a, b) == delta_seconds(b, a),
        delta_seconds(a, a) == 0,
        delta_seconds(a, b) >= 0,
{
}

/// A provider airport is the calendar's when any one code the provider sets
/// (its code, its ICAO code or its IATA code) is the calendar's airport code
/// in any mix of ASCII case; a provider that names no airport never matches.
pub proof fn law_airport_matches_any_provider_code(cal: TravelAirport, p: ApiAirport)
    ensures
        p.code is Some && eq_ignore_ascii_case_text(cal.code@, p.code->Some_0@) ==> airport_matches_spec(cal, Some(p)),
        p.code_icao is Some && eq_ignore_ascii_case_text(cal.code@, p.code_icao->Some_0@) ==> airport_matches_spec(cal, Some(p)),
        p.code_iata is Some && eq_ignore_ascii_case_text(cal.code@, p.code_iata->Some_0@) ==> airport_matches_spec(cal, Some(p)),
        !airport_matches_spec(cal, None),
{
    let cc = calendar_codes(cal);
    let pc = provider_codes(p);
    assert(cc[0] == cal.code@);
    let s1: Seq<Seq<char>> = if p.code is Some { seq![p.code->Some_0@] } else { seq![] };
    let s2: Seq<Seq<char>> = if p.code_icao is Some { seq![p.code_icao->Some_0@] } else { seq![] };
    let s3: Seq<Seq<char>> = if p.code_iata is Some { seq![p.code_iata->Some_0@] } else { seq![] };
    assert(pc == s1 + s2 + s3);
    let a: int = s1.len() as int;
    let b: int = (s1.len() + s2.len()) as int;
    if p.code is Some && eq_ignore_ascii_case_text(cal.code@, p.code->Some_0@) {
        assert(pc[0] == p.code->Some_0@);
        assert(eq_ignore_ascii_case_text(cc[0], pc[0]));
    }
    if p.code_icao is Some && eq_ignore_ascii_case_text(cal.code@, p.code_icao->Some_0@) {
        assert((s1 + s2)[a] == s2[0]);
        assert(pc[a] == p.code_icao->Some_0@);
        assert(eq_ignore_ascii_case_text(cc[0], pc[a]));
        assert(0 <= a < pc.len());
        assert(0 <= 0 < calendar_codes(cal).len() && 0 <= a < provider_codes(Some(p)->Some_0).len()
            && eq_ignore_ascii_case_text(calendar_codes(cal)[0], provider_codes(Some(p)->Some_0)[a]));
    }
    if p.code_iata is Some && eq_ignore_ascii_case_text(cal.code@, p.code_iata->Some_0@) {
        assert(pc[b] == s3[0]);
        assert(pc[b] == p.code_iata->Some_0@);
        assert(eq_ignore_ascii_case_text(cc[0], pc[b]));
        assert(0 <= b < pc.len());
        assert(0 <= 0 < calendar_codes(cal).len() && 0 <= b < provider_codes(Some(p)->Some_0).len()
            && eq_ignore_ascii_case_text(calendar_codes(cal)[0], provider_codes(Some(p)->Some_0)[b]));
    }
}

// ---------------------------------------------------------------------
// Batch defaults

/// A batch row's own settings win over the file's defaults, and a setting
/// the row leaves out takes the default: the calendar selector as a whole
/// (the row's when it names any selector field), the time zone (where an
/// explicit `null` clears it), the alarms, the availability, the all-day
/// flag and the recurrence (where `null` means none).
pub proof fn law_row_settings_override_defaults(defaults: BatchDefaults, event: BatchEvent)
    ensures
        row_has_selector(event) ==> row_selector(defaults, event).calendar == event.calendar
            && row_selector(defaults, event).calendar_id == event.calendar_id
            && row_selector(defaults, event).calendar_source == event.calendar_source
            && row_selector(defaults, event).source_id == event.source_id,
        !row_has_selector(event) ==> row_selector(defaults, event).calendar == defaults.calendar
            && row_selector(defaults, event).calendar_id == defaults.calendar_id
            && row_selector(defaults, event).calendar_source == defaults.calendar_source
            && row_selector(defaults, event).source_id == defaults.source_id,
        event.time_zone matches PatchValue::Value(z) ==> row_zone(defaults, event) == Some(z@),
        event.time_zone is Null ==> row_zone(defaults, event) is None,
        event.time_zone is Missing && defaults.time_zone is Some ==> row_zone(defaults, event) == Some(
            defaults.time_zone->Some_0@,
        ),
        event.time_zone is Missing && defaults.time_zone is None ==> row_zone(defaults, event) is None,
        event.alarm_minutes_before is Some ==> row_alarms(defaults, event) == event.alarm_minutes_before,
        event.alarm_minutes_before is None ==> row_alarms(defaults, event) == defaults.alarm_minutes_before,
        event.availability is Some ==> row_availability(defaults, event) == Some(
            crate::calendar::availability_of(event.availability->Some_0),
        ),
        event.availability is None && defaults.availability is Some ==> row_availability(defaults, event) == Some(
            crate::calendar::availability_of(defaults.availability->Some_0),
        ),
        event.availability is None && defaults.availability is None ==> row_availability(defaults, event) is None,
        event.all_day is Some ==> row_all_day_patch(defaults, event) == event.all_day,
        event.all_day is None ==> row_all_day_patch(defaults, event) == defaults.all_day,
        event.recurrence matches PatchValue::Value(v) ==> row_recurrence_args(defaults, event) == Some(
            crate::add_command::recurrence_args_of(v),
        ),
        event.recurrence is Null ==> row_recurrence_args(defaults, event) is None,
        event.recurrence is Missing && defaults.recurrence is Some ==> row_recurrence_args(defaults, event) == Some(
            crate::add_command::recurrence_args_of(defaults.recurrence->Some_0),
        ),
        event.recurrence is Missing && defaults.recurrence is None ==> row_recurrence_args(defaults, event) is None,
{
}

// ---------------------------------------------------------------------
// Rules built from the recurrence options

/// Each frequency is reported by its own name, and only the weekly one by
/// the name EventKit's weekly rules carry.
pub proof fn law_frequency_names_are_distinct(f: EventRepeatArg, g: EventRepeatArg)
    ensures
        f != g ==> frequency_text(f) != frequency_text(g),
        frequency_text(f) == "weekly"@ <==> f == EventRepeatArg::Weekly,
{
    reveal_strlit("daily");
    reveal_strlit("weekly");
    reveal_strlit("monthly");
    reveal_strlit("yearly");
    assert("daily"@.len() == 5 && "weekly"@.len() == 6 && "monthly"@.len() == 7 && "yearly"@.len() == 6);
    assert("weekly"@[0] == 'w' && "yearly"@[0] == 'y');
}

/// A rule built from the recurrence options is already in the form rules
/// are compared by: a weekly rule repeating every two weeks or more starts
/// its weeks on Monday (EventKit's day 2), every other rule leaves the first
/// weekday unset, so reading the rule back from EventKit does not change it.
pub proof fn law_built_rule_keeps_its_week_start(rule: EventRecurrenceReport, args: EventRecurrenceArgs)
    requires
        args.repeat is Some,
        rule_from_options(rule, args),
    ensures
        canonical_first_day(rule) == rule.first_day_of_week,
        args.repeat == Some(EventRepeatArg::Weekly) && interval_of(args) > 1 ==> rule.first_day_of_week
            == weekday_number(EventWeekdayArg::Monday),
        !(args.repeat == Some(EventRepeatArg::Weekly) && interval_of(args) > 1) ==> rule.first_day_of_week == 0,
{
    law_frequency_names_are_distinct(args.repeat->Some_0, EventRepeatArg::Weekly);
}

// ---------------------------------------------------------------------
// Availability names

/// Two texts that hold the same characters up to ASCII case.
proof fn lemma_same_up_to_case(a: Seq<char>, b: Seq<char>)
    requires
        a.len() == b.len(),
        forall|i: int| 0 <= i < a.len() ==> a[i] == b[i] || (a[i] as u32 + 32 == b[i] as u32 && 65 <= a[i] as u32 <= 90),
    ensures
        eq_ignore_ascii_case_text(a, b),
{
    assert forall|i: int| 0 <= i < a.len() implies ascii_fold(#[trigger] a[i]) == ascii_fold(b[i]) by {
        if a[i] != b[i] {
            assert(97 <= b[i] as u32 <= 122);
        }
    }
}

/// An event's availability is printed in event reports under EventKit's
/// name for it and compared under its own lower-case name: the two name the
/// same value (apart from case), and the availability asked for on the
/// command line is always one EventKit supports, a different one for each
/// choice.
pub proof fn law_availability_names_agree(a: EventAvailability, x: AvailabilityArg, y: AvailabilityArg)
    ensures
        a != EventAvailability::NotSupported ==> eq_ignore_ascii_case_text(availability_value_text(a), availability_text(a)),
        availability_of(x) != EventAvailability::NotSupported,
        x != y ==> availability_of(x) != availability_of(y),
{
    reveal_strlit("Busy");
    reveal_strlit("busy");
    reveal_strlit("Free");
    reveal_strlit("free");
    reveal_strlit("Tentative");
    reveal_strlit("tentative");
    reveal_strlit("Unavailable");
    reveal_strlit("unavailable");
    match a {
        EventAvailability::Busy => {
            assert("Busy"@ =~= seq!['B', 'u', 's', 'y']);
            assert("busy"@ =~= seq!['b', 'u', 's', 'y']);
            lemma_same_up_to_case("Busy"@, "busy"@);
        },
        EventAvailability::Free => {
            assert("Free"@ =~= seq!['F', 'r', 'e', 'e']);
            assert("free"@ =~= seq!['f', 'r', 'e', 'e']);
            lemma_same_up_to_case("Free"@, "free"@);
        },
        EventAvailability::Tentative => {
            assert("Tentative"@ =~= seq!['T', 'e', 'n', 't', 'a', 't', 'i', 'v', 'e']);
            assert("tentative"@ =~= seq!['t', 'e', 'n', 't', 'a', 't', 'i', 'v', 'e']);
            lemma_same_up_to_case("Tentative"@, "tentative"@);
        },
        EventAvailability::Unavailable => {
            assert("Unavailable"@ =~= seq!['U', 'n', 'a', 'v', 'a', 'i', 'l', 'a', 'b', 'l', 'e']);
            assert("unavailable"@ =~= seq!['u', 'n', 'a', 'v', 'a', 'i', 'l', 'a', 'b', 'l', 'e']);
            lemma_same_up_to_case("Unavailable"@, "unavailable"@);
        },
        EventAvailability::NotSupported => {},
    }
}

// ---------------------------------------------------------------------
// Listing by calendar

/// Listing events with no calendar selection keeps them all; with a
/// selection, it keeps, in their order, exactly the listed events whose
/// calendar is one of the selected ones (an event with no calendar is never
/// kept).
pub proof fn law_listing_keeps_the_selected_calendars(events: Seq<EventItem>, ids: Option<Seq<Seq<char>>>)
    ensures
        ids is None ==> events_in_selection(events, ids) == events,
        forall|k: int|
            0 <= k < events_in_selection(events, ids).len() ==> {
                let e = #[trigger] events_in_selection(events, ids)[k];
                &&& ids is Some ==> e.calendar_id is Some && ids->Some_0.contains(e.calendar_id->Some_0@)
                &&& events.contains(e)
            },
        forall|j: int|
            0 <= j < events.len() && (ids is None || ((#[trigger] events[j]).calendar_id is Some
                && ids->Some_0.contains(events[j].calendar_id->Some_0@))) ==> events_in_selection(events, ids).contains(
                events[j],
            ),
        events_in_selection(events, ids).len() <= events.len(),
    decreases events.len(),
{
    if events.len() > 0 {
        let rest = events.drop_last();
        law_listing_keeps_the_selected_calendars(rest, ids);
        let m = events_in_selection(events, ids);
        let mr = events_in_selection(rest, ids);
        let last = events.last();
        if ids is None {
            assert(events =~= rest.push(last));
        }
        assert forall|k: int| 0 <= k < m.len() implies {
            let e = #[trigger] m[k];
            &&& ids is Some ==> e.calendar_id is Some && ids->Some_0.contains(e.calendar_id->Some_0@)
            &&& events.contains(e)
        } by {
            if k < mr.len() {
                assert(m[k] == mr[k]);
                let e = mr[k];
                assert(rest.contains(e));
                let j = choose|j: int| 0 <= j < rest.len() && rest[j] == e;
                assert(events[j] == e);
            } else {
                assert(m[k] == last);
                assert(in_selection(last, ids));
                assert(events[events.len() - 1] == last);
            }
        }
        assert forall|j: int|
            0 <= j < events.len() && (ids is None || ((#[trigger] events[j]).calendar_id is Some
                && ids->Some_0.contains(events[j].calendar_id->Some_0@))) implies m.contains(events[j]) by {
            if j < rest.len() {
                assert(rest[j] == events[j]);
                assert(mr.contains(rest[j]));
                let k = choose|k: int| 0 <= k < mr.len() && mr[k] == rest[j];
                assert(m[k] == mr[k]);
            } else {
                assert(events[j] == last);
                assert(in_selection(last, ids));
                assert(m[m.len() - 1] == last);
            }
        }
    }
}

// ---------------------------------------------------------------------
// What an update changes

/// An update's nullable options: clearing a field wins over a new value for
/// it, a new value alone sets it, and neither leaves it as it is. Any one
/// option that touches the event's own fields (title, start, end, notes,
/// location, URL, all-day or timed, availability) counts as a change of the
/// event, and so does nothing else; a new zone or a move to another calendar
/// alone changes the event's placement but not its fields.
pub proof fn law_update_options_each_count(input: UpdateEventInput, moves: bool)
    ensures
        input.clear_notes ==> patch_of(input.notes, true) == Some(None::<Seq<char>>),
        input.notes is Some ==> patch_of(input.notes, false) == Some(Some(input.notes->Some_0@)),
        patch_of(None, false) is None,
        input.title is Some ==> changes_event_fields(input),
        input.start is Some ==> changes_event_fields(input),
        input.end is Some ==> changes_event_fields(input),
        input.notes is Some || input.clear_notes ==> changes_event_fields(input),
        input.location is Some || input.clear_location ==> changes_event_fields(input),
        input.url is Some || input.clear_url ==> changes_event_fields(input),
        input.all_day || input.timed ==> changes_event_fields(input),
        input.availability is Some ==> changes_event_fields(input),
        input.all_day ==> all_day_change(input) == Some(true),
        changes_event_fields(input) ==> input.title is Some || input.start is Some || input.end is Some
            || input.notes is Some || input.clear_notes || input.location is Some || input.clear_location
            || input.url is Some || input.clear_url || input.all_day || input.timed || input.availability is Some,
        input.time_zone is Some || input.clear_time_zone || moves ==> changes_anything(input, moves),
        changes_anything(input, moves) ==> changes_event_fields(input) || moves || input.time_zone is Some
            || input.clear_time_zone,
{
}

} // verus!
