//! Event write rules that do not need EventKit itself: patch semantics,
//! alarm and availability validation, calendar lists and write selection,
//! duplicate detection, recurring-mutation scope, and the resolution of the
//! `add` command's inputs.

use crate::cli::{AvailabilityArg, EventScopeArg, IfExistsArg, WriteCalendarSelectorArgs};
use crate::dates::{Instant, instant_before, is_before, parse_rfc3339, rfc3339_instant, total_nanos};
use crate::eventkit::{CalendarInfo, EventAvailability, EventItem, EventSpan, same_calendar};
use crate::models::CalendarSelection;
use crate::text::{debug_quoted, debug_text, eq_ignore_ascii_case, eq_ignore_ascii_case_text, push_int, int_text, str_eq, text_of};
use vstd::prelude::*;
use vstd::string::*;

verus! {

/// A nullable patch of an optional field: clearing wins over a new value;
/// neither leaves the field untouched (`None`).
pub open spec fn nullable_patch_of<'a>(value: Option<&'a str>, clear: bool) -> Option<Option<&'a str>> {
    if clear {
        Some(None)
    } else {
        match value {
            Some(v) => Some(Some(v)),
            None => None,
        }
    }
}

/// A nullable patch of an optional field.
pub fn nullable_patch<'a>(value: Option<&'a str>, clear: bool) -> (r: Option<Option<&'a str>>)
    ensures
        r == nullable_patch_of(value, clear),
{
    if clear {
        Some(None)
    } else {
        match value {
            Some(v) => Some(Some(v)),
            None => None,
        }
    }
}

/// Whether a field holds a value after a nullable patch.
pub open spec fn present_after_patch(current: Option<&str>, patch: Option<Option<&str>>) -> bool {
    match patch {
        Some(value) => value is Some,
        None => current is Some,
    }
}

/// Whether a field holds a value after a nullable patch: a patch decides,
/// no patch keeps the current value.
pub fn patched_field_present(current: Option<&str>, patch: Option<Option<&str>>) -> (r: bool)
    ensures
        r == present_after_patch(current, patch),
{
    match patch {
        Some(value) => value.is_some(),
        None => current.is_some(),
    }
}

/// The message for a negative alarm offset.
pub open spec fn negative_alarm_text(minutes: i64) -> Seq<char> {
    "alarm minutes before must be zero or greater: "@ + int_text(minutes as int)
}

/// Alarm offsets must be zero or more minutes before the event; the first
/// negative one is reported.
pub fn validate_alarm_minutes(minutes_before: &[i64]) -> (r: Result<(), String>)
    ensures
        r is Ok == (forall|i: int| 0 <= i < minutes_before@.len() ==> minutes_before@[i] >= 0),
        r matches Err(m) ==> exists|i: int|
            0 <= i < minutes_before@.len() && minutes_before@[i] < 0 && (forall|j: int|
                0 <= j < i ==> minutes_before@[j] >= 0) && m@ == negative_alarm_text(
                #[trigger] minutes_before@[i],
            ),
{
    let mut i: usize = 0;
    while i < minutes_before.len()
        invariant
            i <= minutes_before@.len(),
            forall|j: int| 0 <= j < i ==> minutes_before@[j] >= 0,
        decreases minutes_before.len() - i,
    {
        let minutes = minutes_before[i];
        if minutes < 0 {
            let mut message = text_of("alarm minutes before must be zero or greater: ");
            push_int(&mut message, minutes);
            assert(minutes_before@[i as int] < 0);
            return Err(message);
        }
        i = i + 1;
    }
    Ok(())
}

/// The EventKit availability a command-line value stands for.
pub open spec fn availability_of(value: AvailabilityArg) -> EventAvailability {
    match value {
        AvailabilityArg::Busy => EventAvailability::Busy,
        AvailabilityArg::Free => EventAvailability::Free,
        AvailabilityArg::Tentative => EventAvailability::Tentative,
        AvailabilityArg::Unavailable => EventAvailability::Unavailable,
    }
}

impl From<AvailabilityArg> for EventAvailability {
    fn from(value: AvailabilityArg) -> (r: Self) {
        match value {
            AvailabilityArg::Busy => EventAvailability::Busy,
            AvailabilityArg::Free => EventAvailability::Free,
            AvailabilityArg::Tentative => EventAvailability::Tentative,
            AvailabilityArg::Unavailable => EventAvailability::Unavailable,
        }
    }
}

impl vstd::std_specs::convert::FromSpecImpl<AvailabilityArg> for EventAvailability {
    open spec fn obeys_from_spec() -> bool {
        true
    }

    open spec fn from_spec(value: AvailabilityArg) -> Self {
        availability_of(value)
    }
}

/// The name an availability is reported and compared by.
pub open spec fn availability_text(a: EventAvailability) -> Seq<char> {
    match a {
        EventAvailability::NotSupported => "not_supported"@,
        EventAvailability::Busy => "busy"@,
        EventAvailability::Free => "free"@,
        EventAvailability::Tentative => "tentative"@,
        EventAvailability::Unavailable => "unavailable"@,
    }
}

/// The name of an availability.
pub fn availability_name(availability: EventAvailability) -> (r: &'static str)
    ensures
        r@ == availability_text(availability),
{
    match availability {
        EventAvailability::NotSupported => "not_supported",
        EventAvailability::Busy => "busy",
        EventAvailability::Free => "free",
        EventAvailability::Tentative => "tentative",
        EventAvailability::Unavailable => "unavailable",
    }
}

/// The list joined with `, ` between items.
pub open spec fn joined_list(items: Seq<String>) -> Seq<char>
    decreases items.len(),
{
    if items.len() == 0 {
        Seq::empty()
    } else if items.len() == 1 {
        items[0]@
    } else {
        joined_list(items.drop_last()) + ", "@ + items.last()@
    }
}

/// Joins strings with `, ` (`[String]::join`).
pub fn join_comma(items: &Vec<String>) -> (r: String)
    ensures
        r@ == joined_list(items@),
{
    let mut out = String::new();
    let mut i: usize = 0;
    while i < items.len()
        invariant
            i <= items@.len(),
            out@ == joined_list(items@.take(i as int)),
        decreases items.len() - i,
    {
        if i > 0 {
            out.append(", ");
        }
        out.append(items[i].as_str());
        proof {
            assert(items@.take(i + 1).drop_last() =~= items@.take(i as int));
            assert(out@ =~= joined_list(items@.take(i + 1)));
        }
        i = i + 1;
    }
    assert(items@.take(items.len() as int) =~= items@);
    out
}

/// The calendar lists the availability among its supported values (compared
/// without regard to ASCII case).
pub open spec fn supports_availability(calendar: CalendarInfo, a: EventAvailability) -> bool {
    exists|k: int|
        0 <= k < calendar.supported_event_availabilities@.len() && eq_ignore_ascii_case_text(
            #[trigger] calendar.supported_event_availabilities@[k]@,
            availability_text(a),
        )
}

/// The message for an availability a calendar does not support.
pub open spec fn unsupported_availability_text(calendar: CalendarInfo, a: EventAvailability) -> Seq<
    char,
> {
    "calendar "@ + debug_text(calendar.title@) + " does not support availability "@ + debug_text(
        availability_text(a),
    ) + "; supported values: "@ + if calendar.supported_event_availabilities@.len() == 0 {
        "none"@
    } else {
        joined_list(calendar.supported_event_availabilities@)
    }
}

/// A requested availability must be one the calendar supports; no request
/// is always fine.
pub fn ensure_availability_supported(calendar: &CalendarInfo, availability: Option<EventAvailability>) -> (r:
    Result<(), String>)
    ensures
        match availability {
            None => r is Ok,
            Some(a) => {
                &&& r is Ok == supports_availability(*calendar, a)
                &&& r matches Err(m) ==> m@ == unsupported_availability_text(*calendar, a)
            },
        },
{
    let wanted = match availability {
        None => return Ok(()),
        Some(a) => a,
    };
    let name = availability_name(wanted);
    let supported = &calendar.supported_event_availabilities;
    let mut k: usize = 0;
    while k < supported.len()
        invariant
            k <= supported@.len(),
            supported == calendar.supported_event_availabilities,
            name@ == availability_text(wanted),
            availability == Some(wanted),
            forall|j: int| 0 <= j < k ==> !eq_ignore_ascii_case_text(#[trigger] supported@[j]@, name@),
        decreases supported.len() - k,
    {
        if eq_ignore_ascii_case(supported[k].as_str(), name) {
            assert(eq_ignore_ascii_case_text(
                calendar.supported_event_availabilities@[k as int]@,
                availability_text(wanted),
            ));
            return Ok(());
        }
        k = k + 1;
    }
    let mut message = text_of("calendar ");
    let q = debug_quoted(calendar.title.as_str());
    message.append(q.as_str());
    message.append(" does not support availability ");
    let q = debug_quoted(name);
    message.append(q.as_str());
    message.append("; supported values: ");
    if supported.len() == 0 {
        message.append("none");
    } else {
        let list = join_comma(supported);
        message.append(list.as_str());
    }
    Err(message)
}

/// The calendar passes a listing filter: from the given source if one was
/// named, and writable if only writable calendars were asked for.
pub open spec fn listed_by_filter(c: CalendarInfo, source: Option<&str>, writable_only: bool) -> bool {
    &&& match source {
        Some(s) => crate::calendar_selector::opt_is(c.source, s@),
        None => true,
    }
    &&& (!writable_only || c.allows_modifications)
}

/// The calendars that pass the listing filter, in order.
pub open spec fn filtered_calendars(cals: Seq<CalendarInfo>, source: Option<&str>, writable_only: bool) -> Seq<
    CalendarInfo,
>
    decreases cals.len(),
{
    if cals.len() == 0 {
        Seq::empty()
    } else {
        let rest = filtered_calendars(cals.drop_last(), source, writable_only);
        if listed_by_filter(cals.last(), source, writable_only) {
            rest.push(cals.last())
        } else {
            rest
        }
    }
}

/// Keeps the calendars of the given source (if any) and, on request, only
/// the writable ones.
pub fn filter_calendar_list(calendars: Vec<CalendarInfo>, source: Option<&str>, writable_only: bool) -> (r:
    Vec<CalendarInfo>)
    ensures
        r@ == filtered_calendars(calendars@, source, writable_only),
{
    let mut out: Vec<CalendarInfo> = Vec::new();
    let mut rest = calendars;
    let ghost all = rest@;
    let mut i: usize = 0;
    let n = rest.len();
    while rest.len() > 0
        invariant
            n == all.len(),
            i + rest@.len() == n,
            rest@ == all.subrange(i as int, n as int),
            out@ == filtered_calendars(all.take(i as int), source, writable_only),
        decreases rest.len(),
    {
        let c = rest.remove(0);
        proof {
            assert(c == all[i as int]);
            assert(rest@ =~= all.subrange(i + 1, n as int));
            assert(all.take(i + 1).drop_last() =~= all.take(i as int));
            assert(all.take(i + 1).last() == all[i as int]);
        }
        let accept_source = match source {
            None => true,
            Some(s) => match &c.source {
                Some(v) => str_eq(v.as_str(), s),
                None => false,
            },
        };
        if accept_source && (!writable_only || c.allows_modifications) {
            out.push(c);
        }
        i = i + 1;
    }
    proof {
        assert(all.take(n as int) =~= all);
    }
    out
}

/// A write selector names a calendar (by title or by id).
pub open spec fn write_selector_given(args: WriteCalendarSelectorArgs) -> bool {
    args.calendar is Some || args.calendar_id is Some
}

/// Whether a write selector names no calendar (qualifiers alone name none).
pub fn write_selector_is_empty(args: &WriteCalendarSelectorArgs) -> (r: bool)
    ensures
        r == !write_selector_given(*args),
{
    args.calendar.is_none() && args.calendar_id.is_none()
}

/// How an add chooses its calendar when no configured default exists: an
/// explicit selector, else EventKit's default calendar.
pub fn calendar_selection_for_write(args: &WriteCalendarSelectorArgs) -> (r: CalendarSelection)
    ensures
        r == if write_selector_given(*args) {
            CalendarSelection::Explicit
        } else {
            CalendarSelection::EventkitDefault
        },
{
    if write_selector_is_empty(args) {
        CalendarSelection::EventkitDefault
    } else {
        CalendarSelection::Explicit
    }
}

/// How an add chooses its calendar: an explicit selector wins, then the
/// configured default calendar, then EventKit's default.
pub fn calendar_selection_for_write_with_config(args: &WriteCalendarSelectorArgs, has_configured_default: bool) -> (r:
    CalendarSelection)
    ensures
        r == if write_selector_given(*args) {
            CalendarSelection::Explicit
        } else if has_configured_default {
            CalendarSelection::ConfiguredDefault
        } else {
            CalendarSelection::EventkitDefault
        },
{
    if !write_selector_is_empty(args) {
        CalendarSelection::Explicit
    } else if has_configured_default {
        CalendarSelection::ConfiguredDefault
    } else {
        CalendarSelection::EventkitDefault
    }
}

/// The messages of the mutation-scope rules.
pub open spec fn occurrence_required_text() -> Seq<char> {
    "recurring event changes require --occurrence-start to select one occurrence"@
}

pub open spec fn scope_required_text() -> Seq<char> {
    "recurring event changes require --scope occurrence or --scope future"@
}

pub open spec fn scope_not_recurring_text() -> Seq<char> {
    "--scope applies only to recurring events"@
}

/// The span a scope selects, and the name it is reported by.
pub open spec fn scope_span(scope: EventScopeArg) -> (EventSpan, Seq<char>) {
    match scope {
        EventScopeArg::Occurrence => (EventSpan::This, "occurrence"@),
        EventScopeArg::Future => (EventSpan::Future, "future"@),
    }
}

/// Which part of an event an update or delete touches. A recurring event
/// needs an explicit occurrence and an explicit scope; a scope on an event
/// that does not recur is refused; otherwise the single event is meant.
pub fn resolve_event_mutation_scope(recurring: bool, has_occurrence_start: bool, scope: Option<
    EventScopeArg,
>) -> (r: Result<(EventSpan, Option<&'static str>), String>)
    ensures
        recurring && !has_occurrence_start ==> r is Err && r->Err_0@ == occurrence_required_text(),
        recurring && has_occurrence_start && scope is None ==> r is Err && r->Err_0@
            == scope_required_text(),
        recurring && has_occurrence_start && scope is Some ==> r is Ok && r->Ok_0.0 == scope_span(
            scope->Some_0,
        ).0 && r->Ok_0.1 is Some && r->Ok_0.1->Some_0@ == scope_span(scope->Some_0).1,
        !recurring && scope is Some ==> r is Err && r->Err_0@ == scope_not_recurring_text(),
        !recurring && scope is None ==> r == Ok::<(EventSpan, Option<&'static str>), String>(
            (EventSpan::This, None),
        ),
{
    if recurring {
        if !has_occurrence_start {
            return Err(text_of("recurring event changes require --occurrence-start to select one occurrence"));
        }
        match scope {
            None => Err(text_of("recurring event changes require --scope occurrence or --scope future")),
            Some(EventScopeArg::Occurrence) => Ok((EventSpan::This, Some("occurrence"))),
            Some(EventScopeArg::Future) => Ok((EventSpan::Future, Some("future"))),
        }
    } else {
        match scope {
            Some(_) => Err(text_of("--scope applies only to recurring events")),
            None => Ok((EventSpan::This, None)),
        }
    }
}

/// The message of an empty or inverted event range.
pub open spec fn inverted_range_text() -> Seq<char> {
    "event start must be before event end"@
}

/// An event must start strictly before it ends.
pub fn ensure_valid_event_range(start: Instant, end: Instant) -> (r: Result<(), String>)
    ensures
        r is Ok == instant_before(start, end),
        r matches Err(m) ==> m@ == inverted_range_text(),
{
    if !is_before(start, end) {
        return Err(text_of("event start must be before event end"));
    }
    Ok(())
}

/// The distance between two instants in whole milliseconds (sub-millisecond
/// remainders dropped), as chrono's `num_milliseconds` gives it.
pub open spec fn millis_apart(a: Instant, b: Instant) -> int {
    let d = total_nanos(a) - total_nanos(b);
    if d >= 0 {
        d / 1_000_000
    } else {
        (-d) / 1_000_000
    }
}

/// The window in milliseconds (saturating at the largest `i64`).
pub open spec fn window_millis(window_seconds: i64) -> int {
    if window_seconds * 1000 > i64::MAX || window_seconds * 1000 < i64::MIN {
        i64::MAX as int
    } else {
        window_seconds * 1000
    }
}

/// Whether an instant lies within `window_seconds` of the expected one.
pub open spec fn within_window(candidate: Instant, expected: Instant, window_seconds: i64) -> bool {
    millis_apart(candidate, expected) <= window_millis(window_seconds)
}

/// Whether `candidate` lies within `window_seconds` of `expected` (a zero
/// window asks for the same millisecond).
pub fn datetime_within_window(candidate: Instant, expected: Instant, window_seconds: i64) -> (r: bool)
    ensures
        r == within_window(candidate, expected, window_seconds),
{
    let limit: i128 = if (window_seconds as i128) * 1000 > i64::MAX as i128 || (window_seconds as i128)
        * 1000 < i64::MIN as i128 {
        i64::MAX as i128
    } else {
        (window_seconds as i128) * 1000
    };
    let a: i128 = (candidate.seconds as i128) * 1_000_000_000 + candidate.nanos as i128;
    let b: i128 = (expected.seconds as i128) * 1_000_000_000 + expected.nanos as i128;
    let d: i128 = a - b;
    let magnitude: i128 = if d >= 0 {
        d
    } else {
        -d
    };
    magnitude / 1_000_000 <= limit
}

/// What a duplicate check looks for.
pub struct DuplicateQuery {
    pub title: String,
    pub start: Instant,
    pub end: Instant,
    pub all_day: bool,
    pub calendar_id: String,
    pub excluded_event_id: Option<String>,
    pub window_seconds: i64,
}

/// A listed event duplicates the query: not the excluded event, same title,
/// same all-day flag, start and end within the window, same calendar.
pub open spec fn is_duplicate(event: EventItem, query: DuplicateQuery) -> bool {
    &&& match query.excluded_event_id {
        Some(x) => x@ != event.identifier@,
        None => true,
    }
    &&& event.title@ == query.title@
    &&& event.all_day == query.all_day
    &&& within_window(event.start_date, query.start, query.window_seconds)
    &&& within_window(event.end_date, query.end, query.window_seconds)
    &&& crate::calendar_selector::opt_is(event.calendar_id, query.calendar_id@)
}

/// The duplicates among the listed events, in order.
pub open spec fn duplicates_of(events: Seq<EventItem>, query: DuplicateQuery) -> Seq<EventItem>
    decreases events.len(),
{
    if events.len() == 0 {
        Seq::empty()
    } else {
        let rest = duplicates_of(events.drop_last(), query);
        if is_duplicate(events.last(), query) {
            rest.push(events.last())
        } else {
            rest
        }
    }
}

/// How far around the query's range the candidates are fetched: the window,
/// and at least one second.
pub fn fetch_padding_seconds(query: &DuplicateQuery) -> (r: i64)
    ensures
        r == if query.window_seconds > 1 {
            query.window_seconds
        } else {
            1
        },
{
    if query.window_seconds > 1 {
        query.window_seconds
    } else {
        1
    }
}

/// The range EventKit is asked for when looking for duplicates: the query's
/// times widened by the fetch padding on each side; none when that leaves
/// chrono's range.
pub fn duplicate_fetch_range(query: &DuplicateQuery) -> (r: Option<(Instant, Instant)>)
    ensures
        ({
            let pad = if query.window_seconds > 1 {
                query.window_seconds as int
            } else {
                1
            };
            let s = query.start.seconds - pad;
            let e = query.end.seconds + pad;
            if -8_400_000_000_000 <= s <= 8_400_000_000_000 && -8_400_000_000_000 <= e <= 8_400_000_000_000 {
                r == Some(
                    (
                        Instant { seconds: s as i64, nanos: query.start.nanos },
                        Instant { seconds: e as i64, nanos: query.end.nanos },
                    ),
                )
            } else {
                r is None
            }
        }),
{
    let pad = fetch_padding_seconds(query);
    let limit: i128 = 8_400_000_000_000;
    let s: i128 = query.start.seconds as i128 - pad as i128;
    let e: i128 = query.end.seconds as i128 + pad as i128;
    if s < -limit || s > limit || e < -limit || e > limit {
        return None;
    }
    Some(
        (
            Instant { seconds: s as i64, nanos: query.start.nanos },
            Instant { seconds: e as i64, nanos: query.end.nanos },
        ),
    )
}

/// Keeps the fetched events that duplicate the query.
pub fn matching_events(candidates: Vec<EventItem>, query: &DuplicateQuery) -> (r: Vec<EventItem>)
    ensures
        r@ == duplicates_of(candidates@, *query),
{
    let mut out: Vec<EventItem> = Vec::new();
    let mut rest = candidates;
    let ghost all = rest@;
    let n = rest.len();
    let mut i: usize = 0;
    while rest.len() > 0
        invariant
            n == all.len(),
            i + rest@.len() == n,
            rest@ == all.subrange(i as int, n as int),
            out@ == duplicates_of(all.take(i as int), *query),
        decreases rest.len(),
    {
        let event = rest.remove(0);
        proof {
            assert(event == all[i as int]);
            assert(rest@ =~= all.subrange(i + 1, n as int));
            assert(all.take(i + 1).drop_last() =~= all.take(i as int));
            assert(all.take(i + 1).last() == all[i as int]);
        }
        let not_excluded = match &query.excluded_event_id {
            Some(x) => !(*x == event.identifier),
            None => true,
        };
        let same_calendar_id = match &event.calendar_id {
            Some(c) => *c == query.calendar_id,
            None => false,
        };
        if not_excluded && event.title == query.title && event.all_day == query.all_day
            && datetime_within_window(event.start_date, query.start, query.window_seconds)
            && datetime_within_window(event.end_date, query.end, query.window_seconds)
            && same_calendar_id {
            out.push(event);
        }
        i = i + 1;
    }
    proof {
        assert(all.take(n as int) =~= all);
    }
    out
}

/// The dry-run operation of an add: a recurrence policy error wins; then no
/// duplicate means add, one duplicate follows the `--if-exists` policy, and
/// several are ambiguous.
pub open spec fn add_operation_text(policy_error: bool, duplicates: nat, if_exists: IfExistsArg) -> Seq<
    char,
> {
    if policy_error {
        "error_recurrence_policy"@
    } else if duplicates == 0 {
        "add"@
    } else if duplicates == 1 {
        match if_exists {
            IfExistsArg::Skip => "skip_existing"@,
            IfExistsArg::Update => "update_existing"@,
            IfExistsArg::Error => "error_existing"@,
        }
    } else {
        "error_ambiguous_duplicates"@
    }
}

/// The dry-run operation of an add.
pub fn add_dry_run_operation(policy_error: bool, duplicates: usize, if_exists: IfExistsArg) -> (r:
    &'static str)
    ensures
        r@ == add_operation_text(policy_error, duplicates as nat, if_exists),
{
    if policy_error {
        "error_recurrence_policy"
    } else if duplicates == 0 {
        "add"
    } else if duplicates == 1 {
        match if_exists {
            IfExistsArg::Skip => "skip_existing",
            IfExistsArg::Update => "update_existing",
            IfExistsArg::Error => "error_existing",
        }
    } else {
        "error_ambiguous_duplicates"
    }
}

/// The policy message when an add's single duplicate recurs differently.
pub open spec fn different_rule_text(existing_id: Seq<char>) -> Seq<char> {
    "matching event ["@ + existing_id
        + "] has a different recurrence rule; refusing to treat it as the same event"@
}

/// The policy message when `--if-exists update` meets a recurring duplicate.
pub open spec fn recurring_update_text() -> Seq<char> {
    "--if-exists update for a recurring match requires explicit series scope; use skip for an identical rule or use the update command with an explicit occurrence and scope"@
}

/// The recurrence policy for the single duplicate of an add: its rules must
/// be the requested recurrence, and an update may not touch a recurring
/// series implicitly. `existing_rules` are the duplicate's stored rules.
pub fn duplicate_recurrence_policy_error(
    requested: Option<&crate::models::EventRecurrenceReport>,
    if_exists: IfExistsArg,
    existing_id: &String,
    existing_rules: &[crate::models::EventRecurrenceReport],
) -> (r: Option<String>)
    ensures
        !crate::recurrence::rules_match_spec(requested, existing_rules@) ==> r is Some && r->Some_0@
            == different_rule_text(existing_id@),
        crate::recurrence::rules_match_spec(requested, existing_rules@) && if_exists
            == IfExistsArg::Update && existing_rules@.len() > 0 ==> r is Some && r->Some_0@
            == recurring_update_text(),
        crate::recurrence::rules_match_spec(requested, existing_rules@) && !(if_exists
            == IfExistsArg::Update && existing_rules@.len() > 0) ==> r is None,
{
    if !crate::recurrence::recurrence_rules_match(requested, existing_rules) {
        let mut m = text_of("matching event [");
        m.append(existing_id.as_str());
        m.append("] has a different recurrence rule; refusing to treat it as the same event");
        return Some(m);
    }
    if if_exists == IfExistsArg::Update && existing_rules.len() > 0 {
        return Some(
            text_of(
                "--if-exists update for a recurring match requires explicit series scope; use skip for an identical rule or use the update command with an explicit occurrence and scope",
            ),
        );
    }
    None
}

} // verus!

verus! {

/// The selector fields of a write as the titles and ids to resolve.
pub open spec fn option_as_seq(o: Option<String>) -> Seq<String> {
    match o {
        Some(s) => seq![s],
        None => seq![],
    }
}

/// An optional field as a list of at most one.
fn option_as_vec(o: &Option<String>) -> (r: Vec<String>)
    ensures
        r@ == option_as_seq(*o),
{
    let mut v = Vec::new();
    if let Some(s) = o {
        v.push(s.clone());
    }
    assert(v@ =~= option_as_seq(*o));
    v
}

/// An optional string as an optional slice.
fn opt_str(o: &Option<String>) -> (r: Option<&str>)
    ensures
        r is Some == o is Some,
        r matches Some(s) ==> s@ == o->Some_0@,
{
    match o {
        Some(s) => Some(s.as_str()),
        None => None,
    }
}

/// What choosing the calendar of a write gives: EventKit's default for new
/// events when the selector names none (if a default is allowed), else the
/// one calendar the selector names.
pub open spec fn target_outcome(
    calendars: Result<Vec<CalendarInfo>, String>,
    default_calendar: Result<CalendarInfo, String>,
    args: WriteCalendarSelectorArgs,
    allow_default: bool,
    r: Result<CalendarInfo, String>,
) -> bool {
    &&& !write_selector_given(args) ==> if !allow_default {
        r is Err && r->Err_0@ == crate::calendar_selector::selector_required_text()
    } else {
        match default_calendar {
            Err(m) => r == Err::<CalendarInfo, String>(m),
            Ok(c) => r is Ok && same_calendar(r->Ok_0, c),
        }
    }
    &&& write_selector_given(args) ==> match calendars {
        Err(m) => r == Err::<CalendarInfo, String>(m),
        Ok(list) => exists|sel: crate::calendar_selector::CalendarSelector|
            sel.titles@ == option_as_seq(args.calendar) && sel.ids@ == option_as_seq(args.calendar_id)
                && opt_str_is(sel.source, args.calendar_source) && opt_str_is(sel.source_id, args.source_id)
                && #[trigger] crate::calendar_selector::single_calendar_outcome(list@, sel, r),
    }
}

/// The calendar a write goes to. The application hands over EventKit's
/// calendar list and default calendar as it read them (or the message of
/// the failure).
pub fn resolve_target_calendar(
    calendars: &Result<Vec<CalendarInfo>, String>,
    default_calendar: &Result<CalendarInfo, String>,
    args: &WriteCalendarSelectorArgs,
    allow_default: bool,
) -> (r: Result<CalendarInfo, String>)
    ensures
        target_outcome(*calendars, *default_calendar, *args, allow_default, r),
{
    if write_selector_is_empty(args) {
        if !allow_default {
            return Err(text_of("a calendar selector is required"));
        }
        return match default_calendar {
            Err(m) => Err(m.clone()),
            Ok(c) => Ok(c.duplicate()),
        };
    }
    let list = match calendars {
        Err(m) => {
            return Err(m.clone());
        },
        Ok(list) => list,
    };
    let titles = option_as_vec(&args.calendar);
    let ids = option_as_vec(&args.calendar_id);
    let selector = crate::calendar_selector::CalendarSelector {
        titles: titles.as_slice(),
        ids: ids.as_slice(),
        source: opt_str(&args.calendar_source),
        source_id: opt_str(&args.source_id),
    };
    let r = crate::calendar_selector::require_single_calendar(list.as_slice(), &selector);
    assert(opt_str_is(selector.source, args.calendar_source));
    assert(opt_str_is(selector.source_id, args.source_id));
    r
}

/// An optional slice holds the text of an optional string.
pub open spec fn opt_str_is(s: Option<&str>, o: Option<String>) -> bool {
    (s is Some == o is Some) && (s matches Some(v) ==> v@ == o->Some_0@)
}

} // verus!
