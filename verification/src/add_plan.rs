//! Planning an event add: the checks on the times and values before any
//! EventKit write, and the draft a dry run reports once the target calendar
//! and the possible duplicates are known.

use crate::add_command::AddEventInput;
use crate::batch::{EventKitChecks, eventkit_zone_text};
use crate::calendar::{
    add_dry_run_operation, add_operation_text, availability_name, availability_of, availability_text,
    ensure_valid_event_range, inverted_range_text, negative_alarm_text, validate_alarm_minutes,
};
use crate::dates::{
    Instant, datetime_in_time_zone, end_parse_outcome, in_chrono_range, instant_before, is_iana_zone,
    local_rfc3339, parse_end_datetime_in_time_zone, parse_start_datetime_in_time_zone, seconds_between,
    start_parse_outcome, unknown_zone_text, utc_datetime, utc_rfc3339_text, validate_time_zone,
    whole_seconds_between, zone_rfc3339_text,
};
use crate::event_writes::{duplicate_warnings, is_duplicate_warning};
use crate::eventkit::{CalendarInfo, EventAvailability, EventItem, copy_opt_string, copy_string};
use crate::models::{CalendarSelection, EventDraftReport};
use crate::recurrence::{copy_recurrence_report, same_opt_rule};
use crate::text::{joined, text_of, with_cause};
use vstd::prelude::*;
use vstd::string::*;

verus! {

/// The message for a negative duplicate window.
pub open spec fn negative_window_text() -> Seq<char> {
    "--duplicate-window-seconds must be zero or greater"@
}

/// The zone of an add, as text.
pub open spec fn input_zone(input: AddEventInput) -> Option<Seq<char>> {
    match input.time_zone {
        Some(z) => Some(z@),
        None => None,
    }
}

/// Every alarm offset is zero or more.
pub open spec fn alarms_ok(alarms: Seq<i64>) -> bool {
    forall|i: int| 0 <= i < alarms.len() ==> alarms[i] >= 0
}

/// `m` reports the first negative alarm offset.
pub open spec fn first_negative_alarm(alarms: Seq<i64>, m: Seq<char>) -> bool {
    exists|i: int|
        0 <= i < alarms.len() && alarms[i] < 0 && (forall|j: int| 0 <= j < i ==> alarms[j] >= 0) && m
            == negative_alarm_text(#[trigger] alarms[i])
}

/// What the checks give once both times are read: the range must not be
/// empty, the alarms not negative and the URL one EventKit accepts.
pub open spec fn checked_times(
    input: AddEventInput,
    checks: EventKitChecks,
    start: Instant,
    end: Instant,
    r: Result<(Instant, Instant), String>,
) -> bool {
    if !instant_before(start, end) {
        r is Err && r->Err_0@ == inverted_range_text()
    } else if !alarms_ok(input.alarm_minutes_before@) {
        r is Err && first_negative_alarm(input.alarm_minutes_before@, r->Err_0@)
    } else if input.url is Some && !checks.url_ok {
        r is Err && r->Err_0@ == "invalid URL: "@ + input.url->Some_0@
    } else {
        r == Ok::<(Instant, Instant), String>((start, end))
    }
}

/// What the checks of an add give, in the order they run: the duplicate
/// window, the time zone (known to chrono-tz, then to EventKit), the start,
/// the end, the range, the alarms and the URL.
pub open spec fn add_times_outcome(
    input: AddEventInput,
    checks: EventKitChecks,
    r: Result<(Instant, Instant), String>,
) -> bool {
    let zone = input_zone(input);
    if input.duplicate_window_seconds < 0 {
        r is Err && r->Err_0@ == negative_window_text()
    } else if zone is Some && !is_iana_zone(zone->Some_0) {
        r is Err && r->Err_0@ == unknown_zone_text(zone->Some_0)
    } else if zone is Some && !checks.zone_ok {
        r is Err && r->Err_0@ == eventkit_zone_text(zone->Some_0)
    } else {
        exists|sr: Result<Instant, String>, er: Result<Instant, String>|
            #[trigger] start_parse_outcome(input.start@, zone, sr) && #[trigger] end_parse_outcome(
                input.end@,
                zone,
                er,
            ) && match sr {
                Err(c) => r is Err && r->Err_0@ == "invalid --start: "@ + input.start@ + ": "@ + c@,
                Ok(start) => match er {
                    Err(c) => r is Err && r->Err_0@ == "invalid --end: "@ + input.end@ + ": "@ + c@,
                    Ok(end) => checked_times(input, checks, start, end, r),
                },
            }
    }
}

/// Checks an add before EventKit is asked for anything but its verdict on
/// the zone and the URL (`checks`), and reads its start and end.
pub fn add_times(input: &AddEventInput, checks: EventKitChecks) -> (r: Result<(Instant, Instant), String>)
    ensures
        add_times_outcome(*input, checks, r),
        r matches Ok((s, e)) ==> in_chrono_range(s) && in_chrono_range(e),
{
    if input.duplicate_window_seconds < 0 {
        return Err(text_of("--duplicate-window-seconds must be zero or greater"));
    }
    let zone: Option<&str> = match &input.time_zone {
        Some(z) => Some(z.as_str()),
        None => None,
    };
    assert(crate::dates::zone_text(zone) == input_zone(*input));
    if let Some(z) = zone {
        if let Err(m) = validate_time_zone(z) {
            return Err(m);
        }
        if !checks.zone_ok {
            return Err(joined("unknown IANA time zone: ", z));
        }
    }
    let sr = parse_start_datetime_in_time_zone(input.start.as_str(), zone);
    let er = parse_end_datetime_in_time_zone(input.end.as_str(), zone);
    let ghost sr_value = sr;
    let ghost er_value = er;
    let start = match sr {
        Err(c) => {
            assert(start_parse_outcome(input.start@, input_zone(*input), sr_value));
            return Err(with_cause("invalid --start: ", input.start.as_str(), c.as_str()));
        },
        Ok(s) => s,
    };
    let end = match er {
        Err(c) => {
            assert(start_parse_outcome(input.start@, input_zone(*input), sr_value));
            assert(end_parse_outcome(input.end@, input_zone(*input), er_value));
            return Err(with_cause("invalid --end: ", input.end.as_str(), c.as_str()));
        },
        Ok(e) => e,
    };
    assert(start_parse_outcome(input.start@, input_zone(*input), sr_value));
    assert(end_parse_outcome(input.end@, input_zone(*input), er_value));
    ensure_valid_event_range(start, end)?;
    validate_alarm_minutes(input.alarm_minutes_before.as_slice())?;
    if let Some(url) = &input.url {
        if !checks.url_ok {
            return Err(joined("invalid URL: ", url.as_str()));
        }
    }
    Ok((start, end))
}

/// The availability an add reports: the requested one, or `default`.
pub open spec fn requested_availability_text(input: AddEventInput) -> Seq<char> {
    match input.availability {
        Some(a) => availability_text(availability_of(a)),
        None => "default"@,
    }
}

/// The text of an optional string.
pub open spec fn opt_text(o: Option<String>) -> Option<Seq<char>> {
    match o {
        Some(s) => Some(s@),
        None => None,
    }
}

/// The draft an add's dry run reports: what the add would do with its
/// duplicates, the times in UTC, in the Mac's zone and in the event's zone,
/// the target calendar and how it was chosen, and the warnings for each
/// possible duplicate followed by the recurrence policy message, if any.
pub open spec fn add_draft_fields(
    input: AddEventInput,
    start: Instant,
    end: Instant,
    target: CalendarInfo,
    selection: CalendarSelection,
    duplicates: Seq<EventItem>,
    policy_error: Option<String>,
    d: EventDraftReport,
) -> bool {
    let zone = input_zone(input);
    let n = duplicates.len();
    &&& d.operation@ == add_operation_text(policy_error is Some, n, input.if_exists)
    &&& d.scope is None
    &&& opt_text(d.event_id) == if n > 0 {
        Some(duplicates[0].identifier@)
    } else {
        None
    }
    &&& d.title == input.title
    &&& d.start == d.start_local
    &&& d.end == d.end_local
    &&& d.start_input == Some(input.start)
    &&& d.end_input == Some(input.end)
    &&& d.start_utc@ == utc_rfc3339_text(start)
    &&& d.end_utc@ == utc_rfc3339_text(end)
    &&& opt_text(d.start_in_event_time_zone) == match zone {
        Some(z) => Some(zone_rfc3339_text(start, z)),
        None => None,
    }
    &&& opt_text(d.end_in_event_time_zone) == match zone {
        Some(z) => Some(zone_rfc3339_text(end, z)),
        None => None,
    }
    &&& d.duration_seconds == whole_seconds_between(start, end)
    &&& d.all_day == input.all_day
    &&& d.timed == !input.all_day
    &&& d.calendar == target.title
    &&& d.calendar_id == target.identifier
    &&& d.calendar_source == target.source
    &&& d.calendar_source_id == target.source_id
    &&& d.calendar_selection == Some(selection)
    &&& d.time_zone == input.time_zone
    &&& d.availability@ == requested_availability_text(input)
    &&& d.alarm_count == input.alarm_minutes_before@.len()
    &&& same_opt_rule(d.recurrence, input.recurrence)
    &&& d.has_notes == input.notes is Some
    &&& d.has_location == input.location is Some
    &&& d.has_url == input.url is Some
    &&& d.duplicate_warnings@.len() == n + if policy_error is Some {
        1int
    } else {
        0int
    }
    &&& forall|i: int|
        0 <= i < n ==> is_duplicate_warning(
            (#[trigger] d.duplicate_warnings@[i])@,
            input.duplicate_window_seconds,
            duplicates[i],
        )
    &&& policy_error matches Some(m) ==> d.duplicate_warnings@[n as int] == m
}

/// The draft of an add's dry run; fails only for a zone name chrono-tz does
/// not know.
pub fn add_dry_run_draft(
    input: &AddEventInput,
    start: Instant,
    end: Instant,
    target: &CalendarInfo,
    selection: CalendarSelection,
    duplicates: &Vec<EventItem>,
    policy_error: Option<String>,
) -> (r: Result<EventDraftReport, String>)
    requires
        in_chrono_range(start),
        in_chrono_range(end),
    ensures
        match input_zone(*input) {
            Some(z) if !is_iana_zone(z) => r is Err && r->Err_0@ == unknown_zone_text(z),
            _ => r is Ok && add_draft_fields(
                *input,
                start,
                end,
                *target,
                selection,
                duplicates@,
                policy_error,
                r->Ok_0,
            ),
        },
{
    let (start_in_zone, end_in_zone) = match &input.time_zone {
        Some(z) => {
            let s = datetime_in_time_zone(start, z.as_str())?;
            let e = datetime_in_time_zone(end, z.as_str())?;
            (Some(s), Some(e))
        },
        None => (None, None),
    };
    let mut warnings = duplicate_warnings(duplicates, input.duplicate_window_seconds);
    let ghost listed = warnings@;
    let operation = add_dry_run_operation(policy_error.is_some(), duplicates.len(), input.if_exists);
    if let Some(m) = policy_error {
        warnings.push(m);
    }
    proof {
        assert forall|i: int| 0 <= i < duplicates@.len() implies warnings@[i] == listed[i] by {}
    }
    let event_id = if duplicates.len() > 0 {
        Some(duplicates[0].identifier.clone())
    } else {
        None
    };
    let availability = match input.availability {
        Some(a) => availability_name(EventAvailability::from(a)),
        None => "default",
    };
    proof {
        reveal_strlit("default");
    }
    let start_local = local_rfc3339(start);
    let end_local = local_rfc3339(end);
    let recurrence = match &input.recurrence {
        Some(rule) => Some(copy_recurrence_report(rule)),
        None => None,
    };
    Ok(
        EventDraftReport {
            operation: text_of(operation),
            scope: None,
            event_id,
            title: copy_string(&input.title),
            start: copy_string(&start_local),
            end: copy_string(&end_local),
            start_input: Some(copy_string(&input.start)),
            end_input: Some(copy_string(&input.end)),
            start_utc: utc_datetime(start),
            end_utc: utc_datetime(end),
            start_local,
            end_local,
            start_in_event_time_zone: start_in_zone,
            end_in_event_time_zone: end_in_zone,
            duration_seconds: seconds_between(start, end),
            all_day: input.all_day,
            timed: !input.all_day,
            calendar: copy_string(&target.title),
            calendar_id: copy_string(&target.identifier),
            calendar_source: copy_opt_string(&target.source),
            calendar_source_id: copy_opt_string(&target.source_id),
            calendar_selection: Some(selection),
            time_zone: copy_opt_string(&input.time_zone),
            availability: text_of(availability),
            alarm_count: input.alarm_minutes_before.len(),
            recurrence,
            has_notes: input.notes.is_some(),
            has_location: input.location.is_some(),
            has_url: input.url.is_some(),
            duplicate_warnings: warnings,
        },
    )
}

} // verus!
