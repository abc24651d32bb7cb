//! Planning an event update: the checks on the new values, the patches the
//! update writes, and the draft a dry run reports.

use crate::add_plan::{alarms_ok, first_negative_alarm, opt_text};
use crate::batch::{EventKitChecks, eventkit_zone_text};
use crate::calendar::{
    DuplicateQuery, availability_name, availability_of, availability_text, ensure_availability_supported,
    ensure_valid_event_range, inverted_range_text, present_after_patch, supports_availability,
    unsupported_availability_text, validate_alarm_minutes,
};
use crate::cli::{AvailabilityArg, WriteCalendarSelectorArgs};
use crate::dates::{
    Instant, datetime_in_time_zone, end_parse_outcome, in_chrono_range, instant_before, is_iana_zone,
    local_rfc3339, parse_end_datetime_in_time_zone, parse_start_datetime_in_time_zone, seconds_between,
    start_parse_outcome, unknown_zone_text, utc_datetime, utc_rfc3339_text, validate_time_zone,
    whole_seconds_between, zone_rfc3339_text,
};
use crate::event_writes::{
    duplicate_warnings, event_calendar, event_calendar_index, is_duplicate_warning,
};
use crate::eventkit::{CalendarInfo, EventAvailability, EventItem, copy_opt_string, copy_string, same_calendar};
use crate::models::{CalendarSelection, EventDraftReport};
use crate::text::{joined, text_of, with_cause};
use vstd::prelude::*;

verus! {

/// The options of `update`.
pub struct UpdateEventInput {
    pub id: String,
    pub title: Option<String>,
    pub start: Option<String>,
    pub end: Option<String>,
    pub calendar_selector: WriteCalendarSelectorArgs,
    pub notes: Option<String>,
    pub clear_notes: bool,
    pub location: Option<String>,
    pub clear_location: bool,
    pub url: Option<String>,
    pub clear_url: bool,
    pub all_day: bool,
    pub timed: bool,
    pub availability: Option<AvailabilityArg>,
    pub time_zone: Option<String>,
    pub clear_time_zone: bool,
    pub add_alarm_minutes_before: Vec<i64>,
    pub dry_run: bool,
}

/// What an update writes: the new times (if given) and the effective range,
/// the nullable patches (`None` leaves a field, `Some(None)` clears it), the
/// all-day change, the availability, the calendar the event ends up in, and
/// whether it moves there.
pub struct UpdatePlan {
    pub start: Option<Instant>,
    pub end: Option<Instant>,
    pub effective_start: Instant,
    pub effective_end: Instant,
    pub notes: Option<Option<String>>,
    pub location: Option<Option<String>>,
    pub url: Option<Option<String>>,
    pub time_zone: Option<Option<String>>,
    pub all_day: Option<bool>,
    pub availability: Option<EventAvailability>,
    pub calendar: CalendarInfo,
    pub moves_calendar: bool,
    /// The event's own fields change (not only its calendar, zone or alarms).
    pub changes_event: bool,
}

/// A nullable patch from a value and a clear flag: clearing wins.
pub open spec fn patch_of(value: Option<String>, clear: bool) -> Option<Option<Seq<char>>> {
    if clear {
        Some(None)
    } else {
        match value {
            Some(v) => Some(Some(v@)),
            None => None,
        }
    }
}

/// The text of a nullable patch.
pub open spec fn patch_text(p: Option<Option<String>>) -> Option<Option<Seq<char>>> {
    match p {
        Some(Some(v)) => Some(Some(v@)),
        Some(None) => Some(None),
        None => None,
    }
}

/// Builds a nullable patch.
fn owned_patch(value: &Option<String>, clear: bool) -> (r: Option<Option<String>>)
    ensures
        patch_text(r) == patch_of(*value, clear),
{
    if clear {
        Some(None)
    } else {
        match value {
            Some(v) => Some(Some(copy_string(v))),
            None => None,
        }
    }
}

/// How an optional start was read: not at all when not given.
pub open spec fn opt_start_outcome(
    input: Option<String>,
    zone: Option<Seq<char>>,
    o: Option<Result<Instant, String>>,
) -> bool {
    match input {
        None => o is None,
        Some(s) => o is Some && start_parse_outcome(s@, zone, o->Some_0),
    }
}

/// How an optional end was read: not at all when not given.
pub open spec fn opt_end_outcome(
    input: Option<String>,
    zone: Option<Seq<char>>,
    o: Option<Result<Instant, String>>,
) -> bool {
    match input {
        None => o is None,
        Some(s) => o is Some && end_parse_outcome(s@, zone, o->Some_0),
    }
}

/// The instant read, if one was.
pub open spec fn read_instant(o: Option<Result<Instant, String>>) -> Option<Instant> {
    match o {
        Some(Ok(t)) => Some(t),
        _ => None,
    }
}

/// The all-day change of an update.
pub open spec fn all_day_change(input: UpdateEventInput) -> Option<bool> {
    if input.all_day {
        Some(true)
    } else if input.timed {
        Some(false)
    } else {
        None
    }
}

/// The availability an update asks for.
pub open spec fn requested_availability(input: UpdateEventInput) -> Option<EventAvailability> {
    match input.availability {
        Some(a) => Some(availability_of(a)),
        None => None,
    }
}

/// The update changes the event's own fields.
pub open spec fn changes_event_fields(input: UpdateEventInput) -> bool {
    input.title is Some || input.start is Some || input.end is Some || patch_of(input.notes, input.clear_notes)
        is Some || patch_of(input.location, input.clear_location) is Some || patch_of(input.url, input.clear_url)
        is Some || all_day_change(input) is Some || input.availability is Some
}

/// The update changes anything but alarms.
pub open spec fn changes_anything(input: UpdateEventInput, moves: bool) -> bool {
    changes_event_fields(input) || moves || patch_of(input.time_zone, input.clear_time_zone) is Some
}

/// The plan carries what the update asked for.
pub open spec fn plan_matches(
    input: UpdateEventInput,
    target: Option<CalendarInfo>,
    current_calendar: CalendarInfo,
    start: Option<Instant>,
    end: Option<Instant>,
    effective_start: Instant,
    effective_end: Instant,
    p: UpdatePlan,
) -> bool {
    &&& p.start == start
    &&& p.end == end
    &&& p.effective_start == effective_start
    &&& p.effective_end == effective_end
    &&& patch_text(p.notes) == patch_of(input.notes, input.clear_notes)
    &&& patch_text(p.location) == patch_of(input.location, input.clear_location)
    &&& patch_text(p.url) == patch_of(input.url, input.clear_url)
    &&& patch_text(p.time_zone) == patch_of(input.time_zone, input.clear_time_zone)
    &&& p.all_day == all_day_change(input)
    &&& p.availability == requested_availability(input)
    &&& same_calendar(p.calendar, match target {
        Some(t) => t,
        None => current_calendar,
    })
    &&& p.moves_calendar == target is Some
    &&& p.changes_event == changes_event_fields(input)
}

/// What the checks give once the times are read: the range, the added
/// alarms, the URL, the event's calendar, the availability on the calendar
/// the event ends up in, and that something changes.
pub open spec fn planned_update(
    input: UpdateEventInput,
    current: EventItem,
    target: Option<CalendarInfo>,
    calendars: Seq<CalendarInfo>,
    checks: EventKitChecks,
    start: Option<Instant>,
    end: Option<Instant>,
    r: Result<UpdatePlan, String>,
) -> bool {
    let s = match start {
        Some(t) => t,
        None => current.start_date,
    };
    let e = match end {
        Some(t) => t,
        None => current.end_date,
    };
    if !instant_before(s, e) {
        r is Err && r->Err_0@ == inverted_range_text()
    } else if !alarms_ok(input.add_alarm_minutes_before@) {
        r is Err && first_negative_alarm(input.add_alarm_minutes_before@, r->Err_0@)
    } else if input.url is Some && !checks.url_ok {
        r is Err && r->Err_0@ == "invalid URL: "@ + input.url->Some_0@
    } else {
        match event_calendar_index(calendars, current) {
            None => r is Err && r->Err_0@ == "event calendar is no longer available"@,
            Some(i) => {
                let effective = match target {
                    Some(t) => t,
                    None => calendars[i],
                };
                match requested_availability(input) {
                    Some(a) if !supports_availability(effective, a) => r is Err && r->Err_0@
                        == unsupported_availability_text(effective, a),
                    _ => if !changes_anything(input, target is Some) && input.add_alarm_minutes_before@.len()
                        == 0 {
                        r is Err && r->Err_0@ == "no update fields provided"@
                    } else {
                        r is Ok && plan_matches(input, target, calendars[i], start, end, s, e, r->Ok_0)
                    },
                }
            },
        }
    }
}

/// What planning an update gives, in the order its checks run: the zone
/// (known to chrono-tz, then to EventKit), the start, the end, then the rest.
pub open spec fn update_outcome(
    input: UpdateEventInput,
    current: EventItem,
    target: Option<CalendarInfo>,
    calendars: Seq<CalendarInfo>,
    checks: EventKitChecks,
    r: Result<UpdatePlan, String>,
) -> bool {
    let zone = opt_text(input.time_zone);
    if zone is Some && !is_iana_zone(zone->Some_0) {
        r is Err && r->Err_0@ == unknown_zone_text(zone->Some_0)
    } else if zone is Some && !checks.zone_ok {
        r is Err && r->Err_0@ == eventkit_zone_text(zone->Some_0)
    } else {
        exists|so: Option<Result<Instant, String>>, eo: Option<Result<Instant, String>>|
            #[trigger] opt_start_outcome(input.start, zone, so) && #[trigger] opt_end_outcome(input.end, zone, eo)
                && match so {
                Some(Err(c)) => r is Err && r->Err_0@ == "invalid --start for event "@ + input.id@ + ": "@ + c@,
                _ => match eo {
                    Some(Err(c)) => r is Err && r->Err_0@ == "invalid --end for event "@ + input.id@ + ": "@
                        + c@,
                    _ => planned_update(
                        input,
                        current,
                        target,
                        calendars,
                        checks,
                        read_instant(so),
                        read_instant(eo),
                        r,
                    ),
                },
            }
    }
}

/// Plans an update of the `current` event. `target` is the calendar the
/// event moves to, if the options name one; `calendars` are the listed
/// calendars; `checks` is EventKit's verdict on the zone and the URL.
#[verifier::rlimit(40)]
pub fn plan_update(
    input: &UpdateEventInput,
    current: &EventItem,
    target: &Option<CalendarInfo>,
    calendars: &Vec<CalendarInfo>,
    checks: EventKitChecks,
) -> (r: Result<UpdatePlan, String>)
    requires
        in_chrono_range(current.start_date),
        in_chrono_range(current.end_date),
    ensures
        update_outcome(*input, *current, *target, calendars@, checks, r),
        r matches Ok(p) ==> in_chrono_range(p.effective_start) && in_chrono_range(p.effective_end),
{
    let zone: Option<&str> = match &input.time_zone {
        Some(z) => Some(z.as_str()),
        None => None,
    };
    assert(crate::dates::zone_text(zone) == opt_text(input.time_zone));
    if let Some(z) = zone {
        if let Err(m) = validate_time_zone(z) {
            return Err(m);
        }
        if !checks.zone_ok {
            return Err(joined("unknown IANA time zone: ", z));
        }
    }
    let so: Option<Result<Instant, String>> = match &input.start {
        Some(s) => Some(parse_start_datetime_in_time_zone(s.as_str(), zone)),
        None => None,
    };
    let eo: Option<Result<Instant, String>> = match &input.end {
        Some(e) => Some(parse_end_datetime_in_time_zone(e.as_str(), zone)),
        None => None,
    };
    let ghost so_value = so;
    let ghost eo_value = eo;
    assert(opt_start_outcome(input.start, opt_text(input.time_zone), so_value));
    assert(opt_end_outcome(input.end, opt_text(input.time_zone), eo_value));
    let start: Option<Instant> = match so {
        Some(Err(c)) => {
            return Err(with_cause("invalid --start for event ", input.id.as_str(), c.as_str()));
        },
        Some(Ok(t)) => Some(t),
        None => None,
    };
    let end: Option<Instant> = match eo {
        Some(Err(c)) => {
            return Err(with_cause("invalid --end for event ", input.id.as_str(), c.as_str()));
        },
        Some(Ok(t)) => Some(t),
        None => None,
    };
    assert(start == read_instant(so_value));
    assert(end == read_instant(eo_value));
    let effective_start = match start {
        Some(t) => t,
        None => current.start_date,
    };
    let effective_end = match end {
        Some(t) => t,
        None => current.end_date,
    };
    ensure_valid_event_range(effective_start, effective_end)?;
    validate_alarm_minutes(input.add_alarm_minutes_before.as_slice())?;
    if let Some(url) = &input.url {
        if !checks.url_ok {
            return Err(joined("invalid URL: ", url.as_str()));
        }
    }
    let current_calendar = event_calendar(calendars, current)?;
    let ghost index = event_calendar_index(calendars@, *current)->Some_0;
    let calendar = match target {
        Some(t) => t.duplicate(),
        None => current_calendar,
    };
    let availability: Option<EventAvailability> = match input.availability {
        Some(a) => Some(EventAvailability::from(a)),
        None => None,
    };
    ensure_availability_supported(&calendar, availability)?;
    let notes = owned_patch(&input.notes, input.clear_notes);
    let location = owned_patch(&input.location, input.clear_location);
    let url = owned_patch(&input.url, input.clear_url);
    let time_zone = owned_patch(&input.time_zone, input.clear_time_zone);
    let all_day = crate::event_writes::all_day_patch(input.all_day, input.timed);
    let changes_event = input.title.is_some() || start.is_some() || end.is_some() || notes.is_some()
        || location.is_some() || url.is_some() || all_day.is_some() || availability.is_some();
    let changes = changes_event || target.is_some() || time_zone.is_some();
    crate::event_writes::ensure_update_has_changes(changes, input.add_alarm_minutes_before.len())?;
    proof {
        assert(supports_availability(calendar, availability_of(input.availability->Some_0))
            == supports_availability(
            match *target {
                Some(t) => t,
                None => calendars@[index],
            },
            availability_of(input.availability->Some_0),
        )) by {
            if input.availability is Some {
                let a = availability_of(input.availability->Some_0);
                let want = match *target {
                    Some(t) => t,
                    None => calendars@[index],
                };
                assert(calendar.supported_event_availabilities@ == want.supported_event_availabilities@);
            }
        }
    }
    Ok(
        UpdatePlan {
            start,
            end,
            effective_start,
            effective_end,
            notes,
            location,
            url,
            time_zone,
            all_day,
            availability,
            calendar,
            moves_calendar: target.is_some(),
            changes_event,
        },
    )
}

/// The title an update leaves the event with.
pub open spec fn effective_title(input: UpdateEventInput, current: EventItem) -> Seq<char> {
    match input.title {
        Some(t) => t@,
        None => current.title@,
    }
}

/// The all-day flag an update leaves the event with.
pub open spec fn effective_all_day(plan: UpdatePlan, current: EventItem) -> bool {
    match plan.all_day {
        Some(b) => b,
        None => current.all_day,
    }
}

/// The duplicate check of an update's dry run: the event as the update
/// leaves it, in the calendar it ends up in, at exactly its times, other
/// than the event itself (`id`).
pub fn update_duplicate_query(id: &str, input: &UpdateEventInput, current: &EventItem, plan: &UpdatePlan) -> (r:
    DuplicateQuery)
    ensures
        r.title@ == effective_title(*input, *current),
        r.start == plan.effective_start,
        r.end == plan.effective_end,
        r.all_day == effective_all_day(*plan, *current),
        r.calendar_id == plan.calendar.identifier,
        r.excluded_event_id is Some && r.excluded_event_id->Some_0@ == id@,
        r.window_seconds == 0,
{
    let title = match &input.title {
        Some(t) => copy_string(t),
        None => copy_string(&current.title),
    };
    let all_day = match plan.all_day {
        Some(b) => b,
        None => current.all_day,
    };
    DuplicateQuery {
        title,
        start: plan.effective_start,
        end: plan.effective_end,
        all_day,
        calendar_id: copy_string(&plan.calendar.identifier),
        excluded_event_id: Some(text_of(id)),
        window_seconds: 0,
    }
}

/// The zone an update leaves the event with.
pub open spec fn effective_zone(plan: UpdatePlan, current: EventItem) -> Option<Seq<char>> {
    match patch_text(plan.time_zone) {
        Some(v) => v,
        None => opt_text(current.timezone),
    }
}

/// Whether a field holds a value after a nullable patch.
pub open spec fn present_after(current: Option<String>, patch: Option<Option<String>>) -> bool {
    match patch {
        Some(v) => v is Some,
        None => current is Some,
    }
}

/// The draft of an update's dry run: the event as the update leaves it,
/// its alarms counted with the added ones, and a warning for each event
/// that would then duplicate it.
pub open spec fn update_draft_fields(
    id: Seq<char>,
    input: UpdateEventInput,
    current: EventItem,
    plan: UpdatePlan,
    existing_alarm_count: usize,
    duplicates: Seq<EventItem>,
    d: EventDraftReport,
) -> bool {
    let zone = effective_zone(plan, current);
    &&& d.operation@ == "update"@
    &&& d.scope is None
    &&& d.event_id is Some && d.event_id->Some_0@ == id
    &&& d.title@ == effective_title(input, current)
    &&& d.start == d.start_local
    &&& d.end == d.end_local
    &&& d.start_input == input.start
    &&& d.end_input == input.end
    &&& d.start_utc@ == utc_rfc3339_text(plan.effective_start)
    &&& d.end_utc@ == utc_rfc3339_text(plan.effective_end)
    &&& opt_text(d.start_in_event_time_zone) == match zone {
        Some(z) => Some(zone_rfc3339_text(plan.effective_start, z)),
        None => None,
    }
    &&& opt_text(d.end_in_event_time_zone) == match zone {
        Some(z) => Some(zone_rfc3339_text(plan.effective_end, z)),
        None => None,
    }
    &&& d.duration_seconds == whole_seconds_between(plan.effective_start, plan.effective_end)
    &&& d.all_day == effective_all_day(plan, current)
    &&& d.timed == !effective_all_day(plan, current)
    &&& d.calendar == plan.calendar.title
    &&& d.calendar_id == plan.calendar.identifier
    &&& d.calendar_source == plan.calendar.source
    &&& d.calendar_source_id == plan.calendar.source_id
    &&& d.calendar_selection == if plan.moves_calendar {
        Some(CalendarSelection::Explicit)
    } else {
        None
    }
    &&& opt_text(d.time_zone) == zone
    &&& d.availability@ == availability_text(
        match plan.availability {
            Some(a) => a,
            None => current.availability,
        },
    )
    &&& d.alarm_count == existing_alarm_count + input.add_alarm_minutes_before@.len()
    &&& d.recurrence is None
    &&& d.has_notes == present_after(current.notes, plan.notes)
    &&& d.has_location == present_after(current.location, plan.location)
    &&& d.has_url == present_after(current.url, plan.url)
    &&& d.duplicate_warnings@.len() == duplicates.len()
    &&& forall|i: int|
        0 <= i < duplicates.len() ==> is_duplicate_warning((#[trigger] d.duplicate_warnings@[i])@, 0, duplicates[i])
}

/// Whether a field holds a value after a nullable patch.
fn present_after_exec(current: &Option<String>, patch: &Option<Option<String>>) -> (r: bool)
    ensures
        r == present_after(*current, *patch),
{
    match patch {
        Some(v) => v.is_some(),
        None => current.is_some(),
    }
}

/// The draft of an update's dry run; fails only when the zone the event is
/// left with is not one chrono-tz knows. `existing_alarm_count` is how many
/// alarms the event has now; `duplicates` are the events that would
/// duplicate it.
pub fn update_dry_run_draft(
    id: &str,
    input: &UpdateEventInput,
    current: &EventItem,
    plan: &UpdatePlan,
    existing_alarm_count: usize,
    duplicates: &Vec<EventItem>,
) -> (r: Result<EventDraftReport, String>)
    requires
        in_chrono_range(plan.effective_start),
        in_chrono_range(plan.effective_end),
        existing_alarm_count + input.add_alarm_minutes_before@.len() <= usize::MAX,
    ensures
        match effective_zone(*plan, *current) {
            Some(z) if !is_iana_zone(z) => r is Err && r->Err_0@ == unknown_zone_text(z),
            _ => r is Ok && update_draft_fields(
                id@,
                *input,
                *current,
                *plan,
                existing_alarm_count,
                duplicates@,
                r->Ok_0,
            ),
        },
{
    let zone: Option<String> = match &plan.time_zone {
        Some(v) => copy_opt_string(v),
        None => copy_opt_string(&current.timezone),
    };
    assert(opt_text(zone) == effective_zone(*plan, *current));
    let (start_in_zone, end_in_zone) = match &zone {
        Some(z) => {
            let s = datetime_in_time_zone(plan.effective_start, z.as_str())?;
            let e = datetime_in_time_zone(plan.effective_end, z.as_str())?;
            (Some(s), Some(e))
        },
        None => (None, None),
    };
    let title = match &input.title {
        Some(t) => copy_string(t),
        None => copy_string(&current.title),
    };
    let all_day = match plan.all_day {
        Some(b) => b,
        None => current.all_day,
    };
    let availability = match plan.availability {
        Some(a) => a,
        None => current.availability,
    };
    let start_local = local_rfc3339(plan.effective_start);
    let end_local = local_rfc3339(plan.effective_end);
    Ok(
        EventDraftReport {
            operation: text_of("update"),
            scope: None,
            event_id: Some(text_of(id)),
            title,
            start: copy_string(&start_local),
            end: copy_string(&end_local),
            start_input: copy_opt_string(&input.start),
            end_input: copy_opt_string(&input.end),
            start_utc: utc_datetime(plan.effective_start),
            end_utc: utc_datetime(plan.effective_end),
            start_local,
            end_local,
            start_in_event_time_zone: start_in_zone,
            end_in_event_time_zone: end_in_zone,
            duration_seconds: seconds_between(plan.effective_start, plan.effective_end),
            all_day,
            timed: !all_day,
            calendar: copy_string(&plan.calendar.title),
            calendar_id: copy_string(&plan.calendar.identifier),
            calendar_source: copy_opt_string(&plan.calendar.source),
            calendar_source_id: copy_opt_string(&plan.calendar.source_id),
            calendar_selection: if plan.moves_calendar {
                Some(CalendarSelection::Explicit)
            } else {
                None
            },
            time_zone: zone,
            availability: text_of(availability_name(availability)),
            alarm_count: existing_alarm_count + input.add_alarm_minutes_before.len(),
            recurrence: None,
            has_notes: present_after_exec(&current.notes, &plan.notes),
            has_location: present_after_exec(&current.location, &plan.location),
            has_url: present_after_exec(&current.url, &plan.url),
            duplicate_warnings: duplicate_warnings(duplicates, 0),
        },
    )
}

} // verus!
