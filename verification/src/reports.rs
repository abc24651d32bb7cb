//! The records the read commands print for calendars and events, built from
//! what EventKit listed.

use crate::dates::{
    Instant, end_parse_outcome, instant_before, is_before, parse_end_datetime, parse_start_datetime,
    start_parse_outcome, datetime_in_time_zone, in_chrono_range, is_iana_zone, local_rfc3339, seconds_between, utc_datetime,
    utc_rfc3339_text, whole_seconds_between, zone_rfc3339_text,
};
use crate::event_writes::{find_identifier, first_with_identifier};
use crate::eventkit::{
    CalendarInfo, EventAvailability, EventItem, ParticipantInfo, copy_opt_string, copy_string, copy_strings,
};
use crate::models::{CalendarReport, CalendarSelection, EventRecurrenceReport, EventReport, ParticipantReport};
use crate::calendar_selector::{
    CalendarSelector, all_ids_present, all_titles_unique, bad_title_text, id_not_found_text, is_first_bad_title,
    is_first_missing_id, picked, resolve_calendars, unique_by_id,
};
use crate::text::{str_eq, text_of, texts, with_cause};
use vstd::prelude::*;

verus! {

// ---------------------------------------------------------------------
// Calendars

/// The report carries the calendar's fields (the default marker aside).
pub open spec fn reports_calendar(r: CalendarReport, c: CalendarInfo) -> bool {
    &&& r.id == c.identifier
    &&& r.title == c.title
    &&& r.source == c.source
    &&& r.source_id == c.source_id
    &&& r.calendar_type == c.calendar_type
    &&& r.allows_modifications == c.allows_modifications
    &&& r.is_immutable == c.is_immutable
    &&& r.is_subscribed == c.is_subscribed
    &&& r.allowed_entity_types@ == c.allowed_entity_types@
    &&& r.supported_event_availabilities@ == c.supported_event_availabilities@
}

/// The report of one calendar, not marked as the default.
pub fn calendar_report(calendar: &CalendarInfo) -> (r: CalendarReport)
    ensures
        reports_calendar(r, *calendar),
        !r.is_default_for_new_events,
{
    CalendarReport {
        id: copy_string(&calendar.identifier),
        title: copy_string(&calendar.title),
        source: copy_opt_string(&calendar.source),
        source_id: copy_opt_string(&calendar.source_id),
        calendar_type: copy_string(&calendar.calendar_type),
        allows_modifications: calendar.allows_modifications,
        is_immutable: calendar.is_immutable,
        is_subscribed: calendar.is_subscribed,
        allowed_entity_types: copy_strings(&calendar.allowed_entity_types),
        supported_event_availabilities: copy_strings(&calendar.supported_event_availabilities),
        is_default_for_new_events: false,
    }
}

/// Whether a calendar is the one EventKit uses for new events.
pub open spec fn is_default_calendar(c: CalendarInfo, default_id: Option<&str>) -> bool {
    match default_id {
        Some(id) => c.identifier@ == id@,
        None => false,
    }
}

/// The reports of the listed calendars, in order; those whose identifier is
/// the default calendar's are marked.
pub fn calendar_reports(calendars: &[CalendarInfo], default_id: Option<&str>) -> (r: Vec<CalendarReport>)
    ensures
        r@.len() == calendars@.len(),
        forall|i: int|
            0 <= i < calendars@.len() ==> reports_calendar(#[trigger] r@[i], calendars@[i])
                && r@[i].is_default_for_new_events == is_default_calendar(calendars@[i], default_id),
{
    let mut out: Vec<CalendarReport> = Vec::new();
    let mut i: usize = 0;
    while i < calendars.len()
        invariant
            i <= calendars@.len(),
            out@.len() == i,
            forall|j: int|
                0 <= j < i ==> reports_calendar(#[trigger] out@[j], calendars@[j])
                    && out@[j].is_default_for_new_events == is_default_calendar(calendars@[j], default_id),
        decreases calendars.len() - i,
    {
        let mut report = calendar_report(&calendars[i]);
        report.is_default_for_new_events = match default_id {
            Some(id) => str_eq(id, calendars[i].identifier.as_str()),
            None => false,
        };
        out.push(report);
        i = i + 1;
    }
    out
}

// ---------------------------------------------------------------------
// Participants

/// The report carries the participant's fields.
pub open spec fn reports_participant(r: ParticipantReport, p: ParticipantInfo) -> bool {
    r.name == p.name && r.url == p.url && r.role == p.role && r.status == p.status && r.is_current_user
        == p.is_current_user
}

/// The report of an attendee or organizer.
pub fn participant_report(participant: &ParticipantInfo) -> (r: ParticipantReport)
    ensures
        reports_participant(r, *participant),
{
    ParticipantReport {
        name: copy_opt_string(&participant.name),
        url: copy_opt_string(&participant.url),
        role: copy_string(&participant.role),
        status: copy_string(&participant.status),
        is_current_user: participant.is_current_user,
    }
}

/// The reports of a list of participants, in order.
fn participant_reports(participants: &Vec<ParticipantInfo>) -> (r: Vec<ParticipantReport>)
    ensures
        r@.len() == participants@.len(),
        forall|i: int| 0 <= i < participants@.len() ==> reports_participant(#[trigger] r@[i], participants@[i]),
{
    let mut out: Vec<ParticipantReport> = Vec::new();
    let mut i: usize = 0;
    while i < participants.len()
        invariant
            i <= participants@.len(),
            out@.len() == i,
            forall|j: int| 0 <= j < i ==> reports_participant(#[trigger] out@[j], participants@[j]),
        decreases participants.len() - i,
    {
        out.push(participant_report(&participants[i]));
        i = i + 1;
    }
    out
}

// ---------------------------------------------------------------------
// Events

/// The name an event's availability is printed by in event reports (the
/// name of EventKit's value).
pub open spec fn availability_value_text(a: EventAvailability) -> Seq<char> {
    match a {
        EventAvailability::NotSupported => "NotSupported"@,
        EventAvailability::Busy => "Busy"@,
        EventAvailability::Free => "Free"@,
        EventAvailability::Tentative => "Tentative"@,
        EventAvailability::Unavailable => "Unavailable"@,
    }
}

/// The name an event's availability is printed by in event reports.
pub fn availability_value_name(a: EventAvailability) -> (r: &'static str)
    ensures
        r@ == availability_value_text(a),
{
    match a {
        EventAvailability::NotSupported => "NotSupported",
        EventAvailability::Busy => "Busy",
        EventAvailability::Free => "Free",
        EventAvailability::Tentative => "Tentative",
        EventAvailability::Unavailable => "Unavailable",
    }
}

/// An instant rendered in the event's own time zone: none without a zone
/// or for a name that is not an IANA zone.
pub open spec fn in_event_zone(i: Instant, zone: Option<String>) -> Option<Seq<char>> {
    match zone {
        Some(z) => if is_iana_zone(z@) {
            Some(zone_rfc3339_text(i, z@))
        } else {
            None
        },
        None => None,
    }
}

/// Renders an instant in the event's own time zone, if it has a known one.
fn render_in_event_zone(i: Instant, zone: &Option<String>) -> (r: Option<String>)
    ensures
        match in_event_zone(i, *zone) {
            Some(t) => r is Some && r->Some_0@ == t,
            None => r is None,
        },
{
    match zone {
        Some(z) => match datetime_in_time_zone(i, z.as_str()) {
            Ok(t) => Some(t),
            Err(_) => None,
        },
        None => None,
    }
}

/// Renders an optional instant in the Mac's time zone.
fn render_local(i: Option<Instant>) -> (r: Option<String>)
    ensures
        r is Some == i is Some,
{
    match i {
        Some(t) => Some(local_rfc3339(t)),
        None => None,
    }
}

/// A participant report for each participant, and one for the organizer.
pub open spec fn reports_participants(
    r: EventReport,
    attendees: Seq<ParticipantInfo>,
    organizer: Option<ParticipantInfo>,
) -> bool {
    &&& r.attendees@.len() == attendees.len()
    &&& forall|i: int| 0 <= i < attendees.len() ==> reports_participant(#[trigger] r.attendees@[i], attendees[i])
    &&& r.organizer is Some == organizer is Some
    &&& organizer matches Some(o) ==> reports_participant(r.organizer->Some_0, o)
}

/// The report carries what the event listing says of the event; the
/// calendar details, write plan, alarms and recurrence are not filled in.
pub open spec fn reports_event(r: EventReport, e: EventItem) -> bool {
    &&& r.id == e.identifier
    &&& r.title == e.title
    &&& r.start == r.start_local
    &&& r.end == r.end_local
    &&& r.start_input is None
    &&& r.end_input is None
    &&& r.start_utc@ == utc_rfc3339_text(e.start_date)
    &&& r.end_utc@ == utc_rfc3339_text(e.end_date)
    &&& opt_text(r.start_in_event_time_zone) == in_event_zone(e.start_date, e.timezone)
    &&& opt_text(r.end_in_event_time_zone) == in_event_zone(e.end_date, e.timezone)
    &&& r.duration_seconds == whole_seconds_between(e.start_date, e.end_date)
    &&& r.all_day == e.all_day
    &&& r.calendar == e.calendar_title
    &&& r.calendar_id == e.calendar_id
    &&& r.calendar_selection is None
    &&& r.write_action is None
    &&& r.write_scope is None
    &&& r.location == e.location
    &&& r.notes == e.notes
    &&& r.url == e.url
    &&& r.status == e.status
    &&& r.availability@ == availability_value_text(e.availability)
    &&& r.has_notes == e.notes is Some
    &&& r.has_url == e.url is Some
    &&& r.alarm_count is None
    &&& r.recurrence_count is None
    &&& r.recurrence_rules is None
    &&& r.is_detached == e.is_detached
    &&& r.occurrence_date is Some == e.occurrence_date is Some
    &&& r.creation_date is Some == e.creation_date is Some
    &&& r.last_modified_date is Some == e.last_modified_date is Some
    &&& r.external_identifier == e.external_identifier
    &&& r.timezone == e.timezone
    &&& r.attachments_count == e.attachments_count
}

/// The text of an optional string.
pub open spec fn opt_text(o: Option<String>) -> Option<Seq<char>> {
    match o {
        Some(s) => Some(s@),
        None => None,
    }
}

/// No calendar details are filled in.
pub open spec fn without_calendar_details(r: EventReport) -> bool {
    r.calendar_source is None && r.calendar_source_id is None && r.calendar_type is None
        && r.allows_calendar_modifications is None
}

/// The report of a listed event with its attendees and organizer. The local
/// renderings (`start`, `end` and the dates) follow the Mac's time zone.
pub fn event_report_from(
    event: &EventItem,
    attendees: &Vec<ParticipantInfo>,
    organizer: &Option<ParticipantInfo>,
) -> (r: EventReport)
    requires
        in_chrono_range(event.start_date),
        in_chrono_range(event.end_date),
    ensures
        reports_event(r, *event),
        without_calendar_details(r),
        reports_participants(r, attendees@, *organizer),
{
    let start_local = local_rfc3339(event.start_date);
    let end_local = local_rfc3339(event.end_date);
    let organizer_report = match organizer {
        Some(o) => Some(participant_report(o)),
        None => None,
    };
    EventReport {
        id: copy_string(&event.identifier),
        title: copy_string(&event.title),
        start: copy_string(&start_local),
        end: copy_string(&end_local),
        start_input: None,
        end_input: None,
        start_utc: utc_datetime(event.start_date),
        end_utc: utc_datetime(event.end_date),
        start_local,
        end_local,
        start_in_event_time_zone: render_in_event_zone(event.start_date, &event.timezone),
        end_in_event_time_zone: render_in_event_zone(event.end_date, &event.timezone),
        duration_seconds: seconds_between(event.start_date, event.end_date),
        all_day: event.all_day,
        calendar: copy_opt_string(&event.calendar_title),
        calendar_id: copy_opt_string(&event.calendar_id),
        calendar_source: None,
        calendar_source_id: None,
        calendar_type: None,
        allows_calendar_modifications: None,
        calendar_selection: None,
        write_action: None,
        write_scope: None,
        location: copy_opt_string(&event.location),
        notes: copy_opt_string(&event.notes),
        url: copy_opt_string(&event.url),
        status: copy_string(&event.status),
        availability: availability_value_name(event.availability).to_string(),
        has_notes: event.notes.is_some(),
        has_url: event.url.is_some(),
        alarm_count: None,
        recurrence_count: None,
        recurrence_rules: None,
        is_detached: event.is_detached,
        occurrence_date: render_local(event.occurrence_date),
        creation_date: render_local(event.creation_date),
        last_modified_date: render_local(event.last_modified_date),
        external_identifier: copy_opt_string(&event.external_identifier),
        timezone: copy_opt_string(&event.timezone),
        attachments_count: event.attachments_count,
        attendees: participant_reports(attendees),
        organizer: organizer_report,
    }
}

/// The calendar whose identifier is the event's calendar id, if listed.
pub open spec fn listed_calendar_of(calendars: Seq<CalendarInfo>, e: EventItem) -> Option<int> {
    match e.calendar_id {
        Some(id) => first_with_identifier(calendars, id@),
        None => None,
    }
}

/// The report of a listed event, with the details of its calendar when the
/// calendar is among the listed ones: its source, source id, type and
/// whether it allows changes.
pub fn event_report(
    event: &EventItem,
    attendees: &Vec<ParticipantInfo>,
    organizer: &Option<ParticipantInfo>,
    calendars: &Vec<CalendarInfo>,
) -> (r: EventReport)
    requires
        in_chrono_range(event.start_date),
        in_chrono_range(event.end_date),
    ensures
        reports_event(r, *event),
        reports_participants(r, attendees@, *organizer),
        match listed_calendar_of(calendars@, *event) {
            Some(i) => {
                &&& r.calendar_source == calendars@[i].source
                &&& r.calendar_source_id == calendars@[i].source_id
                &&& r.calendar_type == Some(calendars@[i].calendar_type)
                &&& r.allows_calendar_modifications == Some(calendars@[i].allows_modifications)
            },
            None => without_calendar_details(r),
        },
{
    let mut report = event_report_from(event, attendees, organizer);
    let found = match &event.calendar_id {
        Some(id) => find_identifier(calendars, id.as_str()),
        None => None,
    };
    if let Some(i) = found {
        let calendar = &calendars[i];
        report.calendar_source = copy_opt_string(&calendar.source);
        report.calendar_source_id = copy_opt_string(&calendar.source_id);
        report.calendar_type = Some(copy_string(&calendar.calendar_type));
        report.allows_calendar_modifications = Some(calendar.allows_modifications);
    }
    report
}

// ---------------------------------------------------------------------
// Listing events

/// The message of an empty or inverted listing range.
pub open spec fn listing_range_text() -> Seq<char> {
    "--from must be before --to"@
}

/// A listing range must start before it ends.
pub fn ensure_listing_range(start: Instant, end: Instant) -> (r: Result<(), String>)
    ensures
        r is Ok == instant_before(start, end),
        r matches Err(m) ==> m@ == listing_range_text(),
{
    if is_before(start, end) {
        Ok(())
    } else {
        Err(text_of("--from must be before --to"))
    }
}

/// The identifiers of a list of calendars.
pub open spec fn identifiers_of(cals: Seq<CalendarInfo>) -> Seq<Seq<char>> {
    cals.map_values(|c: CalendarInfo| c.identifier@)
}

/// The calendars a read command is limited to: none when the selector names
/// no calendar (every calendar is read), else the identifiers of the
/// calendars the selector resolves to.
pub fn selected_calendar_ids(calendars: &[CalendarInfo], selector: &CalendarSelector) -> (r: Result<
    Option<Vec<String>>,
    String,
>)
    ensures
        selector.titles@.len() == 0 && selector.ids@.len() == 0 ==> r == Ok::<Option<Vec<String>>, String>(None),
        !(selector.titles@.len() == 0 && selector.ids@.len() == 0) && all_ids_present(calendars@, selector.ids@)
            && all_titles_unique(calendars@, *selector) ==> r is Ok && r->Ok_0 is Some && texts(r->Ok_0->Some_0@)
            == identifiers_of(unique_by_id(picked(calendars@, *selector))),
        forall|i: int|
            !(selector.titles@.len() == 0 && selector.ids@.len() == 0) && is_first_missing_id(
                calendars@,
                selector.ids@,
                i,
            ) ==> r is Err && r->Err_0@ == id_not_found_text(#[trigger] selector.ids@[i]@),
        forall|i: int|
            !(selector.titles@.len() == 0 && selector.ids@.len() == 0) && all_ids_present(calendars@, selector.ids@)
                && is_first_bad_title(calendars@, *selector, i) ==> r is Err && r->Err_0@ == bad_title_text(
                calendars@,
                *selector,
                #[trigger] selector.titles@[i]@,
            ),
{
    if selector.is_empty() {
        return Ok(None);
    }
    let resolved = resolve_calendars(calendars, selector)?;
    let mut ids: Vec<String> = Vec::new();
    let mut i: usize = 0;
    while i < resolved.len()
        invariant
            i <= resolved@.len(),
            texts(ids@) == identifiers_of(resolved@.take(i as int)),
        decreases resolved.len() - i,
    {
        let ghost before = ids@;
        ids.push(copy_string(&resolved[i].identifier));
        proof {
            let c = resolved@[i as int];
            assert(resolved@.take(i + 1) =~= resolved@.take(i as int).push(c));
            assert(texts(ids@) =~= texts(before).push(c.identifier@));
            assert(identifiers_of(resolved@.take(i + 1)) =~= identifiers_of(resolved@.take(i as int)).push(
                c.identifier@,
            ));
        }
        i = i + 1;
    }
    proof {
        assert(resolved@.take(resolved@.len() as int) =~= resolved@);
        let want = unique_by_id(picked(calendars@, *selector));
        if all_ids_present(calendars@, selector.ids@) && all_titles_unique(calendars@, *selector) {
            assert(identifiers_of(resolved@) =~= identifiers_of(want));
        }
    }
    Ok(Some(ids))
}

/// An event is listed when no calendars were selected or its calendar is
/// one of them.
pub open spec fn in_selection(e: EventItem, ids: Option<Seq<Seq<char>>>) -> bool {
    match ids {
        None => true,
        Some(ids) => match e.calendar_id {
            Some(id) => ids.contains(id@),
            None => false,
        },
    }
}

/// The listed events of the selected calendars, in order.
pub open spec fn events_in_selection(events: Seq<EventItem>, ids: Option<Seq<Seq<char>>>) -> Seq<EventItem>
    decreases events.len(),
{
    if events.len() == 0 {
        seq![]
    } else {
        let rest = events_in_selection(events.drop_last(), ids);
        if in_selection(events.last(), ids) {
            rest.push(events.last())
        } else {
            rest
        }
    }
}

/// The selection's identifiers as text.
pub open spec fn selection_texts(ids: Option<Vec<String>>) -> Option<Seq<Seq<char>>> {
    match ids {
        Some(v) => Some(texts(v@)),
        None => None,
    }
}

/// Whether some identifier of the list is the given one.
fn contains_text_id(ids: &Vec<String>, id: &String) -> (r: bool)
    ensures
        r == texts(ids@).contains(id@),
{
    let mut i: usize = 0;
    while i < ids.len()
        invariant
            i <= ids@.len(),
            forall|j: int| 0 <= j < i ==> ids@[j]@ != id@,
        decreases ids.len() - i,
    {
        if str_eq(ids[i].as_str(), id.as_str()) {
            assert(texts(ids@)[i as int] == id@);
            return true;
        }
        i = i + 1;
    }
    proof {
        if texts(ids@).contains(id@) {
            let k = choose|k: int| 0 <= k < texts(ids@).len() && texts(ids@)[k] == id@;
            assert(ids@[k]@ == id@);
        }
    }
    false
}

/// Keeps the events of the selected calendars (all of them when none was
/// selected), in order.
pub fn events_in_calendars(events: Vec<EventItem>, ids: &Option<Vec<String>>) -> (r: Vec<EventItem>)
    ensures
        r@ == events_in_selection(events@, selection_texts(*ids)),
{
    let mut out: Vec<EventItem> = Vec::new();
    let mut rest = events;
    let ghost all = rest@;
    let n = rest.len();
    let mut i: usize = 0;
    while rest.len() > 0
        invariant
            n == all.len(),
            i + rest@.len() == n,
            rest@ == all.subrange(i as int, n as int),
            out@ == events_in_selection(all.take(i as int), selection_texts(*ids)),
        decreases rest.len(),
    {
        let e = rest.remove(0);
        proof {
            assert(e == all[i as int]);
            assert(rest@ =~= all.subrange(i + 1, n as int));
            assert(all.take(i + 1).drop_last() =~= all.take(i as int));
            assert(all.take(i + 1).last() == all[i as int]);
        }
        let keep = match ids {
            None => true,
            Some(v) => match &e.calendar_id {
                Some(id) => contains_text_id(v, id),
                None => false,
            },
        };
        if keep {
            out.push(e);
        }
        i = i + 1;
    }
    proof {
        assert(all.take(n as int) =~= all);
    }
    out
}

/// What reading a listing range gives: the start, then the end, each
/// failure with its input in front of the cause; then the range must not be
/// empty.
pub open spec fn listing_range_outcome(from: Seq<char>, to: Seq<char>, r: Result<(Instant, Instant), String>) -> bool {
    exists|sr: Result<Instant, String>, er: Result<Instant, String>|
        #[trigger] start_parse_outcome(from, None, sr) && #[trigger] end_parse_outcome(to, None, er) && match sr {
            Err(c) => r is Err && r->Err_0@ == "invalid --from: "@ + from + ": "@ + c@,
            Ok(s) => match er {
                Err(c) => r is Err && r->Err_0@ == "invalid --to: "@ + to + ": "@ + c@,
                Ok(e) => if instant_before(s, e) {
                    r == Ok::<(Instant, Instant), String>((s, e))
                } else {
                    r is Err && r->Err_0@ == listing_range_text()
                },
            },
        }
}

/// Reads the range of `list` and `search` in the Mac's zone.
pub fn listing_range(from: &str, to: &str) -> (r: Result<(Instant, Instant), String>)
    ensures
        listing_range_outcome(from@, to@, r),
{
    let sr = parse_start_datetime(from);
    let er = parse_end_datetime(to);
    let ghost sv = sr;
    let ghost ev = er;
    assert(start_parse_outcome(from@, None, sv));
    assert(end_parse_outcome(to@, None, ev));
    let start = match sr {
        Err(c) => {
            return Err(with_cause("invalid --from: ", from, c.as_str()));
        },
        Ok(s) => s,
    };
    let end = match er {
        Err(c) => {
            return Err(with_cause("invalid --to: ", to, c.as_str()));
        },
        Ok(e) => e,
    };
    ensure_listing_range(start, end)?;
    Ok((start, end))
}

/// The range of `upcoming`: from now for the given number of days.
pub fn upcoming_range(now: Instant, days: i64) -> (r: Result<(Instant, Instant), String>)
    requires
        in_chrono_range(now),
        days > 0 ==> now.seconds + days * 86400 <= 8_400_000_000_000,
    ensures
        days <= 0 ==> r is Err && r->Err_0@ == "--days must be greater than zero"@,
        days > 0 ==> r == Ok::<(Instant, Instant), String>(
            (now, Instant { seconds: (now.seconds + days * 86400) as i64, nanos: now.nanos }),
        ),
{
    if days <= 0 {
        return Err(text_of("--days must be greater than zero"));
    }
    Ok((now, Instant { seconds: now.seconds + days * 86400, nanos: now.nanos }))
}

/// Whether a listed event belongs to the selected calendars.
pub fn event_in_selection(event: &EventItem, ids: &Option<Vec<String>>) -> (r: bool)
    ensures
        r == in_selection(*event, selection_texts(*ids)),
{
    match ids {
        None => true,
        Some(v) => match &event.calendar_id {
            Some(id) => contains_text_id(v, id),
            None => false,
        },
    }
}

/// Adds what was read of an event's alarms and recurrence: the number of
/// alarms and the rules.
pub fn attach_details(report: &mut EventReport, alarm_count: usize, rules: Vec<EventRecurrenceReport>)
    ensures
        *final(report) == (EventReport {
            alarm_count: Some(alarm_count),
            recurrence_count: Some(rules@.len() as usize),
            recurrence_rules: Some(rules),
            ..*old(report)
        }),
{
    report.alarm_count = Some(alarm_count);
    report.recurrence_count = Some(rules.len());
    report.recurrence_rules = Some(rules);
}

/// Records how a write produced the event: how its calendar was chosen,
/// what the write did, and the times as given.
pub fn mark_written(
    report: &mut EventReport,
    selection: Option<CalendarSelection>,
    action: &str,
    start_input: Option<String>,
    end_input: Option<String>,
)
    ensures
        final(report).write_action is Some && final(report).write_action->Some_0@ == action@,
        *final(report) == (EventReport {
            calendar_selection: selection,
            write_action: final(report).write_action,
            start_input,
            end_input,
            ..*old(report)
        }),
{
    report.calendar_selection = selection;
    report.write_action = Some(text_of(action));
    report.start_input = start_input;
    report.end_input = end_input;
}

} // verus!
