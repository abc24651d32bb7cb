//! The `add` command's inputs: individual flags or a JSON draft file, and
//! the checks that make one consistent event description of them.

use crate::cli::{AvailabilityArg, EventJsonRecurrence, EventRecurrenceArgs, IfExistsArg, WriteCalendarSelectorArgs};
use crate::models::EventRecurrenceReport;
use crate::recurrence::{event_recurrence_args_is_empty, parse_event_recurrence, recurrence_args_empty, recurrence_outcome};
use crate::text::text_of;
use vstd::prelude::*;

verus! {

/// The `add` command as given: individual fields, or a JSON draft file and
/// the duplicate policy flags.
pub struct AddCommandInput {
    pub title: Option<String>,
    pub start: Option<String>,
    pub end: Option<String>,
    pub calendar_selector: WriteCalendarSelectorArgs,
    pub notes: Option<String>,
    pub notes_file: Option<String>,
    pub json_file: Option<String>,
    pub location: Option<String>,
    pub url: Option<String>,
    pub all_day: bool,
    pub availability: Option<AvailabilityArg>,
    pub time_zone: Option<String>,
    pub alarm_minutes_before: Vec<i64>,
    pub recurrence: EventRecurrenceArgs,
    pub if_exists: IfExistsArg,
    pub duplicate_window_seconds: i64,
    pub dry_run: bool,
}

/// An event described in a JSON draft file.
pub struct JsonAddDraft {
    pub title: String,
    pub start: String,
    pub end: String,
    pub calendar: Option<String>,
    pub calendar_id: Option<String>,
    pub calendar_source: Option<String>,
    pub source_id: Option<String>,
    pub notes: Option<String>,
    pub location: Option<String>,
    pub url: Option<String>,
    pub all_day: bool,
    pub timed: bool,
    pub availability: Option<AvailabilityArg>,
    pub time_zone: Option<String>,
    pub alarm_minutes_before: Vec<i64>,
    pub recurrence: Option<EventJsonRecurrence>,
}

/// One consistent description of the event to add.
pub struct AddEventInput {
    pub title: String,
    pub start: String,
    pub end: String,
    pub calendar_selector: WriteCalendarSelectorArgs,
    pub notes: Option<String>,
    pub location: Option<String>,
    pub url: Option<String>,
    pub all_day: bool,
    pub availability: Option<AvailabilityArg>,
    pub time_zone: Option<String>,
    pub alarm_minutes_before: Vec<i64>,
    pub recurrence: Option<EventRecurrenceReport>,
    pub if_exists: IfExistsArg,
    pub duplicate_window_seconds: i64,
    pub dry_run: bool,
}

/// The files the command names, as the application read them: the JSON
/// draft (or the message of its read or parse failure) and the notes file.
pub struct AddCommandFiles {
    pub json_draft: Option<Result<JsonAddDraft, String>>,
    pub notes: Option<Result<String, String>>,
}

/// The message for a JSON draft combined with individual fields.
pub open spec fn json_conflict_text() -> Seq<char> {
    "--json-file cannot be combined with individual event fields; keep duplicate policy, tolerance, and dry-run flags on the command"@
}

/// The message for a JSON draft that is both all-day and timed.
pub open spec fn json_all_day_timed_text() -> Seq<char> {
    "JSON event cannot set both all_day and timed to true"@
}

/// Some individual event field is given alongside a JSON draft.
pub open spec fn has_individual_fields(input: AddCommandInput) -> bool {
    input.title is Some || input.start is Some || input.end is Some || input.calendar_selector.calendar is Some
        || input.calendar_selector.calendar_id is Some || input.notes is Some || input.notes_file is Some
        || input.location is Some || input.url is Some || input.all_day || input.availability is Some
        || input.time_zone is Some || input.alarm_minutes_before@.len() > 0 || !recurrence_args_empty(
        input.recurrence,
    )
}

/// The first rule a JSON draft's calendar fields break.
pub open spec fn json_selector_error(draft: JsonAddDraft) -> Option<Seq<char>> {
    if draft.calendar_id is Some && (draft.calendar is Some || draft.calendar_source is Some || draft.source_id is Some) {
        Some("JSON calendar_id cannot be combined with calendar, calendar_source, or source_id"@)
    } else if draft.calendar_source is Some && draft.source_id is Some {
        Some("JSON calendar_source and source_id cannot be combined"@)
    } else if (draft.calendar_source is Some || draft.source_id is Some) && draft.calendar is None {
        Some("JSON calendar_source and source_id require calendar"@)
    } else {
        None
    }
}

/// Checks the calendar fields of a JSON draft.
pub fn validate_json_selector(draft: &JsonAddDraft) -> (r: Result<(), String>)
    ensures
        match json_selector_error(*draft) {
            Some(m) => r is Err && r->Err_0@ == m,
            None => r is Ok,
        },
{
    if draft.calendar_id.is_some() && (draft.calendar.is_some() || draft.calendar_source.is_some()
        || draft.source_id.is_some()) {
        return Err(text_of("JSON calendar_id cannot be combined with calendar, calendar_source, or source_id"));
    }
    if draft.calendar_source.is_some() && draft.source_id.is_some() {
        return Err(text_of("JSON calendar_source and source_id cannot be combined"));
    }
    if (draft.calendar_source.is_some() || draft.source_id.is_some()) && draft.calendar.is_none() {
        return Err(text_of("JSON calendar_source and source_id require calendar"));
    }
    Ok(())
}

/// The recurrence options a JSON recurrence object stands for.
pub open spec fn recurrence_args_of(r: EventJsonRecurrence) -> EventRecurrenceArgs {
    EventRecurrenceArgs {
        repeat: Some(r.frequency),
        interval: r.interval,
        weekdays: r.weekdays,
        month_days: r.month_days,
        count: r.count,
        until: r.until,
    }
}

/// The event described by a JSON draft, with its recurrence already read.
pub open spec fn from_draft(
    r: AddEventInput,
    draft: JsonAddDraft,
    recurrence: Option<EventRecurrenceReport>,
    input: AddCommandInput,
) -> bool {
    &&& r.title == draft.title
    &&& r.start == draft.start
    &&& r.end == draft.end
    &&& r.calendar_selector == (WriteCalendarSelectorArgs {
        calendar: draft.calendar,
        calendar_id: draft.calendar_id,
        calendar_source: draft.calendar_source,
        source_id: draft.source_id,
    })
    &&& r.notes == draft.notes
    &&& r.location == draft.location
    &&& r.url == draft.url
    &&& r.all_day == (draft.all_day && !draft.timed)
    &&& r.availability == draft.availability
    &&& r.time_zone == draft.time_zone
    &&& r.alarm_minutes_before == draft.alarm_minutes_before
    &&& r.recurrence == recurrence
    &&& r.if_exists == input.if_exists
    &&& r.duplicate_window_seconds == input.duplicate_window_seconds
    &&& r.dry_run == input.dry_run
}

/// The event described by the individual fields, with the notes and the
/// recurrence already read.
pub open spec fn from_fields(
    r: AddEventInput,
    input: AddCommandInput,
    notes: Option<String>,
    recurrence: Option<EventRecurrenceReport>,
) -> bool {
    &&& r.title == input.title->Some_0
    &&& r.start == input.start->Some_0
    &&& r.end == input.end->Some_0
    &&& r.calendar_selector == input.calendar_selector
    &&& r.notes == notes
    &&& r.location == input.location
    &&& r.url == input.url
    &&& r.all_day == input.all_day
    &&& r.availability == input.availability
    &&& r.time_zone == input.time_zone
    &&& r.alarm_minutes_before == input.alarm_minutes_before
    &&& r.recurrence == recurrence
    &&& r.if_exists == input.if_exists
    &&& r.duplicate_window_seconds == input.duplicate_window_seconds
    &&& r.dry_run == input.dry_run
}

/// The recurrence read from a JSON draft: none without a recurrence object,
/// else what reading its options gives (which may be an error).
pub open spec fn draft_recurrence_outcome(draft: JsonAddDraft, rr: Result<Option<EventRecurrenceReport>, String>) -> bool {
    match draft.recurrence {
        None => rr == Ok::<Option<EventRecurrenceReport>, String>(None),
        Some(rec) => recurrence_outcome(recurrence_args_of(rec), draft.start@, rr),
    }
}

/// Refuses a JSON draft file combined with individual event fields; the
/// application asks this before it reads any file the command names.
pub fn check_json_file_fields(input: &AddCommandInput) -> (r: Result<(), String>)
    ensures
        r is Err == (input.json_file is Some && has_individual_fields(*input)),
        r matches Err(m) ==> m@ == json_conflict_text(),
{
    if input.json_file.is_some() {
        if input.title.is_some() || input.start.is_some() || input.end.is_some()
            || input.calendar_selector.calendar.is_some() || input.calendar_selector.calendar_id.is_some()
            || input.notes.is_some() || input.notes_file.is_some() || input.location.is_some()
            || input.url.is_some() || input.all_day || input.availability.is_some() || input.time_zone.is_some()
            || input.alarm_minutes_before.len() > 0 || !event_recurrence_args_is_empty(&input.recurrence) {
            return Err(
                text_of(
                    "--json-file cannot be combined with individual event fields; keep duplicate policy, tolerance, and dry-run flags on the command",
                ),
            );
        }
    }
    Ok(())
}

/// Turns the `add` command into one event description. A JSON draft may
/// not be combined with individual fields and may not be both all-day and
/// timed; its calendar fields must be consistent. Without one, the title,
/// start and end are required, and a notes file replaces `--notes`. The
/// recurrence is read against the start in the given time zone. `files`
/// holds what the application read of the named files.
pub fn resolve_add_command(input: AddCommandInput, files: AddCommandFiles) -> (r: Result<AddEventInput, String>)
    requires
        input.json_file is Some ==> files.json_draft is Some,
        input.json_file is None && input.notes_file is Some ==> files.notes is Some,
    ensures
        input.json_file is Some ==> {
            if has_individual_fields(input) {
                r is Err && r->Err_0@ == json_conflict_text()
            } else {
                match files.json_draft->Some_0 {
                    Err(m) => r == Err::<AddEventInput, String>(m),
                    Ok(draft) => if draft.all_day && draft.timed {
                        r is Err && r->Err_0@ == json_all_day_timed_text()
                    } else if json_selector_error(draft) is Some {
                        r is Err && r->Err_0@ == json_selector_error(draft)->Some_0
                    } else {
                        exists|rr: Result<Option<EventRecurrenceReport>, String>|
                            #[trigger] draft_recurrence_outcome(draft, rr) && match rr {
                                Err(m) => r == Err::<AddEventInput, String>(m),
                                Ok(rec) => r is Ok && from_draft(r->Ok_0, draft, rec, input),
                            }
                    },
                }
            }
        },
        input.json_file is None ==> {
            let notes = match input.notes_file {
                Some(_) => match files.notes->Some_0 {
                    Ok(n) => Ok(Some(n)),
                    Err(m) => Err(m),
                },
                None => Ok::<Option<String>, String>(input.notes),
            };
            if notes is Err {
                r == Err::<AddEventInput, String>(notes->Err_0)
            } else if input.title is None {
                r is Err && r->Err_0@ == "event title is required unless --json-file is used"@
            } else if input.start is None {
                r is Err && r->Err_0@ == "--start is required unless --json-file is used"@
            } else if input.end is None {
                r is Err && r->Err_0@ == "--end is required unless --json-file is used"@
            } else {
                exists|rr: Result<Option<EventRecurrenceReport>, String>|
                    #[trigger] recurrence_outcome(input.recurrence, input.start->Some_0@, rr) && match rr {
                        Err(m) => r == Err::<AddEventInput, String>(m),
                        Ok(rec) => r is Ok && from_fields(r->Ok_0, input, notes->Ok_0, rec),
                    }
            }
        },
{
    if input.json_file.is_some() {
        if input.title.is_some() || input.start.is_some() || input.end.is_some()
            || input.calendar_selector.calendar.is_some() || input.calendar_selector.calendar_id.is_some()
            || input.notes.is_some() || input.notes_file.is_some() || input.location.is_some()
            || input.url.is_some() || input.all_day || input.availability.is_some() || input.time_zone.is_some()
            || input.alarm_minutes_before.len() > 0 || !event_recurrence_args_is_empty(&input.recurrence) {
            return Err(
                text_of(
                    "--json-file cannot be combined with individual event fields; keep duplicate policy, tolerance, and dry-run flags on the command",
                ),
            );
        }
        let draft = match files.json_draft {
            Some(Ok(d)) => d,
            Some(Err(m)) => {
                return Err(m);
            },
            None => {
                return Err(String::new());
            },
        };
        if draft.all_day && draft.timed {
            return Err(text_of("JSON event cannot set both all_day and timed to true"));
        }
        validate_json_selector(&draft)?;
        let ghost before = draft;
        let JsonAddDraft {
            title,
            start,
            end,
            calendar,
            calendar_id,
            calendar_source,
            source_id,
            notes,
            location,
            url,
            all_day,
            timed,
            availability,
            time_zone,
            alarm_minutes_before,
            recurrence: json_recurrence,
        } = draft;
        let recurrence = match json_recurrence {
            None => {
                let rr: Result<Option<EventRecurrenceReport>, String> = Ok(None);
                assert(draft_recurrence_outcome(before, rr));
                None
            },
            Some(rec) => {
                let args = EventRecurrenceArgs {
                    repeat: Some(rec.frequency),
                    interval: rec.interval,
                    weekdays: rec.weekdays,
                    month_days: rec.month_days,
                    count: rec.count,
                    until: rec.until,
                };
                let rr = parse_event_recurrence(&args, start.as_str(), as_str_opt(&time_zone));
                assert(draft_recurrence_outcome(before, rr));
                match rr {
                    Err(m) => {
                        return Err(m);
                    },
                    Ok(rec) => rec,
                }
            },
        };
        return Ok(
            AddEventInput {
                title,
                start,
                end,
                calendar_selector: WriteCalendarSelectorArgs { calendar, calendar_id, calendar_source, source_id },
                notes,
                location,
                url,
                all_day: all_day && !timed,
                availability,
                time_zone,
                alarm_minutes_before,
                recurrence,
                if_exists: input.if_exists,
                duplicate_window_seconds: input.duplicate_window_seconds,
                dry_run: input.dry_run,
            },
        );
    }
    let notes = match &input.notes_file {
        Some(_) => match files.notes {
            Some(Ok(n)) => Some(n),
            Some(Err(m)) => {
                return Err(m);
            },
            None => {
                return Err(String::new());
            },
        },
        None => input.notes,
    };
    let title = match input.title {
        Some(t) => t,
        None => {
            return Err(text_of("event title is required unless --json-file is used"));
        },
    };
    let start = match input.start {
        Some(s) => s,
        None => {
            return Err(text_of("--start is required unless --json-file is used"));
        },
    };
    let end = match input.end {
        Some(e) => e,
        None => {
            return Err(text_of("--end is required unless --json-file is used"));
        },
    };
    let rr = parse_event_recurrence(&input.recurrence, start.as_str(), as_str_opt(&input.time_zone));
    let recurrence = match rr {
        Err(m) => {
            return Err(m);
        },
        Ok(rec) => rec,
    };
    Ok(
        AddEventInput {
            title,
            start,
            end,
            calendar_selector: input.calendar_selector,
            notes,
            location: input.location,
            url: input.url,
            all_day: input.all_day,
            availability: input.availability,
            time_zone: input.time_zone,
            alarm_minutes_before: input.alarm_minutes_before,
            recurrence,
            if_exists: input.if_exists,
            duplicate_window_seconds: input.duplicate_window_seconds,
            dry_run: input.dry_run,
        },
    )
}

/// An optional string as an optional slice.
fn as_str_opt(o: &Option<String>) -> (r: Option<&str>)
    ensures
        r is Some == o is Some,
        r matches Some(s) ==> s@ == o->Some_0@,
{
    match o {
        Some(s) => Some(s.as_str()),
        None => None,
    }
}

} // verus!
