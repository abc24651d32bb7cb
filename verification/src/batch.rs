//! Event batches: how a row's fields combine with the batch defaults, the
//! preflight checks that fail rows sharing a client id or an event identity,
//! the per-row plan when a matching event exists, and the summary counts.

use crate::calendar::{
    calendar_selection_for_write, ensure_availability_supported, ensure_valid_event_range, negative_alarm_text,
    resolve_target_calendar, validate_alarm_minutes, write_selector_given,
};
use crate::cli::{
    AvailabilityArg, EventJsonRecurrence, EventRecurrenceArgs, IfExistsArg, WriteCalendarSelectorArgs,
};
use crate::dates::{
    Instant, end_parse_outcome, instant_before, is_calendar_date, is_iana_zone, parse_end_datetime_in_time_zone,
    parse_start_datetime_in_time_zone, start_parse_outcome, unknown_zone_text, validate_time_zone, zone_text,
};
use crate::eventkit::{CalendarInfo, EventAvailability, EventItem, copy_opt_string};
use crate::models::{
    BatchItemReport, BatchSummaryReport, CalendarSelection, EventDraftReport, EventRecurrenceReport,
};
use crate::recurrence::{parse_event_recurrence, validate_recurring_all_day_inputs};
use crate::text::{debug_quoted, debug_text, decimal, joined, push_decimal, text_of, with_cause};
use vstd::prelude::*;
use vstd::string::*;

verus! {

/// A field of a batch row that distinguishes "not given" from an explicit
/// `null`.
pub enum PatchValue<T> {
    Missing,
    Null,
    Value(T),
}

/// Settings every row inherits unless it sets its own.
pub struct BatchDefaults {
    pub calendar: Option<String>,
    pub calendar_id: Option<String>,
    pub calendar_source: Option<String>,
    pub source_id: Option<String>,
    pub time_zone: Option<String>,
    pub availability: Option<AvailabilityArg>,
    pub all_day: Option<bool>,
    pub alarm_minutes_before: Option<Vec<i64>>,
    pub recurrence: Option<EventJsonRecurrence>,
}

impl Default for BatchDefaults {
    fn default() -> (r: Self)
        ensures
            r.calendar is None && r.calendar_id is None && r.calendar_source is None && r.source_id is None,
            r.time_zone is None && r.availability is None && r.all_day is None,
            r.alarm_minutes_before is None && r.recurrence is None,
    {
        BatchDefaults {
            calendar: None,
            calendar_id: None,
            calendar_source: None,
            source_id: None,
            time_zone: None,
            availability: None,
            all_day: None,
            alarm_minutes_before: None,
            recurrence: None,
        }
    }
}

/// One row of an event batch.
pub struct BatchEvent {
    pub client_id: Option<String>,
    pub title: String,
    pub start: String,
    pub end: String,
    pub calendar: Option<String>,
    pub calendar_id: Option<String>,
    pub calendar_source: Option<String>,
    pub source_id: Option<String>,
    pub notes: PatchValue<String>,
    pub location: PatchValue<String>,
    pub url: PatchValue<String>,
    pub time_zone: PatchValue<String>,
    pub availability: Option<AvailabilityArg>,
    pub all_day: Option<bool>,
    pub alarm_minutes_before: Option<Vec<i64>>,
    pub recurrence: PatchValue<EventJsonRecurrence>,
}

/// What makes two rows the same event: calendar, title, UTC start and end,
/// and the all-day flag.
pub struct EventIdentity {
    pub calendar_id: String,
    pub title: String,
    pub start_utc: String,
    pub end_utc: String,
    pub all_day: bool,
}

/// What a row will do.
#[derive(Clone, Copy, PartialEq, Eq, Structural)]
pub enum PlannedAction {
    Create,
    Skip,
    Update,
}

/// A row resolved against EventKit: its calendar, times, patches, and the
/// existing event it matched, if any.
pub struct PreparedEvent {
    pub identity: EventIdentity,
    pub client_id: Option<String>,
    pub title: String,
    pub start_input: String,
    pub end_input: String,
    pub start: Instant,
    pub end: Instant,
    pub calendar: CalendarInfo,
    pub calendar_selection: CalendarSelection,
    pub notes: PatchValue<String>,
    pub location: PatchValue<String>,
    pub url: PatchValue<String>,
    pub time_zone: PatchValue<String>,
    pub availability: Option<EventAvailability>,
    pub all_day: bool,
    pub all_day_patch: Option<bool>,
    pub alarms: Option<Vec<i64>>,
    pub recurrence: Option<EventRecurrenceReport>,
    pub matched: Option<EventItem>,
    pub action: Option<PlannedAction>,
    pub policy_error: Option<String>,
}

/// A row through the preflight: its position, client id, parsed row, plan,
/// and the first error found.
pub struct BatchSlot {
    pub index: usize,
    pub client_id: Option<String>,
    pub event: Option<BatchEvent>,
    pub prepared: Option<PreparedEvent>,
    pub error: Option<String>,
}

/// The planned action and policy error when one existing event matches.
pub fn existing_match_action(if_exists: IfExistsArg, event_id: &str) -> (r: (
    Option<PlannedAction>,
    Option<String>,
))
    ensures
        if_exists == IfExistsArg::Skip ==> r.0 == Some(PlannedAction::Skip) && r.1 is None,
        if_exists == IfExistsArg::Update ==> r.0 == Some(PlannedAction::Update) && r.1 is None,
        if_exists == IfExistsArg::Error ==> r.0 is None && r.1 is Some && r.1->Some_0@
            == "matching event already exists ["@ + event_id@
            + "]; pass --if-exists skip or --if-exists update"@,
{
    match if_exists {
        IfExistsArg::Skip => (Some(PlannedAction::Skip), None),
        IfExistsArg::Update => (Some(PlannedAction::Update), None),
        IfExistsArg::Error => {
            let mut m = text_of("matching event already exists [");
            m.append(event_id);
            m.append("]; pass --if-exists skip or --if-exists update");
            (None, Some(m))
        },
    }
}

/// The messages of the selector field rules.
pub open spec fn id_conflict_text() -> Seq<char> {
    "calendar_id cannot be combined with calendar, calendar_source, or source_id"@
}

pub open spec fn qualifier_conflict_text() -> Seq<char> {
    "calendar_source and source_id cannot be combined"@
}

pub open spec fn qualifier_needs_title_text() -> Seq<char> {
    "calendar_source and source_id require calendar"@
}

/// The first rule a selector's fields break: an id excludes every other
/// field, the two qualifiers exclude each other, and a qualifier needs a title.
pub open spec fn selector_fields_error(
    calendar: bool,
    calendar_id: bool,
    calendar_source: bool,
    source_id: bool,
) -> Option<Seq<char>> {
    if calendar_id && (calendar || calendar_source || source_id) {
        Some(id_conflict_text())
    } else if calendar_source && source_id {
        Some(qualifier_conflict_text())
    } else if (calendar_source || source_id) && !calendar {
        Some(qualifier_needs_title_text())
    } else {
        None
    }
}

/// Checks the combination of calendar selector fields.
pub fn validate_selector_fields(
    calendar: Option<&str>,
    calendar_id: Option<&str>,
    calendar_source: Option<&str>,
    source_id: Option<&str>,
) -> (r: Result<(), String>)
    ensures
        match selector_fields_error(
            calendar is Some,
            calendar_id is Some,
            calendar_source is Some,
            source_id is Some,
        ) {
            Some(m) => r is Err && r->Err_0@ == m,
            None => r is Ok,
        },
{
    if calendar_id.is_some() && (calendar.is_some() || calendar_source.is_some() || source_id.is_some()) {
        return Err(text_of("calendar_id cannot be combined with calendar, calendar_source, or source_id"));
    }
    if calendar_source.is_some() && source_id.is_some() {
        return Err(text_of("calendar_source and source_id cannot be combined"));
    }
    if (calendar_source.is_some() || source_id.is_some()) && calendar.is_none() {
        return Err(text_of("calendar_source and source_id require calendar"));
    }
    Ok(())
}

/// An optional string as an optional slice.
fn as_deref(o: &Option<String>) -> (r: Option<&str>)
    ensures
        r is Some == o is Some,
        r matches Some(s) ==> s@ == o->Some_0@,
{
    match o {
        Some(s) => Some(s.as_str()),
        None => None,
    }
}

/// The row's selector if it gives any selector field, else the defaults'.
pub open spec fn row_has_selector(event: BatchEvent) -> bool {
    event.calendar is Some || event.calendar_id is Some || event.calendar_source is Some
        || event.source_id is Some
}

/// The selector a row writes with: all of the row's selector fields when it
/// gives any, else all of the defaults'; the combination must be valid.
pub fn merged_calendar_selector(defaults: &BatchDefaults, event: &BatchEvent) -> (r: Result<
    WriteCalendarSelectorArgs,
    String,
>)
    ensures
        ({
            let (c, i, s, d) = if row_has_selector(*event) {
                (event.calendar, event.calendar_id, event.calendar_source, event.source_id)
            } else {
                (defaults.calendar, defaults.calendar_id, defaults.calendar_source, defaults.source_id)
            };
            match selector_fields_error(c is Some, i is Some, s is Some, d is Some) {
                Some(m) => r is Err && r->Err_0@ == m,
                None => r is Ok && r->Ok_0.calendar == c && r->Ok_0.calendar_id == i
                    && r->Ok_0.calendar_source == s && r->Ok_0.source_id == d,
            }
        }),
{
    let event_has_selector = event.calendar.is_some() || event.calendar_id.is_some()
        || event.calendar_source.is_some() || event.source_id.is_some();
    let (calendar, calendar_id, calendar_source, source_id) = if event_has_selector {
        (
            copy_opt_string(&event.calendar),
            copy_opt_string(&event.calendar_id),
            copy_opt_string(&event.calendar_source),
            copy_opt_string(&event.source_id),
        )
    } else {
        (
            copy_opt_string(&defaults.calendar),
            copy_opt_string(&defaults.calendar_id),
            copy_opt_string(&defaults.calendar_source),
            copy_opt_string(&defaults.source_id),
        )
    };
    validate_selector_fields(
        as_deref(&calendar),
        as_deref(&calendar_id),
        as_deref(&calendar_source),
        as_deref(&source_id),
    )?;
    Ok(WriteCalendarSelectorArgs { calendar, calendar_id, calendar_source, source_id })
}

/// The time zone a row uses: its own value or `null` wins; a missing value
/// takes the default (itself missing when there is none).
pub fn merged_time_zone(defaults: &BatchDefaults, event: &PatchValue<String>) -> (r: PatchValue<String>)
    ensures
        match *event {
            PatchValue::Missing => match defaults.time_zone {
                Some(z) => r == PatchValue::Value(z),
                None => r == PatchValue::<String>::Missing,
            },
            PatchValue::Null => r == PatchValue::<String>::Null,
            PatchValue::Value(v) => r == PatchValue::Value(v),
        },
{
    match event {
        PatchValue::Missing => match &defaults.time_zone {
            Some(z) => PatchValue::Value(z.clone()),
            None => PatchValue::Missing,
        },
        PatchValue::Null => PatchValue::Null,
        PatchValue::Value(v) => PatchValue::Value(v.clone()),
    }
}

/// Whether a row recurs after merging with the defaults (its own rule or
/// `null` wins; a missing rule takes the default's).
pub open spec fn merged_recurrence_present(defaults: BatchDefaults, event: PatchValue<EventJsonRecurrence>) -> bool {
    match event {
        PatchValue::Missing => defaults.recurrence is Some,
        PatchValue::Null => false,
        PatchValue::Value(_) => true,
    }
}

/// A copy of a recurrence object.
fn copy_recurrence(r: &EventJsonRecurrence) -> (c: EventJsonRecurrence)
    ensures
        c.frequency == r.frequency,
        c.interval == r.interval,
        c.weekdays@ == r.weekdays@,
        c.month_days@ == r.month_days@,
        c.count == r.count,
        c.until == r.until,
{
    EventJsonRecurrence {
        frequency: r.frequency,
        interval: r.interval,
        weekdays: r.weekdays.clone(),
        month_days: r.month_days.clone(),
        count: r.count,
        until: copy_opt_string(&r.until),
    }
}

/// The recurrence a row uses: its own rule or `null` wins; a missing rule
/// takes the default's.
pub fn merged_recurrence(defaults: &BatchDefaults, event: &PatchValue<EventJsonRecurrence>) -> (r:
    PatchValue<EventJsonRecurrence>)
    ensures
        (r is Value) == merged_recurrence_present(*defaults, *event),
        r is Missing == (*event is Missing && defaults.recurrence is None),
        r matches PatchValue::Value(v) ==> {
            let src = match *event {
                PatchValue::Value(e) => e,
                _ => defaults.recurrence->Some_0,
            };
            v.frequency == src.frequency && v.interval == src.interval && v.weekdays@ == src.weekdays@
                && v.month_days@ == src.month_days@ && v.count == src.count && v.until == src.until
        },
{
    match event {
        PatchValue::Missing => match &defaults.recurrence {
            Some(d) => PatchValue::Value(copy_recurrence(d)),
            None => PatchValue::Missing,
        },
        PatchValue::Null => PatchValue::Null,
        PatchValue::Value(v) => PatchValue::Value(copy_recurrence(v)),
    }
}

/// The value a patch sets, if any.
pub fn patch_value(value: &PatchValue<String>) -> (r: Option<&str>)
    ensures
        match *value {
            PatchValue::Value(v) => r is Some && r->Some_0@ == v@,
            _ => r is None,
        },
{
    match value {
        PatchValue::Value(v) => Some(v.as_str()),
        PatchValue::Missing | PatchValue::Null => None,
    }
}

/// A patch as a nullable field update: missing leaves the field, `null`
/// clears it, a value sets it.
pub fn patch_ref(value: &PatchValue<String>) -> (r: Option<Option<&str>>)
    ensures
        match *value {
            PatchValue::Missing => r is None,
            PatchValue::Null => r == Some(None::<&str>),
            PatchValue::Value(v) => r is Some && r->Some_0 is Some && r->Some_0->Some_0@ == v@,
        },
{
    match value {
        PatchValue::Missing => None,
        PatchValue::Null => Some(None),
        PatchValue::Value(v) => Some(Some(v.as_str())),
    }
}

/// Whether a field holds a value after a patch.
pub fn patched_presence(current: Option<&str>, value: &PatchValue<String>) -> (r: bool)
    ensures
        r == match *value {
            PatchValue::Missing => current is Some,
            PatchValue::Null => false,
            PatchValue::Value(_) => true,
        },
{
    match value {
        PatchValue::Missing => current.is_some(),
        PatchValue::Null => false,
        PatchValue::Value(_) => true,
    }
}

/// The name of an `--if-exists` policy.
pub open spec fn if_exists_text(value: IfExistsArg) -> Seq<char> {
    match value {
        IfExistsArg::Skip => "skip"@,
        IfExistsArg::Update => "update"@,
        IfExistsArg::Error => "error"@,
    }
}

/// The name of an `--if-exists` policy.
pub fn if_exists_name(value: IfExistsArg) -> (r: &'static str)
    ensures
        r@ == if_exists_text(value),
{
    match value {
        IfExistsArg::Skip => "skip",
        IfExistsArg::Update => "update",
        IfExistsArg::Error => "error",
    }
}

/// The statuses a batch item can have.
pub open spec fn known_status(s: Seq<char>) -> bool {
    s == "created"@ || s == "skipped"@ || s == "updated"@ || s == "failed"@ || s == "not_attempted"@
        || s == "would_create"@ || s == "would_skip"@ || s == "would_update"@
}

/// How many items carry the status.
pub open spec fn status_count(items: Seq<BatchItemReport>, s: Seq<char>) -> nat
    decreases items.len(),
{
    if items.len() == 0 {
        0
    } else {
        status_count(items.drop_last(), s) + if items.last().status@ == s {
            1nat
        } else {
            0nat
        }
    }
}

/// The status names differ from one another.
proof fn lemma_status_texts_distinct()
    ensures
        "created"@ != "skipped"@,
        "created"@ != "updated"@,
        "created"@ != "failed"@,
        "created"@ != "not_attempted"@,
        "created"@ != "would_create"@,
        "created"@ != "would_skip"@,
        "created"@ != "would_update"@,
        "skipped"@ != "updated"@,
        "skipped"@ != "failed"@,
        "skipped"@ != "not_attempted"@,
        "skipped"@ != "would_create"@,
        "skipped"@ != "would_skip"@,
        "skipped"@ != "would_update"@,
        "updated"@ != "failed"@,
        "updated"@ != "not_attempted"@,
        "updated"@ != "would_create"@,
        "updated"@ != "would_skip"@,
        "updated"@ != "would_update"@,
        "failed"@ != "not_attempted"@,
        "failed"@ != "would_create"@,
        "failed"@ != "would_skip"@,
        "failed"@ != "would_update"@,
        "not_attempted"@ != "would_create"@,
        "not_attempted"@ != "would_skip"@,
        "not_attempted"@ != "would_update"@,
        "would_create"@ != "would_skip"@,
        "would_create"@ != "would_update"@,
        "would_skip"@ != "would_update"@,
{
    reveal_strlit("created");
    reveal_strlit("skipped");
    reveal_strlit("updated");
    reveal_strlit("failed");
    reveal_strlit("not_attempted");
    reveal_strlit("would_create");
    reveal_strlit("would_skip");
    reveal_strlit("would_update");
    assert("created"@[0] == 'c' && "skipped"@[0] == 's' && "updated"@[0] == 'u');
    assert("failed"@.len() == 6 && "not_attempted"@.len() == 13 && "would_skip"@.len() == 10);
    assert("would_create"@[6] == 'c' && "would_update"@[6] == 'u');
    assert("would_create"@.len() == 12 && "created"@.len() == 7);
}

/// Counts the items of each status; the total is the number of items.
pub fn summarize(items: &[BatchItemReport]) -> (r: BatchSummaryReport)
    requires
        forall|i: int| 0 <= i < items@.len() ==> known_status(#[trigger] items@[i].status@),
    ensures
        r.total == items@.len(),
        r.created == status_count(items@, "created"@),
        r.skipped == status_count(items@, "skipped"@),
        r.updated == status_count(items@, "updated"@),
        r.failed == status_count(items@, "failed"@),
        r.not_attempted == status_count(items@, "not_attempted"@),
        r.would_create == status_count(items@, "would_create"@),
        r.would_skip == status_count(items@, "would_skip"@),
        r.would_update == status_count(items@, "would_update"@),
{
    let mut summary = BatchSummaryReport::default();
    summary.total = items.len();
    let created = text_of("created");
    let skipped = text_of("skipped");
    let updated = text_of("updated");
    let failed = text_of("failed");
    let not_attempted = text_of("not_attempted");
    let would_create = text_of("would_create");
    let would_skip = text_of("would_skip");
    let would_update = text_of("would_update");
    let mut i: usize = 0;
    while i < items.len()
        invariant
            i <= items@.len(),
            summary.total == items@.len(),
            created@ == "created"@,
            skipped@ == "skipped"@,
            updated@ == "updated"@,
            failed@ == "failed"@,
            not_attempted@ == "not_attempted"@,
            would_create@ == "would_create"@,
            would_skip@ == "would_skip"@,
            would_update@ == "would_update"@,
            forall|k: int| 0 <= k < items@.len() ==> known_status(#[trigger] items@[k].status@),
            summary.created == status_count(items@.take(i as int), "created"@),
            summary.skipped == status_count(items@.take(i as int), "skipped"@),
            summary.updated == status_count(items@.take(i as int), "updated"@),
            summary.failed == status_count(items@.take(i as int), "failed"@),
            summary.not_attempted == status_count(items@.take(i as int), "not_attempted"@),
            summary.would_create == status_count(items@.take(i as int), "would_create"@),
            summary.would_skip == status_count(items@.take(i as int), "would_skip"@),
            summary.would_update == status_count(items@.take(i as int), "would_update"@),
            summary.created + summary.skipped + summary.updated + summary.failed + summary.not_attempted
                + summary.would_create + summary.would_skip + summary.would_update == i,
        decreases items.len() - i,
    {
        let status = &items[i].status;
        proof {
            assert(items@.take(i + 1).drop_last() =~= items@.take(i as int));
            assert(items@.take(i + 1).last() == items@[i as int]);
            assert(known_status(items@[i as int].status@));
            lemma_status_texts_distinct();
        }
        if *status == created {
            summary.created = summary.created + 1;
        } else if *status == skipped {
            summary.skipped = summary.skipped + 1;
        } else if *status == updated {
            summary.updated = summary.updated + 1;
        } else if *status == failed {
            summary.failed = summary.failed + 1;
        } else if *status == not_attempted {
            summary.not_attempted = summary.not_attempted + 1;
        } else if *status == would_create {
            summary.would_create = summary.would_create + 1;
        } else if *status == would_skip {
            summary.would_skip = summary.would_skip + 1;
        } else {
            summary.would_update = summary.would_update + 1;
        }
        i = i + 1;
    }
    assert(items@.take(items.len() as int) =~= items@);
    summary
}

} // verus!

verus! {

/// The text an optional string holds, as a value.
pub open spec fn opt_text(o: Option<String>) -> Option<Seq<char>> {
    match o {
        Some(s) => Some(s@),
        None => None,
    }
}

/// The message for a zone that EventKit does not know.
pub open spec fn eventkit_zone_text(name: Seq<char>) -> Seq<char> {
    "unknown IANA time zone: "@ + name
}

/// Checks the batch defaults before any row is read: the selector fields,
/// the default time zone (known to chrono-tz and, as `eventkit_accepts_zone`
/// reports, to EventKit) and the default alarm offsets.
pub fn validate_defaults(defaults: &BatchDefaults, eventkit_accepts_zone: bool) -> (r: Result<(), String>)
    ensures
        ({
            let selector = selector_fields_error(
                defaults.calendar is Some,
                defaults.calendar_id is Some,
                defaults.calendar_source is Some,
                defaults.source_id is Some,
            );
            let alarms_ok = match defaults.alarm_minutes_before {
                Some(v) => forall|i: int| 0 <= i < v@.len() ==> v@[i] >= 0,
                None => true,
            };
            if selector is Some {
                r is Err && r->Err_0@ == selector->Some_0
            } else if defaults.time_zone is Some && !is_iana_zone(defaults.time_zone->Some_0@) {
                r is Err && r->Err_0@ == unknown_zone_text(defaults.time_zone->Some_0@)
            } else if defaults.time_zone is Some && !eventkit_accepts_zone {
                r is Err && r->Err_0@ == eventkit_zone_text(defaults.time_zone->Some_0@)
            } else {
                (r is Ok) == alarms_ok
            }
        }),
        r matches Err(m) ==> selector_fields_error(
            defaults.calendar is Some,
            defaults.calendar_id is Some,
            defaults.calendar_source is Some,
            defaults.source_id is Some,
        ) is None && (defaults.time_zone is None || (is_iana_zone(defaults.time_zone->Some_0@)
            && eventkit_accepts_zone)) ==> exists|i: int|
            0 <= i < defaults.alarm_minutes_before->Some_0@.len()
                && defaults.alarm_minutes_before->Some_0@[i] < 0 && (forall|j: int|
                0 <= j < i ==> defaults.alarm_minutes_before->Some_0@[j] >= 0) && m@
                == negative_alarm_text(#[trigger] defaults.alarm_minutes_before->Some_0@[i]),
{
    validate_selector_fields(
        as_deref(&defaults.calendar),
        as_deref(&defaults.calendar_id),
        as_deref(&defaults.calendar_source),
        as_deref(&defaults.source_id),
    )?;
    if let Some(time_zone) = &defaults.time_zone {
        if let Err(m) = validate_time_zone(time_zone.as_str()) {
            return Err(m);
        }
        if !eventkit_accepts_zone {
            return Err(joined("unknown IANA time zone: ", time_zone.as_str()));
        }
    }
    if let Some(alarms) = &defaults.alarm_minutes_before {
        validate_alarm_minutes(alarms.as_slice())?;
    }
    Ok(())
}

/// How many of the first `n` slots carry the client id.
pub open spec fn client_id_count(slots: Seq<BatchSlot>, id: Seq<char>, n: int) -> nat
    decreases n,
{
    if n <= 0 {
        0
    } else {
        client_id_count(slots, id, n - 1) + if opt_text(slots[n - 1].client_id) == Some(id) {
            1nat
        } else {
            0nat
        }
    }
}

/// The message for a client id that more than one row uses.
pub open spec fn duplicate_client_id_text(id: Seq<char>) -> Seq<char> {
    "duplicate client_id: "@ + debug_text(id)
}

/// A slot's error after the client-id check: every row whose client id
/// another row shares fails with the duplicate message.
pub open spec fn client_id_checked_error(slots: Seq<BatchSlot>, j: int) -> Option<Seq<char>> {
    match slots[j].client_id {
        Some(id) => if client_id_count(slots, id@, slots.len() as int) > 1 {
            Some(duplicate_client_id_text(id@))
        } else {
            opt_text(slots[j].error)
        },
        None => opt_text(slots[j].error),
    }
}

/// A slot with only its error replaced.
pub open spec fn same_slot_but_error(a: BatchSlot, b: BatchSlot) -> bool {
    a.index == b.index && a.client_id == b.client_id && a.event == b.event && a.prepared
        == b.prepared
}

/// Counts the slots that carry a client id.
fn count_client_id(slots: &Vec<BatchSlot>, id: &String) -> (r: usize)
    ensures
        r == client_id_count(slots@, id@, slots@.len() as int),
{
    let mut count: usize = 0;
    let mut k: usize = 0;
    while k < slots.len()
        invariant
            k <= slots@.len(),
            count == client_id_count(slots@, id@, k as int),
            count <= k,
        decreases slots.len() - k,
    {
        let same = match &slots[k].client_id {
            Some(other) => *other == *id,
            None => false,
        };
        if same {
            count = count + 1;
        }
        k = k + 1;
    }
    count
}

/// Fails every row whose client id another row shares.
pub fn mark_duplicate_client_ids(slots: &mut Vec<BatchSlot>)
    ensures
        final(slots)@.len() == old(slots)@.len(),
        forall|j: int|
            0 <= j < old(slots)@.len() ==> same_slot_but_error(#[trigger] final(slots)@[j], old(slots)@[j])
                && opt_text(final(slots)@[j].error) == client_id_checked_error(old(slots)@, j),
{
    let ghost before = slots@;
    let mut i: usize = 0;
    while i < slots.len()
        invariant
            i <= slots@.len(),
            slots@.len() == before.len(),
            forall|j: int|
                0 <= j < before.len() ==> same_slot_but_error(#[trigger] slots@[j], before[j]),
            forall|j: int|
                0 <= j < i ==> opt_text(#[trigger] slots@[j].error) == client_id_checked_error(before, j),
            forall|j: int| i <= j < before.len() ==> #[trigger] slots@[j].error == before[j].error,
        decreases slots.len() - i,
    {
        let message = match &slots[i].client_id {
            Some(id) => {
                assert(client_id_count(slots@, id@, slots@.len() as int) == client_id_count(before, id@, before.len() as int)) by {
                    assert forall|n: int| 0 <= n <= before.len() implies client_id_count(slots@, id@, n) == client_id_count(before, id@, n) by {
                        lemma_client_id_count_ignores_errors(slots@, before, id@, n);
                    }
                }
                let count = count_client_id(slots, id);
                if count > 1 {
                    let mut m = text_of("duplicate client_id: ");
                    let quoted = debug_quoted(id.as_str());
                    m.append(quoted.as_str());
                    Some(m)
                } else {
                    None
                }
            },
            None => None,
        };
        if let Some(m) = message {
            slots[i].error = Some(m);
        }
        i = i + 1;
    }
}

/// Client-id counts depend on the client ids alone.
proof fn lemma_client_id_count_ignores_errors(a: Seq<BatchSlot>, b: Seq<BatchSlot>, id: Seq<char>, n: int)
    requires
        a.len() == b.len(),
        0 <= n <= a.len(),
        forall|j: int| 0 <= j < a.len() ==> #[trigger] a[j].client_id == b[j].client_id,
    ensures
        client_id_count(a, id, n) == client_id_count(b, id, n),
    decreases n,
{
    if n > 0 {
        lemma_client_id_count_ignores_errors(a, b, id, n - 1);
        assert(a[n - 1].client_id == b[n - 1].client_id);
    }
}

} // verus!

verus! {

/// A slot that passed every check so far and has a plan.
pub open spec fn identity_eligible(s: BatchSlot) -> bool {
    s.error is None && s.prepared is Some
}

/// Two identities name the same event.
pub open spec fn same_identity(a: EventIdentity, b: EventIdentity) -> bool {
    a.calendar_id@ == b.calendar_id@ && a.title@ == b.title@ && a.start_utc@ == b.start_utc@
        && a.end_utc@ == b.end_utc@ && a.all_day == b.all_day
}

/// The row numbers (position plus one) of the first `n` slots that are
/// flagged, have a plan and carry the identity, in order.
pub open spec fn flagged_rows(slots: Seq<BatchSlot>, flags: Seq<bool>, id: EventIdentity, n: int) -> Seq<nat>
    decreases n,
{
    if n <= 0 {
        seq![]
    } else {
        let s = slots[n - 1];
        flagged_rows(slots, flags, id, n - 1) + if flags[n - 1] && s.prepared is Some
            && same_identity(s.prepared->Some_0.identity, id) {
            seq![(s.index + 1) as nat]
        } else {
            seq![]
        }
    }
}

/// Which slots are eligible.
pub open spec fn eligibility(slots: Seq<BatchSlot>) -> Seq<bool> {
    Seq::new(slots.len(), |j: int| identity_eligible(slots[j]))
}

/// The row numbers of the eligible slots that carry the identity, in order.
pub open spec fn identity_rows(slots: Seq<BatchSlot>, id: EventIdentity) -> Seq<nat> {
    flagged_rows(slots, eligibility(slots), id, slots.len() as int)
}

/// Row numbers in decimal, separated by a comma and a space.
pub open spec fn rows_text(rows: Seq<nat>) -> Seq<char>
    decreases rows.len(),
{
    if rows.len() == 0 {
        seq![]
    } else if rows.len() == 1 {
        decimal(rows[0])
    } else {
        rows_text(rows.drop_last()) + ", "@ + decimal(rows.last())
    }
}

/// The message for rows that describe the same event.
pub open spec fn duplicate_identity_text(rows: Seq<nat>) -> Seq<char> {
    "duplicate event identity within batch at rows "@ + rows_text(rows)
}

/// A slot's error after the identity check: every eligible row whose
/// identity another eligible row shares fails, naming all of their rows.
pub open spec fn identity_checked_error(slots: Seq<BatchSlot>, j: int) -> Option<Seq<char>> {
    let s = slots[j];
    if identity_eligible(s) && identity_rows(slots, s.prepared->Some_0.identity).len() > 1 {
        Some(duplicate_identity_text(identity_rows(slots, s.prepared->Some_0.identity)))
    } else {
        opt_text(s.error)
    }
}

/// Compares two identities field by field.
fn identity_eq(a: &EventIdentity, b: &EventIdentity) -> (r: bool)
    ensures
        r == same_identity(*a, *b),
{
    a.calendar_id == b.calendar_id && a.title == b.title && a.start_utc == b.start_utc
        && a.end_utc == b.end_utc && a.all_day == b.all_day
}

/// The flagged rows sharing an identity, as a count and as the joined row
/// numbers.
fn identity_group(slots: &Vec<BatchSlot>, flags: &Vec<bool>, id: &EventIdentity) -> (r: (usize, String))
    requires
        flags@.len() == slots@.len(),
        forall|j: int| 0 <= j < slots@.len() ==> (#[trigger] slots@[j]).index < usize::MAX,
    ensures
        r.0 == flagged_rows(slots@, flags@, *id, slots@.len() as int).len(),
        r.1@ == rows_text(flagged_rows(slots@, flags@, *id, slots@.len() as int)),
{
    let mut count: usize = 0;
    let mut text = String::new();
    let mut k: usize = 0;
    while k < slots.len()
        invariant
            k <= slots@.len(),
            flags@.len() == slots@.len(),
            forall|j: int| 0 <= j < slots@.len() ==> (#[trigger] slots@[j]).index < usize::MAX,
            count == flagged_rows(slots@, flags@, *id, k as int).len(),
            count <= k,
            text@ == rows_text(flagged_rows(slots@, flags@, *id, k as int)),
        decreases slots.len() - k,
    {
        let ghost before = flagged_rows(slots@, flags@, *id, k as int);
        let same = flags[k] && match &slots[k].prepared {
            Some(p) => identity_eq(&p.identity, id),
            None => false,
        };
        if same {
            let row = slots[k].index + 1;
            if count > 0 {
                text.append(", ");
            }
            push_decimal(&mut text, row as u64);
            count = count + 1;
            proof {
                let after = before.push(row as nat);
                assert(flagged_rows(slots@, flags@, *id, k + 1) =~= after);
                assert(after.drop_last() =~= before);
                assert(after.last() == row as nat);
            }
        } else {
            assert(flagged_rows(slots@, flags@, *id, k + 1) =~= before);
        }
        k = k + 1;
    }
    (count, text)
}

/// Flagged rows depend on the flags, positions and plans alone.
proof fn lemma_flagged_rows_ignore_errors(
    a: Seq<BatchSlot>,
    b: Seq<BatchSlot>,
    flags: Seq<bool>,
    id: EventIdentity,
    n: int,
)
    requires
        a.len() == b.len(),
        0 <= n <= a.len(),
        forall|j: int| 0 <= j < a.len() ==> same_slot_but_error(#[trigger] a[j], b[j]),
    ensures
        flagged_rows(a, flags, id, n) == flagged_rows(b, flags, id, n),
    decreases n,
{
    if n > 0 {
        lemma_flagged_rows_ignore_errors(a, b, flags, id, n - 1);
        assert(same_slot_but_error(a[n - 1], b[n - 1]));
    }
}

/// Fails every eligible row whose identity another eligible row shares.
pub fn mark_duplicate_identities(slots: &mut Vec<BatchSlot>)
    requires
        forall|j: int| 0 <= j < old(slots)@.len() ==> (#[trigger] old(slots)@[j]).index < usize::MAX,
    ensures
        final(slots)@.len() == old(slots)@.len(),
        forall|j: int|
            0 <= j < old(slots)@.len() ==> same_slot_but_error(#[trigger] final(slots)@[j], old(slots)@[j])
                && opt_text(final(slots)@[j].error) == identity_checked_error(old(slots)@, j),
{
    let ghost before = slots@;
    let mut eligible: Vec<bool> = Vec::new();
    let mut k: usize = 0;
    while k < slots.len()
        invariant
            k <= slots@.len(),
            eligible@.len() == k,
            forall|j: int| 0 <= j < k ==> #[trigger] eligible@[j] == identity_eligible(slots@[j]),
        decreases slots.len() - k,
    {
        assert(identity_eligible(slots@[k as int]) == (slots@[k as int].error is None && slots@[k as int].prepared is Some));
        eligible.push(slots[k].error.is_none() && slots[k].prepared.is_some());
        k = k + 1;
    }
    let mut i: usize = 0;
    while i < slots.len()
        invariant
            i <= slots@.len(),
            slots@.len() == before.len(),
            eligible@.len() == before.len(),
            forall|j: int| 0 <= j < before.len() ==> #[trigger] eligible@[j] == identity_eligible(before[j]),
            forall|j: int| 0 <= j < before.len() ==> (#[trigger] before[j]).index < usize::MAX,
            forall|j: int|
                0 <= j < before.len() ==> same_slot_but_error(#[trigger] slots@[j], before[j]),
            forall|j: int|
                0 <= j < i ==> opt_text(#[trigger] slots@[j].error) == identity_checked_error(before, j),
            forall|j: int| i <= j < before.len() ==> #[trigger] slots@[j].error == before[j].error,
        decreases slots.len() - i,
    {
        let message = if eligible[i] {
            match &slots[i].prepared {
                Some(p) => {
                    proof {
                        lemma_flagged_rows_ignore_errors(slots@, before, eligible@, p.identity, before.len() as int);
                        assert(eligible@ =~= eligibility(before));
                    }
                    let (count, rows) = identity_group(slots, &eligible, &p.identity);
                    if count > 1 {
                        Some(joined("duplicate event identity within batch at rows ", rows.as_str()))
                    } else {
                        None
                    }
                },
                None => None,
            }
        } else {
            None
        };
        if let Some(m) = message {
            slots[i].error = Some(m);
        }
        i = i + 1;
    }
}

} // verus!

verus! {

/// What EventKit said of a row's values before the plan was made: whether
/// it knows the row's merged time zone and whether it accepts the row's URL.
pub struct EventKitChecks {
    pub zone_ok: bool,
    pub url_ok: bool,
}

/// A row resolved up to its duplicate check: its calendar, its times, the
/// patches and settings it writes with.
pub struct PreparedDraft {
    pub client_id: Option<String>,
    pub title: String,
    pub start_input: String,
    pub end_input: String,
    pub start: Instant,
    pub end: Instant,
    pub calendar: CalendarInfo,
    pub calendar_selection: CalendarSelection,
    pub notes: PatchValue<String>,
    pub location: PatchValue<String>,
    pub url: PatchValue<String>,
    pub time_zone: PatchValue<String>,
    pub availability: Option<EventAvailability>,
    pub all_day: bool,
    pub all_day_patch: Option<bool>,
    pub alarms: Option<Vec<i64>>,
    pub recurrence: Option<EventRecurrenceReport>,
}

/// The selector a row writes with.
pub open spec fn row_selector(defaults: BatchDefaults, event: BatchEvent) -> WriteCalendarSelectorArgs {
    if row_has_selector(event) {
        WriteCalendarSelectorArgs {
            calendar: event.calendar,
            calendar_id: event.calendar_id,
            calendar_source: event.calendar_source,
            source_id: event.source_id,
        }
    } else {
        WriteCalendarSelectorArgs {
            calendar: defaults.calendar,
            calendar_id: defaults.calendar_id,
            calendar_source: defaults.calendar_source,
            source_id: defaults.source_id,
        }
    }
}

/// The time zone a row uses, as text: its own value or `null` wins, a
/// missing value takes the default.
pub open spec fn row_zone(defaults: BatchDefaults, event: BatchEvent) -> Option<Seq<char>> {
    match event.time_zone {
        PatchValue::Value(v) => Some(v@),
        PatchValue::Null => None,
        PatchValue::Missing => match defaults.time_zone {
            Some(z) => Some(z@),
            None => None,
        },
    }
}

/// The alarms a row sets: its own, else the default's.
pub open spec fn row_alarms(defaults: BatchDefaults, event: BatchEvent) -> Option<Vec<i64>> {
    if event.alarm_minutes_before is Some {
        event.alarm_minutes_before
    } else {
        defaults.alarm_minutes_before
    }
}

/// The availability a row requests: its own, else the default's.
pub open spec fn row_availability(defaults: BatchDefaults, event: BatchEvent) -> Option<EventAvailability> {
    let a = if event.availability is Some {
        event.availability
    } else {
        defaults.availability
    };
    match a {
        Some(v) => Some(crate::calendar::availability_of(v)),
        None => None,
    }
}

/// The all-day setting a row writes: its own, else the default's.
pub open spec fn row_all_day_patch(defaults: BatchDefaults, event: BatchEvent) -> Option<bool> {
    if event.all_day is Some {
        event.all_day
    } else {
        defaults.all_day
    }
}

/// The recurrence options a row's merged rule stands for.
pub open spec fn row_recurrence_args(defaults: BatchDefaults, event: BatchEvent) -> Option<EventRecurrenceArgs> {
    match event.recurrence {
        PatchValue::Value(v) => Some(crate::add_command::recurrence_args_of(v)),
        PatchValue::Null => None,
        PatchValue::Missing => match defaults.recurrence {
            Some(v) => Some(crate::add_command::recurrence_args_of(v)),
            None => None,
        },
    }
}

/// The first negative alarm offset's message, if any.
pub open spec fn alarm_error(alarms: Option<Vec<i64>>) -> bool {
    alarms is Some && exists|i: int| 0 <= i < alarms->Some_0@.len() && alarms->Some_0@[i] < 0
}

/// The row's draft once every check passed.
pub open spec fn draft_is(
    r: PreparedDraft,
    defaults: BatchDefaults,
    event: BatchEvent,
    calendar: CalendarInfo,
    start: Instant,
    end: Instant,
    recurrence: Option<EventRecurrenceReport>,
) -> bool {
    &&& r.client_id == event.client_id
    &&& r.title == event.title
    &&& r.start_input == event.start
    &&& r.end_input == event.end
    &&& r.start == start
    &&& r.end == end
    &&& r.calendar == calendar
    &&& r.calendar_selection == (if write_selector_given(row_selector(defaults, event)) {
        CalendarSelection::Explicit
    } else {
        CalendarSelection::EventkitDefault
    })
    &&& r.notes == event.notes
    &&& r.location == event.location
    &&& r.url == event.url
    &&& match r.time_zone {
        PatchValue::Value(z) => row_zone(defaults, event) == Some(z@),
        PatchValue::Null => event.time_zone is Null,
        PatchValue::Missing => event.time_zone is Missing && defaults.time_zone is None,
    }
    &&& r.availability == row_availability(defaults, event)
    &&& r.all_day_patch == row_all_day_patch(defaults, event)
    &&& r.all_day == (row_all_day_patch(defaults, event) == Some(true))
    &&& opt_ints(r.alarms) == opt_ints(row_alarms(defaults, event))
    &&& r.recurrence == recurrence
}

/// The values of an optional list.
pub open spec fn opt_ints(o: Option<Vec<i64>>) -> Option<Seq<i64>> {
    match o {
        Some(v) => Some(v@),
        None => None,
    }
}

/// Two option sets that agree on every value read the same.
proof fn lemma_recurrence_outcome_by_views(
    a: EventRecurrenceArgs,
    b: EventRecurrenceArgs,
    start: Seq<char>,
    rr: Result<Option<EventRecurrenceReport>, String>,
)
    requires
        a.repeat == b.repeat,
        a.interval == b.interval,
        a.weekdays@ == b.weekdays@,
        a.month_days@ == b.month_days@,
        a.count == b.count,
        a.until == b.until,
    ensures
        crate::recurrence::recurrence_outcome(a, start, rr) == crate::recurrence::recurrence_outcome(b, start, rr),
{
    assert(crate::recurrence::requested_weekdays(a) =~= crate::recurrence::requested_weekdays(b));
}

/// The checks after the row's times are read, in order: the range, the
/// alarms, the URL, the availability, the recurrence and the all-day
/// boundaries.
pub open spec fn after_times(
    defaults: BatchDefaults,
    event: BatchEvent,
    calendar: CalendarInfo,
    start: Instant,
    end: Instant,
    checks: EventKitChecks,
    r: Result<PreparedDraft, String>,
) -> bool {
    if !instant_before(start, end) {
        r is Err && r->Err_0@ == crate::calendar::inverted_range_text()
    } else if alarm_error(row_alarms(defaults, event)) {
        r is Err && exists|i: int|
            0 <= i < row_alarms(defaults, event)->Some_0@.len() && row_alarms(defaults, event)->Some_0@[i]
                < 0 && (forall|j: int| 0 <= j < i ==> row_alarms(defaults, event)->Some_0@[j] >= 0)
                && r->Err_0@ == negative_alarm_text(#[trigger] row_alarms(defaults, event)->Some_0@[i])
    } else if event.url is Value && !checks.url_ok {
        r is Err && r->Err_0@ == "invalid URL: "@ + event.url->Value_0@
    } else if row_availability(defaults, event) is Some && !crate::calendar::supports_availability(
        calendar,
        row_availability(defaults, event)->Some_0,
    ) {
        r is Err && r->Err_0@ == crate::calendar::unsupported_availability_text(
            calendar,
            row_availability(defaults, event)->Some_0,
        )
    } else {
        let all_day = row_all_day_patch(defaults, event) == Some(true);
        match row_recurrence_args(defaults, event) {
            None => r is Ok && draft_is(r->Ok_0, defaults, event, calendar, start, end, None),
            Some(args) => exists|rr: Result<Option<EventRecurrenceReport>, String>|
                #[trigger] crate::recurrence::recurrence_outcome(args, event.start@, rr) && match rr {
                    Err(m) => r == Err::<PreparedDraft, String>(m),
                    Ok(rec) => if all_day && rec is Some && !(is_calendar_date(event.start@) && is_calendar_date(
                        event.end@,
                    )) {
                        r is Err && r->Err_0@ == crate::recurrence::all_day_boundaries_text()
                    } else {
                        r is Ok && draft_is(r->Ok_0, defaults, event, calendar, start, end, rec)
                    },
                },
        }
    }
}

/// What preparing a row gives, stage by stage: the selector fields, the
/// calendar, the time zone (chrono-tz, then EventKit), the start and the
/// end, then the later checks.
pub open spec fn prepare_outcome(
    defaults: BatchDefaults,
    event: BatchEvent,
    calendars: Result<Vec<CalendarInfo>, String>,
    default_calendar: Result<CalendarInfo, String>,
    checks: EventKitChecks,
    r: Result<PreparedDraft, String>,
) -> bool {
    let sel = row_selector(defaults, event);
    let zone = row_zone(defaults, event);
    match selector_fields_error(
        sel.calendar is Some,
        sel.calendar_id is Some,
        sel.calendar_source is Some,
        sel.source_id is Some,
    ) {
        Some(m) => r is Err && r->Err_0@ == m,
        None => exists|tr: Result<CalendarInfo, String>|
            #[trigger] crate::calendar::target_outcome(calendars, default_calendar, sel, true, tr) && match tr {
                Err(m) => r == Err::<PreparedDraft, String>(m),
                Ok(calendar) => if zone is Some && !is_iana_zone(zone->Some_0) {
                    r is Err && r->Err_0@ == unknown_zone_text(zone->Some_0)
                } else if zone is Some && !checks.zone_ok {
                    r is Err && r->Err_0@ == eventkit_zone_text(zone->Some_0)
                } else {
                    exists|sr: Result<Instant, String>, er: Result<Instant, String>|
                        #[trigger] start_parse_outcome(event.start@, zone, sr) && #[trigger] end_parse_outcome(
                            event.end@,
                            zone,
                            er,
                        ) && match sr {
                            Err(c) => r is Err && r->Err_0@ == "invalid start: "@ + event.start@ + ": "@ + c@,
                            Ok(start) => match er {
                                Err(c) => r is Err && r->Err_0@ == "invalid end: "@ + event.end@ + ": "@ + c@,
                                Ok(end) => after_times(defaults, event, calendar, start, end, checks, r),
                            },
                        }
                },
            },
    }
}

/// Resolves a row up to its duplicate check. The application hands over
/// EventKit's calendars and default calendar (or the failures) and
/// EventKit's verdict on the row's merged time zone and URL.
pub fn prepare_draft(
    defaults: &BatchDefaults,
    event: BatchEvent,
    calendars: &Result<Vec<CalendarInfo>, String>,
    default_calendar: &Result<CalendarInfo, String>,
    checks: EventKitChecks,
) -> (r: Result<PreparedDraft, String>)
    ensures
        prepare_outcome(*defaults, event, *calendars, *default_calendar, checks, r),
{
    let ghost row = event;
    let selector = merged_calendar_selector(defaults, &event)?;
    proof {
        assert(selector == row_selector(*defaults, row));
    }
    let tr = resolve_target_calendar(calendars, default_calendar, &selector, true);
    let calendar = match tr {
        Err(m) => {
            return Err(m);
        },
        Ok(c) => c,
    };
    let ghost tr_value = tr;
    let selection = calendar_selection_for_write(&selector);
    let time_zone = merged_time_zone(defaults, &event.time_zone);
    let parse_zone = patch_value(&time_zone);
    if let PatchValue::Value(z) = &time_zone {
        if let Err(m) = validate_time_zone(z.as_str()) {
            return Err(m);
        }
        if !checks.zone_ok {
            return Err(joined("unknown IANA time zone: ", z.as_str()));
        }
    }
    proof {
        assert(zone_text(parse_zone) == row_zone(*defaults, row));
    }
    let sr = parse_start_datetime_in_time_zone(event.start.as_str(), parse_zone);
    let er = parse_end_datetime_in_time_zone(event.end.as_str(), parse_zone);
    let start = match sr {
        Err(c) => {
            return Err(with_cause("invalid start: ", event.start.as_str(), c.as_str()));
        },
        Ok(s) => s,
    };
    let end = match er {
        Err(c) => {
            return Err(with_cause("invalid end: ", event.end.as_str(), c.as_str()));
        },
        Ok(e) => e,
    };
    ensure_valid_event_range(start, end)?;
    let alarms = match &event.alarm_minutes_before {
        Some(v) => Some(v.clone()),
        None => match &defaults.alarm_minutes_before {
            Some(v) => Some(v.clone()),
            None => None,
        },
    };
    if let Some(v) = &alarms {
        validate_alarm_minutes(v.as_slice())?;
    }
    if let PatchValue::Value(u) = &event.url {
        if !checks.url_ok {
            return Err(joined("invalid URL: ", u.as_str()));
        }
    }
    let availability_arg = match event.availability {
        Some(a) => Some(a),
        None => defaults.availability,
    };
    let availability = match availability_arg {
        Some(a) => Some(EventAvailability::from(a)),
        None => None,
    };
    ensure_availability_supported(&calendar, availability)?;
    let all_day_patch = match event.all_day {
        Some(b) => Some(b),
        None => defaults.all_day,
    };
    let all_day = match all_day_patch {
        Some(b) => b,
        None => false,
    };
    let merged = merged_recurrence(defaults, &event.recurrence);
    let recurrence = match merged {
        PatchValue::Value(v) => {
            let args = EventRecurrenceArgs::from(v);
            let rr = parse_event_recurrence(&args, event.start.as_str(), parse_zone);
            proof {
                lemma_recurrence_outcome_by_views(args, row_recurrence_args(*defaults, row)->Some_0, event.start@, rr);
            }
            match rr {
                Err(m) => {
                    return Err(m);
                },
                Ok(rec) => rec,
            }
        },
        PatchValue::Missing | PatchValue::Null => None,
    };
    validate_recurring_all_day_inputs(all_day, recurrence.is_some(), event.start.as_str(), event.end.as_str())?;
    Ok(
        PreparedDraft {
            client_id: event.client_id,
            title: event.title,
            start_input: event.start,
            end_input: event.end,
            start,
            end,
            calendar,
            calendar_selection: selection,
            notes: event.notes,
            location: event.location,
            url: event.url,
            time_zone,
            availability,
            all_day,
            all_day_patch,
            alarms,
            recurrence,
        },
    )
}

} // verus!

verus! {

/// An existing event is the row's: same title, same start and end instant,
/// same all-day flag, in the row's calendar.
pub open spec fn is_exact_match(e: EventItem, d: PreparedDraft) -> bool {
    e.title@ == d.title@ && e.start_date == d.start && e.end_date == d.end && e.all_day == d.all_day
        && e.calendar_id is Some && e.calendar_id->Some_0@ == d.calendar.identifier@
}

/// The existing events that are the row's, in order.
pub open spec fn exact_matches_of(events: Seq<EventItem>, d: PreparedDraft) -> Seq<EventItem>
    decreases events.len(),
{
    if events.len() == 0 {
        seq![]
    } else {
        exact_matches_of(events.drop_last(), d) + if is_exact_match(events.last(), d) {
            seq![events.last()]
        } else {
            seq![]
        }
    }
}

/// The events EventKit listed around the row's times that are the row's.
pub fn exact_matches(candidates: &Vec<EventItem>, draft: &PreparedDraft) -> (r: Vec<EventItem>)
    ensures
        r@ == exact_matches_of(candidates@, *draft),
{
    let mut out: Vec<EventItem> = Vec::new();
    let mut i: usize = 0;
    while i < candidates.len()
        invariant
            i <= candidates@.len(),
            out@ == exact_matches_of(candidates@.take(i as int), *draft),
        decreases candidates.len() - i,
    {
        let e = &candidates[i];
        assert(candidates@.take(i + 1).drop_last() =~= candidates@.take(i as int));
        assert(candidates@.take(i + 1).last() == *e);
        let same_calendar = match &e.calendar_id {
            Some(c) => *c == draft.calendar.identifier,
            None => false,
        };
        if e.title == draft.title && e.start_date.seconds == draft.start.seconds && e.start_date.nanos
            == draft.start.nanos && e.end_date.seconds == draft.end.seconds && e.end_date.nanos == draft.end.nanos
            && e.all_day == draft.all_day && same_calendar {
            out.push(e.duplicate());
            assert(out@ =~= exact_matches_of(candidates@.take(i + 1), *draft));
        } else {
            assert(exact_matches_of(candidates@.take(i + 1), *draft) =~= exact_matches_of(
                candidates@.take(i as int),
                *draft,
            ));
        }
        i = i + 1;
    }
    assert(candidates@.take(candidates@.len() as int) =~= candidates@);
    out
}

/// The identifiers of events, joined with a comma and a space.
pub open spec fn ids_text(events: Seq<EventItem>) -> Seq<char>
    decreases events.len(),
{
    if events.len() == 0 {
        seq![]
    } else if events.len() == 1 {
        events[0].identifier@
    } else {
        ids_text(events.drop_last()) + ", "@ + events.last().identifier@
    }
}

/// The identifiers joined.
fn join_ids(events: &Vec<EventItem>) -> (r: String)
    ensures
        r@ == ids_text(events@),
{
    let mut out = String::new();
    let mut i: usize = 0;
    while i < events.len()
        invariant
            i <= events@.len(),
            out@ == ids_text(events@.take(i as int)),
        decreases events.len() - i,
    {
        assert(events@.take(i + 1).drop_last() =~= events@.take(i as int));
        if i > 0 {
            out.append(", ");
        }
        out.append(events[i].identifier.as_str());
        assert(out@ =~= ids_text(events@.take(i + 1)));
        i = i + 1;
    }
    assert(events@.take(events@.len() as int) =~= events@);
    out
}

/// The message for several existing events with the row's identity.
pub open spec fn ambiguous_identity_text(matches: Seq<EventItem>) -> Seq<char> {
    decimal(matches.len()) + " existing events match this identity; matching ids: "@ + ids_text(matches)
}

/// The message for one existing event whose rule differs.
pub open spec fn different_rule_text(id: Seq<char>) -> Seq<char> {
    "matching event ["@ + id + "] has a different recurrence rule"@
}

/// The message for a recurring match with `update`.
pub open spec fn recurring_update_text() -> Seq<char> {
    "recurring batch update requires explicit series scope; use skip for an identical rule"@
}

/// The plan of a row once its matches are known: no match creates; one
/// match follows the `--if-exists` policy unless its rule differs (or it
/// recurs and would be updated); several matches are an error. `details`
/// holds the one match's recurrence rules as EventKit read them (or the
/// message of the failure).
pub fn finish_prepared(
    draft: PreparedDraft,
    matches: Vec<EventItem>,
    details: Option<Result<Vec<EventRecurrenceReport>, String>>,
    if_exists: IfExistsArg,
) -> (r: Result<PreparedEvent, String>)
    requires
        matches@.len() == 1 ==> details is Some,
    ensures
        matches@.len() > 1 ==> r is Err && r->Err_0@ == ambiguous_identity_text(matches@),
        matches@.len() == 1 && details->Some_0 is Err ==> r == Err::<PreparedEvent, String>(details->Some_0->Err_0),
        r matches Ok(p) ==> {
            &&& p.identity.calendar_id@ == draft.calendar.identifier@
            &&& p.identity.title@ == draft.title@
            &&& p.identity.start_utc@ == crate::dates::utc_rfc3339_text(draft.start)
            &&& p.identity.end_utc@ == crate::dates::utc_rfc3339_text(draft.end)
            &&& p.identity.all_day == draft.all_day
            &&& p.client_id == draft.client_id && p.title == draft.title && p.start_input == draft.start_input
            &&& p.end_input == draft.end_input && p.start == draft.start && p.end == draft.end
            &&& p.calendar == draft.calendar && p.calendar_selection == draft.calendar_selection
            &&& p.notes == draft.notes && p.location == draft.location && p.url == draft.url
            &&& p.time_zone == draft.time_zone && p.availability == draft.availability
            &&& p.all_day == draft.all_day && p.all_day_patch == draft.all_day_patch
            &&& p.alarms == draft.alarms && p.recurrence == draft.recurrence
        },
        matches@.len() == 0 ==> r is Ok && r->Ok_0.matched is None && r->Ok_0.action == Some(PlannedAction::Create)
            && r->Ok_0.policy_error is None,
        matches@.len() == 1 && details->Some_0 is Ok ==> {
            let rules = details->Some_0->Ok_0@;
            let id = matches@[0].identifier@;
            &&& r is Ok
            &&& r->Ok_0.matched == Some(matches@[0])
            &&& r->Ok_0.action == match if_exists {
                IfExistsArg::Skip => Some(PlannedAction::Skip),
                IfExistsArg::Update => Some(PlannedAction::Update),
                IfExistsArg::Error => None,
            }
            &&& opt_text(r->Ok_0.policy_error) == if !crate::recurrence::rules_match_spec(
                match draft.recurrence {
                    Some(q) => Some(&q),
                    None => None,
                },
                rules,
            ) {
                Some(different_rule_text(id))
            } else if if_exists == IfExistsArg::Update && rules.len() > 0 {
                Some(recurring_update_text())
            } else if if_exists == IfExistsArg::Error {
                Some(
                    "matching event already exists ["@ + id + "]; pass --if-exists skip or --if-exists update"@,
                )
            } else {
                None
            }
        },
{
    let n = matches.len();
    let (matched, action, policy_error) = if n == 0 {
        (None, Some(PlannedAction::Create), None)
    } else if n == 1 {
        let rules = match details {
            Some(Ok(rules)) => rules,
            Some(Err(m)) => {
                return Err(m);
            },
            None => {
                return Err(String::new());
            },
        };
        let existing = matches[0].duplicate();
        let (action, mut policy_error) = existing_match_action(if_exists, existing.identifier.as_str());
        let requested = match &draft.recurrence {
            Some(q) => Some(q),
            None => None,
        };
        if !crate::recurrence::recurrence_rules_match(requested, rules.as_slice()) {
            let mut m = text_of("matching event [");
            m.append(existing.identifier.as_str());
            m.append("] has a different recurrence rule");
            policy_error = Some(m);
        } else if if_exists == IfExistsArg::Update && rules.len() > 0 {
            policy_error = Some(
                text_of("recurring batch update requires explicit series scope; use skip for an identical rule"),
            );
        }
        (Some(existing), action, policy_error)
    } else {
        let mut m = String::new();
        push_decimal(&mut m, n as u64);
        m.append(" existing events match this identity; matching ids: ");
        let ids = join_ids(&matches);
        m.append(ids.as_str());
        return Err(m);
    };
    let identity = EventIdentity {
        calendar_id: draft.calendar.identifier.clone(),
        title: draft.title.clone(),
        start_utc: crate::dates::utc_datetime(draft.start),
        end_utc: crate::dates::utc_datetime(draft.end),
        all_day: draft.all_day,
    };
    Ok(
        PreparedEvent {
            identity,
            client_id: draft.client_id,
            title: draft.title,
            start_input: draft.start_input,
            end_input: draft.end_input,
            start: draft.start,
            end: draft.end,
            calendar: draft.calendar,
            calendar_selection: draft.calendar_selection,
            notes: draft.notes,
            location: draft.location,
            url: draft.url,
            time_zone: draft.time_zone,
            availability: draft.availability,
            all_day: draft.all_day,
            all_day_patch: draft.all_day_patch,
            alarms: draft.alarms,
            recurrence: draft.recurrence,
            matched,
            action,
            policy_error,
        },
    )
}

} // verus!

verus! {

/// The zone a row's draft reports: its own value, none when cleared, else
/// the matched event's.
pub open spec fn effective_zone(p: PreparedEvent) -> Option<String> {
    match p.time_zone {
        PatchValue::Value(v) => Some(v),
        PatchValue::Null => None,
        PatchValue::Missing => match p.matched {
            Some(e) => e.timezone,
            None => None,
        },
    }
}

/// The operation a row's draft reports for its plan.
pub open spec fn batch_operation_text(action: Option<PlannedAction>) -> Seq<char> {
    match action {
        Some(PlannedAction::Create) => "batch_add"@,
        Some(PlannedAction::Skip) => "batch_skip"@,
        Some(PlannedAction::Update) => "batch_update"@,
        None => "batch_error"@,
    }
}

/// The operation a row's draft reports for its plan.
fn batch_operation(action: Option<PlannedAction>) -> (r: &'static str)
    ensures
        r@ == batch_operation_text(action),
{
    match action {
        Some(PlannedAction::Create) => "batch_add",
        Some(PlannedAction::Skip) => "batch_skip",
        Some(PlannedAction::Update) => "batch_update",
        None => "batch_error",
    }
}

/// An optional value of the matched event, if there is one.
fn matched_field(matched: &Option<EventItem>, which: u8) -> (r: Option<&str>)
    ensures
        match *matched {
            Some(e) => {
                let f = if which == 0 {
                    e.notes
                } else if which == 1 {
                    e.location
                } else {
                    e.url
                };
                (r is Some == f is Some) && (r matches Some(v) ==> v@ == f->Some_0@)
            },
            None => r is None,
        },
{
    match matched {
        Some(e) => {
            let f = if which == 0 {
                &e.notes
            } else if which == 1 {
                &e.location
            } else {
                &e.url
            };
            match f {
                Some(v) => Some(v.as_str()),
                None => None,
            }
        },
        None => None,
    }
}

/// The draft a batch row reports: its plan, times (local, UTC and in the
/// effective zone), calendar, effective zone and availability, the alarms
/// it will have and which optional fields end up set. `existing_alarm_count`
/// is the matched event's alarm count as EventKit read it, needed when the
/// row sets no alarms of its own.
pub fn draft_report(prepared: &PreparedEvent, existing_alarm_count: Option<Result<usize, String>>) -> (r: Result<
    EventDraftReport,
    String,
>)
    requires
        crate::dates::in_chrono_range(prepared.start),
        crate::dates::in_chrono_range(prepared.end),
        prepared.alarms is None && prepared.matched is Some ==> existing_alarm_count is Some,
    ensures
        ({
            let zone = effective_zone(*prepared);
            if zone is Some && !is_iana_zone(zone->Some_0@) {
                r is Err && r->Err_0@ == unknown_zone_text(zone->Some_0@)
            } else if prepared.alarms is None && prepared.matched is Some && existing_alarm_count->Some_0 is Err {
                r is Err && r->Err_0@ == "failed to read existing alarms"@
            } else {
                &&& r is Ok
                &&& r->Ok_0.operation@ == batch_operation_text(prepared.action)
                &&& r->Ok_0.scope is None
                &&& opt_text(r->Ok_0.event_id) == match prepared.matched {
                    Some(e) => Some(e.identifier@),
                    None => None,
                }
                &&& r->Ok_0.title == prepared.title
                &&& r->Ok_0.start == r->Ok_0.start_local
                &&& r->Ok_0.end == r->Ok_0.end_local
                &&& r->Ok_0.start_input == Some(prepared.start_input)
                &&& r->Ok_0.end_input == Some(prepared.end_input)
                &&& r->Ok_0.start_utc@ == crate::dates::utc_rfc3339_text(prepared.start)
                &&& r->Ok_0.end_utc@ == crate::dates::utc_rfc3339_text(prepared.end)
                &&& opt_text(r->Ok_0.start_in_event_time_zone) == match zone {
                    Some(z) => Some(crate::dates::zone_rfc3339_text(prepared.start, z@)),
                    None => None,
                }
                &&& opt_text(r->Ok_0.end_in_event_time_zone) == match zone {
                    Some(z) => Some(crate::dates::zone_rfc3339_text(prepared.end, z@)),
                    None => None,
                }
                &&& r->Ok_0.duration_seconds == crate::dates::whole_seconds_between(prepared.start, prepared.end)
                &&& r->Ok_0.all_day == prepared.all_day
                &&& r->Ok_0.timed == !prepared.all_day
                &&& r->Ok_0.calendar == prepared.calendar.title
                &&& r->Ok_0.calendar_id == prepared.calendar.identifier
                &&& r->Ok_0.calendar_source == prepared.calendar.source
                &&& r->Ok_0.calendar_source_id == prepared.calendar.source_id
                &&& r->Ok_0.calendar_selection == Some(prepared.calendar_selection)
                &&& r->Ok_0.time_zone == zone
                &&& r->Ok_0.availability@ == match prepared.availability {
                    Some(a) => crate::calendar::availability_text(a),
                    None => match prepared.matched {
                        Some(e) => crate::calendar::availability_text(e.availability),
                        None => "default"@,
                    },
                }
                &&& r->Ok_0.alarm_count == match prepared.alarms {
                    Some(v) => v@.len(),
                    None => match prepared.matched {
                        Some(_) => existing_alarm_count->Some_0->Ok_0 as nat,
                        None => 0,
                    },
                }
                &&& crate::recurrence::same_opt_rule(r->Ok_0.recurrence, prepared.recurrence)
                &&& r->Ok_0.has_notes == match prepared.notes {
                    PatchValue::Missing => prepared.matched is Some && prepared.matched->Some_0.notes is Some,
                    PatchValue::Null => false,
                    PatchValue::Value(_) => true,
                }
                &&& r->Ok_0.has_location == match prepared.location {
                    PatchValue::Missing => prepared.matched is Some && prepared.matched->Some_0.location is Some,
                    PatchValue::Null => false,
                    PatchValue::Value(_) => true,
                }
                &&& r->Ok_0.has_url == match prepared.url {
                    PatchValue::Missing => prepared.matched is Some && prepared.matched->Some_0.url is Some,
                    PatchValue::Null => false,
                    PatchValue::Value(_) => true,
                }
                &&& r->Ok_0.duplicate_warnings@.len() == 0
            }
        }),
{
    let zone: Option<String> = match &prepared.time_zone {
        PatchValue::Value(v) => Some(v.clone()),
        PatchValue::Null => None,
        PatchValue::Missing => match &prepared.matched {
            Some(e) => copy_opt_string(&e.timezone),
            None => None,
        },
    };
    let (start_in_zone, end_in_zone) = match &zone {
        Some(z) => {
            let s = crate::dates::datetime_in_time_zone(prepared.start, z.as_str())?;
            let e = crate::dates::datetime_in_time_zone(prepared.end, z.as_str())?;
            (Some(s), Some(e))
        },
        None => (None, None),
    };
    let availability = match prepared.availability {
        Some(a) => Some(a),
        None => match &prepared.matched {
            Some(e) => Some(e.availability),
            None => None,
        },
    };
    let alarm_count: usize = match &prepared.alarms {
        Some(v) => v.len(),
        None => match &prepared.matched {
            Some(_) => match existing_alarm_count {
                Some(Ok(n)) => n,
                Some(Err(_)) => {
                    return Err(text_of("failed to read existing alarms"));
                },
                None => 0,
            },
            None => 0,
        },
    };
    let start_local = crate::dates::local_rfc3339(prepared.start);
    let end_local = crate::dates::local_rfc3339(prepared.end);
    let availability_text = match availability {
        Some(a) => crate::calendar::availability_name(a),
        None => "default",
    };
    proof {
        reveal_strlit("default");
    }
    let event_id = match &prepared.matched {
        Some(e) => Some(e.identifier.clone()),
        None => None,
    };
    let recurrence = match &prepared.recurrence {
        Some(rule) => Some(crate::recurrence::copy_recurrence_report(rule)),
        None => None,
    };
    Ok(
        EventDraftReport {
            operation: text_of(batch_operation(prepared.action)),
            scope: None,
            event_id,
            title: prepared.title.clone(),
            start: start_local.clone(),
            end: end_local.clone(),
            start_input: Some(prepared.start_input.clone()),
            end_input: Some(prepared.end_input.clone()),
            start_utc: crate::dates::utc_datetime(prepared.start),
            end_utc: crate::dates::utc_datetime(prepared.end),
            start_local,
            end_local,
            start_in_event_time_zone: start_in_zone,
            end_in_event_time_zone: end_in_zone,
            duration_seconds: crate::dates::seconds_between(prepared.start, prepared.end),
            all_day: prepared.all_day,
            timed: !prepared.all_day,
            calendar: prepared.calendar.title.clone(),
            calendar_id: prepared.calendar.identifier.clone(),
            calendar_source: copy_opt_string(&prepared.calendar.source),
            calendar_source_id: copy_opt_string(&prepared.calendar.source_id),
            calendar_selection: Some(prepared.calendar_selection),
            time_zone: zone,
            availability: text_of(availability_text),
            alarm_count,
            recurrence,
            has_notes: patched_presence(matched_field(&prepared.matched, 0), &prepared.notes),
            has_location: patched_presence(matched_field(&prepared.matched, 1), &prepared.location),
            has_url: patched_presence(matched_field(&prepared.matched, 2), &prepared.url),
            duplicate_warnings: Vec::new(),
        },
    )
}

} // verus!

verus! {

/// The identifier of the event a slot's plan matched, if any.
pub open spec fn slot_matched_id(slot: BatchSlot) -> Option<Seq<char>> {
    match slot.prepared {
        Some(p) => match p.matched {
            Some(e) => Some(e.identifier@),
            None => None,
        },
        None => None,
    }
}

/// The identifier of the event a slot's plan matched.
fn matched_id(slot: &BatchSlot) -> (r: Option<String>)
    ensures
        opt_text(r) == slot_matched_id(*slot),
{
    match &slot.prepared {
        Some(p) => match &p.matched {
            Some(e) => Some(e.identifier.clone()),
            None => None,
        },
        None => None,
    }
}

/// The item of a row that failed before or during its write.
pub fn failed_report(slot: &BatchSlot, error: String, draft: Option<EventDraftReport>) -> (r: BatchItemReport)
    ensures
        r.index == slot.index,
        r.client_id == slot.client_id,
        r.status@ == "failed"@,
        opt_text(r.event_id) == slot_matched_id(*slot),
        opt_text(r.matched_event_id) == slot_matched_id(*slot),
        r.draft == (match draft {
            Some(d) => Some(Box::new(d)),
            None => None,
        }),
        r.error == Some(crate::models::BatchErrorReport { message: error }),
{
    BatchItemReport {
        index: slot.index,
        client_id: copy_opt_string(&slot.client_id),
        status: text_of("failed"),
        event_id: matched_id(slot),
        matched_event_id: matched_id(slot),
        draft: match draft {
            Some(d) => Some(Box::new(d)),
            None => None,
        },
        error: Some(crate::models::BatchErrorReport { message: error }),
    }
}

/// The item of a planned row with the given status.
pub fn planned_report(slot: &BatchSlot, status: &str, error: Option<String>, draft: Option<EventDraftReport>) -> (r:
    BatchItemReport)
    requires
        slot.prepared is Some,
    ensures
        r.index == slot.index,
        r.client_id == slot.prepared->Some_0.client_id,
        r.status@ == status@,
        opt_text(r.event_id) == slot_matched_id(*slot),
        opt_text(r.matched_event_id) == slot_matched_id(*slot),
        r.draft == (match draft {
            Some(d) => Some(Box::new(d)),
            None => None,
        }),
        r.error == (match error {
            Some(m) => Some(crate::models::BatchErrorReport { message: m }),
            None => None,
        }),
{
    let client_id = match &slot.prepared {
        Some(p) => copy_opt_string(&p.client_id),
        None => None,
    };
    BatchItemReport {
        index: slot.index,
        client_id,
        status: text_of(status),
        event_id: matched_id(slot),
        matched_event_id: matched_id(slot),
        draft: match draft {
            Some(d) => Some(Box::new(d)),
            None => None,
        },
        error: match error {
            Some(m) => Some(crate::models::BatchErrorReport { message: m }),
            None => None,
        },
    }
}

/// The status a dry run reports for a planned row.
pub open spec fn dry_run_status_text(action: PlannedAction) -> Seq<char> {
    match action {
        PlannedAction::Create => "would_create"@,
        PlannedAction::Skip => "would_skip"@,
        PlannedAction::Update => "would_update"@,
    }
}

/// The status a dry run reports for a planned row.
pub fn dry_run_status(action: PlannedAction) -> (r: &'static str)
    ensures
        r@ == dry_run_status_text(action),
{
    match action {
        PlannedAction::Create => "would_create",
        PlannedAction::Skip => "would_skip",
        PlannedAction::Update => "would_update",
    }
}

/// How a batch runs after its preflight.
#[derive(Clone, Copy, PartialEq, Eq, Structural)]
pub enum BatchMode {
    /// Report what each row would do.
    DryRun,
    /// Write nothing: some row failed its preflight.
    Blocked,
    /// Write the rows.
    Execute,
}

/// How a batch runs, and whether it may write: a dry run never writes; a
/// preflight error blocks the batch unless `--continue-on-error` is given.
pub fn batch_mode(has_preflight_errors: bool, dry_run: bool, continue_on_error: bool) -> (r: (bool, BatchMode))
    ensures
        r.0 == (!has_preflight_errors || continue_on_error),
        r.1 == if dry_run {
            BatchMode::DryRun
        } else if has_preflight_errors && !continue_on_error {
            BatchMode::Blocked
        } else {
            BatchMode::Execute
        },
{
    let can_write = !has_preflight_errors || continue_on_error;
    let mode = if dry_run {
        BatchMode::DryRun
    } else if has_preflight_errors && !continue_on_error {
        BatchMode::Blocked
    } else {
        BatchMode::Execute
    };
    (can_write, mode)
}

/// Whether any slot failed its preflight.
pub fn has_preflight_errors(slots: &Vec<BatchSlot>) -> (r: bool)
    ensures
        r == exists|i: int| 0 <= i < slots@.len() && (#[trigger] slots@[i]).error is Some,
{
    let mut i: usize = 0;
    while i < slots.len()
        invariant
            i <= slots@.len(),
            forall|j: int| 0 <= j < i ==> (#[trigger] slots@[j]).error is None,
        decreases slots.len() - i,
    {
        if slots[i].error.is_some() {
            return true;
        }
        i = i + 1;
    }
    false
}

/// What executing a planned row does: a skip reports the matched event; a
/// create or an update writes.
pub enum ExecutionStep {
    Skip(String),
    Create,
    Update(String),
}

impl ExecutionStep {
    /// A copy of the step.
    fn clone_step(&self) -> (r: ExecutionStep)
        ensures
            match (*self, r) {
                (ExecutionStep::Skip(a), ExecutionStep::Skip(b)) => a@ == b@,
                (ExecutionStep::Create, ExecutionStep::Create) => true,
                (ExecutionStep::Update(a), ExecutionStep::Update(b)) => a@ == b@,
                _ => false,
            },
    {
        match self {
            ExecutionStep::Skip(id) => ExecutionStep::Skip(id.clone()),
            ExecutionStep::Create => ExecutionStep::Create,
            ExecutionStep::Update(id) => ExecutionStep::Update(id.clone()),
        }
    }
}

/// The write a planned row needs.
pub fn execution_step(prepared: &PreparedEvent) -> (r: ExecutionStep)
    requires
        prepared.action is Some,
        prepared.action != Some(PlannedAction::Create) ==> prepared.matched is Some,
    ensures
        match prepared.action->Some_0 {
            PlannedAction::Skip => r is Skip && r->Skip_0@ == prepared.matched->Some_0.identifier@,
            PlannedAction::Create => r is Create,
            PlannedAction::Update => r is Update && r->Update_0@ == prepared.matched->Some_0.identifier@,
        },
{
    match prepared.action {
        Some(PlannedAction::Skip) => match &prepared.matched {
            Some(e) => ExecutionStep::Skip(e.identifier.clone()),
            None => ExecutionStep::Create,
        },
        Some(PlannedAction::Update) => match &prepared.matched {
            Some(e) => ExecutionStep::Update(e.identifier.clone()),
            None => ExecutionStep::Create,
        },
        _ => ExecutionStep::Create,
    }
}

/// The status, event and error a row reports after its write: a skip is
/// `skipped`; a create that wrote is `created`, one that failed is `failed`
/// without an event; an update that wrote is `updated`, one that failed is
/// `failed` with the matched event.
pub fn execution_outcome(step: ExecutionStep, written: Result<String, String>) -> (r: (
    &'static str,
    Option<String>,
    Option<String>,
))
    ensures
        match step {
            ExecutionStep::Skip(id) => r.0@ == "skipped"@ && r.1 == Some(id) && r.2 is None,
            ExecutionStep::Create => match written {
                Ok(id) => r.0@ == "created"@ && r.1 == Some(id) && r.2 is None,
                Err(m) => r.0@ == "failed"@ && r.1 is None && r.2 == Some(m),
            },
            ExecutionStep::Update(id) => match written {
                Ok(new_id) => r.0@ == "updated"@ && r.1 == Some(new_id) && r.2 is None,
                Err(m) => r.0@ == "failed"@ && r.1 == Some(id) && r.2 == Some(m),
            },
        },
{
    match step {
        ExecutionStep::Skip(id) => ("skipped", Some(id), None),
        ExecutionStep::Create => match written {
            Ok(id) => ("created", Some(id), None),
            Err(m) => ("failed", None, Some(m)),
        },
        ExecutionStep::Update(id) => match written {
            Ok(new_id) => ("updated", Some(new_id), None),
            Err(m) => ("failed", Some(id), Some(m)),
        },
    }
}

/// What happens to a row when the batch executes: a row that failed its
/// preflight is reported failed; after an earlier write failure a row is not
/// attempted; otherwise the row's write runs.
pub enum RowPlan {
    Failed(String),
    NotAttempted,
    Run(ExecutionStep),
}

/// The message of a row left out after an earlier write failure.
pub open spec fn not_attempted_text() -> Seq<char> {
    "not attempted after an earlier write failure"@
}

/// The message of a row left out because the preflight failed.
pub open spec fn blocked_text() -> Seq<char> {
    "batch blocked by preflight errors"@
}

/// What the batch does with a row, given whether an earlier write failure
/// stopped it.
pub fn row_plan(slot: &BatchSlot, stopped: bool) -> (r: RowPlan)
    requires
        slot.error is None ==> slot.prepared is Some && slot.prepared->Some_0.action is Some,
        slot.error is None && slot.prepared->Some_0.action != Some(PlannedAction::Create)
            ==> slot.prepared->Some_0.matched is Some,
    ensures
        match slot.error {
            Some(e) => r == RowPlan::Failed(e),
            None => if stopped {
                r is NotAttempted
            } else {
                r is Run && match slot.prepared->Some_0.action->Some_0 {
                    PlannedAction::Skip => r->Run_0 is Skip && r->Run_0->Skip_0@
                        == slot.prepared->Some_0.matched->Some_0.identifier@,
                    PlannedAction::Create => r->Run_0 is Create,
                    PlannedAction::Update => r->Run_0 is Update && r->Run_0->Update_0@
                        == slot.prepared->Some_0.matched->Some_0.identifier@,
                }
            },
        },
{
    if let Some(e) = &slot.error {
        return RowPlan::Failed(e.clone());
    }
    if stopped {
        return RowPlan::NotAttempted;
    }
    match &slot.prepared {
        Some(p) => RowPlan::Run(execution_step(p)),
        None => RowPlan::NotAttempted,
    }
}

/// The item of a row left out after an earlier write failure.
pub fn not_attempted_report(slot: &BatchSlot, draft: Option<EventDraftReport>) -> (r: BatchItemReport)
    requires
        slot.prepared is Some,
    ensures
        is_planned_item(r, *slot, "not_attempted"@, Some(not_attempted_text()), draft),
{
    planned_report(slot, "not_attempted", Some(text_of("not attempted after an earlier write failure")), draft)
}

/// Whether the batch stops writing: once stopped it stays stopped, and a
/// failed write stops it unless failures are to be passed over.
pub fn stops_batch(stopped: bool, write_failed: bool, continue_on_error: bool) -> (r: bool)
    ensures
        r == (stopped || (write_failed && !continue_on_error)),
{
    stopped || (write_failed && !continue_on_error)
}

/// The item of a row whose write ran.
pub fn executed_report(
    slot: &BatchSlot,
    status: &str,
    event_id: Option<String>,
    error: Option<String>,
    draft: Option<EventDraftReport>,
) -> (r: BatchItemReport)
    requires
        slot.prepared is Some,
    ensures
        r.index == slot.index,
        r.client_id == slot.prepared->Some_0.client_id,
        r.status@ == status@,
        r.event_id == event_id,
        opt_text(r.matched_event_id) == slot_matched_id(*slot),
        r.draft == (match draft {
            Some(d) => Some(Box::new(d)),
            None => None,
        }),
        r.error == (match error {
            Some(m) => Some(crate::models::BatchErrorReport { message: m }),
            None => None,
        }),
{
    let client_id = match &slot.prepared {
        Some(p) => copy_opt_string(&p.client_id),
        None => None,
    };
    BatchItemReport {
        index: slot.index,
        client_id,
        status: text_of(status),
        event_id,
        matched_event_id: matched_id(slot),
        draft: match draft {
            Some(d) => Some(Box::new(d)),
            None => None,
        },
        error: match error {
            Some(m) => Some(crate::models::BatchErrorReport { message: m }),
            None => None,
        },
    }
}

/// Every planned row that does not create has the event it matched.
pub open spec fn rows_matched(slots: Seq<BatchSlot>) -> bool {
    forall|i: int|
        0 <= i < slots.len() && (#[trigger] slots[i]).error is None && slots[i].prepared->Some_0.action != Some(
            PlannedAction::Create,
        ) ==> slots[i].prepared->Some_0.matched is Some
}

/// The statuses an executed row can end with differ from one another.
proof fn lemma_run_statuses_differ()
    ensures
        "failed"@ != "not_attempted"@,
        "created"@ != "failed"@,
        "skipped"@ != "failed"@,
        "updated"@ != "failed"@,
        "created"@ != "not_attempted"@,
        "skipped"@ != "not_attempted"@,
        "updated"@ != "not_attempted"@,
{
    reveal_strlit("created");
    reveal_strlit("skipped");
    reveal_strlit("updated");
    reveal_strlit("failed");
    reveal_strlit("not_attempted");
    assert("failed"@.len() == 6 && "not_attempted"@.len() == 13);
    assert("created"@.len() == 7 && "skipped"@.len() == 7 && "updated"@.len() == 7);
}

/// Executes a batch's rows in order: a row that failed its preflight is
/// reported failed and not written; a skip reports the matched event; a
/// create or an update is handed to `write` (with the row's position),
/// unless an earlier write failed and failures are not passed over, in which
/// case the row is not attempted. `draft` gives each row's draft after its
/// write. Whatever the writes give back: one item per row, in order; a
/// failed write stops every later row unless `continue_on_error`; a row is
/// only left unattempted after an earlier failed write.
pub fn execute_rows<W, D>(slots: &Vec<BatchSlot>, continue_on_error: bool, write: W, draft: D) -> (r: Vec<
    BatchItemReport,
>) where W: Fn(usize, ExecutionStep) -> Result<String, String>, D: Fn(usize) -> Option<EventDraftReport>
    requires
        rows_planned(slots@),
        rows_matched(slots@),
        forall|i: usize, step: ExecutionStep| #[trigger] write.requires((i, step)),
        forall|i: usize| #[trigger] draft.requires((i,)),
    ensures
        r@.len() == slots@.len(),
        forall|i: int| 0 <= i < slots@.len() ==> (#[trigger] r@[i]).index == slots@[i].index,
        forall|i: int| 0 <= i < slots@.len() ==> known_status((#[trigger] r@[i]).status@),
        forall|i: int|
            0 <= i < slots@.len() && (#[trigger] slots@[i]).error is Some ==> r@[i].status@ == "failed"@
                && r@[i].error == Some(crate::models::BatchErrorReport { message: slots@[i].error->Some_0 }),
        !continue_on_error ==> forall|i: int, j: int|
            0 <= i < j < slots@.len() && (#[trigger] slots@[i]).error is None && r@[i].status@ == "failed"@
                && (#[trigger] slots@[j]).error is None ==> r@[j].status@ == "not_attempted"@,
        forall|j: int|
            0 <= j < slots@.len() && (#[trigger] r@[j]).status@ == "not_attempted"@ ==> !continue_on_error && exists|
                i: int,
            | 0 <= i < j && (#[trigger] slots@[i]).error is None && r@[i].status@ == "failed"@,
{
    proof {
        lemma_run_statuses_differ();
    }
    let mut out: Vec<BatchItemReport> = Vec::new();
    let mut stopped = false;
    let mut k: usize = 0;
    while k < slots.len()
        invariant
            k <= slots@.len(),
            out@.len() == k,
            rows_planned(slots@),
            rows_matched(slots@),
            forall|i: usize, step: ExecutionStep| #[trigger] write.requires((i, step)),
            forall|i: usize| #[trigger] draft.requires((i,)),
            "failed"@ != "not_attempted"@,
            stopped == (!continue_on_error && exists|i: int|
                0 <= i < k && (#[trigger] slots@[i]).error is None && out@[i].status@ == "failed"@),
            forall|i: int| 0 <= i < k ==> (#[trigger] out@[i]).index == slots@[i].index,
            forall|i: int| 0 <= i < k ==> known_status((#[trigger] out@[i]).status@),
            forall|i: int|
                0 <= i < k && (#[trigger] slots@[i]).error is Some ==> out@[i].status@ == "failed"@
                    && out@[i].error == Some(crate::models::BatchErrorReport { message: slots@[i].error->Some_0 }),
            !continue_on_error ==> forall|i: int, j: int|
                0 <= i < j < k && (#[trigger] slots@[i]).error is None && out@[i].status@ == "failed"@
                    && (#[trigger] slots@[j]).error is None ==> out@[j].status@ == "not_attempted"@,
            forall|j: int|
                0 <= j < k && (#[trigger] out@[j]).status@ == "not_attempted"@ ==> !continue_on_error && exists|
                    i: int,
                | 0 <= i < j && (#[trigger] slots@[i]).error is None && out@[i].status@ == "failed"@,
        decreases slots@.len() - k,
    {
        proof {
            lemma_run_statuses_differ();
        }
        let slot = &slots[k];
        let ghost before = out@;
        let item = match row_plan(slot, stopped) {
            RowPlan::Failed(message) => failed_report(slot, message, draft(k)),
            RowPlan::NotAttempted => not_attempted_report(slot, draft(k)),
            RowPlan::Run(step) => {
                let written = match &step {
                    ExecutionStep::Skip(id) => Ok(id.clone()),
                    _ => write(k, step.clone_step()),
                };
                let (status, event_id, error) = execution_outcome(step, written);
                stopped = stops_batch(stopped, error.is_some(), continue_on_error);
                executed_report(slot, status, event_id, error, draft(k))
            },
        };
        out.push(item);
        proof {
            assert(out@.take(k as int) =~= before);
            assert forall|i: int| 0 <= i < k implies out@[i] == before[i] by {
            }
        }
        k = k + 1;
    }
    out
}

/// `r` is the failed item of the slot with the error and the draft.
pub open spec fn is_failed_item(
    r: BatchItemReport,
    slot: BatchSlot,
    error: String,
    draft: Option<EventDraftReport>,
) -> bool {
    &&& r.index == slot.index
    &&& r.client_id == slot.client_id
    &&& r.status@ == "failed"@
    &&& opt_text(r.event_id) == slot_matched_id(slot)
    &&& opt_text(r.matched_event_id) == slot_matched_id(slot)
    &&& r.draft == (match draft {
        Some(d) => Some(Box::new(d)),
        None => None,
    })
    &&& r.error == Some(crate::models::BatchErrorReport { message: error })
}

/// `r` is the planned item of the slot with the status, error and draft.
pub open spec fn is_planned_item(
    r: BatchItemReport,
    slot: BatchSlot,
    status: Seq<char>,
    error: Option<Seq<char>>,
    draft: Option<EventDraftReport>,
) -> bool {
    &&& r.index == slot.index
    &&& r.client_id == slot.prepared->Some_0.client_id
    &&& r.status@ == status
    &&& opt_text(r.event_id) == slot_matched_id(slot)
    &&& opt_text(r.matched_event_id) == slot_matched_id(slot)
    &&& r.draft == (match draft {
        Some(d) => Some(Box::new(d)),
        None => None,
    })
    &&& match error {
        Some(m) => r.error is Some && r.error->Some_0.message@ == m,
        None => r.error is None,
    }
}

/// Every row that passed its preflight has a plan.
pub open spec fn rows_planned(slots: Seq<BatchSlot>) -> bool {
    forall|i: int|
        0 <= i < slots.len() && (#[trigger] slots[i]).error is None ==> slots[i].prepared is Some
            && slots[i].prepared->Some_0.action is Some
}

/// A dry run's items: failed rows as failed, the others with what they
/// would do. `drafts` holds each row's draft, in order.
pub fn dry_run_reports(slots: &Vec<BatchSlot>, drafts: Vec<Option<EventDraftReport>>) -> (r: Vec<
    BatchItemReport,
>)
    requires
        drafts@.len() == slots@.len(),
        rows_planned(slots@),
    ensures
        r@.len() == slots@.len(),
        forall|i: int|
            0 <= i < slots@.len() ==> match slots@[i].error {
                Some(e) => is_failed_item(#[trigger] r@[i], slots@[i], e, drafts@[i]),
                None => is_planned_item(
                    r@[i],
                    slots@[i],
                    dry_run_status_text(slots@[i].prepared->Some_0.action->Some_0),
                    None,
                    drafts@[i],
                ),
            },
{
    let ghost all_drafts = drafts@;
    let mut rest = drafts;
    let mut out: Vec<BatchItemReport> = Vec::new();
    let mut i: usize = 0;
    while i < slots.len()
        invariant
            i <= slots@.len(),
            all_drafts.len() == slots@.len(),
            rows_planned(slots@),
            rest@ == all_drafts.subrange(i as int, all_drafts.len() as int),
            out@.len() == i,
            forall|j: int|
                0 <= j < i ==> match slots@[j].error {
                    Some(e) => is_failed_item(#[trigger] out@[j], slots@[j], e, all_drafts[j]),
                    None => is_planned_item(
                        out@[j],
                        slots@[j],
                        dry_run_status_text(slots@[j].prepared->Some_0.action->Some_0),
                        None,
                        all_drafts[j],
                    ),
                },
        decreases slots.len() - i,
    {
        let draft = rest.remove(0);
        proof {
            assert(draft == all_drafts[i as int]);
            assert(rest@ =~= all_drafts.subrange(i + 1, all_drafts.len() as int));
        }
        let slot = &slots[i];
        let item = match &slot.error {
            Some(e) => failed_report(slot, e.clone(), draft),
            None => {
                assert(slots@[i as int].error is None);
                let action = match &slot.prepared {
                    Some(p) => match p.action {
                        Some(a) => a,
                        None => PlannedAction::Create,
                    },
                    None => PlannedAction::Create,
                };
                planned_report(slot, dry_run_status(action), None, draft)
            },
        };
        out.push(item);
        i = i + 1;
    }
    out
}

/// A blocked batch's items: failed rows as failed, the others as not
/// attempted. `drafts` holds each row's draft, in order.
pub fn blocked_reports(slots: &Vec<BatchSlot>, drafts: Vec<Option<EventDraftReport>>) -> (r: Vec<
    BatchItemReport,
>)
    requires
        drafts@.len() == slots@.len(),
        rows_planned(slots@),
    ensures
        r@.len() == slots@.len(),
        forall|i: int|
            0 <= i < slots@.len() ==> match slots@[i].error {
                Some(e) => is_failed_item(#[trigger] r@[i], slots@[i], e, drafts@[i]),
                None => is_planned_item(r@[i], slots@[i], "not_attempted"@, Some(blocked_text()), drafts@[i]),
            },
{
    let ghost all_drafts = drafts@;
    let mut rest = drafts;
    let mut out: Vec<BatchItemReport> = Vec::new();
    let mut i: usize = 0;
    while i < slots.len()
        invariant
            i <= slots@.len(),
            all_drafts.len() == slots@.len(),
            rows_planned(slots@),
            rest@ == all_drafts.subrange(i as int, all_drafts.len() as int),
            out@.len() == i,
            forall|j: int|
                0 <= j < i ==> match slots@[j].error {
                    Some(e) => is_failed_item(#[trigger] out@[j], slots@[j], e, all_drafts[j]),
                    None => is_planned_item(
                        out@[j],
                        slots@[j],
                        "not_attempted"@,
                        Some(blocked_text()),
                        all_drafts[j],
                    ),
                },
        decreases slots.len() - i,
    {
        let draft = rest.remove(0);
        proof {
            assert(draft == all_drafts[i as int]);
            assert(rest@ =~= all_drafts.subrange(i + 1, all_drafts.len() as int));
        }
        let slot = &slots[i];
        let item = match &slot.error {
            Some(e) => failed_report(slot, e.clone(), draft),
            None => planned_report(slot, "not_attempted", Some(text_of("batch blocked by preflight errors")), draft),
        };
        out.push(item);
        i = i + 1;
    }
    out
}

/// Whether an update changes the event's own fields (notes, location, URL,
/// the all-day flag or availability), apart from its time zone and alarms.
pub fn has_event_patch(prepared: &PreparedEvent) -> (r: bool)
    ensures
        r == (!(prepared.notes is Missing) || !(prepared.location is Missing) || !(prepared.url is Missing)
            || prepared.all_day_patch is Some || prepared.availability is Some),
{
    patch_ref(&prepared.notes).is_some() || patch_ref(&prepared.location).is_some() || patch_ref(
        &prepared.url,
    ).is_some() || prepared.all_day_patch.is_some() || prepared.availability.is_some()
}

/// The only batch file format version this build reads.
pub const BATCH_VERSION: u8 = 1;

/// A batch file of another format version is refused.
pub fn check_batch_version(version: u8) -> (r: Result<(), String>)
    ensures
        r is Ok == (version == BATCH_VERSION),
        r matches Err(m) ==> m@ == "unsupported batch version "@ + decimal(version as nat) + "; expected 1"@,
{
    if version != BATCH_VERSION {
        let mut m = text_of("unsupported batch version ");
        push_decimal(&mut m, version as u64);
        m.append("; expected 1");
        return Err(m);
    }
    Ok(())
}

/// One row of a batch file as read: the `client_id` string field of the
/// raw object, if it has one, and the row read as an event (or the message
/// of the failure).
pub struct BatchRow {
    pub client_id: Option<String>,
    pub event: Result<BatchEvent, String>,
}

/// The slot of a row at a position: a row that reads as an event carries
/// it and its client id; another fails as an invalid event, keeping the raw
/// client id so that duplicates are still found.
pub open spec fn slot_of_row(index: usize, row: BatchRow, slot: BatchSlot) -> bool {
    &&& slot.index == index
    &&& slot.prepared is None
    &&& match row.event {
        Ok(e) => slot.client_id == e.client_id && slot.event == Some(e) && slot.error is None,
        Err(m) => slot.client_id == row.client_id && slot.event is None && slot.error is Some
            && slot.error->Some_0@ == "invalid event: "@ + m@,
    }
}

/// The slots of a batch's rows, numbered from zero in order.
pub fn event_slots(rows: Vec<BatchRow>) -> (r: Vec<BatchSlot>)
    ensures
        r@.len() == rows@.len(),
        forall|i: int| 0 <= i < rows@.len() ==> slot_of_row(i as usize, rows@[i], #[trigger] r@[i]),
{
    let ghost all = rows@;
    let mut rest = rows;
    let mut out: Vec<BatchSlot> = Vec::new();
    let n = rest.len();
    let mut i: usize = 0;
    while rest.len() > 0
        invariant
            n == all.len(),
            i + rest@.len() == n,
            rest@ == all.subrange(i as int, n as int),
            out@.len() == i,
            forall|j: int| 0 <= j < i ==> slot_of_row(j as usize, all[j], #[trigger] out@[j]),
        decreases rest.len(),
    {
        let row = rest.remove(0);
        proof {
            assert(row == all[i as int]);
            assert(rest@ =~= all.subrange(i + 1, n as int));
        }
        let slot = match row.event {
            Ok(event) => BatchSlot {
                index: i,
                client_id: copy_opt_string(&event.client_id),
                event: Some(event),
                prepared: None,
                error: None,
            },
            Err(m) => BatchSlot {
                index: i,
                client_id: row.client_id,
                event: None,
                prepared: None,
                error: Some(joined("invalid event: ", m.as_str())),
            },
        };
        out.push(slot);
        i = i + 1;
    }
    out
}

/// A slot after its row was prepared: the plan is kept and its policy
/// error, if any, fails the row; a failed preparation fails the row with
/// its message.
pub fn record_preparation(slot: &mut BatchSlot, outcome: Result<PreparedEvent, String>)
    ensures
        final(slot).index == old(slot).index,
        final(slot).client_id == old(slot).client_id,
        final(slot).event == old(slot).event,
        match outcome {
            Ok(p) => final(slot).prepared == Some(p) && final(slot).error == match p.policy_error {
                Some(m) => Some(m),
                None => old(slot).error,
            },
            Err(m) => final(slot).prepared == old(slot).prepared && final(slot).error == Some(m),
        },
{
    match outcome {
        Ok(p) => {
            if let Some(m) = &p.policy_error {
                slot.error = Some(m.clone());
            }
            slot.prepared = Some(p);
        },
        Err(m) => {
            slot.error = Some(m);
        },
    }
}

/// The batch's report: its settings, the per-status counts and the items.
pub fn batch_report(
    dry_run: bool,
    can_write: bool,
    if_exists: IfExistsArg,
    continue_on_error: bool,
    items: Vec<BatchItemReport>,
) -> (r: crate::models::BatchReport)
    requires
        forall|i: int| 0 <= i < items@.len() ==> known_status(#[trigger] items@[i].status@),
    ensures
        r.dry_run == dry_run,
        r.can_write == can_write,
        r.if_exists@ == if_exists_text(if_exists),
        r.continue_on_error == continue_on_error,
        r.items@ == items@,
        r.summary.total == items@.len(),
        r.summary.created == status_count(items@, "created"@),
        r.summary.skipped == status_count(items@, "skipped"@),
        r.summary.updated == status_count(items@, "updated"@),
        r.summary.failed == status_count(items@, "failed"@),
        r.summary.not_attempted == status_count(items@, "not_attempted"@),
        r.summary.would_create == status_count(items@, "would_create"@),
        r.summary.would_skip == status_count(items@, "would_skip"@),
        r.summary.would_update == status_count(items@, "would_update"@),
{
    let summary = summarize(items.as_slice());
    crate::models::BatchReport {
        dry_run,
        can_write,
        if_exists: text_of(if_exists_name(if_exists)),
        continue_on_error,
        summary,
        items,
    }
}

} // verus!
