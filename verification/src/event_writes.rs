//! Decisions around event writes that sit between EventKit calls: whether
//! access is usable, what an add does once its duplicates are known, which
//! calendar an existing event lives in and whether it may be changed, which
//! occurrence a start names, and how search matches text.

use crate::calendar::{DuplicateQuery, availability_text};
use crate::dates::{Instant, parse_rfc3339, rfc3339_instant, total_nanos};
use crate::eventkit::{AuthorizationStatus, CalendarInfo, EventItem};
use crate::cli::IfExistsArg;
use crate::text::{contains_str, contains_text, debug_quoted, debug_text, decimal, push_decimal, push_int, int_text, text_of};
use vstd::prelude::*;

verus! {

// ---------------------------------------------------------------------
// Calendar access

/// What to do with the current Calendar authorization.
pub enum AccessDecision {
    /// Full access: go ahead.
    Granted,
    /// Not decided yet: ask for access.
    Request,
    /// Refused, with the message that says how to fix it.
    Refused(String),
}

/// The message for each refusing authorization state.
pub open spec fn refusal_text(status: AuthorizationStatus) -> Seq<char> {
    match status {
        AuthorizationStatus::WriteOnly => "Calendar access is write-only (authorization=WriteOnly); enable Full Calendar Access in System Settings > Privacy & Security > Calendars, then run `icalctl doctor --json`"@,
        AuthorizationStatus::Denied => "Calendar access is denied (authorization=Denied); enable Full Calendar Access in System Settings > Privacy & Security > Calendars, then run `icalctl doctor --json`"@,
        _ => "Calendar access is restricted (authorization=Restricted); ask the device administrator to allow Calendar access, then run `icalctl doctor --json`"@,
    }
}

/// Full access is used as it is, an undecided state asks, every other
/// state is refused with its remedy.
pub fn access_decision(status: AuthorizationStatus) -> (r: AccessDecision)
    ensures
        status == AuthorizationStatus::FullAccess ==> r is Granted,
        status == AuthorizationStatus::NotDetermined ==> r is Request,
        status != AuthorizationStatus::FullAccess && status != AuthorizationStatus::NotDetermined ==> r is Refused
            && r->Refused_0@ == refusal_text(status),
{
    match status {
        AuthorizationStatus::FullAccess => AccessDecision::Granted,
        AuthorizationStatus::NotDetermined => AccessDecision::Request,
        AuthorizationStatus::WriteOnly => AccessDecision::Refused(
            text_of(
                "Calendar access is write-only (authorization=WriteOnly); enable Full Calendar Access in System Settings > Privacy & Security > Calendars, then run `icalctl doctor --json`",
            ),
        ),
        AuthorizationStatus::Denied => AccessDecision::Refused(
            text_of(
                "Calendar access is denied (authorization=Denied); enable Full Calendar Access in System Settings > Privacy & Security > Calendars, then run `icalctl doctor --json`",
            ),
        ),
        AuthorizationStatus::Restricted => AccessDecision::Refused(
            text_of(
                "Calendar access is restricted (authorization=Restricted); ask the device administrator to allow Calendar access, then run `icalctl doctor --json`",
            ),
        ),
    }
}

/// The message when the access prompt was declined.
pub open spec fn not_granted_text() -> Seq<char> {
    "Calendar access was not granted (authorization=NotDetermined); run `icalctl calendars` from Terminal.app, iTerm, or Ghostty and approve the macOS Calendar prompt"@
}

/// The outcome of asking for access: granted, declined, or failed (given
/// the error's debug rendering).
pub fn access_request_outcome(answer: Result<bool, String>) -> (r: Result<(), String>)
    ensures
        match answer {
            Ok(true) => r is Ok,
            Ok(false) => r is Err && r->Err_0@ == not_granted_text(),
            Err(detail) => r is Err && r->Err_0@ == crate::doctor::access_request_error_text(detail@),
        },
{
    match answer {
        Ok(true) => Ok(()),
        Ok(false) => Err(
            text_of(
                "Calendar access was not granted (authorization=NotDetermined); run `icalctl calendars` from Terminal.app, iTerm, or Ghostty and approve the macOS Calendar prompt",
            ),
        ),
        Err(detail) => Err(crate::doctor::access_request_error_message(detail.as_str())),
    }
}

// ---------------------------------------------------------------------
// Adding once the duplicates are known

/// What an add does once its duplicates and policy are known.
pub enum AddWrite {
    /// Report the existing event as skipped.
    Skip(String),
    /// Update the existing event.
    Update(String),
    /// Create the event.
    Create,
}

/// The identifiers of events, joined with a comma and a space.
pub open spec fn event_ids_text(events: Seq<EventItem>) -> Seq<char>
    decreases events.len(),
{
    if events.len() == 0 {
        seq![]
    } else if events.len() == 1 {
        events[0].identifier@
    } else {
        event_ids_text(events.drop_last()) + ", "@ + events.last().identifier@
    }
}

/// The identifiers joined.
fn join_event_ids(events: &Vec<EventItem>) -> (r: String)
    ensures
        r@ == event_ids_text(events@),
{
    let mut out = String::new();
    let mut i: usize = 0;
    while i < events.len()
        invariant
            i <= events@.len(),
            out@ == event_ids_text(events@.take(i as int)),
        decreases events.len() - i,
    {
        assert(events@.take(i + 1).drop_last() =~= events@.take(i as int));
        if i > 0 {
            out.append(", ");
        }
        out.append(events[i].identifier.as_str());
        assert(out@ =~= event_ids_text(events@.take(i + 1)));
        i = i + 1;
    }
    assert(events@.take(events@.len() as int) =~= events@);
    out
}

/// The write an add makes: a recurrence policy error refuses it; several
/// duplicates are refused; one follows `--if-exists`; none creates.
pub fn add_write(policy_error: Option<String>, duplicates: &Vec<EventItem>, if_exists: IfExistsArg) -> (r: Result<
    AddWrite,
    String,
>)
    ensures
        policy_error is Some ==> r == Err::<AddWrite, String>(policy_error->Some_0),
        policy_error is None && duplicates@.len() > 1 ==> r is Err && r->Err_0@ == decimal(duplicates@.len())
            + " matching events found; refusing to choose between ids: "@ + event_ids_text(duplicates@),
        policy_error is None && duplicates@.len() == 1 ==> match if_exists {
            IfExistsArg::Error => r is Err && r->Err_0@ == "matching event already exists ["@
                + duplicates@[0].identifier@ + "]; pass --if-exists skip or --if-exists update"@,
            IfExistsArg::Skip => r is Ok && r->Ok_0 is Skip && r->Ok_0->Skip_0@ == duplicates@[0].identifier@,
            IfExistsArg::Update => r is Ok && r->Ok_0 is Update && r->Ok_0->Update_0@ == duplicates@[0].identifier@,
        },
        policy_error is None && duplicates@.len() == 0 ==> r is Ok && r->Ok_0 is Create,
{
    if let Some(m) = policy_error {
        return Err(m);
    }
    let n = duplicates.len();
    if n > 1 {
        let mut m = String::new();
        push_decimal(&mut m, n as u64);
        m.append(" matching events found; refusing to choose between ids: ");
        let ids = join_event_ids(duplicates);
        m.append(ids.as_str());
        return Err(m);
    }
    if n == 1 {
        let id = duplicates[0].identifier.clone();
        return match if_exists {
            IfExistsArg::Error => {
                let mut m = text_of("matching event already exists [");
                m.append(id.as_str());
                m.append("]; pass --if-exists skip or --if-exists update");
                Err(m)
            },
            IfExistsArg::Skip => Ok(AddWrite::Skip(id)),
            IfExistsArg::Update => Ok(AddWrite::Update(id)),
        };
    }
    Ok(AddWrite::Create)
}

/// The warning for one possible duplicate, given its start as rendered in
/// the Mac's zone.
pub open spec fn duplicate_warning_text(window_seconds: i64, e: EventItem, start_text: Seq<char>) -> Seq<char> {
    "possible duplicate within "@ + int_text(window_seconds as int) + " seconds: "@ + debug_text(e.title@)
        + " at "@ + start_text + " ["@ + e.identifier@ + "]"@
}

/// One warning per possible duplicate, in order. Each start is rendered in
/// the Mac's current zone, which depends on the machine.
pub fn duplicate_warnings(events: &Vec<EventItem>, window_seconds: i64) -> (r: Vec<String>)
    ensures
        r@.len() == events@.len(),
        forall|i: int|
            0 <= i < events@.len() ==> is_duplicate_warning((#[trigger] r@[i])@, window_seconds, events@[i]),
{
    let mut out: Vec<String> = Vec::new();
    let ghost mut rendered: Seq<Seq<char>> = seq![];
    let mut i: usize = 0;
    while i < events.len()
        invariant
            i <= events@.len(),
            out@.len() == i,
            rendered.len() == i,
            forall|k: int|
                0 <= k < i ==> (#[trigger] out@[k])@ == duplicate_warning_text(window_seconds, events@[k], rendered[k]),
        decreases events.len() - i,
    {
        let e = &events[i];
        let mut m = text_of("possible duplicate within ");
        push_int(&mut m, window_seconds);
        m.append(" seconds: ");
        let title = debug_quoted(e.title.as_str());
        m.append(title.as_str());
        m.append(" at ");
        let start = crate::dates::local_rfc3339(e.start_date);
        m.append(start.as_str());
        m.append(" [");
        m.append(e.identifier.as_str());
        m.append("]");
        assert(m@ == duplicate_warning_text(window_seconds, events@[i as int], start@));
        out.push(m);
        proof {
            rendered = rendered.push(start@);
        }
        i = i + 1;
    }
    assert forall|k: int| 0 <= k < events@.len() implies is_duplicate_warning(
        (#[trigger] out@[k])@,
        window_seconds,
        events@[k],
    ) by {
        assert(out@[k]@ == duplicate_warning_text(window_seconds, events@[k], rendered[k]));
    }
    out
}

/// A warning for the event, whatever its start rendered as.
pub open spec fn is_duplicate_warning(w: Seq<char>, window_seconds: i64, e: EventItem) -> bool {
    exists|t: Seq<char>| w == duplicate_warning_text(window_seconds, e, t)
}

// ---------------------------------------------------------------------
// The calendar of an existing event

/// The first listed calendar with this identifier.
pub open spec fn first_with_identifier(calendars: Seq<CalendarInfo>, id: Seq<char>) -> Option<int> {
    if exists|i: int| is_first_identifier(calendars, id, i) {
        Some(choose|i: int| is_first_identifier(calendars, id, i))
    } else {
        None
    }
}

/// `i` is the first calendar with the identifier.
pub open spec fn is_first_identifier(calendars: Seq<CalendarInfo>, id: Seq<char>, i: int) -> bool {
    0 <= i < calendars.len() && calendars[i].identifier@ == id && forall|j: int|
        0 <= j < i ==> calendars[j].identifier@ != id
}

/// The first listed calendar with this title.
pub open spec fn first_with_title(calendars: Seq<CalendarInfo>, title: Seq<char>) -> Option<int> {
    if exists|i: int| is_first_title(calendars, title, i) {
        Some(choose|i: int| is_first_title(calendars, title, i))
    } else {
        None
    }
}

/// `i` is the first calendar with the title.
pub open spec fn is_first_title(calendars: Seq<CalendarInfo>, title: Seq<char>, i: int) -> bool {
    0 <= i < calendars.len() && calendars[i].title@ == title && forall|j: int|
        0 <= j < i ==> calendars[j].title@ != title
}

/// The calendar an event lives in: the one with its calendar identifier,
/// else the first with its calendar title.
pub open spec fn event_calendar_index(calendars: Seq<CalendarInfo>, event: EventItem) -> Option<int> {
    let by_id = match event.calendar_id {
        Some(id) => first_with_identifier(calendars, id@),
        None => None,
    };
    if by_id is Some {
        by_id
    } else {
        match event.calendar_title {
            Some(t) => first_with_title(calendars, t@),
            None => None,
        }
    }
}

/// Finds the first calendar with the identifier.
pub(crate) fn find_identifier(calendars: &Vec<CalendarInfo>, id: &str) -> (r: Option<usize>)
    ensures
        r is None == first_with_identifier(calendars@, id@) is None,
        r matches Some(i) ==> i < calendars@.len() && first_with_identifier(calendars@, id@) == Some(i as int),
{
    let mut i: usize = 0;
    while i < calendars.len()
        invariant
            i <= calendars@.len(),
            forall|j: int| 0 <= j < i ==> calendars@[j].identifier@ != id@,
        decreases calendars.len() - i,
    {
        if crate::text::str_eq(calendars[i].identifier.as_str(), id) {
            assert(is_first_identifier(calendars@, id@, i as int));
            let ghost c = choose|k: int| is_first_identifier(calendars@, id@, k);
            assert(c == i) by {
                if c > i {
                    assert(calendars@[i as int].identifier@ == id@);
                }
            }
            return Some(i);
        }
        i = i + 1;
    }
    None
}

/// Finds the first calendar with the title.
fn find_title(calendars: &Vec<CalendarInfo>, title: &str) -> (r: Option<usize>)
    ensures
        r is None == first_with_title(calendars@, title@) is None,
        r matches Some(i) ==> i < calendars@.len() && first_with_title(calendars@, title@) == Some(i as int),
{
    let mut i: usize = 0;
    while i < calendars.len()
        invariant
            i <= calendars@.len(),
            forall|j: int| 0 <= j < i ==> calendars@[j].title@ != title@,
        decreases calendars.len() - i,
    {
        if crate::text::str_eq(calendars[i].title.as_str(), title) {
            assert(is_first_title(calendars@, title@, i as int));
            let ghost c = choose|k: int| is_first_title(calendars@, title@, k);
            assert(c == i) by {
                if c > i {
                    assert(calendars@[i as int].title@ == title@);
                }
            }
            return Some(i);
        }
        i = i + 1;
    }
    None
}

/// The position of the calendar an event lives in, among the listed ones.
pub fn find_event_calendar(calendars: &Vec<CalendarInfo>, event: &EventItem) -> (r: Option<usize>)
    ensures
        r is None == event_calendar_index(calendars@, *event) is None,
        r matches Some(i) ==> i < calendars@.len() && event_calendar_index(calendars@, *event) == Some(i as int),
{
    let by_id = match &event.calendar_id {
        Some(id) => find_identifier(calendars, id.as_str()),
        None => None,
    };
    if by_id.is_some() {
        return by_id;
    }
    match &event.calendar_title {
        Some(t) => find_title(calendars, t.as_str()),
        None => None,
    }
}

/// The calendar an event lives in; an error when it is gone.
pub fn event_calendar(calendars: &Vec<CalendarInfo>, event: &EventItem) -> (r: Result<CalendarInfo, String>)
    ensures
        match event_calendar_index(calendars@, *event) {
            Some(i) => r is Ok && crate::eventkit::same_calendar(r->Ok_0, calendars@[i]),
            None => r is Err && r->Err_0@ == "event calendar is no longer available"@,
        },
{
    match find_event_calendar(calendars, event) {
        Some(i) => Ok(calendars[i].duplicate()),
        None => Err(text_of("event calendar is no longer available")),
    }
}

/// An event may be changed unless its calendar is listed and read-only.
pub fn ensure_event_calendar_writable(calendars: &Vec<CalendarInfo>, event: &EventItem, action: &str) -> (r: Result<
    (),
    String,
>)
    ensures
        match event_calendar_index(calendars@, *event) {
            Some(i) => if calendars@[i].allows_modifications {
                r is Ok
            } else {
                r is Err && r->Err_0@ == "cannot "@ + action@ + " event on read-only calendar: "@ + calendars@[i].title@
            },
            None => r is Ok,
        },
{
    match find_event_calendar(calendars, event) {
        Some(i) => {
            if !calendars[i].allows_modifications {
                let mut m = text_of("cannot ");
                m.append(action);
                m.append(" event on read-only calendar: ");
                m.append(calendars[i].title.as_str());
                return Err(m);
            }
            Ok(())
        },
        None => Ok(()),
    }
}

// ---------------------------------------------------------------------
// Occurrences

/// The whole second an instant falls in, rounded toward zero.
pub open spec fn truncated_second(i: Instant) -> int {
    let n = total_nanos(i);
    if n >= 0 {
        n / 1_000_000_000
    } else {
        -((-n) / 1_000_000_000)
    }
}

/// Reads an occurrence start: an RFC 3339 value, cut to its whole second.
pub fn parse_occurrence_start(value: &str) -> (r: Result<Instant, String>)
    ensures
        match rfc3339_instant(value@) {
            Some(i) => r is Ok && r->Ok_0 == (Instant { seconds: truncated_second(i) as i64, nanos: 0 }),
            None => r is Err && r->Err_0@ == "occurrence start must be RFC3339 with an explicit UTC offset"@,
        },
{
    match parse_rfc3339(value) {
        None => Err(text_of("occurrence start must be RFC3339 with an explicit UTC offset")),
        Some(i) => {
            let n: i128 = (i.seconds as i128) * 1_000_000_000 + i.nanos as i128;
            let s: i128 = if n >= 0 {
                n / 1_000_000_000
            } else {
                -((-n) / 1_000_000_000)
            };
            Ok(Instant { seconds: s as i64, nanos: 0 })
        },
    }
}

/// The listed occurrences of an event that start in the given second.
pub open spec fn occurrences_of(events: Seq<EventItem>, id: Seq<char>, start: Instant) -> Seq<EventItem>
    decreases events.len(),
{
    if events.len() == 0 {
        seq![]
    } else {
        let e = events.last();
        occurrences_of(events.drop_last(), id, start) + if e.identifier@ == id && e.start_date.seconds
            == start.seconds {
            seq![e]
        } else {
            seq![]
        }
    }
}

/// The one occurrence of an event that starts at the given instant, among
/// those EventKit listed around it; none and several are errors. The start
/// is rendered in the Mac's zone in the messages.
pub fn single_occurrence(candidates: &Vec<EventItem>, id: &str, occurrence_start: Instant) -> (r: Result<
    EventItem,
    String,
>)
    ensures
        ({
            let found = occurrences_of(candidates@, id@, occurrence_start);
            &&& found.len() == 1 ==> r == Ok::<EventItem, String>(found[0])
            &&& found.len() == 0 ==> r is Err && exists|t: Seq<char>|
                r->Err_0@ == "no occurrence of event "@ + id@ + " starts at "@ + t
                    + "; refresh the event list or verify --occurrence-start"@
            &&& found.len() > 1 ==> r is Err && exists|t: Seq<char>|
                r->Err_0@ == "multiple occurrences of event "@ + id@ + " start at "@ + t + "; refusing to choose"@
        }),
{
    let mut found: Vec<EventItem> = Vec::new();
    let mut i: usize = 0;
    while i < candidates.len()
        invariant
            i <= candidates@.len(),
            found@ == occurrences_of(candidates@.take(i as int), id@, occurrence_start),
        decreases candidates.len() - i,
    {
        let e = &candidates[i];
        assert(candidates@.take(i + 1).drop_last() =~= candidates@.take(i as int));
        assert(candidates@.take(i + 1).last() == *e);
        if crate::text::str_eq(e.identifier.as_str(), id) && e.start_date.seconds == occurrence_start.seconds {
            found.push(e.duplicate());
            assert(found@ =~= occurrences_of(candidates@.take(i + 1), id@, occurrence_start));
        } else {
            assert(found@ =~= occurrences_of(candidates@.take(i + 1), id@, occurrence_start));
        }
        i = i + 1;
    }
    assert(candidates@.take(candidates@.len() as int) =~= candidates@);
    if found.len() == 1 {
        return Ok(found[0].duplicate());
    }
    let start = crate::dates::local_rfc3339(occurrence_start);
    if found.len() == 0 {
        let mut m = text_of("no occurrence of event ");
        m.append(id);
        m.append(" starts at ");
        m.append(start.as_str());
        m.append("; refresh the event list or verify --occurrence-start");
        assert(m@ == "no occurrence of event "@ + id@ + " starts at "@ + start@
            + "; refresh the event list or verify --occurrence-start"@);
        Err(m)
    } else {
        let mut m = text_of("multiple occurrences of event ");
        m.append(id);
        m.append(" start at ");
        m.append(start.as_str());
        m.append("; refusing to choose");
        assert(m@ == "multiple occurrences of event "@ + id@ + " start at "@ + start@ + "; refusing to choose"@);
        Err(m)
    }
}

// ---------------------------------------------------------------------
// Search

/// What `str::to_lowercase` gives for a text.
pub uninterp spec fn lower_text(s: Seq<char>) -> Seq<char>;

/// The text in lower case (`str::to_lowercase`, full Unicode mapping).
#[verifier::external_body]
fn lowercase(s: &str) -> (r: String)
    ensures
        r@ == lower_text(s@),
{
    s.to_lowercase()
}

/// A search query matches a text when the lower-cased text contains it.
pub open spec fn query_in(value: Seq<char>, query: Seq<char>) -> bool {
    contains_text(lower_text(value), query)
}

/// Whether the lower-cased text contains the query.
pub fn contains_query(value: &str, query: &str) -> (r: bool)
    ensures
        r == query_in(value@, query@),
{
    let lower = lowercase(value);
    contains_str(lower.as_str(), query)
}

/// An optional text matches the query.
pub open spec fn opt_query_in(value: Option<String>, query: Seq<char>) -> bool {
    value is Some && query_in(value->Some_0@, query)
}

/// Whether an optional text matches the query.
fn opt_contains_query(value: &Option<String>, query: &str) -> (r: bool)
    ensures
        r == opt_query_in(*value, query@),
{
    match value {
        Some(v) => contains_query(v.as_str(), query),
        None => false,
    }
}

/// A listed event matches a search when its title, notes, location, URL or
/// calendar title contains the query once lower-cased.
pub open spec fn event_search_hit(
    title: Seq<char>,
    notes: Option<String>,
    location: Option<String>,
    url: Option<String>,
    calendar: Option<String>,
    query: Seq<char>,
) -> bool {
    query_in(title, query) || opt_query_in(notes, query) || opt_query_in(location, query) || opt_query_in(url, query)
        || opt_query_in(calendar, query)
}

/// Whether a listed event matches a search: its title, notes, location, URL
/// or calendar title contains the query once lower-cased.
pub fn event_matches(
    title: &str,
    notes: &Option<String>,
    location: &Option<String>,
    url: &Option<String>,
    calendar: &Option<String>,
    query: &str,
) -> (r: bool)
    ensures
        r == event_search_hit(title@, *notes, *location, *url, *calendar, query@),
{
    contains_query(title, query) || opt_contains_query(notes, query) || opt_contains_query(location, query)
        || opt_contains_query(url, query) || opt_contains_query(calendar, query)
}

// ---------------------------------------------------------------------
// Updates

/// The all-day change an update asks for: `--all-day`, else `--timed`,
/// else none.
pub fn all_day_patch(all_day: bool, timed: bool) -> (r: Option<bool>)
    ensures
        r == if all_day {
            Some(true)
        } else if timed {
            Some(false)
        } else {
            None::<bool>
        },
{
    if all_day {
        Some(true)
    } else if timed {
        Some(false)
    } else {
        None
    }
}

/// Whether an update changes anything: a field, the calendar, the zone, or
/// added alarms; with nothing to do it is refused.
pub fn ensure_update_has_changes(has_patch: bool, added_alarms: usize) -> (r: Result<(), String>)
    ensures
        r is Ok == (has_patch || added_alarms > 0),
        r matches Err(m) ==> m@ == "no update fields provided"@,
{
    if !has_patch && added_alarms == 0 {
        return Err(text_of("no update fields provided"));
    }
    Ok(())
}

} // verus!
