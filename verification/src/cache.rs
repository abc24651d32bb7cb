//! The row cache: the last listed events and reminders are numbered from 1
//! so that a later command can name one by its row. This module decides what
//! a reference names and where the cache files live; the application reads
//! and writes the files.

use crate::models::{ReminderDateKind, ReminderDateReport};
use crate::eventkit::copy_opt_string;
use crate::text::{decimal, parse_usize, push_decimal, text_of, unsigned_literal};
use vstd::prelude::*;

verus! {

/// The only cache format version this build reads.
pub const CACHE_VERSION: u8 = 1;

/// One row of the event cache.
pub struct CachedEvent {
    pub row: usize,
    pub id: String,
    pub title: String,
    pub start: String,
    pub end: String,
    pub calendar: Option<String>,
}

/// The event cache file.
pub struct EventCache {
    pub version: u8,
    pub events: Vec<CachedEvent>,
}

/// One row of the reminder cache.
pub struct CachedReminder {
    pub row: usize,
    pub id: String,
    pub title: String,
    pub due: Option<String>,
    pub list: Option<String>,
}

/// The reminder cache file.
pub struct ReminderCache {
    pub version: u8,
    pub reminders: Vec<CachedReminder>,
}

/// An event named by a command: its identifier and, for one occurrence of a
/// series, that occurrence's start.
pub struct EventReference {
    pub id: String,
    pub occurrence_start: Option<String>,
}

/// The row number a reference names, if it is one (`str::parse::<usize>`).
pub open spec fn row_number(reference: Seq<char>) -> Option<nat> {
    match unsigned_literal(reference) {
        Some(v) => if v <= usize::MAX {
            Some(v)
        } else {
            None
        },
        None => None,
    }
}

/// The first position whose row is `row`, if any.
pub open spec fn first_event_at_row(events: Seq<CachedEvent>, row: nat) -> Option<int> {
    if exists|i: int| is_first_event_row(events, row, i) {
        Some(choose|i: int| is_first_event_row(events, row, i))
    } else {
        None
    }
}

/// `i` is the first position with the row.
pub open spec fn is_first_event_row(events: Seq<CachedEvent>, row: nat, i: int) -> bool {
    0 <= i < events.len() && events[i].row == row && forall|j: int| 0 <= j < i ==> events[j].row != row
}

/// The first position whose row is `row`, if any.
pub open spec fn first_reminder_at_row(reminders: Seq<CachedReminder>, row: nat) -> Option<int> {
    if exists|i: int| is_first_reminder_row(reminders, row, i) {
        Some(choose|i: int| is_first_reminder_row(reminders, row, i))
    } else {
        None
    }
}

/// `i` is the first position with the row.
pub open spec fn is_first_reminder_row(reminders: Seq<CachedReminder>, row: nat, i: int) -> bool {
    0 <= i < reminders.len() && reminders[i].row == row && forall|j: int|
        0 <= j < i ==> reminders[j].row != row
}

/// The message for a row number combined with an occurrence start.
pub open spec fn row_with_occurrence_text() -> Seq<char> {
    "--occurrence-start cannot be combined with a cached row number"@
}

/// The message for row zero.
pub open spec fn row_zero_text() -> Seq<char> {
    "row numbers start at 1"@
}

/// The message for an event cache of another version.
pub open spec fn event_cache_version_text() -> Seq<char> {
    "cached event list is from an unsupported cache version; run a list command again"@
}

/// The message for a row the event cache does not have.
pub open spec fn missing_event_row_text(row: nat) -> Seq<char> {
    "no cached event at row "@ + decimal(row) + "; run a list command first"@
}

/// The message for a reminder cache of another version.
pub open spec fn reminder_cache_version_text() -> Seq<char> {
    "cached reminder list is from an unsupported cache version; run a reminder list command again"@
}

/// The message for a row the reminder cache does not have.
pub open spec fn missing_reminder_row_text(row: nat) -> Seq<char> {
    "no cached reminder at row "@ + decimal(row)
        + "; run `icalctl reminders list` or `icalctl reminders search` first"@
}

/// The reference for a cached row: the series and the listed occurrence's
/// start.
pub fn cached_event_reference(event: &CachedEvent) -> (r: EventReference)
    ensures
        r.id@ == event.id@,
        r.occurrence_start is Some && r.occurrence_start->Some_0@ == event.start@,
{
    EventReference { id: event.id.clone(), occurrence_start: Some(event.start.clone()) }
}

/// Finds the first cached event with the row.
fn find_event_row(events: &Vec<CachedEvent>, row: usize) -> (r: Option<usize>)
    ensures
        r is None == first_event_at_row(events@, row as nat) is None,
        r matches Some(i) ==> i < events@.len() && first_event_at_row(events@, row as nat) == Some(i as int),
{
    let mut i: usize = 0;
    while i < events.len()
        invariant
            i <= events@.len(),
            forall|j: int| 0 <= j < i ==> events@[j].row != row,
        decreases events.len() - i,
    {
        if events[i].row == row {
            assert(is_first_event_row(events@, row as nat, i as int));
            let ghost c = choose|k: int| is_first_event_row(events@, row as nat, k);
            assert(c == i) by {
                if c < i {
                } else if c > i {
                    assert(events@[i as int].row == row);
                }
            }
            return Some(i);
        }
        i = i + 1;
    }
    None
}

/// Finds the first cached reminder with the row.
fn find_reminder_row(reminders: &Vec<CachedReminder>, row: usize) -> (r: Option<usize>)
    ensures
        r is None == first_reminder_at_row(reminders@, row as nat) is None,
        r matches Some(i) ==> i < reminders@.len() && first_reminder_at_row(reminders@, row as nat) == Some(
            i as int,
        ),
{
    let mut i: usize = 0;
    while i < reminders.len()
        invariant
            i <= reminders@.len(),
            forall|j: int| 0 <= j < i ==> reminders@[j].row != row,
        decreases reminders.len() - i,
    {
        if reminders[i].row == row {
            assert(is_first_reminder_row(reminders@, row as nat, i as int));
            let ghost c = choose|k: int| is_first_reminder_row(reminders@, row as nat, k);
            assert(c == i) by {
                if c < i {
                } else if c > i {
                    assert(reminders@[i as int].row == row);
                }
            }
            return Some(i);
        }
        i = i + 1;
    }
    None
}

/// What `show` names: a non-numeric reference is an event id (with the
/// occurrence start given, if any); a row number is looked up in the event
/// cache, which `cache` holds as the application read it (or the message
/// of the read failure).
pub fn resolve_event_show_ref(
    reference: &str,
    occurrence_start: Option<String>,
    cache: &Result<EventCache, String>,
) -> (r: Result<EventReference, String>)
    ensures
        match row_number(reference@) {
            None => r is Ok && r->Ok_0.id@ == reference@ && r->Ok_0.occurrence_start == occurrence_start,
            Some(row) => if occurrence_start is Some {
                r is Err && r->Err_0@ == row_with_occurrence_text()
            } else if row == 0 {
                r is Err && r->Err_0@ == row_zero_text()
            } else {
                match *cache {
                    Err(m) => r == Err::<EventReference, String>(m),
                    Ok(c) => if c.version != CACHE_VERSION {
                        r is Err && r->Err_0@ == event_cache_version_text()
                    } else {
                        match first_event_at_row(c.events@, row) {
                            None => r is Err && r->Err_0@ == missing_event_row_text(row),
                            Some(i) => r is Ok && r->Ok_0.id@ == c.events@[i].id@
                                && r->Ok_0.occurrence_start is Some
                                && r->Ok_0.occurrence_start->Some_0@ == c.events@[i].start@,
                        }
                    },
                }
            },
        },
{
    let row = match parse_usize(reference) {
        None => {
            return Ok(EventReference { id: text_of(reference), occurrence_start });
        },
        Some(row) => row,
    };
    if occurrence_start.is_some() {
        return Err(text_of("--occurrence-start cannot be combined with a cached row number"));
    }
    if row == 0 {
        return Err(text_of("row numbers start at 1"));
    }
    let cache = match cache {
        Err(m) => {
            return Err(m.clone());
        },
        Ok(c) => c,
    };
    if cache.version != CACHE_VERSION {
        return Err(
            text_of("cached event list is from an unsupported cache version; run a list command again"),
        );
    }
    match find_event_row(&cache.events, row) {
        Some(i) => Ok(cached_event_reference(&cache.events[i])),
        None => {
            let mut m = text_of("no cached event at row ");
            push_decimal(&mut m, row as u64);
            m.append("; run a list command first");
            Err(m)
        },
    }
}

/// What a reminder reference names: a non-numeric reference is a reminder
/// id; a row number is looked up in the reminder cache, which `cache` holds
/// as the application read it (or the message of the read failure).
pub fn resolve_reminder_ref(reference: &str, cache: &Result<ReminderCache, String>) -> (r: Result<String, String>)
    ensures
        match row_number(reference@) {
            None => r is Ok && r->Ok_0@ == reference@,
            Some(row) => if row == 0 {
                r is Err && r->Err_0@ == row_zero_text()
            } else {
                match *cache {
                    Err(m) => r == Err::<String, String>(m),
                    Ok(c) => if c.version != CACHE_VERSION {
                        r is Err && r->Err_0@ == reminder_cache_version_text()
                    } else {
                        match first_reminder_at_row(c.reminders@, row) {
                            None => r is Err && r->Err_0@ == missing_reminder_row_text(row),
                            Some(i) => r is Ok && r->Ok_0@ == c.reminders@[i].id@,
                        }
                    },
                }
            },
        },
{
    let row = match parse_usize(reference) {
        None => {
            return Ok(text_of(reference));
        },
        Some(row) => row,
    };
    if row == 0 {
        return Err(text_of("row numbers start at 1"));
    }
    let cache = match cache {
        Err(m) => {
            return Err(m.clone());
        },
        Ok(c) => c,
    };
    if cache.version != CACHE_VERSION {
        return Err(
            text_of(
                "cached reminder list is from an unsupported cache version; run a reminder list command again",
            ),
        );
    }
    match find_reminder_row(&cache.reminders, row) {
        Some(i) => Ok(cache.reminders[i].id.clone()),
        None => {
            let mut m = text_of("no cached reminder at row ");
            push_decimal(&mut m, row as u64);
            m.append("; run `icalctl reminders list` or `icalctl reminders search` first");
            Err(m)
        },
    }
}

/// The event cache for a listing: the rows are numbered from 1 in order.
pub fn event_cache(events: Vec<CachedEvent>) -> (r: EventCache)
    requires
        events@.len() < usize::MAX,
    ensures
        r.version == CACHE_VERSION,
        r.events@.len() == events@.len(),
        forall|i: int|
            0 <= i < events@.len() ==> (#[trigger] r.events@[i]).row == i + 1 && r.events@[i].id
                == events@[i].id && r.events@[i].title == events@[i].title && r.events@[i].start
                == events@[i].start && r.events@[i].end == events@[i].end && r.events@[i].calendar
                == events@[i].calendar,
{
    let mut numbered: Vec<CachedEvent> = Vec::new();
    let mut rest = events;
    let ghost before = rest@;
    let mut i: usize = 0;
    while rest.len() > 0
        invariant
            i + rest@.len() == before.len(),
            before.len() < usize::MAX,
            numbered@.len() == i,
            rest@ == before.skip(i as int),
            forall|k: int|
                0 <= k < i ==> (#[trigger] numbered@[k]).row == k + 1 && numbered@[k].id == before[k].id
                    && numbered@[k].title == before[k].title && numbered@[k].start == before[k].start
                    && numbered@[k].end == before[k].end && numbered@[k].calendar == before[k].calendar,
        decreases rest.len(),
    {
        let e = rest.remove(0);
        assert(e == before[i as int]);
        numbered.push(CachedEvent { row: i + 1, id: e.id, title: e.title, start: e.start, end: e.end, calendar: e.calendar });
        assert(rest@ =~= before.skip(i + 1));
        i = i + 1;
    }
    EventCache { version: CACHE_VERSION, events: numbered }
}

/// The due text a reminder row keeps: the date of a date-only due, else the
/// normalized instant or, failing that, the local time.
pub open spec fn cached_due_text(due: Option<ReminderDateReport>) -> Option<String> {
    match due {
        None => None,
        Some(d) => match d.kind {
            ReminderDateKind::Date => d.date,
            ReminderDateKind::Datetime => if d.normalized is Some {
                d.normalized
            } else {
                d.local
            },
        },
    }
}

/// The due text a reminder row keeps.
pub fn cached_due(due: &Option<ReminderDateReport>) -> (r: Option<String>)
    ensures
        r == cached_due_text(*due),
{
    match due {
        None => None,
        Some(d) => match d.kind {
            ReminderDateKind::Date => copy_opt_string(&d.date),
            ReminderDateKind::Datetime => if d.normalized.is_some() {
                copy_opt_string(&d.normalized)
            } else {
                copy_opt_string(&d.local)
            },
        },
    }
}

/// The file that keeps the last event listing.
pub const EVENT_CACHE_FILE: &'static str = "last-events.json";

/// The file that keeps the last reminder listing.
pub const REMINDER_CACHE_FILE: &'static str = "last-reminders.json";

/// The path of a cache file, as components to join: under
/// `$XDG_CACHE_HOME/icalctl` when that is set, else under
/// `$HOME/Library/Caches/icalctl`; with neither, `HOME is not set`.
pub fn cache_file_path(file_name: &str, xdg_cache_home: Option<&str>, home: Option<&str>) -> (r: Result<
    Vec<String>,
    String,
>)
    ensures
        match xdg_cache_home {
            Some(x) => r is Ok && texts_of(r->Ok_0@) == seq![x@, "icalctl"@, file_name@],
            None => match home {
                Some(h) => r is Ok && texts_of(r->Ok_0@) == seq![
                    h@,
                    "Library"@,
                    "Caches"@,
                    "icalctl"@,
                    file_name@,
                ],
                None => r is Err && r->Err_0@ == "HOME is not set"@,
            },
        },
{
    let mut parts: Vec<String> = Vec::new();
    match xdg_cache_home {
        Some(x) => {
            parts.push(text_of(x));
            parts.push(text_of("icalctl"));
            parts.push(text_of(file_name));
            assert(texts_of(parts@) =~= seq![x@, "icalctl"@, file_name@]);
            Ok(parts)
        },
        None => match home {
            Some(h) => {
                parts.push(text_of(h));
                parts.push(text_of("Library"));
                parts.push(text_of("Caches"));
                parts.push(text_of("icalctl"));
                parts.push(text_of(file_name));
                assert(texts_of(parts@) =~= seq![h@, "Library"@, "Caches"@, "icalctl"@, file_name@]);
                Ok(parts)
            },
            None => Err(text_of("HOME is not set")),
        },
    }
}

/// `r` is the path of the cache file `file_name` for the given directories.
pub open spec fn cache_path_is(
    r: Result<Vec<String>, String>,
    file_name: Seq<char>,
    xdg_cache_home: Option<&str>,
    home: Option<&str>,
) -> bool {
    match xdg_cache_home {
        Some(x) => r is Ok && texts_of(r->Ok_0@) == seq![x@, "icalctl"@, file_name],
        None => match home {
            Some(h) => r is Ok && texts_of(r->Ok_0@) == seq![h@, "Library"@, "Caches"@, "icalctl"@, file_name],
            None => r is Err && r->Err_0@ == "HOME is not set"@,
        },
    }
}

/// The views of path components.
pub open spec fn texts_of(parts: Seq<String>) -> Seq<Seq<char>> {
    crate::text::texts(parts)
}

/// The path of the event cache.
pub fn cache_path(xdg_cache_home: Option<&str>, home: Option<&str>) -> (r: Result<Vec<String>, String>)
    ensures
        cache_path_is(r, EVENT_CACHE_FILE@, xdg_cache_home, home),
        r matches Ok(parts) ==> parts@.len() > 0 && parts@.last()@ == EVENT_CACHE_FILE@,
{
    let r = cache_file_path(EVENT_CACHE_FILE, xdg_cache_home, home);
    proof {
        if r is Ok {
            assert(texts_of(r->Ok_0@).last() == EVENT_CACHE_FILE@);
        }
    }
    r
}

/// The path of the reminder cache.
pub fn reminder_cache_path(xdg_cache_home: Option<&str>, home: Option<&str>) -> (r: Result<Vec<String>, String>)
    ensures
        cache_path_is(r, REMINDER_CACHE_FILE@, xdg_cache_home, home),
        r matches Ok(parts) ==> parts@.len() > 0 && parts@.last()@ == REMINDER_CACHE_FILE@,
{
    let r = cache_file_path(REMINDER_CACHE_FILE, xdg_cache_home, home);
    proof {
        if r is Ok {
            assert(texts_of(r->Ok_0@).last() == REMINDER_CACHE_FILE@);
        }
    }
    r
}

} // verus!
