//! Plain-value records of what the tool reads from EventKit: calendars,
//! authorization states, availability values and mutation spans. The bridge
//! that talks to EventKit fills these in; the verified logic only reads them.

use vstd::prelude::*;

verus! {

/// A copy of a string that is provably equal to it.
pub fn copy_string(s: &String) -> (r: String)
    ensures
        r == *s,
{
    s.clone()
}

/// A copy of an optional string that is provably equal to it.
pub fn copy_opt_string(s: &Option<String>) -> (r: Option<String>)
    ensures
        r == *s,
{
    match s {
        Some(v) => Some(v.clone()),
        None => None,
    }
}

/// A copy of a list of strings with the same contents.
pub fn copy_strings(v: &Vec<String>) -> (r: Vec<String>)
    ensures
        r@ == v@,
{
    let mut out: Vec<String> = Vec::new();
    let mut i: usize = 0;
    while i < v.len()
        invariant
            i <= v.len(),
            out@ == v@.take(i as int),
        decreases v.len() - i,
    {
        out.push(v[i].clone());
        assert(out@ =~= v@.take(i + 1));
        i = i + 1;
    }
    assert(v@.take(v.len() as int) =~= v@);
    out
}

/// One calendar as EventKit describes it. The display color, a tuple of
/// floating-point channels, is kept by the bridge and not modelled here.
pub struct CalendarInfo {
    pub identifier: String,
    pub title: String,
    pub source: Option<String>,
    pub source_id: Option<String>,
    /// The name of the EventKit calendar type, such as `CalDAV` or `Local`.
    pub calendar_type: String,
    pub allows_modifications: bool,
    pub is_immutable: bool,
    pub is_subscribed: bool,
    pub allowed_entity_types: Vec<String>,
    pub supported_event_availabilities: Vec<String>,
}

impl CalendarInfo {
    /// A field-by-field copy.
    pub fn duplicate(&self) -> (r: CalendarInfo)
        ensures
            r.identifier == self.identifier,
            r.title == self.title,
            r.source == self.source,
            r.source_id == self.source_id,
            r.calendar_type == self.calendar_type,
            r.allows_modifications == self.allows_modifications,
            r.is_immutable == self.is_immutable,
            r.is_subscribed == self.is_subscribed,
            r.allowed_entity_types@ == self.allowed_entity_types@,
            r.supported_event_availabilities@ == self.supported_event_availabilities@,
    {
        CalendarInfo {
            identifier: copy_string(&self.identifier),
            title: copy_string(&self.title),
            source: copy_opt_string(&self.source),
            source_id: copy_opt_string(&self.source_id),
            calendar_type: copy_string(&self.calendar_type),
            allows_modifications: self.allows_modifications,
            is_immutable: self.is_immutable,
            is_subscribed: self.is_subscribed,
            allowed_entity_types: copy_strings(&self.allowed_entity_types),
            supported_event_availabilities: copy_strings(&self.supported_event_availabilities),
        }
    }
}

/// Two calendar records hold the same values (lists compared by contents).
pub open spec fn same_calendar(a: CalendarInfo, b: CalendarInfo) -> bool {
    &&& a.identifier == b.identifier
    &&& a.title == b.title
    &&& a.source == b.source
    &&& a.source_id == b.source_id
    &&& a.calendar_type == b.calendar_type
    &&& a.allows_modifications == b.allows_modifications
    &&& a.is_immutable == b.is_immutable
    &&& a.is_subscribed == b.is_subscribed
    &&& a.allowed_entity_types@ == b.allowed_entity_types@
    &&& a.supported_event_availabilities@ == b.supported_event_availabilities@
}

} // verus!

verus! {

/// Event availability values EventKit knows.
#[derive(Clone, Copy, PartialEq, Eq, Structural)]
pub enum EventAvailability {
    NotSupported,
    Busy,
    Free,
    Tentative,
    Unavailable,
}

/// EventKit authorization for calendars.
#[derive(Clone, Copy, PartialEq, Eq, Structural)]
pub enum AuthorizationStatus {
    NotDetermined,
    Restricted,
    Denied,
    FullAccess,
    WriteOnly,
}

/// The part of a recurring series a write applies to.
#[derive(Clone, Copy, PartialEq, Eq, Structural)]
pub enum EventSpan {
    This,
    Future,
}

/// An event occurrence as EventKit lists it, with the fields the duplicate
/// checks and reports read.
pub struct EventItem {
    pub identifier: String,
    pub title: String,
    pub start_date: crate::dates::Instant,
    pub end_date: crate::dates::Instant,
    pub all_day: bool,
    pub calendar_id: Option<String>,
    pub calendar_title: Option<String>,
    pub timezone: Option<String>,
    pub availability: EventAvailability,
    pub notes: Option<String>,
    pub location: Option<String>,
    pub url: Option<String>,
    /// The name of EventKit's event status, such as `Confirmed`.
    pub status: String,
    pub is_detached: bool,
    pub occurrence_date: Option<crate::dates::Instant>,
    pub creation_date: Option<crate::dates::Instant>,
    pub last_modified_date: Option<crate::dates::Instant>,
    pub external_identifier: Option<String>,
    pub attachments_count: usize,
}

/// An attendee or organizer as EventKit describes one; the role and status
/// are the names of EventKit's values, such as `Required` and `Accepted`.
pub struct ParticipantInfo {
    pub name: Option<String>,
    pub url: Option<String>,
    pub role: String,
    pub status: String,
    pub is_current_user: bool,
}

impl EventItem {
    /// A field-by-field copy.
    pub fn duplicate(&self) -> (r: EventItem)
        ensures
            r == *self,
    {
        EventItem {
            identifier: copy_string(&self.identifier),
            title: copy_string(&self.title),
            start_date: self.start_date,
            end_date: self.end_date,
            all_day: self.all_day,
            calendar_id: copy_opt_string(&self.calendar_id),
            calendar_title: copy_opt_string(&self.calendar_title),
            timezone: copy_opt_string(&self.timezone),
            availability: self.availability,
            notes: copy_opt_string(&self.notes),
            location: copy_opt_string(&self.location),
            url: copy_opt_string(&self.url),
            status: copy_string(&self.status),
            is_detached: self.is_detached,
            occurrence_date: self.occurrence_date,
            creation_date: self.creation_date,
            last_modified_date: self.last_modified_date,
            external_identifier: copy_opt_string(&self.external_identifier),
            attachments_count: self.attachments_count,
        }
    }
}

} // verus!
