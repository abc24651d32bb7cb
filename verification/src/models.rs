//! The report records the tool prints (as JSON or as text): event drafts,
//! recurrence rules, batch summaries, configuration and doctor reports.
//! Records with floating-point fields (colors, alarm offsets, coordinates)
//! are kept by the application.

use vstd::prelude::*;

verus! {

/// How the calendar of a write was chosen.
#[derive(Clone, Copy, PartialEq, Eq, Structural)]
pub enum CalendarSelection {
    Explicit,
    ConfiguredDefault,
    EventkitDefault,
}

/// How a recurrence ends: after a count, at a date, or never.
pub struct EventRecurrenceEndReport {
    pub kind: String,
    pub occurrence_count: Option<usize>,
    pub end_date: Option<String>,
}

/// A weekday of a recurrence rule, with an optional week ordinal (0 = every).
#[derive(Clone, Copy, PartialEq, Eq, Structural)]
pub struct EventRecurrenceWeekdayReport {
    pub weekday: isize,
    pub week_number: isize,
}

/// A recurrence rule as EventKit stores it.
pub struct EventRecurrenceReport {
    pub frequency: String,
    pub interval: usize,
    pub first_day_of_week: isize,
    pub end: EventRecurrenceEndReport,
    pub days_of_week: Option<Vec<EventRecurrenceWeekdayReport>>,
    pub days_of_month: Option<Vec<i32>>,
    pub months_of_year: Option<Vec<i32>>,
    pub weeks_of_year: Option<Vec<i32>>,
    pub days_of_year: Option<Vec<i32>>,
    pub set_positions: Option<Vec<i32>>,
}

/// The resolved write plan of an event add or update.
pub struct EventDraftReport {
    pub operation: String,
    pub scope: Option<String>,
    pub event_id: Option<String>,
    pub title: String,
    pub start: String,
    pub end: String,
    pub start_input: Option<String>,
    pub end_input: Option<String>,
    pub start_utc: String,
    pub end_utc: String,
    pub start_local: String,
    pub end_local: String,
    pub start_in_event_time_zone: Option<String>,
    pub end_in_event_time_zone: Option<String>,
    pub duration_seconds: i64,
    pub all_day: bool,
    pub timed: bool,
    pub calendar: String,
    pub calendar_id: String,
    pub calendar_source: Option<String>,
    pub calendar_source_id: Option<String>,
    pub calendar_selection: Option<CalendarSelection>,
    pub time_zone: Option<String>,
    pub availability: String,
    pub alarm_count: usize,
    pub recurrence: Option<EventRecurrenceReport>,
    pub has_notes: bool,
    pub has_location: bool,
    pub has_url: bool,
    pub duplicate_warnings: Vec<String>,
}

/// A calendar as `calendars` lists it. Its display color, a tuple of
/// floating-point channels, is added by the application.
pub struct CalendarReport {
    pub id: String,
    pub title: String,
    pub source: Option<String>,
    pub source_id: Option<String>,
    pub calendar_type: String,
    pub allows_modifications: bool,
    pub is_immutable: bool,
    pub is_subscribed: bool,
    pub allowed_entity_types: Vec<String>,
    pub supported_event_availabilities: Vec<String>,
    pub is_default_for_new_events: bool,
}

/// An event as the read commands print it. Its alarms, whose relative
/// offsets are floating-point seconds, are added by the application.
pub struct EventReport {
    pub id: String,
    pub title: String,
    pub start: String,
    pub end: String,
    pub start_input: Option<String>,
    pub end_input: Option<String>,
    pub start_utc: String,
    pub end_utc: String,
    pub start_local: String,
    pub end_local: String,
    pub start_in_event_time_zone: Option<String>,
    pub end_in_event_time_zone: Option<String>,
    pub duration_seconds: i64,
    pub all_day: bool,
    pub calendar: Option<String>,
    pub calendar_id: Option<String>,
    pub calendar_source: Option<String>,
    pub calendar_source_id: Option<String>,
    pub calendar_type: Option<String>,
    pub allows_calendar_modifications: Option<bool>,
    pub calendar_selection: Option<CalendarSelection>,
    pub write_action: Option<String>,
    pub write_scope: Option<String>,
    pub location: Option<String>,
    pub notes: Option<String>,
    pub url: Option<String>,
    pub status: String,
    pub availability: String,
    pub has_notes: bool,
    pub has_url: bool,
    pub alarm_count: Option<usize>,
    pub recurrence_count: Option<usize>,
    pub recurrence_rules: Option<Vec<EventRecurrenceReport>>,
    pub is_detached: bool,
    pub occurrence_date: Option<String>,
    pub creation_date: Option<String>,
    pub last_modified_date: Option<String>,
    pub external_identifier: Option<String>,
    pub timezone: Option<String>,
    pub attachments_count: usize,
    pub attendees: Vec<ParticipantReport>,
    pub organizer: Option<ParticipantReport>,
}

/// An attendee or organizer of an event.
pub struct ParticipantReport {
    pub name: Option<String>,
    pub url: Option<String>,
    pub role: String,
    pub status: String,
    pub is_current_user: bool,
}

/// A deleted event.
pub struct DeletedReport {
    pub id: String,
    pub title: String,
    pub scope: Option<String>,
}

/// EventKit authorization status.
pub struct StatusReport {
    pub authorization: String,
}

/// Per-status counts of a batch.
pub struct BatchSummaryReport {
    pub total: usize,
    pub created: usize,
    pub skipped: usize,
    pub updated: usize,
    pub failed: usize,
    pub not_attempted: usize,
    pub would_create: usize,
    pub would_skip: usize,
    pub would_update: usize,
}

impl Default for BatchSummaryReport {
    fn default() -> (r: Self)
        ensures
            r.total == 0 && r.created == 0 && r.skipped == 0 && r.updated == 0 && r.failed == 0
                && r.not_attempted == 0 && r.would_create == 0 && r.would_skip == 0
                && r.would_update == 0,
    {
        BatchSummaryReport {
            total: 0,
            created: 0,
            skipped: 0,
            updated: 0,
            failed: 0,
            not_attempted: 0,
            would_create: 0,
            would_skip: 0,
            would_update: 0,
        }
    }
}

/// The error of one batch item.
pub struct BatchErrorReport {
    pub message: String,
}

/// One batch item's outcome.
pub struct BatchItemReport {
    pub index: usize,
    pub client_id: Option<String>,
    pub status: String,
    pub event_id: Option<String>,
    pub matched_event_id: Option<String>,
    pub draft: Option<Box<EventDraftReport>>,
    pub error: Option<BatchErrorReport>,
}

/// The outcome of an event batch.
pub struct BatchReport {
    pub dry_run: bool,
    pub can_write: bool,
    pub if_exists: String,
    pub continue_on_error: bool,
    pub summary: BatchSummaryReport,
    pub items: Vec<BatchItemReport>,
}

impl BatchReport {
    /// Whether some item failed or was not attempted, which makes the
    /// command exit with a failure status.
    pub fn has_failures(&self) -> (r: bool)
        ensures
            r == (self.summary.failed > 0 || self.summary.not_attempted > 0),
    {
        self.summary.failed > 0 || self.summary.not_attempted > 0
    }
}

/// The outcome of a configuration command.
pub struct ConfigReport {
    pub action: String,
    pub path: String,
    pub key: Option<String>,
    pub value: Option<String>,
    pub contents: Option<String>,
}

/// Version and build provenance.
pub struct VersionReport {
    pub name: String,
    pub version: String,
    pub git_commit: Option<String>,
    pub target: String,
    pub profile: String,
}

/// The running process, as the doctor reports it.
pub struct ProcessReport {
    pub pid: u32,
    pub executable: String,
    pub terminal_program: Option<String>,
}

/// Which privacy usage descriptions the embedded Info.plist carries.
pub struct InfoPlistReport {
    pub embedded: bool,
    pub bundle_identifier: String,
    pub has_full_access_usage_description: bool,
    pub has_legacy_usage_description: bool,
    pub has_write_only_usage_description: bool,
    pub has_reminders_full_access_usage_description: bool,
    pub has_reminders_legacy_usage_description: bool,
    pub has_location_usage_description: bool,
}

/// The doctor's diagnosis of permissions and launch context.
pub struct DoctorReport {
    pub authorization: String,
    pub reminders_authorization: String,
    pub location_authorization: String,
    pub location_services_enabled: bool,
    pub process: ProcessReport,
    pub info_plist: InfoPlistReport,
    pub recommended_command: String,
    pub recommended_reminders_command: String,
    pub remediation: Vec<String>,
    pub reminders_remediation: Vec<String>,
    pub location_remediation: Vec<String>,
}

/// A reminder list.
pub struct ReminderListReport {
    pub id: String,
    pub title: String,
    pub source: Option<String>,
    pub source_id: Option<String>,
    pub source_type: Option<String>,
    pub list_type: String,
    pub allows_modifications: bool,
    pub is_immutable: bool,
    pub is_subscribed: bool,
    pub is_default_for_new_reminders: bool,
}

/// Reminder priority bands.
#[derive(Clone, Copy, PartialEq, Eq, Structural)]
pub enum ReminderPriority {
    /// No priority (`none` in reports).
    NoPriority,
    High,
    Medium,
    Low,
}

/// Whether a reminder date carries a time.
#[derive(Clone, Copy, PartialEq, Eq, Structural)]
pub enum ReminderDateKind {
    Date,
    Datetime,
}

/// A reminder due or start date.
pub struct ReminderDateReport {
    pub kind: ReminderDateKind,
    pub date: Option<String>,
    pub local: Option<String>,
    pub normalized: Option<String>,
    pub utc: Option<String>,
    pub time_zone: Option<String>,
}

/// How a reminder recurrence ends.
pub struct ReminderRecurrenceEndReport {
    pub kind: String,
    pub occurrence_count: Option<usize>,
    pub end_date: Option<String>,
}

/// A reminder recurrence rule.
pub struct ReminderRecurrenceReport {
    pub frequency: String,
    pub interval: usize,
    pub first_day_of_week: isize,
    pub end: ReminderRecurrenceEndReport,
    pub days_of_week: Option<Vec<isize>>,
    pub days_of_month: Option<Vec<i32>>,
    pub months_of_year: Option<Vec<i32>>,
    pub weeks_of_year: Option<Vec<i32>>,
    pub days_of_year: Option<Vec<i32>>,
    pub set_positions: Option<Vec<i32>>,
}

/// A deleted reminder.
pub struct ReminderDeletedReport {
    pub id: String,
    pub title: String,
    pub list: Option<String>,
    pub list_id: Option<String>,
}

/// A planned reminder notification.
pub struct ReminderNotificationReport {
    pub kind: String,
    pub minutes_before: i64,
    pub absolute_utc: String,
    pub absolute_in_due_time_zone: String,
}

/// How the list of a reminder write was chosen.
#[derive(Clone, Copy, PartialEq, Eq, Structural)]
pub enum ReminderListSelection {
    Explicit,
    ConfiguredDefault,
    EventkitDefault,
}

} // verus!
