//! The argument records of the command line: selectors, recurrence options,
//! and the value enums shared by calendar, reminder and batch commands. The
//! parser that fills them lives in the application around this library.

use vstd::prelude::*;

verus! {

/// Calendars to read from: titles and exact ids, with an optional source
/// title or source id that qualifies every title.
pub struct ReadCalendarSelectorArgs {
    pub calendars: Vec<String>,
    pub calendar_ids: Vec<String>,
    pub calendar_source: Option<String>,
    pub source_id: Option<String>,
}

/// The calendar to write to: one title (optionally qualified) or one id.
pub struct WriteCalendarSelectorArgs {
    pub calendar: Option<String>,
    pub calendar_id: Option<String>,
    pub calendar_source: Option<String>,
    pub source_id: Option<String>,
}

/// Reminder lists to read from.
pub struct ReadReminderListSelectorArgs {
    pub lists: Vec<String>,
    pub list_ids: Vec<String>,
    pub list_source: Option<String>,
    pub source_id: Option<String>,
}

/// The reminder list to write to.
pub struct WriteReminderListSelectorArgs {
    pub list: Option<String>,
    pub list_id: Option<String>,
    pub list_source: Option<String>,
    pub source_id: Option<String>,
}

/// Completion state of reminders to include.
#[derive(Clone, Copy, PartialEq, Eq, Structural)]
pub enum ReminderStateArg {
    Incomplete,
    Completed,
    All,
}

impl Default for ReminderStateArg {
    fn default() -> (r: Self)
        ensures
            r == ReminderStateArg::Incomplete,
    {
        ReminderStateArg::Incomplete
    }
}

/// Filters for reminder reads.
pub struct ReminderReadFilterArgs {
    pub list_selector: ReadReminderListSelectorArgs,
    pub state: ReminderStateArg,
    pub due_from: Option<String>,
    pub due_to: Option<String>,
}

/// Event availability as the command line names it.
#[derive(Clone, Copy, PartialEq, Eq, Structural)]
pub enum AvailabilityArg {
    Busy,
    Free,
    Tentative,
    Unavailable,
}

/// What to do when a matching event or reminder already exists.
#[derive(Clone, Copy, PartialEq, Eq, Structural)]
pub enum IfExistsArg {
    Skip,
    Update,
    Error,
}

impl Default for IfExistsArg {
    fn default() -> (r: Self)
        ensures
            r == IfExistsArg::Error,
    {
        IfExistsArg::Error
    }
}

/// Reminder priority as the command line names it.
#[derive(Clone, Copy, PartialEq, Eq, Structural)]
pub enum ReminderPriorityArg {
    /// No priority (`none` on the command line).
    NoPriority,
    Low,
    Medium,
    High,
}

/// Event recurrence frequency.
#[derive(Clone, Copy, PartialEq, Eq, Structural)]
pub enum EventRepeatArg {
    Daily,
    Weekly,
    Monthly,
    Yearly,
}

/// A weekday of a recurrence rule.
#[derive(Clone, Copy, PartialEq, Eq, Structural)]
pub enum EventWeekdayArg {
    Sunday,
    Monday,
    Tuesday,
    Wednesday,
    Thursday,
    Friday,
    Saturday,
}

/// Which part of a recurring series a mutation applies to.
#[derive(Clone, Copy, PartialEq, Eq, Structural)]
pub enum EventScopeArg {
    Occurrence,
    Future,
}

/// Whether a geofence fires on arrival or on departure.
#[derive(Clone, Copy, PartialEq, Eq, Structural)]
pub enum ReminderGeofenceProximityArg {
    Arrive,
    Leave,
}

/// Reminder recurrence frequency.
#[derive(Clone, Copy, PartialEq, Eq, Structural)]
pub enum ReminderRepeatArg {
    Daily,
    Weekly,
    Monthly,
    Yearly,
}

/// Recurrence options of a new event.
pub struct EventRecurrenceArgs {
    pub repeat: Option<EventRepeatArg>,
    pub interval: Option<usize>,
    pub weekdays: Vec<EventWeekdayArg>,
    pub month_days: Vec<i32>,
    pub count: Option<usize>,
    pub until: Option<String>,
}

impl Default for EventRecurrenceArgs {
    fn default() -> (r: Self)
        ensures
            r.repeat is None,
            r.interval is None,
            r.weekdays@.len() == 0,
            r.month_days@.len() == 0,
            r.count is None,
            r.until is None,
    {
        EventRecurrenceArgs {
            repeat: None,
            interval: None,
            weekdays: Vec::new(),
            month_days: Vec::new(),
            count: None,
            until: None,
        }
    }
}

/// The recurrence object of a JSON event draft or batch row.
pub struct EventJsonRecurrence {
    pub frequency: EventRepeatArg,
    pub interval: Option<usize>,
    pub weekdays: Vec<EventWeekdayArg>,
    pub month_days: Vec<i32>,
    pub count: Option<usize>,
    pub until: Option<String>,
}

impl From<EventJsonRecurrence> for EventRecurrenceArgs {
    fn from(value: EventJsonRecurrence) -> (r: Self) {
        EventRecurrenceArgs {
            repeat: Some(value.frequency),
            interval: value.interval,
            weekdays: value.weekdays,
            month_days: value.month_days,
            count: value.count,
            until: value.until,
        }
    }
}

impl vstd::std_specs::convert::FromSpecImpl<EventJsonRecurrence> for EventRecurrenceArgs {
    open spec fn obeys_from_spec() -> bool {
        true
    }

    open spec fn from_spec(value: EventJsonRecurrence) -> Self {
        EventRecurrenceArgs {
            repeat: Some(value.frequency),
            interval: value.interval,
            weekdays: value.weekdays,
            month_days: value.month_days,
            count: value.count,
            until: value.until,
        }
    }
}

/// The event batch command.
pub enum BatchCommand {
    Add { file: String, if_exists: IfExistsArg, dry_run: bool, continue_on_error: bool },
}

/// The reminder batch command.
pub enum ReminderBatchCommand {
    Add { file: String, if_exists: IfExistsArg, dry_run: bool, continue_on_error: bool },
}

/// Travel commands: serving the map, and adding one flight as an event.
pub enum TravelCommand {
    Serve { calendar_ids: Vec<String> },
    Flight {
        flight_number: String,
        from_airport: String,
        to_airport: String,
        departure: String,
        arrival: String,
        calendar_selector: WriteCalendarSelectorArgs,
        notes: Option<String>,
        notes_file: Option<String>,
        url: Option<String>,
        availability: AvailabilityArg,
        alarm_minutes_before: Vec<i64>,
        if_exists: IfExistsArg,
        duplicate_window_seconds: i64,
        dry_run: bool,
    },
}

/// Configuration commands.
pub enum ConfigCommand {
    Path,
    Init,
    Show,
    Validate,
    Edit,
    Get { key: String },
    /// Sets one value (`set` on the command line).
    SetValue { key: String, value: Option<String>, stdin: bool },
    Unset { key: String },
}

} // verus!
