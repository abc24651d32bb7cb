//! The doctor's diagnosis: how each authorization state is named, which
//! command it recommends and which remediation steps it prints, and the
//! message for a failed Calendar access request.

use crate::eventkit::AuthorizationStatus;
use crate::models::{DoctorReport, InfoPlistReport, ProcessReport};
use crate::text::{contains_str, contains_text, str_eq, text_of, texts};
use vstd::prelude::*;

verus! {

/// The bundle identifier the embedded Info.plist declares.
pub const BUNDLE_IDENTIFIER: &'static str = "dev.zyd.icalctl";

/// Reminders authorization as macOS reports it.
#[derive(Clone, Copy, PartialEq, Eq, Structural)]
pub enum ReminderAuthorization {
    NotDetermined,
    Restricted,
    Denied,
    FullAccess,
    WriteOnly,
    Unknown,
}

/// Location authorization as Core Location reports it; `Unknown` stands for
/// any value it adds later.
#[derive(Clone, Copy, PartialEq, Eq, Structural)]
pub enum LocationAuthorization {
    AuthorizedAlways,
    AuthorizedWhenInUse,
    NotDetermined,
    Restricted,
    Denied,
    Unknown,
}

/// Whether Location Services are on and how this process is authorized.
pub struct LocationCapability {
    pub authorization: String,
    pub services_enabled: bool,
}

/// The name of a Calendar authorization state.
pub open spec fn authorization_text(status: AuthorizationStatus) -> Seq<char> {
    match status {
        AuthorizationStatus::FullAccess => "FullAccess"@,
        AuthorizationStatus::WriteOnly => "WriteOnly"@,
        AuthorizationStatus::NotDetermined => "NotDetermined"@,
        AuthorizationStatus::Denied => "Denied"@,
        AuthorizationStatus::Restricted => "Restricted"@,
    }
}

/// The name of a Calendar authorization state.
pub fn authorization_name(status: AuthorizationStatus) -> (r: &'static str)
    ensures
        r@ == authorization_text(status),
{
    match status {
        AuthorizationStatus::FullAccess => "FullAccess",
        AuthorizationStatus::WriteOnly => "WriteOnly",
        AuthorizationStatus::NotDetermined => "NotDetermined",
        AuthorizationStatus::Denied => "Denied",
        AuthorizationStatus::Restricted => "Restricted",
    }
}

/// The name of a Reminders authorization state.
pub open spec fn reminder_authorization_text(status: ReminderAuthorization) -> Seq<char> {
    match status {
        ReminderAuthorization::FullAccess => "FullAccess"@,
        ReminderAuthorization::WriteOnly => "WriteOnly"@,
        ReminderAuthorization::NotDetermined => "NotDetermined"@,
        ReminderAuthorization::Denied => "Denied"@,
        ReminderAuthorization::Restricted => "Restricted"@,
        ReminderAuthorization::Unknown => "Unknown"@,
    }
}

impl ReminderAuthorization {
    /// The state's name.
    pub fn as_str(&self) -> (r: &'static str)
        ensures
            r@ == reminder_authorization_text(*self),
    {
        match self {
            ReminderAuthorization::FullAccess => "FullAccess",
            ReminderAuthorization::WriteOnly => "WriteOnly",
            ReminderAuthorization::NotDetermined => "NotDetermined",
            ReminderAuthorization::Denied => "Denied",
            ReminderAuthorization::Restricted => "Restricted",
            ReminderAuthorization::Unknown => "Unknown",
        }
    }
}

/// The name of a Location authorization state.
pub open spec fn location_authorization_text(status: LocationAuthorization) -> Seq<char> {
    match status {
        LocationAuthorization::AuthorizedAlways => "AuthorizedAlways"@,
        LocationAuthorization::AuthorizedWhenInUse => "AuthorizedWhenInUse"@,
        LocationAuthorization::NotDetermined => "NotDetermined"@,
        LocationAuthorization::Restricted => "Restricted"@,
        LocationAuthorization::Denied => "Denied"@,
        LocationAuthorization::Unknown => "Unknown"@,
    }
}

/// The name of a Location authorization state.
pub fn location_authorization_name(status: LocationAuthorization) -> (r: &'static str)
    ensures
        r@ == location_authorization_text(status),
{
    match status {
        LocationAuthorization::AuthorizedAlways => "AuthorizedAlways",
        LocationAuthorization::AuthorizedWhenInUse => "AuthorizedWhenInUse",
        LocationAuthorization::NotDetermined => "NotDetermined",
        LocationAuthorization::Restricted => "Restricted",
        LocationAuthorization::Denied => "Denied",
        LocationAuthorization::Unknown => "Unknown",
    }
}

/// The command to run next for a Calendar authorization state.
pub open spec fn recommended_command_text(status: AuthorizationStatus) -> Seq<char> {
    match status {
        AuthorizationStatus::FullAccess => "icalctl calendars --json"@,
        AuthorizationStatus::NotDetermined => "icalctl calendars"@,
        _ => "icalctl doctor --json"@,
    }
}

/// The command to run next for a Calendar authorization state.
pub fn recommended_command(status: AuthorizationStatus) -> (r: &'static str)
    ensures
        r@ == recommended_command_text(status),
{
    match status {
        AuthorizationStatus::FullAccess => "icalctl calendars --json",
        AuthorizationStatus::NotDetermined => "icalctl calendars",
        AuthorizationStatus::WriteOnly | AuthorizationStatus::Denied | AuthorizationStatus::Restricted => {
            "icalctl doctor --json"
        },
    }
}

/// The command to run next for a Reminders authorization state.
pub open spec fn recommended_reminders_command_text(status: ReminderAuthorization) -> Seq<char> {
    match status {
        ReminderAuthorization::FullAccess => "icalctl reminders lists --json"@,
        ReminderAuthorization::NotDetermined => "icalctl reminders lists"@,
        _ => "icalctl doctor --json"@,
    }
}

/// The command to run next for a Reminders authorization state.
pub fn recommended_reminders_command(status: ReminderAuthorization) -> (r: &'static str)
    ensures
        r@ == recommended_reminders_command_text(status),
{
    match status {
        ReminderAuthorization::FullAccess => "icalctl reminders lists --json",
        ReminderAuthorization::NotDetermined => "icalctl reminders lists",
        ReminderAuthorization::WriteOnly | ReminderAuthorization::Denied
        | ReminderAuthorization::Restricted | ReminderAuthorization::Unknown => "icalctl doctor --json",
    }
}

/// The remediation steps for a Calendar authorization state.
pub open spec fn remediation_steps(status: AuthorizationStatus) -> Seq<Seq<char>> {
    match status {
        AuthorizationStatus::FullAccess => seq![
            "Calendar full access is ready; use exact calendar ids for automated writes."@,
        ],
        AuthorizationStatus::NotDetermined => seq![
            "Open Terminal.app, iTerm, or Ghostty outside an embedded tool sandbox."@,
            "Run `icalctl calendars` and approve the macOS Calendar prompt."@,
            "Run `icalctl doctor --json` again to verify FullAccess."@,
        ],
        AuthorizationStatus::WriteOnly => seq![
            "Open System Settings > Privacy & Security > Calendars."@,
            "Enable Full Calendar Access for icalctl or its launching terminal."@,
        ],
        AuthorizationStatus::Denied => seq![
            "Open System Settings > Privacy & Security > Calendars and enable access."@,
            "If the entry is stale, run `tccutil reset Calendar dev.zyd.icalctl` from a terminal, then rerun `icalctl calendars`."@,
        ],
        AuthorizationStatus::Restricted => seq![
            "Calendar access is restricted by system policy; contact the device administrator."@,
        ],
    }
}

/// A list of one step.
fn one_step(a: &str) -> (r: Vec<String>)
    ensures
        texts(r@) == seq![a@],
{
    let mut v = Vec::new();
    v.push(text_of(a));
    assert(texts(v@) =~= seq![a@]);
    v
}

/// A list of two steps.
fn two_steps(a: &str, b: &str) -> (r: Vec<String>)
    ensures
        texts(r@) == seq![a@, b@],
{
    let mut v = Vec::new();
    v.push(text_of(a));
    v.push(text_of(b));
    assert(texts(v@) =~= seq![a@, b@]);
    v
}

/// A list of three steps.
fn three_steps(a: &str, b: &str, c: &str) -> (r: Vec<String>)
    ensures
        texts(r@) == seq![a@, b@, c@],
{
    let mut v = Vec::new();
    v.push(text_of(a));
    v.push(text_of(b));
    v.push(text_of(c));
    assert(texts(v@) =~= seq![a@, b@, c@]);
    v
}

/// The remediation steps for a Calendar authorization state.
pub fn remediation(status: AuthorizationStatus) -> (r: Vec<String>)
    ensures
        texts(r@) == remediation_steps(status),
{
    match status {
        AuthorizationStatus::FullAccess => one_step(
            "Calendar full access is ready; use exact calendar ids for automated writes.",
        ),
        AuthorizationStatus::NotDetermined => three_steps(
            "Open Terminal.app, iTerm, or Ghostty outside an embedded tool sandbox.",
            "Run `icalctl calendars` and approve the macOS Calendar prompt.",
            "Run `icalctl doctor --json` again to verify FullAccess.",
        ),
        AuthorizationStatus::WriteOnly => two_steps(
            "Open System Settings > Privacy & Security > Calendars.",
            "Enable Full Calendar Access for icalctl or its launching terminal.",
        ),
        AuthorizationStatus::Denied => two_steps(
            "Open System Settings > Privacy & Security > Calendars and enable access.",
            "If the entry is stale, run `tccutil reset Calendar dev.zyd.icalctl` from a terminal, then rerun `icalctl calendars`.",
        ),
        AuthorizationStatus::Restricted => one_step(
            "Calendar access is restricted by system policy; contact the device administrator.",
        ),
    }
}

/// The remediation steps for a Reminders authorization state.
pub open spec fn reminders_remediation_steps(status: ReminderAuthorization) -> Seq<Seq<char>> {
    match status {
        ReminderAuthorization::FullAccess => seq![
            "Reminders full access is ready; prefer exact list ids for automation."@,
        ],
        ReminderAuthorization::NotDetermined => seq![
            "Open Terminal.app, iTerm, or Ghostty outside an embedded tool sandbox."@,
            "Run `icalctl reminders lists` and approve the macOS Reminders prompt."@,
            "Run `icalctl doctor --json` again to verify Reminders FullAccess."@,
        ],
        ReminderAuthorization::WriteOnly => seq![
            "Open System Settings > Privacy & Security > Reminders."@,
            "Enable full Reminders access for icalctl or its launching terminal."@,
        ],
        ReminderAuthorization::Denied => seq![
            "Open System Settings > Privacy & Security > Reminders and enable access."@,
            "If the entry is stale, run `tccutil reset Reminders dev.zyd.icalctl` from a terminal, then rerun `icalctl reminders lists`."@,
        ],
        ReminderAuthorization::Restricted => seq![
            "Reminders access is restricted by system policy; contact the device administrator."@,
        ],
        ReminderAuthorization::Unknown => seq![
            "macOS returned an unknown Reminders authorization status; rerun from a normal terminal and inspect `icalctl doctor --json`."@,
        ],
    }
}

/// The remediation steps for a Reminders authorization state.
pub fn reminders_remediation(status: ReminderAuthorization) -> (r: Vec<String>)
    ensures
        texts(r@) == reminders_remediation_steps(status),
{
    match status {
        ReminderAuthorization::FullAccess => one_step(
            "Reminders full access is ready; prefer exact list ids for automation.",
        ),
        ReminderAuthorization::NotDetermined => three_steps(
            "Open Terminal.app, iTerm, or Ghostty outside an embedded tool sandbox.",
            "Run `icalctl reminders lists` and approve the macOS Reminders prompt.",
            "Run `icalctl doctor --json` again to verify Reminders FullAccess.",
        ),
        ReminderAuthorization::WriteOnly => two_steps(
            "Open System Settings > Privacy & Security > Reminders.",
            "Enable full Reminders access for icalctl or its launching terminal.",
        ),
        ReminderAuthorization::Denied => two_steps(
            "Open System Settings > Privacy & Security > Reminders and enable access.",
            "If the entry is stale, run `tccutil reset Reminders dev.zyd.icalctl` from a terminal, then rerun `icalctl reminders lists`.",
        ),
        ReminderAuthorization::Restricted => one_step(
            "Reminders access is restricted by system policy; contact the device administrator.",
        ),
        ReminderAuthorization::Unknown => one_step(
            "macOS returned an unknown Reminders authorization status; rerun from a normal terminal and inspect `icalctl doctor --json`.",
        ),
    }
}

/// The Location note for a capability: disabled services come first, then
/// the authorization state by name.
pub open spec fn location_remediation_steps(services_enabled: bool, authorization: Seq<char>) -> Seq<Seq<char>> {
    if !services_enabled {
        seq![
            "Location Services are disabled. This does not block writing an explicit-coordinate EventKit geofence, but macOS may not deliver location triggers until services are enabled."@,
        ]
    } else if authorization == "AuthorizedAlways"@ || authorization == "AuthorizedWhenInUse"@ {
        seq![
            "Location access is authorized. Explicit-coordinate EventKit geofence creation does not read the device's current location."@,
        ]
    } else if authorization == "NotDetermined"@ {
        seq![
            "Location access has not been decided. Explicit-coordinate EventKit geofence creation does not request the device's current location; this status is informational."@,
        ]
    } else if authorization == "Denied"@ {
        seq![
            "Location access is denied. This does not block writing an explicit-coordinate EventKit geofence because icalctl does not read the device's current location."@,
        ]
    } else if authorization == "Restricted"@ {
        seq![
            "Location access is restricted by system policy. Explicit-coordinate EventKit geofence creation does not consume current location, though macOS delivery remains system-controlled."@,
        ]
    } else {
        seq![
            "macOS returned an unknown Location authorization status; inspect System Settings before using reminder geofences."@,
        ]
    }
}

/// The Location note for a capability.
pub fn location_remediation(capability: &LocationCapability) -> (r: Vec<String>)
    ensures
        texts(r@) == location_remediation_steps(capability.services_enabled, capability.authorization@),
{
    if !capability.services_enabled {
        return one_step(
            "Location Services are disabled. This does not block writing an explicit-coordinate EventKit geofence, but macOS may not deliver location triggers until services are enabled.",
        );
    }
    let a = capability.authorization.as_str();
    if str_eq(a, "AuthorizedAlways") || str_eq(a, "AuthorizedWhenInUse") {
        one_step(
            "Location access is authorized. Explicit-coordinate EventKit geofence creation does not read the device's current location.",
        )
    } else if str_eq(a, "NotDetermined") {
        one_step(
            "Location access has not been decided. Explicit-coordinate EventKit geofence creation does not request the device's current location; this status is informational.",
        )
    } else if str_eq(a, "Denied") {
        one_step(
            "Location access is denied. This does not block writing an explicit-coordinate EventKit geofence because icalctl does not read the device's current location.",
        )
    } else if str_eq(a, "Restricted") {
        one_step(
            "Location access is restricted by system policy. Explicit-coordinate EventKit geofence creation does not consume current location, though macOS delivery remains system-controlled.",
        )
    } else {
        one_step(
            "macOS returned an unknown Location authorization status; inspect System Settings before using reminder geofences.",
        )
    }
}

/// The extra sentence for the known launch-context failure.
pub open spec fn mach_hint_text(detail: Seq<char>) -> Seq<char> {
    if contains_text(detail, "NSMachErrorDomain"@) || contains_text(detail, "4099"@) {
        " The failure looks like the known NSMachErrorDomain/Mach 4099 launch-context problem."@
    } else {
        seq![]
    }
}

/// The message for a failed Calendar access request, given the error's
/// debug rendering: the status, a hint for the Mach 4099 failure, the steps
/// to take, and the before error.
pub open spec fn access_request_error_text(detail: Seq<char>) -> Seq<char> {
    "failed to request full Calendar access (authorization=NotDetermined)."@ + mach_hint_text(detail)
        + " Run `icalctl calendars` from Terminal.app, iTerm, or Ghostty and approve the macOS Calendar prompt; then run `icalctl doctor --json`. Original error: "@
        + detail
}

/// The message for a failed Calendar access request; `detail` is the
/// error's debug rendering (`{:?}`).
pub fn access_request_error_message(detail: &str) -> (r: String)
    ensures
        r@ == access_request_error_text(detail@),
{
    let mut m = text_of("failed to request full Calendar access (authorization=NotDetermined).");
    if contains_str(detail, "NSMachErrorDomain") || contains_str(detail, "4099") {
        m.append(" The failure looks like the known NSMachErrorDomain/Mach 4099 launch-context problem.");
    }
    m.append(
        " Run `icalctl calendars` from Terminal.app, iTerm, or Ghostty and approve the macOS Calendar prompt; then run `icalctl doctor --json`. Original error: ",
    );
    m.append(detail);
    m
}

/// Which usage descriptions an Info.plist text declares.
pub open spec fn info_plist_flags(plist: Seq<char>, r: InfoPlistReport) -> bool {
    &&& r.has_full_access_usage_description == contains_text(plist, "NSCalendarsFullAccessUsageDescription"@)
    &&& r.has_legacy_usage_description == contains_text(plist, "NSCalendarsUsageDescription"@)
    &&& r.has_write_only_usage_description == contains_text(plist, "NSCalendarsWriteOnlyAccessUsageDescription"@)
    &&& r.has_reminders_full_access_usage_description == contains_text(plist, "NSRemindersFullAccessUsageDescription"@)
    &&& r.has_reminders_legacy_usage_description == contains_text(plist, "NSRemindersUsageDescription"@)
    &&& r.has_location_usage_description == contains_text(plist, "NSLocationWhenInUseUsageDescription"@)
}

/// The doctor's report from what the application gathered: the three
/// authorization states, the process, whether an Info.plist is embedded and
/// its text.
pub fn doctor_report(
    authorization: AuthorizationStatus,
    reminders_authorization: ReminderAuthorization,
    location: &LocationCapability,
    process: ProcessReport,
    embedded: bool,
    info_plist: &str,
) -> (r: DoctorReport)
    ensures
        r.authorization@ == authorization_text(authorization),
        r.reminders_authorization@ == reminder_authorization_text(reminders_authorization),
        r.location_authorization@ == location.authorization@,
        r.location_services_enabled == location.services_enabled,
        r.process == process,
        r.info_plist.embedded == embedded,
        r.info_plist.bundle_identifier@ == BUNDLE_IDENTIFIER@,
        info_plist_flags(info_plist@, r.info_plist),
        r.recommended_command@ == recommended_command_text(authorization),
        r.recommended_reminders_command@ == recommended_reminders_command_text(reminders_authorization),
        texts(r.remediation@) == remediation_steps(authorization),
        texts(r.reminders_remediation@) == reminders_remediation_steps(reminders_authorization),
        texts(r.location_remediation@) == location_remediation_steps(
            location.services_enabled,
            location.authorization@,
        ),
{
    DoctorReport {
        authorization: text_of(authorization_name(authorization)),
        reminders_authorization: text_of(reminders_authorization.as_str()),
        location_authorization: location.authorization.clone(),
        location_services_enabled: location.services_enabled,
        process,
        info_plist: InfoPlistReport {
            embedded,
            bundle_identifier: text_of(BUNDLE_IDENTIFIER),
            has_full_access_usage_description: contains_str(info_plist, "NSCalendarsFullAccessUsageDescription"),
            has_legacy_usage_description: contains_str(info_plist, "NSCalendarsUsageDescription"),
            has_write_only_usage_description: contains_str(info_plist, "NSCalendarsWriteOnlyAccessUsageDescription"),
            has_reminders_full_access_usage_description: contains_str(
                info_plist,
                "NSRemindersFullAccessUsageDescription",
            ),
            has_reminders_legacy_usage_description: contains_str(info_plist, "NSRemindersUsageDescription"),
            has_location_usage_description: contains_str(info_plist, "NSLocationWhenInUseUsageDescription"),
        },
        recommended_command: text_of(recommended_command(authorization)),
        recommended_reminders_command: text_of(recommended_reminders_command(reminders_authorization)),
        remediation: remediation(authorization),
        reminders_remediation: reminders_remediation(reminders_authorization),
        location_remediation: location_remediation(location),
    }
}

} // verus!
