use icalctl::doctor::{
    access_request_error_message, authorization_name, doctor_report, recommended_command,
    remediation, LocationCapability, ReminderAuthorization, BUNDLE_IDENTIFIER,
};
use icalctl::eventkit::AuthorizationStatus;
use icalctl::models::ProcessReport;

#[test]
fn not_determined_recommends_a_real_calendar_command() {
    assert_eq!(
        recommended_command(AuthorizationStatus::NotDetermined),
        "icalctl calendars"
    );
    assert!(remediation(AuthorizationStatus::NotDetermined)
        .iter()
        .any(|step| step.contains("Terminal.app")));
}

#[test]
fn mach_errors_include_status_and_specific_remediation() {
    let message = access_request_error_message(&format!("{:?}", "NSMachErrorDomain Code=4099"));

    assert!(message.contains("authorization=NotDetermined"));
    assert!(message.contains("Mach 4099"));
    assert!(message.contains("icalctl calendars"));
    assert!(message.contains("Terminal.app"));
}

#[test]
fn other_access_errors_carry_no_mach_hint() {
    let message = access_request_error_message("\"denied\"");
    assert!(!message.contains("Mach 4099"));
    assert!(message.ends_with("Original error: \"denied\""));
}

#[test]
fn denied_access_points_at_the_privacy_settings() {
    let steps = remediation(AuthorizationStatus::Denied);
    assert_eq!(steps.len(), 2);
    assert!(steps[1].contains(BUNDLE_IDENTIFIER));
    assert_eq!(authorization_name(AuthorizationStatus::Denied), "Denied");
}

fn process() -> ProcessReport {
    ProcessReport {
        pid: 42,
        executable: "/usr/local/bin/icalctl".to_string(),
        terminal_program: Some("Apple_Terminal".to_string()),
    }
}

#[test]
fn plist_diagnostics_find_required_calendar_keys() {
    let plist = "<dict><key>NSCalendarsFullAccessUsageDescription</key><string>x</string>\
        <key>NSCalendarsUsageDescription</key><string>x</string>\
        <key>NSCalendarsWriteOnlyAccessUsageDescription</key><string>x</string>\
        <key>NSRemindersFullAccessUsageDescription</key><string>x</string>\
        <key>NSRemindersUsageDescription</key><string>x</string>\
        <key>NSLocationWhenInUseUsageDescription</key><string>x</string></dict>";
    let location = LocationCapability {
        authorization: "NotDetermined".to_string(),
        services_enabled: true,
    };
    let report = doctor_report(
        AuthorizationStatus::FullAccess,
        ReminderAuthorization::FullAccess,
        &location,
        process(),
        true,
        plist,
    );

    assert_eq!(report.info_plist.bundle_identifier, BUNDLE_IDENTIFIER);
    assert!(report.info_plist.has_full_access_usage_description);
    assert!(report.info_plist.has_legacy_usage_description);
    assert!(report.info_plist.has_write_only_usage_description);
    assert!(report.info_plist.has_reminders_full_access_usage_description);
    assert!(report.info_plist.has_reminders_legacy_usage_description);
    assert!(report.info_plist.has_location_usage_description);
    assert_eq!(report.authorization, "FullAccess");
    assert_eq!(report.process.pid, 42);
}

#[test]
fn a_missing_plist_reports_every_key_absent() {
    let location = LocationCapability {
        authorization: "Denied".to_string(),
        services_enabled: false,
    };
    let report = doctor_report(
        AuthorizationStatus::NotDetermined,
        ReminderAuthorization::NotDetermined,
        &location,
        process(),
        false,
        "",
    );
    assert!(!report.info_plist.embedded);
    assert!(!report.info_plist.has_full_access_usage_description);
    assert!(!report.info_plist.has_location_usage_description);
    assert_eq!(report.recommended_command, "icalctl calendars");
    assert!(!report.location_remediation.is_empty());
}
