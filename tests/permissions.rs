use lazyrec::permissions::{
    create_permissions_manager, PermissionReport, PermissionStatus, PermissionType,
    PermissionsManager,
};

fn report(screen: PermissionStatus, input: PermissionStatus) -> PermissionReport {
    PermissionReport {
        screen_capture: screen,
        input_monitoring: input,
        accessibility: PermissionStatus::Denied,
        audio_capture: PermissionStatus::Denied,
    }
}

#[test]
fn can_record_needs_screen_and_input() {
    assert!(report(PermissionStatus::Granted, PermissionStatus::NotApplicable).can_record());
    assert!(!report(PermissionStatus::Granted, PermissionStatus::Denied).can_record());
    assert!(!report(PermissionStatus::NotDetermined, PermissionStatus::Granted).can_record());
}

#[test]
fn missing_permissions_lists_screen_then_input() {
    assert_eq!(
        report(PermissionStatus::Denied, PermissionStatus::NotDetermined).missing_permissions(),
        vec![PermissionType::ScreenCapture, PermissionType::InputMonitoring]
    );
    assert_eq!(
        report(PermissionStatus::Granted, PermissionStatus::Denied).missing_permissions(),
        vec![PermissionType::InputMonitoring]
    );
    assert!(report(PermissionStatus::Granted, PermissionStatus::NotApplicable)
        .missing_permissions()
        .is_empty());
}

#[test]
fn permission_names() {
    assert_eq!(PermissionType::ScreenCapture.display_name(), "Screen Capture");
    assert_eq!(PermissionType::AudioCapture.display_name(), "Audio Capture");
    assert_eq!(
        PermissionType::InputMonitoring.description(),
        "Required to track mouse and keyboard events"
    );
}

#[test]
fn platform_permissions_are_undecided() {
    let m = create_permissions_manager();
    let r = m.check_all();
    assert_eq!(r.screen_capture, PermissionStatus::NotDetermined);
    assert_eq!(m.request(PermissionType::Accessibility), PermissionStatus::NotDetermined);
    assert!(!r.can_record());
}
