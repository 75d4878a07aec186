use lazyrec::input::{InputError, KeyAction, ModifierState, MouseButton, StubInputMonitor};

#[test]
fn test_stub_monitor_initial_state() {
    let monitor = StubInputMonitor::new();
    assert!(!monitor.is_monitoring());
}

#[test]
fn test_stub_monitor_start_stop() {
    let mut monitor = StubInputMonitor::new();
    assert!(monitor.start_monitoring().is_ok());
    assert!(monitor.is_monitoring());
    monitor.stop_monitoring().unwrap();
    assert!(!monitor.is_monitoring());
}

#[test]
fn test_stub_monitor_double_start_errors() {
    let mut monitor = StubInputMonitor::new();
    monitor.start_monitoring().unwrap();
    match monitor.start_monitoring() {
        Err(InputError::AlreadyMonitoring) => {}
        other => panic!("Expected AlreadyMonitoring, got {:?}", other),
    }
}

#[test]
fn test_stub_monitor_stop_without_start_errors() {
    let mut monitor = StubInputMonitor::new();
    match monitor.stop_monitoring() {
        Err(InputError::NotMonitoring) => {}
        other => panic!("Expected NotMonitoring, got {:?}", other),
    }
}

#[test]
fn test_modifier_state_default() {
    let m = ModifierState::default();
    assert!(!m.command && !m.shift && !m.alt && !m.control);
}

#[test]
fn mouse_buttons_and_key_actions_compare_by_variant() {
    assert_eq!(MouseButton::Left, MouseButton::Left);
    assert_ne!(MouseButton::Left, MouseButton::Right);
    assert_ne!(KeyAction::Down, KeyAction::Up);
}
