use lazyrec::capture::{CaptureConfig, CaptureError, CaptureSourceType, LinuxCapture, PixelFormat, StubCapture};
use lazyrec::evaluator::FrameEvaluator;
use lazyrec::generators::{
    key_display_name, keystroke_label, modifier_symbols, ClickType, KeyEventType, Modifiers,
};
use lazyrec::track::TrackType;

#[test]
fn modifiers_presence() {
    assert!(!Modifiers::default().has_modifiers());
    let m = Modifiers { command: false, shift: true, alt: false, control: false };
    assert!(m.has_modifiers());
}

#[test]
fn modifier_symbols_order() {
    let all = Modifiers { command: true, shift: true, alt: true, control: true };
    assert_eq!(modifier_symbols(&all), "Ctrl+Alt+Shift+Cmd+");
    let some = Modifiers { command: true, shift: false, alt: false, control: true };
    assert_eq!(modifier_symbols(&some), "Ctrl+Cmd+");
    assert_eq!(modifier_symbols(&Modifiers::default()), "");
}

#[test]
fn named_keys() {
    assert_eq!(key_display_name(0x0D, None), Some("Enter".to_string()));
    assert_eq!(key_display_name(36, Some("x")), Some("Enter".to_string()));
    assert_eq!(key_display_name(115, None), Some("Home".to_string()));
    assert_eq!(key_display_name(0x22, None), Some("PageDown".to_string()));
}

#[test]
fn modifier_keys_are_skipped() {
    assert_eq!(key_display_name(56, Some("a")), None);
    assert_eq!(key_display_name(0xA2, Some("a")), None);
}

#[test]
fn character_keys_are_uppercased() {
    assert_eq!(key_display_name(65, Some("a")), Some("A".to_string()));
    assert_eq!(key_display_name(65, Some("ß")), Some("SS".to_string()));
    assert_eq!(key_display_name(65, Some("")), None);
    assert_eq!(key_display_name(65, None), None);
}

#[test]
fn capture_backends_state_machine() {
    let mut c = StubCapture::new();
    assert!(!c.is_capturing());
    c.start_capture().unwrap();
    assert!(matches!(c.start_capture(), Err(CaptureError::AlreadyCapturing)));
    c.stop_capture().unwrap();
    assert!(matches!(c.stop_capture(), Err(CaptureError::NotCapturing)));
    let sources = c.enumerate_sources().unwrap();
    assert_eq!(sources.len(), 1);
    assert_eq!(sources[0].id, "stub-display-0");
    let l = LinuxCapture::new();
    let sources = l.enumerate_sources().unwrap();
    assert_eq!(sources[0].name, "Primary Display");
    assert_eq!(sources[0].source_type, CaptureSourceType::Display);
    assert_eq!((sources[0].width, sources[0].height), (1920, 1080));
}

#[test]
fn capture_config_default() {
    let c = CaptureConfig::default();
    assert_eq!(c.target_fps, 60);
    assert_eq!(c.pixel_format, PixelFormat::Bgra8);
    assert!(c.exclude_self);
}

#[test]
fn evaluator_mode_and_track_types() {
    assert!(FrameEvaluator::new(true).window_mode);
    assert_ne!(TrackType::Transform, TrackType::Ripple);
}

#[test]
fn keystroke_labels() {
    let ctrl = Modifiers { command: false, shift: false, alt: false, control: true };
    let none = Modifiers::default();
    assert_eq!(
        keystroke_label(KeyEventType::KeyDown, 67, Some("c"), &ctrl, true),
        Some("Ctrl+C".to_string())
    );
    assert_eq!(keystroke_label(KeyEventType::KeyDown, 67, Some("c"), &none, true), None);
    assert_eq!(
        keystroke_label(KeyEventType::KeyDown, 67, Some("c"), &none, false),
        Some("C".to_string())
    );
    assert_eq!(keystroke_label(KeyEventType::KeyUp, 67, Some("c"), &ctrl, false), None);
    assert_eq!(keystroke_label(KeyEventType::KeyDown, 56, None, &ctrl, false), None);
    let shift_ctrl = Modifiers { command: false, shift: true, alt: false, control: true };
    assert_eq!(
        keystroke_label(KeyEventType::KeyDown, 0x0D, None, &shift_ctrl, true),
        Some("Ctrl+Shift+Enter".to_string())
    );
}

#[test]
fn click_kinds() {
    assert!(ClickType::LeftDown.triggers_ripple());
    assert!(ClickType::DoubleClick.triggers_ripple());
    assert!(!ClickType::RightDown.triggers_ripple());
    assert!(!ClickType::LeftUp.triggers_ripple());
    assert!(ClickType::RightDown.is_press());
    assert!(!ClickType::DoubleClick.is_press());
}
