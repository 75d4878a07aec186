//! Platform permissions: which of them a recording needs, and which of them
//! still ask for the user's attention.

use vstd::prelude::*;

verus! {

/// Status of one platform permission.
#[derive(Debug, Clone, Copy, PartialEq, Eq, Structural)]
pub enum PermissionStatus {
    /// Permission granted
    Granted,
    /// Permission denied by user
    Denied,
    /// Permission not yet requested
    NotDetermined,
    /// Permission not applicable on this platform
    NotApplicable,
}

/// Permissions the recorder may need.
#[derive(Debug, Clone, Copy, PartialEq, Eq, Structural, Hash)]
pub enum PermissionType {
    ScreenCapture,
    InputMonitoring,
    Accessibility,
    AudioCapture,
}

pub open spec fn permission_display_name(p: PermissionType) -> Seq<char> {
    match p {
        PermissionType::ScreenCapture => "Screen Capture"@,
        PermissionType::InputMonitoring => "Input Monitoring"@,
        PermissionType::Accessibility => "Accessibility"@,
        PermissionType::AudioCapture => "Audio Capture"@,
    }
}

pub open spec fn permission_description(p: PermissionType) -> Seq<char> {
    match p {
        PermissionType::ScreenCapture => "Required to record your screen or window"@,
        PermissionType::InputMonitoring => "Required to track mouse and keyboard events"@,
        PermissionType::Accessibility => "Required to detect UI elements for smart zoom"@,
        PermissionType::AudioCapture => "Required to record system or microphone audio"@,
    }
}

impl PermissionType {
    pub fn display_name(&self) -> (r: &'static str)
        ensures
            r@ == permission_display_name(*self),
    {
        match self {
            PermissionType::ScreenCapture => "Screen Capture",
            PermissionType::InputMonitoring => "Input Monitoring",
            PermissionType::Accessibility => "Accessibility",
            PermissionType::AudioCapture => "Audio Capture",
        }
    }

    pub fn description(&self) -> (r: &'static str)
        ensures
            r@ == permission_description(*self),
    {
        match self {
            PermissionType::ScreenCapture => "Required to record your screen or window",
            PermissionType::InputMonitoring => "Required to track mouse and keyboard events",
            PermissionType::Accessibility => "Required to detect UI elements for smart zoom",
            PermissionType::AudioCapture => "Required to record system or microphone audio",
        }
    }
}

/// A status lets recording proceed when it is granted or does not apply.
pub open spec fn allows_recording(s: PermissionStatus) -> bool {
    s == PermissionStatus::Granted || s == PermissionStatus::NotApplicable
}

/// A status asks for the user's attention when it is denied or undecided.
pub open spec fn needs_attention(s: PermissionStatus) -> bool {
    s == PermissionStatus::Denied || s == PermissionStatus::NotDetermined
}

/// Result of checking all permissions.
#[derive(Debug, Clone, Copy)]
pub struct PermissionReport {
    pub screen_capture: PermissionStatus,
    pub input_monitoring: PermissionStatus,
    pub accessibility: PermissionStatus,
    pub audio_capture: PermissionStatus,
}

impl PermissionReport {
    /// The permissions that needs attention, screen capture first.
    pub open spec fn spec_missing(&self) -> Seq<PermissionType> {
        let first = if needs_attention(self.screen_capture) {
            seq![PermissionType::ScreenCapture]
        } else {
            Seq::empty()
        };
        if needs_attention(self.input_monitoring) {
            first.push(PermissionType::InputMonitoring)
        } else {
            first
        }
    }

    /// Whether every permission a recording needs is available.
    pub fn can_record(&self) -> (r: bool)
        ensures
            r == (allows_recording(self.screen_capture) && allows_recording(
                self.input_monitoring,
            )),
    {
        (self.screen_capture == PermissionStatus::Granted || self.screen_capture
            == PermissionStatus::NotApplicable) && (self.input_monitoring
            == PermissionStatus::Granted || self.input_monitoring
            == PermissionStatus::NotApplicable)
    }

    /// The recording permissions that need attention.
    pub fn missing_permissions(&self) -> (r: Vec<PermissionType>)
        ensures
            r@ == self.spec_missing(),
    {
        let mut missing: Vec<PermissionType> = Vec::new();
        if self.screen_capture == PermissionStatus::Denied || self.screen_capture
            == PermissionStatus::NotDetermined {
            missing.push(PermissionType::ScreenCapture);
        }
        if self.input_monitoring == PermissionStatus::Denied || self.input_monitoring
            == PermissionStatus::NotDetermined {
            missing.push(PermissionType::InputMonitoring);
        }
        proof {
            let first = if needs_attention(self.screen_capture) {
                seq![PermissionType::ScreenCapture]
            } else {
                Seq::<PermissionType>::empty()
            };
            assert(missing@ =~= if needs_attention(self.input_monitoring) {
                first.push(PermissionType::InputMonitoring)
            } else {
                first
            });
        }
        missing
    }
}

/// Checks and requests platform permissions.
pub trait PermissionsManager {
    /// What `check` reports for a permission.
    spec fn status_of(&self, permission: PermissionType) -> PermissionStatus;

    /// Check all permission statuses.
    fn check_all(&self) -> (r: PermissionReport)
        ensures
            r.screen_capture == self.status_of(PermissionType::ScreenCapture),
            r.input_monitoring == self.status_of(PermissionType::InputMonitoring),
            r.accessibility == self.status_of(PermissionType::Accessibility),
            r.audio_capture == self.status_of(PermissionType::AudioCapture),
    ;

    /// Check a specific permission.
    fn check(&self, permission: PermissionType) -> (r: PermissionStatus)
        ensures
            r == self.status_of(permission),
    ;

    /// Request a specific permission (a platform may show a dialog).
    fn request(&self, permission: PermissionType) -> PermissionStatus;
}

/// Permissions of a desktop session where capture and input go through
/// per-session portals: every permission is undecided until asked for.
pub struct PlatformPermissions;

impl PlatformPermissions {
    pub fn new() -> (r: Self) {
        PlatformPermissions
    }
}

impl PermissionsManager for PlatformPermissions {
    open spec fn status_of(&self, permission: PermissionType) -> PermissionStatus {
        PermissionStatus::NotDetermined
    }

    fn check_all(&self) -> (r: PermissionReport) {
        PermissionReport {
            screen_capture: self.check(PermissionType::ScreenCapture),
            input_monitoring: self.check(PermissionType::InputMonitoring),
            accessibility: self.check(PermissionType::Accessibility),
            audio_capture: self.check(PermissionType::AudioCapture),
        }
    }

    fn check(&self, permission: PermissionType) -> (r: PermissionStatus) {
        PermissionStatus::NotDetermined
    }

    fn request(&self, permission: PermissionType) -> PermissionStatus {
        self.check(permission)
    }
}

/// The permissions manager of this platform.
pub fn create_permissions_manager() -> (r: PlatformPermissions) {
    PlatformPermissions::new()
}

} // verus!
