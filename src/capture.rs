//! Screen capture vocabulary and the capture backends whose state machine
//! lives here: a stub for development and the desktop backend, which
//! reports one primary display.

use vstd::prelude::*;
use vstd::string::*;

verus! {

/// Enumerated capture source.
#[derive(Debug, Clone)]
pub struct CaptureSource {
    pub id: String,
    pub name: String,
    pub source_type: CaptureSourceType,
    /// Width in pixels
    pub width: u32,
    /// Height in pixels
    pub height: u32,
}

#[derive(Debug, Clone, Copy, PartialEq, Eq, Structural)]
pub enum CaptureSourceType {
    Display,
    Window,
}

/// Capture configuration.
#[derive(Debug, Clone, Copy)]
pub struct CaptureConfig {
    pub target_fps: u32,
    pub pixel_format: PixelFormat,
    /// Exclude the app's own windows from capture
    pub exclude_self: bool,
}

impl Default for CaptureConfig {
    fn default() -> (r: Self)
        ensures
            r.target_fps == 60,
            r.pixel_format == PixelFormat::Bgra8,
            r.exclude_self,
    {
        CaptureConfig { target_fps: 60, pixel_format: PixelFormat::Bgra8, exclude_self: true }
    }
}

#[derive(Debug, Clone, Copy, PartialEq, Eq, Structural)]
pub enum PixelFormat {
    Bgra8,
    Rgba8,
    Nv12,
}

/// Capture error types.
#[derive(Debug)]
pub enum CaptureError {
    AlreadyCapturing,
    NotCapturing,
    PermissionDenied,
    TargetNotFound,
    ConfigurationFailed(String),
    Platform(String),
}

/// The one source a backend without enumeration reports: a 1920x1080 display.
pub open spec fn is_primary_display(s: CaptureSource, id: Seq<char>, name: Seq<char>) -> bool {
    &&& s.id@ == id
    &&& s.name@ == name
    &&& s.source_type == CaptureSourceType::Display
    &&& s.width == 1920
    &&& s.height == 1080
}

/// Development capture backend: keeps the capture state machine only.
pub struct StubCapture {
    capturing: bool,
}

impl StubCapture {
    pub closed spec fn spec_capturing(&self) -> bool {
        self.capturing
    }

    pub fn new() -> (r: Self)
        ensures
            !r.spec_capturing(),
    {
        StubCapture { capturing: false }
    }

    pub fn enumerate_sources(&self) -> (r: Result<Vec<CaptureSource>, CaptureError>)
        ensures
            r matches Ok(v) && v@.len() == 1 && is_primary_display(
                v@[0],
                "stub-display-0"@,
                "Primary Display (Stub)"@,
            ),
    {
        let mut v: Vec<CaptureSource> = Vec::new();
        v.push(
            CaptureSource {
                id: String::from_str("stub-display-0"),
                name: String::from_str("Primary Display (Stub)"),
                source_type: CaptureSourceType::Display,
                width: 1920,
                height: 1080,
            },
        );
        Ok(v)
    }

    pub fn start_capture(&mut self) -> (r: Result<(), CaptureError>)
        ensures
            final(self).spec_capturing(),
            old(self).spec_capturing() <==> (r matches Err(CaptureError::AlreadyCapturing)),
            !old(self).spec_capturing() <==> r is Ok,
    {
        if self.capturing {
            return Err(CaptureError::AlreadyCapturing);
        }
        self.capturing = true;
        Ok(())
    }

    pub fn stop_capture(&mut self) -> (r: Result<(), CaptureError>)
        ensures
            !final(self).spec_capturing(),
            !old(self).spec_capturing() <==> (r matches Err(CaptureError::NotCapturing)),
            old(self).spec_capturing() <==> r is Ok,
    {
        if !self.capturing {
            return Err(CaptureError::NotCapturing);
        }
        self.capturing = false;
        Ok(())
    }

    pub fn is_capturing(&self) -> (r: bool)
        ensures
            r == self.spec_capturing(),
    {
        self.capturing
    }
}

/// Desktop capture backend; it enumerates one primary display.
pub struct LinuxCapture {
    capturing: bool,
}

impl LinuxCapture {
    pub closed spec fn spec_capturing(&self) -> bool {
        self.capturing
    }

    pub fn new() -> (r: Self)
        ensures
            !r.spec_capturing(),
    {
        LinuxCapture { capturing: false }
    }

    pub fn enumerate_sources(&self) -> (r: Result<Vec<CaptureSource>, CaptureError>)
        ensures
            r matches Ok(v) && v@.len() == 1 && is_primary_display(
                v@[0],
                "display-0"@,
                "Primary Display"@,
            ),
    {
        let mut v: Vec<CaptureSource> = Vec::new();
        v.push(
            CaptureSource {
                id: String::from_str("display-0"),
                name: String::from_str("Primary Display"),
                source_type: CaptureSourceType::Display,
                width: 1920,
                height: 1080,
            },
        );
        Ok(v)
    }

    pub fn start_capture(&mut self) -> (r: Result<(), CaptureError>)
        ensures
            final(self).spec_capturing(),
            old(self).spec_capturing() <==> (r matches Err(CaptureError::AlreadyCapturing)),
            !old(self).spec_capturing() <==> r is Ok,
    {
        if self.capturing {
            return Err(CaptureError::AlreadyCapturing);
        }
        self.capturing = true;
        Ok(())
    }

    pub fn stop_capture(&mut self) -> (r: Result<(), CaptureError>)
        ensures
            !final(self).spec_capturing(),
            !old(self).spec_capturing() <==> (r matches Err(CaptureError::NotCapturing)),
            old(self).spec_capturing() <==> r is Ok,
    {
        if !self.capturing {
            return Err(CaptureError::NotCapturing);
        }
        self.capturing = false;
        Ok(())
    }

    pub fn is_capturing(&self) -> (r: bool)
        ensures
            r == self.spec_capturing(),
    {
        self.capturing
    }
}

} // verus!
