//! Input monitoring vocabulary and the development input monitor.

use vstd::prelude::*;

verus! {

#[derive(Debug, Clone, Copy, PartialEq, Eq, Structural)]
pub enum MouseButton {
    Left,
    Right,
    Middle,
}

#[derive(Debug, Clone, Copy, PartialEq, Eq, Structural)]
pub enum KeyAction {
    Down,
    Up,
}

/// Modifier keys held during a keyboard event.
#[derive(Debug, Clone, Copy)]
pub struct ModifierState {
    pub command: bool,
    pub shift: bool,
    pub alt: bool,
    pub control: bool,
}

impl Default for ModifierState {
    fn default() -> (r: Self)
        ensures
            !r.command && !r.shift && !r.alt && !r.control,
    {
        ModifierState { command: false, shift: false, alt: false, control: false }
    }
}

/// Input monitoring error types.
#[derive(Debug)]
pub enum InputError {
    AlreadyMonitoring,
    NotMonitoring,
    PermissionDenied,
    Platform(String),
}

/// Development input monitor: keeps the monitoring state machine only and
/// records nothing.
pub struct StubInputMonitor {
    monitoring: bool,
}

impl StubInputMonitor {
    pub closed spec fn spec_monitoring(&self) -> bool {
        self.monitoring
    }

    pub fn new() -> (r: Self)
        ensures
            !r.spec_monitoring(),
    {
        StubInputMonitor { monitoring: false }
    }

    pub fn start_monitoring(&mut self) -> (r: Result<(), InputError>)
        ensures
            final(self).spec_monitoring(),
            old(self).spec_monitoring() <==> (r matches Err(InputError::AlreadyMonitoring)),
            !old(self).spec_monitoring() <==> r is Ok,
    {
        if self.monitoring {
            return Err(InputError::AlreadyMonitoring);
        }
        self.monitoring = true;
        Ok(())
    }

    /// Stop monitoring; the stub has recorded no events.
    pub fn stop_monitoring(&mut self) -> (r: Result<(), InputError>)
        ensures
            !final(self).spec_monitoring(),
            !old(self).spec_monitoring() <==> (r matches Err(InputError::NotMonitoring)),
            old(self).spec_monitoring() <==> r is Ok,
    {
        if !self.monitoring {
            return Err(InputError::NotMonitoring);
        }
        self.monitoring = false;
        Ok(())
    }

    pub fn is_monitoring(&self) -> (r: bool)
        ensures
            r == self.spec_monitoring(),
    {
        self.monitoring
    }
}

} // verus!
