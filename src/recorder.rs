//! Recording state machine. The coordinator that drives capture, input and
//! encoder threads asks this machine before each step and reports each event
//! back to it; timing is kept here in milliseconds of a monotonic clock.

use vstd::prelude::*;
use vstd::string::*;
use crate::capture::CaptureError;
use crate::encoder::EncoderError;
use crate::input::InputError;

verus! {

/// Recording session state.
#[derive(Debug, Clone, Copy, PartialEq, Eq, Structural)]
pub enum RecordingState {
    Idle,
    Countdown,
    Recording,
    Paused,
    Stopping,
    Completed,
    Failed,
}

/// Recording coordinator errors.
#[derive(Debug)]
pub enum RecorderError {
    InvalidState { state: RecordingState, action: String },
    Capture(CaptureError),
    Input(InputError),
    Encoder(EncoderError),
    Io(String),
}

/// A requested transition of the recording state machine.
#[derive(Debug, Clone, Copy, PartialEq, Eq, Structural)]
pub enum RecorderAction {
    Start,
    Pause,
    Resume,
    Stop,
    FinishStop,
}

/// Where each action leads from each state; `None` where it is not allowed.
pub open spec fn spec_next_state(s: RecordingState, a: RecorderAction) -> Option<RecordingState> {
    match (s, a) {
        (RecordingState::Idle, RecorderAction::Start) => Some(RecordingState::Recording),
        (RecordingState::Recording, RecorderAction::Pause) => Some(RecordingState::Paused),
        (RecordingState::Paused, RecorderAction::Resume) => Some(RecordingState::Recording),
        (RecordingState::Recording, RecorderAction::Stop) => Some(RecordingState::Stopping),
        (RecordingState::Paused, RecorderAction::Stop) => Some(RecordingState::Stopping),
        (RecordingState::Stopping, RecorderAction::FinishStop) => Some(RecordingState::Completed),
        _ => None,
    }
}

/// The transition table of the recording state machine.
pub fn next_state(s: RecordingState, a: RecorderAction) -> (r: Option<RecordingState>)
    ensures
        r == spec_next_state(s, a),
{
    match (s, a) {
        (RecordingState::Idle, RecorderAction::Start) => Some(RecordingState::Recording),
        (RecordingState::Recording, RecorderAction::Pause) => Some(RecordingState::Paused),
        (RecordingState::Paused, RecorderAction::Resume) => Some(RecordingState::Recording),
        (RecordingState::Recording, RecorderAction::Stop) => Some(RecordingState::Stopping),
        (RecordingState::Paused, RecorderAction::Stop) => Some(RecordingState::Stopping),
        (RecordingState::Stopping, RecorderAction::FinishStop) => Some(RecordingState::Completed),
        _ => None,
    }
}

pub open spec fn action_name(a: RecorderAction) -> Seq<char> {
    match a {
        RecorderAction::Start => "start"@,
        RecorderAction::Pause => "pause"@,
        RecorderAction::Resume => "resume"@,
        RecorderAction::Stop => "stop"@,
        RecorderAction::FinishStop => "finish stop"@,
    }
}

fn action_label(a: RecorderAction) -> (r: String)
    ensures
        r@ == action_name(a),
{
    match a {
        RecorderAction::Start => String::from_str("start"),
        RecorderAction::Pause => String::from_str("pause"),
        RecorderAction::Resume => String::from_str("resume"),
        RecorderAction::Stop => String::from_str("stop"),
        RecorderAction::FinishStop => String::from_str("finish stop"),
    }
}

/// The error for action `a` refused in state `s`.
pub open spec fn is_invalid_state(e: RecorderError, s: RecordingState, a: RecorderAction) -> bool {
    e matches RecorderError::InvalidState { state, action } && state == s && action@
        == action_name(a)
}

pub open spec fn sat_sub(a: int, b: int) -> int {
    if a > b {
        a - b
    } else {
        0
    }
}

pub open spec fn cap_u64(a: int) -> int {
    if a > u64::MAX {
        u64::MAX as int
    } else {
        a
    }
}

/// The decisions and timing of a recording session.
pub struct RecordingMachine {
    state: RecordingState,
    start_ms: Option<u64>,
    pause_start_ms: Option<u64>,
    total_paused_ms: u64,
    capture_width: u32,
    capture_height: u32,
}

impl RecordingMachine {
    pub closed spec fn spec_state(&self) -> RecordingState {
        self.state
    }

    pub closed spec fn spec_capture_size(&self) -> (u32, u32) {
        (self.capture_width, self.capture_height)
    }

    /// An idle machine has no timing; a running one is not in a pause.
    pub closed spec fn wf(&self) -> bool {
        &&& self.state == RecordingState::Idle ==> self.start_ms is None
            && self.pause_start_ms is None
        &&& self.state == RecordingState::Recording ==> self.pause_start_ms is None
    }

    /// When recording started, if it has.
    pub closed spec fn spec_start_ms(&self) -> Option<u64> {
        self.start_ms
    }

    /// When the current pause began, if one is running.
    pub closed spec fn spec_pause_start_ms(&self) -> Option<u64> {
        self.pause_start_ms
    }

    /// Length of the pauses that have ended.
    pub closed spec fn spec_total_paused_ms(&self) -> u64 {
        self.total_paused_ms
    }

    /// Milliseconds recorded up to `now`: time since the start, less the
    /// ended pauses and the running one, never negative.
    pub open spec fn spec_elapsed(&self, now: u64) -> int {
        match self.spec_start_ms() {
            None => 0,
            Some(start) => {
                let paused = self.spec_total_paused_ms() + match self.spec_pause_start_ms() {
                    Some(ps) => sat_sub(now as int, ps as int),
                    None => 0,
                };
                sat_sub(sat_sub(now as int, start as int), paused)
            },
        }
    }

    /// An idle machine for a 1920x1080 capture.
    pub fn new() -> (r: Self)
        ensures
            r.wf(),
            r.spec_state() == RecordingState::Idle,
            r.spec_capture_size() == (1920u32, 1080u32),
            forall|now: u64| r.spec_elapsed(now) == 0,
    {
        RecordingMachine {
            state: RecordingState::Idle,
            start_ms: None,
            pause_start_ms: None,
            total_paused_ms: 0,
            capture_width: 1920,
            capture_height: 1080,
        }
    }

    pub fn state(&self) -> (r: RecordingState)
        ensures
            r == self.spec_state(),
    {
        self.state
    }

    pub fn capture_size(&self) -> (r: (u32, u32))
        ensures
            r == self.spec_capture_size(),
    {
        (self.capture_width, self.capture_height)
    }

    /// Recorded time at `now`, in milliseconds.
    pub fn elapsed(&self, now: u64) -> (r: u64)
        ensures
            r == self.spec_elapsed(now),
    {
        match self.start_ms {
            None => 0,
            Some(start) => {
                let raw: u64 = if now > start {
                    now - start
                } else {
                    0
                };
                let current: u64 = match self.pause_start_ms {
                    Some(ps) => if now > ps {
                        now - ps
                    } else {
                        0
                    },
                    None => 0,
                };
                let paused: u128 = self.total_paused_ms as u128 + current as u128;
                if raw as u128 > paused {
                    (raw as u128 - paused) as u64
                } else {
                    0
                }
            },
        }
    }

    /// Settings may change only while idle; `action` names the change in
    /// the error.
    pub fn require_idle(&self, action: &str) -> (r: Result<(), RecorderError>)
        ensures
            self.spec_state() == RecordingState::Idle ==> r is Ok,
            self.spec_state() != RecordingState::Idle ==> (r matches Err(
                RecorderError::InvalidState { state, action: a },
            ) && state == self.spec_state() && a@ == action@),
    {
        if self.state != RecordingState::Idle {
            return Err(
                RecorderError::InvalidState { state: self.state, action: String::from_str(action) },
            );
        }
        Ok(())
    }

    /// Record the capture size; allowed only while idle.
    pub fn set_capture_dimensions(&mut self, width: u32, height: u32) -> (r: Result<
        (),
        RecorderError,
    >)
        requires
            old(self).wf(),
        ensures
            final(self).wf(),
            final(self).spec_state() == old(self).spec_state(),
            old(self).spec_state() == RecordingState::Idle ==> r is Ok
                && final(self).spec_capture_size() == (width, height),
            old(self).spec_state() != RecordingState::Idle ==> (r matches Err(
                RecorderError::InvalidState { state, .. },
            ) && state == old(self).spec_state()) && final(self).spec_capture_size() == old(
                self,
            ).spec_capture_size(),
    {
        if self.state != RecordingState::Idle {
            return Err(
                RecorderError::InvalidState {
                    state: self.state,
                    action: String::from_str("set capture dimensions"),
                },
            );
        }
        self.capture_width = width;
        self.capture_height = height;
        Ok(())
    }

    fn refuse(&self, a: RecorderAction) -> (r: RecorderError)
        ensures
            is_invalid_state(r, self.spec_state(), a),
    {
        RecorderError::InvalidState { state: self.state, action: action_label(a) }
    }

    /// Begin recording at `now`: timing starts afresh.
    pub fn start(&mut self, now: u64) -> (r: Result<(), RecorderError>)
        requires
            old(self).wf(),
        ensures
            final(self).wf(),
            spec_next_state(old(self).spec_state(), RecorderAction::Start) matches Some(s)
                ==> r is Ok && final(self).spec_state() == s && final(self).spec_elapsed(now)
                == 0,
            spec_next_state(old(self).spec_state(), RecorderAction::Start) is Some ==> forall|
                n: u64,
            |
                n >= now ==> #[trigger] final(self).spec_elapsed(n) == n - now,
            spec_next_state(old(self).spec_state(), RecorderAction::Start) is None ==> (r matches Err(
                e,
            ) && is_invalid_state(e, old(self).spec_state(), RecorderAction::Start))
                && *final(self) == *old(self),
            final(self).spec_capture_size() == old(self).spec_capture_size(),
    {
        if self.state != RecordingState::Idle {
            return Err(self.refuse(RecorderAction::Start));
        }
        self.start_ms = Some(now);
        self.pause_start_ms = None;
        self.total_paused_ms = 0;
        self.state = RecordingState::Recording;
        Ok(())
    }

    /// Pause at `now`; recorded time stops growing.
    pub fn pause(&mut self, now: u64) -> (r: Result<(), RecorderError>)
        requires
            old(self).wf(),
        ensures
            final(self).wf(),
            spec_next_state(old(self).spec_state(), RecorderAction::Pause) matches Some(s)
                ==> r is Ok && final(self).spec_state() == s && final(self).spec_elapsed(now)
                == old(self).spec_elapsed(now),
            spec_next_state(old(self).spec_state(), RecorderAction::Pause) is Some ==> forall|
                n: u64,
            |
                n >= now ==> #[trigger] final(self).spec_elapsed(n) == old(self).spec_elapsed(now),
            spec_next_state(old(self).spec_state(), RecorderAction::Pause) is None ==> (r matches Err(
                e,
            ) && is_invalid_state(e, old(self).spec_state(), RecorderAction::Pause))
                && *final(self) == *old(self),
            final(self).spec_capture_size() == old(self).spec_capture_size(),
    {
        if self.state != RecordingState::Recording {
            return Err(self.refuse(RecorderAction::Pause));
        }
        self.pause_start_ms = Some(now);
        self.state = RecordingState::Paused;
        Ok(())
    }

    /// Resume at `now`; the pause just ended is added to the paused total.
    pub fn resume(&mut self, now: u64) -> (r: Result<(), RecorderError>)
        requires
            old(self).wf(),
        ensures
            final(self).wf(),
            spec_next_state(old(self).spec_state(), RecorderAction::Resume) matches Some(s)
                ==> r is Ok && final(self).spec_state() == s && final(self).spec_elapsed(now)
                == old(self).spec_elapsed(now),
            spec_next_state(old(self).spec_state(), RecorderAction::Resume) is Some && old(
                self,
            ).spec_elapsed(now) > 0 ==> forall|n: u64|
                n >= now ==> #[trigger] final(self).spec_elapsed(n) == old(self).spec_elapsed(now)
                    + (n - now),
            spec_next_state(old(self).spec_state(), RecorderAction::Resume) is None ==> (r matches Err(
                e,
            ) && is_invalid_state(e, old(self).spec_state(), RecorderAction::Resume))
                && *final(self) == *old(self),
            final(self).spec_capture_size() == old(self).spec_capture_size(),
    {
        if self.state != RecordingState::Paused {
            return Err(self.refuse(RecorderAction::Resume));
        }
        match self.pause_start_ms {
            Some(ps) => {
                let d: u64 = if now > ps {
                    now - ps
                } else {
                    0
                };
                self.total_paused_ms = if u64::MAX - self.total_paused_ms < d {
                    u64::MAX
                } else {
                    self.total_paused_ms + d
                };
            },
            None => {},
        }
        self.pause_start_ms = None;
        self.state = RecordingState::Recording;
        Ok(())
    }

    /// Begin stopping at `now`; returns the recorded time in milliseconds.
    pub fn stop(&mut self, now: u64) -> (r: Result<u64, RecorderError>)
        requires
            old(self).wf(),
        ensures
            final(self).wf(),
            spec_next_state(old(self).spec_state(), RecorderAction::Stop) matches Some(s)
                ==> r == Ok::<u64, RecorderError>(old(self).spec_elapsed(now) as u64)
                && final(self).spec_state() == s,
            spec_next_state(old(self).spec_state(), RecorderAction::Stop) is None ==> (r matches Err(
                e,
            ) && is_invalid_state(e, old(self).spec_state(), RecorderAction::Stop))
                && *final(self) == *old(self),
            final(self).spec_capture_size() == old(self).spec_capture_size(),
    {
        if self.state != RecordingState::Recording && self.state != RecordingState::Paused {
            return Err(self.refuse(RecorderAction::Stop));
        }
        let duration = self.elapsed(now);
        self.state = RecordingState::Stopping;
        Ok(duration)
    }

    /// The stop procedure has collected its results.
    pub fn finish_stop(&mut self) -> (r: Result<(), RecorderError>)
        requires
            old(self).wf(),
        ensures
            final(self).wf(),
            spec_next_state(old(self).spec_state(), RecorderAction::FinishStop) matches Some(s)
                ==> r is Ok && final(self).spec_state() == s,
            spec_next_state(old(self).spec_state(), RecorderAction::FinishStop) is None ==> (r matches Err(
                e,
            ) && is_invalid_state(e, old(self).spec_state(), RecorderAction::FinishStop))
                && *final(self) == *old(self),
            final(self).spec_capture_size() == old(self).spec_capture_size(),
    {
        if self.state != RecordingState::Stopping {
            return Err(self.refuse(RecorderAction::FinishStop));
        }
        self.state = RecordingState::Completed;
        Ok(())
    }

    /// An unrecoverable error: the session fails from any state.
    pub fn fail(&mut self)
        requires
            old(self).wf(),
        ensures
            final(self).wf(),
            final(self).spec_state() == RecordingState::Failed,
            final(self).spec_capture_size() == old(self).spec_capture_size(),
    {
        self.state = RecordingState::Failed;
    }

    /// Back to idle, timers cleared.
    pub fn reset(&mut self)
        requires
            old(self).wf(),
        ensures
            final(self).wf(),
            final(self).spec_state() == RecordingState::Idle,
            forall|now: u64| final(self).spec_elapsed(now) == 0,
            final(self).spec_capture_size() == old(self).spec_capture_size(),
    {
        self.state = RecordingState::Idle;
        self.start_ms = None;
        self.pause_start_ms = None;
        self.total_paused_ms = 0;
    }

    /// Whether a captured frame goes to the queue: only while recording.
    pub fn accepts_frames(&self) -> (r: bool)
        ensures
            r == (self.spec_state() == RecordingState::Recording),
    {
        self.state == RecordingState::Recording
    }
}

} // verus!
