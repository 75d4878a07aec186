//! Export settings, mouse-data records and project errors.

use vstd::prelude::*;
use vstd::string::*;

verus! {

/// Project I/O errors.
#[derive(Debug)]
pub enum ProjectError {
    Io(String),
    Serialization(String),
    NotFound(String),
}

/// Target frame size of an export.
#[derive(Debug, Clone, Copy, PartialEq, Eq, Structural)]
pub enum OutputResolution {
    Original,
    Uhd4k,
    Qhd1440,
    Fhd1080,
    Hd720,
    Custom { width: u32, height: u32 },
}

impl OutputResolution {
    pub open spec fn spec_size(&self, source_width: u32, source_height: u32) -> (u32, u32) {
        match *self {
            OutputResolution::Original => (source_width, source_height),
            OutputResolution::Uhd4k => (3840, 2160),
            OutputResolution::Qhd1440 => (2560, 1440),
            OutputResolution::Fhd1080 => (1920, 1080),
            OutputResolution::Hd720 => (1280, 720),
            OutputResolution::Custom { width, height } => (width, height),
        }
    }

    /// Output frame size, as `(width, height)`, for a source of the given size.
    pub fn size(&self, source_width: u32, source_height: u32) -> (r: (u32, u32))
        ensures
            r == self.spec_size(source_width, source_height),
    {
        match self {
            OutputResolution::Original => (source_width, source_height),
            OutputResolution::Uhd4k => (3840, 2160),
            OutputResolution::Qhd1440 => (2560, 1440),
            OutputResolution::Fhd1080 => (1920, 1080),
            OutputResolution::Hd720 => (1280, 720),
            OutputResolution::Custom { width, height } => (*width, *height),
        }
    }
}

/// Emitted frame rate of an export.
#[derive(Debug, Clone, Copy, PartialEq, Eq, Structural)]
pub enum OutputFrameRate {
    Original,
    Fixed { fps: u32 },
}

impl OutputFrameRate {
    /// Output frames per second for a source of `source_fps`.
    pub fn value(&self, source_fps: u32) -> (r: u32)
        ensures
            r == match *self {
                OutputFrameRate::Original => source_fps,
                OutputFrameRate::Fixed { fps } => fps,
            },
    {
        match self {
            OutputFrameRate::Original => source_fps,
            OutputFrameRate::Fixed { fps } => *fps,
        }
    }
}

/// Codec of the encoded video.
#[derive(Debug, Clone, Copy, PartialEq, Eq, Structural, Hash)]
pub enum VideoCodec {
    H264,
    H265,
}

impl VideoCodec {
    pub fn file_extension(&self) -> (r: &'static str)
        ensures
            r@ == "mp4"@,
    {
        "mp4"
    }

    pub fn display_name(&self) -> (r: &'static str)
        ensures
            r@ == match *self {
                VideoCodec::H264 => "H.264"@,
                VideoCodec::H265 => "H.265 (HEVC)"@,
            },
    {
        match self {
            VideoCodec::H264 => "H.264",
            VideoCodec::H265 => "H.265 (HEVC)",
        }
    }
}

/// Export quality; each level multiplies the pixel count into a bit rate.
#[derive(Debug, Clone, Copy, PartialEq, Eq, Structural, Hash)]
pub enum ExportQuality {
    Low,
    Medium,
    High,
    Original,
}

pub open spec fn quality_multiplier(q: ExportQuality) -> nat {
    match q {
        ExportQuality::Low => 2,
        ExportQuality::Medium => 4,
        ExportQuality::High => 8,
        ExportQuality::Original => 12,
    }
}

/// Bits per second for a frame of `width` x `height` at quality `q`,
/// saturating at the largest `u64`.
pub open spec fn spec_bit_rate(q: ExportQuality, width: u32, height: u32) -> u64 {
    let v = width * height * quality_multiplier(q);
    if v > u64::MAX {
        u64::MAX
    } else {
        v as u64
    }
}

impl ExportQuality {
    pub fn bit_rate_multiplier(&self) -> (r: u64)
        ensures
            r == quality_multiplier(*self),
    {
        match self {
            ExportQuality::Low => 2,
            ExportQuality::Medium => 4,
            ExportQuality::High => 8,
            ExportQuality::Original => 12,
        }
    }

    /// Bit rate for a frame of `width` x `height` pixels.
    pub fn bit_rate(&self, width: u32, height: u32) -> (r: u64)
        ensures
            r == spec_bit_rate(*self, width, height),
    {
        let m = self.bit_rate_multiplier();
        assert(0 <= width * height <= 0xffff_ffffu32 * 0xffff_ffffu32) by (nonlinear_arith)
            requires
                width <= 0xffff_ffffu32,
                height <= 0xffff_ffffu32,
        ;
        let pixels: u128 = width as u128 * height as u128;
        assert(pixels * m <= 0xffff_ffffu32 * 0xffff_ffffu32 * 12) by (nonlinear_arith)
            requires
                pixels <= 0xffff_ffffu32 * 0xffff_ffffu32,
                m <= 12,
        ;
        let v: u128 = pixels * m as u128;
        if v > u64::MAX as u128 {
            u64::MAX
        } else {
            v as u64
        }
    }
}

/// Keystroke event of the mouse-data file.
#[derive(Debug, Clone)]
pub struct KeystrokeEvent {
    pub event_type: String,
    pub process_time_ms: i64,
    pub unix_time_ms: i64,
    pub character: Option<String>,
    pub is_a_repeat: bool,
    pub active_modifiers: Vec<String>,
}

/// Modifier keys held during an event.
#[derive(Debug, Clone, Copy)]
pub struct KeyModifiers {
    pub command: bool,
    pub shift: bool,
    pub alt: bool,
    pub control: bool,
    pub function_key: bool,
    pub caps_lock: bool,
}

/// `name` appended to `s` when `held`.
pub open spec fn push_if(s: Seq<Seq<char>>, held: bool, name: Seq<char>) -> Seq<Seq<char>> {
    if held {
        s.push(name)
    } else {
        s
    }
}

impl KeyModifiers {
    /// Names of the held modifiers, in the fixed order command, shift, alt,
    /// control, function, caps lock.
    pub open spec fn spec_names(&self) -> Seq<Seq<char>> {
        push_if(
            push_if(
                push_if(
                    push_if(
                        push_if(push_if(Seq::empty(), self.command, "command"@), self.shift, "shift"@),
                        self.alt,
                        "alt"@,
                    ),
                    self.control,
                    "control"@,
                ),
                self.function_key,
                "function"@,
            ),
            self.caps_lock,
            "capsLock"@,
        )
    }

    pub fn to_strings(&self) -> (r: Vec<String>)
        ensures
            r@.map_values(|s: String| s@) == self.spec_names(),
    {
        let mut result: Vec<String> = Vec::new();
        let ghost names: Seq<Seq<char>> = Seq::empty();
        if self.command {
            result.push(String::from_str("command"));
        }
        proof {
            names = push_if(names, self.command, "command"@);
            assert(result@.map_values(|s: String| s@) =~= names);
        }
        if self.shift {
            result.push(String::from_str("shift"));
        }
        proof {
            names = push_if(names, self.shift, "shift"@);
            assert(result@.map_values(|s: String| s@) =~= names);
        }
        if self.alt {
            result.push(String::from_str("alt"));
        }
        proof {
            names = push_if(names, self.alt, "alt"@);
            assert(result@.map_values(|s: String| s@) =~= names);
        }
        if self.control {
            result.push(String::from_str("control"));
        }
        proof {
            names = push_if(names, self.control, "control"@);
            assert(result@.map_values(|s: String| s@) =~= names);
        }
        if self.function_key {
            result.push(String::from_str("function"));
        }
        proof {
            names = push_if(names, self.function_key, "function"@);
            assert(result@.map_values(|s: String| s@) =~= names);
        }
        if self.caps_lock {
            result.push(String::from_str("capsLock"));
        }
        proof {
            names = push_if(names, self.caps_lock, "capsLock"@);
            assert(result@.map_values(|s: String| s@) =~= names);
        }
        result
    }
}

/// Whether an export may byte-copy the source video: no keyframe in any
/// track, and neither the frame size nor the frame rate changes.
pub fn can_fast_copy(
    total_keyframes: usize,
    resolution: OutputResolution,
    frame_rate: OutputFrameRate,
) -> (r: bool)
    ensures
        r == (total_keyframes == 0 && resolution == OutputResolution::Original && frame_rate
            == OutputFrameRate::Original),
{
    total_keyframes == 0 && resolution == OutputResolution::Original && frame_rate
        == OutputFrameRate::Original
}

pub open spec fn digit_char(d: nat) -> char {
    if d == 0 {
        '0'
    } else if d == 1 {
        '1'
    } else if d == 2 {
        '2'
    } else if d == 3 {
        '3'
    } else if d == 4 {
        '4'
    } else if d == 5 {
        '5'
    } else if d == 6 {
        '6'
    } else if d == 7 {
        '7'
    } else if d == 8 {
        '8'
    } else {
        '9'
    }
}

/// Decimal digits of `n`, most significant first, without leading zeros.
pub open spec fn decimal(n: nat) -> Seq<char>
    decreases n,
{
    if n < 10 {
        seq![digit_char(n)]
    } else {
        decimal(n / 10).push(digit_char(n % 10))
    }
}

fn digit_str(d: u64) -> (r: &'static str)
    requires
        d < 10,
    ensures
        r@ == seq![digit_char(d as nat)],
{
    proof {
        reveal_strlit("0");
        reveal_strlit("1");
        reveal_strlit("2");
        reveal_strlit("3");
        reveal_strlit("4");
        reveal_strlit("5");
        reveal_strlit("6");
        reveal_strlit("7");
        reveal_strlit("8");
        reveal_strlit("9");
    }
    let r = if d == 0 {
        "0"
    } else if d == 1 {
        "1"
    } else if d == 2 {
        "2"
    } else if d == 3 {
        "3"
    } else if d == 4 {
        "4"
    } else if d == 5 {
        "5"
    } else if d == 6 {
        "6"
    } else if d == 7 {
        "7"
    } else if d == 8 {
        "8"
    } else {
        "9"
    };
    assert(r@ =~= seq![digit_char(d as nat)]);
    r
}

/// `n` written in decimal.
pub fn decimal_string(n: u64) -> (r: String)
    ensures
        r@ == decimal(n as nat),
    decreases n,
{
    if n < 10 {
        String::from_str(digit_str(n))
    } else {
        let mut s = decimal_string(n / 10);
        s.append(digit_str(n % 10));
        s
    }
}

/// Relies on `std::time::SystemTime::now`: whole seconds since the Unix
/// epoch, zero for a clock set before it.
#[verifier::external_body]
fn unix_seconds_now() -> (r: u64) {
    std::time::SystemTime::now().duration_since(std::time::UNIX_EPOCH).unwrap_or_default().as_secs()
}

/// The current time as decimal seconds since the Unix epoch.
pub fn chrono_now() -> (r: String)
    ensures
        exists|secs: u64| r@ == decimal(secs as nat),
{
    let secs = unix_seconds_now();
    decimal_string(secs)
}

} // verus!
