//! Video encoder configuration and the development encoder that counts
//! frames without writing video.

use vstd::prelude::*;
use crate::project::{ExportQuality, VideoCodec, spec_bit_rate};

verus! {

/// Whether the encoder serves a live recording or an offline export.
#[derive(Debug, Clone, Copy, PartialEq, Eq, Structural)]
pub enum EncoderPurpose {
    Recording,
    Export,
}

/// Video encoder configuration.
#[derive(Debug, Clone)]
pub struct EncoderConfig {
    pub width: u32,
    pub height: u32,
    pub frame_rate: u32,
    pub codec: VideoCodec,
    pub quality: ExportQuality,
    pub output_path: String,
    /// Key frame interval (GOP size)
    pub keyframe_interval: u32,
    pub purpose: EncoderPurpose,
}

impl EncoderConfig {
    /// A recording configuration: 60 fps, H.264, high quality, a key frame
    /// every 120 frames.
    pub fn new(width: u32, height: u32, output_path: String) -> (r: Self)
        ensures
            r.width == width,
            r.height == height,
            r.frame_rate == 60,
            r.codec == VideoCodec::H264,
            r.quality == ExportQuality::High,
            r.output_path == output_path,
            r.keyframe_interval == 120,
            r.purpose == EncoderPurpose::Recording,
    {
        EncoderConfig {
            width,
            height,
            frame_rate: 60,
            codec: VideoCodec::H264,
            quality: ExportQuality::High,
            output_path,
            keyframe_interval: 120,
            purpose: EncoderPurpose::Recording,
        }
    }

    pub fn bit_rate(&self) -> (r: u64)
        ensures
            r == spec_bit_rate(self.quality, self.width, self.height),
    {
        self.quality.bit_rate(self.width, self.height)
    }
}

/// A raw BGRA frame handed to an encoder.
pub struct VideoFrame {
    pub data: Vec<u8>,
    pub width: u32,
    pub height: u32,
    pub stride: u32,
}

/// Encoder error types.
#[derive(Debug)]
pub enum EncoderError {
    AlreadyStarted,
    NotStarted,
    Ffmpeg(String),
    InvalidConfig(String),
    Io(String),
}

/// Development encoder: keeps the encoder's state machine and frame count,
/// writes no video.
pub struct StubEncoder {
    config: EncoderConfig,
    encoding: bool,
    frame_count: u64,
}

impl StubEncoder {
    pub closed spec fn spec_encoding(&self) -> bool {
        self.encoding
    }

    pub closed spec fn spec_frame_count(&self) -> u64 {
        self.frame_count
    }

    pub closed spec fn spec_output_path(&self) -> Seq<char> {
        self.config.output_path@
    }

    pub fn new(config: EncoderConfig) -> (r: Self)
        ensures
            !r.spec_encoding(),
            r.spec_frame_count() == 0,
            r.spec_output_path() == config.output_path@,
    {
        StubEncoder { config, encoding: false, frame_count: 0 }
    }

    /// Begin encoding; the frame count starts again from zero.
    pub fn start(&mut self) -> (r: Result<(), EncoderError>)
        ensures
            final(self).spec_output_path() == old(self).spec_output_path(),
            old(self).spec_encoding() ==> (r matches Err(EncoderError::AlreadyStarted))
                && final(self).spec_encoding() && final(self).spec_frame_count() == old(
                self,
            ).spec_frame_count(),
            !old(self).spec_encoding() ==> r is Ok && final(self).spec_encoding()
                && final(self).spec_frame_count() == 0,
    {
        if self.encoding {
            return Err(EncoderError::AlreadyStarted);
        }
        self.encoding = true;
        self.frame_count = 0;
        Ok(())
    }

    /// Count one more frame.
    pub fn append_frame(&mut self, frame: &VideoFrame) -> (r: Result<(), EncoderError>)
        requires
            old(self).spec_frame_count() < u64::MAX,
        ensures
            final(self).spec_output_path() == old(self).spec_output_path(),
            final(self).spec_encoding() == old(self).spec_encoding(),
            !old(self).spec_encoding() ==> (r matches Err(EncoderError::NotStarted))
                && final(self).spec_frame_count() == old(self).spec_frame_count(),
            old(self).spec_encoding() ==> r is Ok && final(self).spec_frame_count() == old(
                self,
            ).spec_frame_count() + 1,
    {
        if !self.encoding {
            return Err(EncoderError::NotStarted);
        }
        self.frame_count = self.frame_count + 1;
        Ok(())
    }

    /// Stop encoding and return the output path.
    pub fn finish(&mut self) -> (r: Result<String, EncoderError>)
        ensures
            final(self).spec_output_path() == old(self).spec_output_path(),
            final(self).spec_frame_count() == old(self).spec_frame_count(),
            !final(self).spec_encoding(),
            !old(self).spec_encoding() ==> r matches Err(EncoderError::NotStarted),
            old(self).spec_encoding() ==> (r matches Ok(p) && p@ == old(self).spec_output_path()),
    {
        if !self.encoding {
            return Err(EncoderError::NotStarted);
        }
        self.encoding = false;
        Ok(self.config.output_path.clone())
    }

    pub fn is_encoding(&self) -> (r: bool)
        ensures
            r == self.spec_encoding(),
    {
        self.encoding
    }

    pub fn frames_encoded(&self) -> (r: u64)
        ensures
            r == self.spec_frame_count(),
    {
        self.frame_count
    }
}

} // verus!
