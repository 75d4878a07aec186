//! Verified core of a screen-recording and post-production tool: recording
//! state machine, bounded frame queue, pixel buffers, and the plain-data
//! vocabulary shared by capture, input, encoder and project code.

pub mod capture;
pub mod encoder;
pub mod evaluator;
pub mod frame_queue;
pub mod generators;
pub mod input;
pub mod keyframe;
pub mod paths;
pub mod permissions;
pub mod project;
pub mod recorder;
pub mod render;
pub mod track;
