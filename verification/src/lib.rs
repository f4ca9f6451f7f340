//! Drift-free time units and shared integer parameters for audio engines.
//!
//! Every unit of time is an integer count. Sample positions and durations
//! convert to and from a common tick of 1/28,224,000 second without rounding
//! at the usual audio sample rates, and musical positions use the same tick
//! per beat.
//!
//! An integer parameter is a value in a fixed range that an audio thread and
//! its controls share through one atomic cell.

pub mod frames;
pub mod musical_time;
pub mod parameter;
pub mod sample_time;
pub mod super_frames;
pub mod super_sample_time;
pub mod tick;

pub use frames::Frames;
pub use musical_time::MusicalTime;
pub use parameter::{ParamI32, ParamI32Handle, Unit};
pub use sample_time::SampleTime;
pub use super_frames::SuperFrames;
pub use super_sample_time::SuperSampleTime;
