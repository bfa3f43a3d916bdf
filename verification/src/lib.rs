//! A staged media-transcription pipeline: one job at a time is taken from a
//! video file through audio extraction, transcription and persistence, with
//! cooperative cancellation, ordered progress events and typed failures.
//!
//! The library decides; its driver performs. Worker processes, the clock and
//! the disk are outside: the driver hands what it observed to the
//! [`supervisor::Supervisor`] and carries out the directive it gets back.

pub mod state;
pub mod job;
pub mod stage;
pub mod store;
pub mod supervisor;
pub mod worker;
