//! Verified core of a push-to-talk dictation pipeline.
//!
//! The library covers the recording/transcription pipeline: sample-format
//! conversion, the lock-guarded audio sink with its drop-on-contention write
//! policy, the capture-session lifecycle, resampling to the fixed inference
//! rate, transcript assembly, and the orchestrating state machine. Device
//! I/O, file persistence and UI plumbing live outside the library and hand
//! it plain values.

pub mod config;
pub mod pipeline;
pub mod resample;
pub mod sample;
pub mod session;
pub mod sink;
pub mod transcript;
