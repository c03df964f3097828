//! Process-lifecycle manager for a single external screen-recording process.
//!
//! The heart of the crate is a single-slot supervisor ([`ffmpeg::FFmpegManager`])
//! that guarantees at most one recording process is active at a time, with
//! race-free start/stop/status operations and graceful-then-forceful
//! termination. The supervisor is generic over the [`ffmpeg::Process`]
//! capability so that a host application can plug in a real OS-backed process
//! while tests substitute a double.

pub mod command;
pub mod decimal;
pub mod errors;
pub mod ffmpeg;
pub mod filename;
pub mod termination;
pub mod window;
