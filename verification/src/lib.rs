//! Capture synchronization: the race-free data path between a video frame
//! callback, an audio sample callback, and a muxing encoder, with a
//! start/stop lifecycle that finalizes the encoder exactly once.
//!
//! The platform collaborators (the screen-capture backend, the audio device
//! API, the encoder itself, console I/O) live outside this crate; this
//! library holds the decisions they drive: what a frame callback does with
//! the audio queued before it, when the shutdown signal fires, and which
//! lifecycle transitions are legal.

pub mod accumulator;
pub mod capture;
pub mod config;
pub mod console;
pub mod producer;
pub mod signal;

pub use accumulator::AudioAccumulator;
pub use capture::Capture;
pub use config::Args;
pub use signal::ShutdownSignal;
