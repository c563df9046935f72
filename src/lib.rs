//! Capture pipeline of a live audio waveform viewer: a bounded history of
//! the most recent samples, shared between one writer and many readers, the
//! rules that turn a device's native samples into amplitudes, and the
//! start/stop state machine of a capture session.

pub mod history;
pub mod shared;
pub mod error;
pub mod normalize;
pub mod session;
