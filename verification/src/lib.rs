//! Verified core of a microphone capture pipeline.
//!
//! The library holds the parts of the pipeline that decide and compute: mono
//! downmix with a live gain ("boost") and clamping, the capture session's
//! buffer and state machine, the pulse-code-modulation container encoder and
//! decoder, timestamped file naming, and the controller that turns user
//! commands and reported hardware outcomes into state transitions.  The
//! hardware streams, the window toolkit and the file system are collaborators
//! outside this crate: they hand plain values in and carry plain values out.

pub mod clock;
pub mod controller;
pub mod errors;
pub mod gain;
pub mod session;
pub mod wav;
