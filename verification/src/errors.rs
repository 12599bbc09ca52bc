use vstd::prelude::*;

verus! {

/// Why a capture attempt failed, or — for `EmptyCapture` — the ordinary
/// "nothing was recorded" outcome of a stop, distinct from success with data.
#[derive(Clone, Copy, Debug, PartialEq, Eq, Structural)]
pub enum CaptureError {
    /// No input device resolved, neither the selected one nor a default.
    NoDevice,
    /// The device's input configuration could not be queried.
    UnsupportedConfig,
    /// Stream construction or activation failed.
    StreamFailure,
    /// The stop found no accumulated samples.
    EmptyCapture,
}

/// Why persisting a finished capture failed.
#[derive(Clone, Copy, Debug, PartialEq, Eq, Structural)]
pub enum EncodeError {
    /// Directory or file creation, or the final write, failed.
    IoFailure,
}

/// Why playback of an earlier recording failed.
#[derive(Clone, Copy, Debug, PartialEq, Eq, Structural)]
pub enum PlayError {
    /// No audio output device could be opened.
    NoOutputDevice,
    /// The file's contents are not a recording this library produces.
    DecodeFailure,
    /// The file is missing or unreadable.
    OpenFailure,
}

} // verus!
