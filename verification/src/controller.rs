use vstd::prelude::*;
use crate::errors::{CaptureError, PlayError};

verus! {

/// Whether a capture is running, and since when (caller-supplied clock,
/// seconds).  Transitions happen only through the controller's operations.
#[derive(Clone, Copy, Debug, PartialEq, Eq, Structural)]
pub enum RecordingState {
    Idle,
    Recording { started_at: u64 },
}

/// What the controller last had to report.  The caller renders each
/// variant as a short status line; none of them is ever a crash.
#[derive(Clone, Copy, Debug, PartialEq, Eq, Structural)]
#[allow(inconsistent_fields)]
pub enum Status {
    /// Nothing in progress.
    Ready,
    /// A capture is running.
    Recording,
    /// A stop found no accumulated samples; no file was written.
    NoAudio,
    /// A capture was stopped and written out, after this many seconds.
    Saved { seconds: u64 },
    /// A start attempt failed.
    CaptureFailed { error: CaptureError },
    /// The capture had samples but writing the file failed.
    SaveFailed,
    /// A playback is in progress.
    Playing,
    /// Playback was asked for before any capture was saved.
    NoRecording,
    /// A playback attempt failed.
    PlaybackFailed { error: PlayError },
}

/// Which input device a capture should open.
#[derive(Clone, Copy, Debug, PartialEq, Eq, Structural)]
pub enum DeviceChoice {
    /// The device at this position of the current enumeration.
    Position(usize),
    /// The host's default input device.
    HostDefault,
}

/// What a toggle of the capture button means right now.
#[derive(Clone, Copy, Debug, PartialEq, Eq, Structural)]
pub enum ToggleAction {
    StartCapture,
    StopCapture,
}

/// What the hardware layer reports back for a start attempt.
#[derive(Clone, Copy, Debug, PartialEq, Eq, Structural)]
pub enum StartOutcome {
    /// The stream is running at this hardware-reported rate; the clock
    /// read `started_at` seconds when it began.
    Started { sample_rate: u32, started_at: u64 },
    /// No stream runs; why.
    Failed { error: CaptureError },
}

/// What became of a stopped capture's samples.
pub enum StopOutcome {
    /// The recording was encoded and written under this file name.
    Saved { path: Vec<u8> },
    /// Nothing was recorded; no file was written.
    NoSamples,
    /// The samples existed but writing the file failed.
    WriteFailed,
}

/// How a playback ended.
#[derive(Clone, Copy, Debug, PartialEq, Eq, Structural)]
pub enum PlayOutcome {
    Finished,
    Failed { error: PlayError },
}

/// Seconds elapsed at `now` since a recording began: zero when idle, and
/// zero when the caller's clock reads earlier than the recorded start.
pub open spec fn elapsed_from(state: RecordingState, now: u64) -> u64 {
    match state {
        RecordingState::Idle => 0u64,
        RecordingState::Recording { started_at } => if now >= started_at {
            (now - started_at) as u64
        } else {
            0u64
        },
    }
}

/// The control-side root: current settings (device position, boost
/// percentage), the recording state, the most recent saved recording, and
/// the status to report.  It decides; the caller performs the hardware and
/// file work and reports each outcome back.
pub struct SessionController {
    /// Position of the chosen input device in the last enumeration.
    pub selected_device: usize,
    /// Boost percentage, kept within [0, 1000].
    pub boost_percent: u32,
    /// Whether a capture is running, and since when.
    pub state: RecordingState,
    /// File name of the most recent saved recording, if any.
    pub last_recording: Option<Vec<u8>>,
    /// Hardware-reported sample rate of the last started capture, Hz.
    pub sample_rate: u32,
    /// What the caller should report.
    pub status: Status,
}

impl SessionController {
    /// The boost percentage never leaves [0, 1000].
    pub open spec fn wf(self) -> bool {
        self.boost_percent <= 1000
    }

    /// A fresh controller: first device, 100% boost, idle, nothing saved.
    pub fn new() -> (c: Self)
        ensures
            c.wf(),
            c.selected_device == 0,
            c.boost_percent == 100,
            c.state == RecordingState::Idle,
            c.last_recording is None,
            c.sample_rate == 44100,
            c.status == Status::Ready,
    {
        SessionController {
            selected_device: 0,
            boost_percent: 100,
            state: RecordingState::Idle,
            last_recording: None,
            sample_rate: 44100,
            status: Status::Ready,
        }
    }

    /// Set the boost percentage, clamped into [0, 1000]: any request below
    /// zero becomes 0, any request above 1000 becomes 1000.
    pub fn set_boost_percent(&mut self, requested: i64)
        ensures
            final(self).boost_percent as int == if requested < 0 {
                0int
            } else if requested > 1000 {
                1000int
            } else {
                requested as int
            },
            final(self).wf(),
            final(self).selected_device == old(self).selected_device,
            final(self).state == old(self).state,
            final(self).last_recording == old(self).last_recording,
            final(self).sample_rate == old(self).sample_rate,
            final(self).status == old(self).status,
    {
        self.boost_percent = if requested < 0 {
            0
        } else if requested > 1000 {
            1000
        } else {
            requested as u32
        };
    }

    /// Choose the device at this position for the next capture.  The
    /// position is a convenience against the current enumeration, not an
    /// identity: an out-of-range position falls back to the host default
    /// at start time.
    pub fn select_device(&mut self, position: usize)
        ensures
            final(self).selected_device == position,
            final(self).boost_percent == old(self).boost_percent,
            final(self).state == old(self).state,
            final(self).last_recording == old(self).last_recording,
            final(self).sample_rate == old(self).sample_rate,
            final(self).status == old(self).status,
            final(self).wf() == old(self).wf(),
    {
        self.selected_device = position;
    }

    /// Which device a start should open, against an enumeration of
    /// `device_count` devices: the selected position while it is in range,
    /// else the host's default input device — never a failure on an
    /// out-of-range selection alone.
    pub fn device_choice(&self, device_count: usize) -> (c: DeviceChoice)
        ensures
            c == if self.selected_device < device_count {
                DeviceChoice::Position(self.selected_device)
            } else {
                DeviceChoice::HostDefault
            },
    {
        if self.selected_device < device_count {
            DeviceChoice::Position(self.selected_device)
        } else {
            DeviceChoice::HostDefault
        }
    }

    /// What a toggle of the capture control does now: start when idle,
    /// stop when recording.
    pub fn toggle_action(&self) -> (a: ToggleAction)
        ensures
            a == if self.state is Idle {
                ToggleAction::StartCapture
            } else {
                ToggleAction::StopCapture
            },
    {
        match self.state {
            RecordingState::Idle => ToggleAction::StartCapture,
            RecordingState::Recording { .. } => ToggleAction::StopCapture,
        }
    }

    /// Record what the hardware layer reports for a start attempt.
    /// Success makes the session recording at the hardware-reported rate —
    /// the rate later used for encoding, not the requested one.  Any
    /// failure leaves every setting as it was and the session idle, the
    /// error reported as status.
    pub fn on_start(&mut self, outcome: StartOutcome)
        requires
            old(self).state is Idle,
        ensures
            match outcome {
                StartOutcome::Started { sample_rate, started_at } => {
                    &&& final(self).state == (RecordingState::Recording { started_at })
                    &&& final(self).sample_rate == sample_rate
                    &&& final(self).status == Status::Recording
                },
                StartOutcome::Failed { error } => {
                    &&& final(self).state == RecordingState::Idle
                    &&& final(self).sample_rate == old(self).sample_rate
                    &&& final(self).status == (Status::CaptureFailed { error })
                },
            },
            final(self).selected_device == old(self).selected_device,
            final(self).boost_percent == old(self).boost_percent,
            final(self).last_recording == old(self).last_recording,
            final(self).wf() == old(self).wf(),
    {
        match outcome {
            StartOutcome::Started { sample_rate, started_at } => {
                self.state = RecordingState::Recording { started_at };
                self.sample_rate = sample_rate;
                self.status = Status::Recording;
            },
            StartOutcome::Failed { error } => {
                self.status = Status::CaptureFailed { error };
            },
        }
    }

    /// Record what became of a stop: the session is idle afterwards in
    /// every case.  A saved file becomes the newest recording and reports
    /// the elapsed seconds; an empty capture or a failed write changes no
    /// recording and only reports.
    pub fn on_stop(&mut self, outcome: StopOutcome, now: u64)
        ensures
            final(self).state == RecordingState::Idle,
            match outcome {
                StopOutcome::Saved { path } => {
                    &&& final(self).last_recording == Some(path)
                    &&& final(self).status == (Status::Saved {
                        seconds: elapsed_from(old(self).state, now),
                    })
                },
                StopOutcome::NoSamples => {
                    &&& final(self).last_recording == old(self).last_recording
                    &&& final(self).status == Status::NoAudio
                },
                StopOutcome::WriteFailed => {
                    &&& final(self).last_recording == old(self).last_recording
                    &&& final(self).status == Status::SaveFailed
                },
            },
            final(self).selected_device == old(self).selected_device,
            final(self).boost_percent == old(self).boost_percent,
            final(self).sample_rate == old(self).sample_rate,
            final(self).wf() == old(self).wf(),
    {
        let seconds: u64 = self.elapsed_seconds(now);
        self.state = RecordingState::Idle;
        match outcome {
            StopOutcome::Saved { path } => {
                self.last_recording = Some(path);
                self.status = Status::Saved { seconds };
            },
            StopOutcome::NoSamples => {
                self.status = Status::NoAudio;
            },
            StopOutcome::WriteFailed => {
                self.status = Status::SaveFailed;
            },
        }
    }

    /// Seconds elapsed so far against the caller's clock, for a live
    /// timer; the caller polls — nothing is pushed.
    pub fn elapsed_seconds(&self, now: u64) -> (seconds: u64)
        ensures
            seconds == elapsed_from(self.state, now),
    {
        match self.state {
            RecordingState::Idle => 0,
            RecordingState::Recording { started_at } => if now >= started_at {
                now - started_at
            } else {
                0
            },
        }
    }

    /// Begin a playback request.  With no recording saved yet this only
    /// reports `NoRecording` — nothing is opened and nothing is played.
    /// With one, the status turns `Playing`, the result is `true`, and the
    /// caller reads `last_recording` for the file to open.
    pub fn play_last_request(&mut self) -> (has: bool)
        ensures
            final(self).state == old(self).state,
            final(self).selected_device == old(self).selected_device,
            final(self).boost_percent == old(self).boost_percent,
            final(self).last_recording == old(self).last_recording,
            final(self).sample_rate == old(self).sample_rate,
            final(self).wf() == old(self).wf(),
            old(self).last_recording is Some ==> has == true && final(self).status
                == Status::Playing,
            old(self).last_recording is None ==> has == false && final(self).status
                == Status::NoRecording,
    {
        match self.last_recording {
            Some(_) => {
                self.status = Status::Playing;
                true
            },
            None => {
                self.status = Status::NoRecording;
                false
            },
        }
    }

    /// Record how a playback ended: back to ready, or the failure as
    /// status.
    pub fn on_play(&mut self, outcome: PlayOutcome)
        ensures
            final(self).state == old(self).state,
            final(self).selected_device == old(self).selected_device,
            final(self).boost_percent == old(self).boost_percent,
            final(self).last_recording == old(self).last_recording,
            final(self).sample_rate == old(self).sample_rate,
            final(self).wf() == old(self).wf(),
            match outcome {
                PlayOutcome::Finished => final(self).status == Status::Ready,
                PlayOutcome::Failed { error } => final(self).status == (Status::PlaybackFailed {
                    error
                }),
            },
    {
        match outcome {
            PlayOutcome::Finished => {
                self.status = Status::Ready;
            },
            PlayOutcome::Failed { error } => {
                self.status = Status::PlaybackFailed { error };
            },
        }
    }
}

} // verus!
