use vstd::prelude::*;
use crate::errors::CaptureError;
use crate::gain::processed_sample;

verus! {

/// The capture-side state shared between the hardware callback and the
/// control side: the active flag the callback consults and the growing
/// buffer of processed mono samples.  One value of this type sits behind a
/// lock; each operation here is the short critical section that lock
/// serializes — an O(1) append or a snapshot, never I/O.
pub struct CaptureSession {
    /// Whether frames are currently being accepted.
    pub active: bool,
    /// Processed mono samples accumulated so far, append-only while active.
    pub samples: Vec<i16>,
    /// Hardware-reported sample rate of this session, Hz.
    pub sample_rate: u32,
    /// Hardware-reported channel count of this session.
    pub channels: u16,
    /// Boost percentage fixed for this session.
    pub gain_percent: u32,
}

impl CaptureSession {
    /// A session always carries at least one channel.
    pub open spec fn wf(self) -> bool {
        1 <= self.channels
    }

    /// A fresh, inactive session with an empty buffer.
    pub fn new() -> (s: Self)
        ensures
            !s.active,
            s.samples@.len() == 0,
            s.wf(),
    {
        CaptureSession {
            active: false,
            samples: Vec::new(),
            sample_rate: 44100,
            channels: 1,
            gain_percent: 100,
        }
    }

    /// Arm the session for a new capture: remember the hardware-reported
    /// rate and channel count and the boost percentage, clear the buffer,
    /// and raise the active flag.  The configuration is then immutable for
    /// the duration of the capture.
    pub fn begin(&mut self, sample_rate: u32, channels: u16, gain_percent: u32)
        requires
            1 <= channels,
        ensures
            final(self).active,
            final(self).samples@.len() == 0,
            final(self).sample_rate == sample_rate,
            final(self).channels == channels,
            final(self).gain_percent == gain_percent,
            final(self).wf(),
    {
        self.active = true;
        self.samples = Vec::new();
        self.sample_rate = sample_rate;
        self.channels = channels;
        self.gain_percent = gain_percent;
    }

    /// One hardware frame arriving on the callback: while the session is
    /// active, downmix the channels, apply the gain, clamp, and append the
    /// one resulting sample; once the flag is down the frame is a no-op.
    /// The buffer's amortized growth is the only allocation on this path.
    pub fn append_frame(&mut self, frame: &Vec<i32>)
        requires
            old(self).wf(),
            frame@.len() == old(self).channels,
        ensures
            final(self).active == old(self).active,
            final(self).sample_rate == old(self).sample_rate,
            final(self).channels == old(self).channels,
            final(self).gain_percent == old(self).gain_percent,
            old(self).active ==> final(self).samples@ == old(self).samples@.push(
                processed_sample(frame@, old(self).gain_percent as int),
            ),
            !old(self).active ==> final(self).samples@ == old(self).samples@,
            final(self).wf(),
    {
        if self.active {
            let s: i16 = crate::gain::process_frame(frame, self.gain_percent);
            self.samples.push(s);
        }
    }

    /// Stop the capture: lower the active flag and take the snapshot that
    /// will be encoded, leaving the buffer empty.  An empty buffer is the
    /// ordinary "nothing recorded" outcome, reported as `EmptyCapture` —
    /// distinct from success with data, and never a crash or a file.
    pub fn stop(&mut self) -> (r: Result<Vec<i16>, CaptureError>)
        ensures
            !final(self).active,
            final(self).samples@.len() == 0,
            final(self).sample_rate == old(self).sample_rate,
            final(self).channels == old(self).channels,
            final(self).gain_percent == old(self).gain_percent,
            final(self).wf() == old(self).wf(),
            match r {
                Ok(v) => old(self).samples@.len() > 0 && v@ == old(self).samples@,
                Err(e) => e == CaptureError::EmptyCapture && old(self).samples@.len() == 0,
            },
    {
        self.active = false;
        let mut taken: Vec<i16> = Vec::new();
        core::mem::swap(&mut taken, &mut self.samples);
        if taken.len() == 0 {
            Err(CaptureError::EmptyCapture)
        } else {
            Ok(taken)
        }
    }
}

} // verus!
