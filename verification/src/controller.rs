//! The recording controller: the process-wide state machine that starts a
//! capture session, accepts delivered frames, and drains the session into
//! mono samples on stop.
//!
//! The concurrent program drives this machine from several call sites: the
//! asynchronous command layer calls `start` and `stop`, the capture thread
//! reports its own setup failures and clean exits, and the hardware callback
//! appends frames. The machine itself is sequential; the surrounding
//! application mirrors its two flags with atomics and its session with a
//! lock, and every decision it takes is a verified transition here.

use vstd::prelude::*;

use crate::downmix::{downmix, frame_average, frame_count};
use crate::errors::RecordError;
use crate::session::{samples_bounded, AudioSession};
use crate::TARGET_SAMPLE_RATE;

verus! {

/// What probing the default input device produced. The application queries
/// the hardware and hands the outcome to the controller.
#[derive(Clone, Copy, Debug, PartialEq, Eq, Structural)]
pub enum DeviceProbe {
    /// No default input device is available.
    Missing,
    /// A device exists but refused to report its default configuration.
    ConfigUnavailable,
    /// A device is ready, with its negotiated native format.
    Ready {
        /// Native sample rate in hertz.
        rate: u32,
        /// Native channel count.
        channels: u16,
    },
}

/// Mono samples drained from one finished recording session, still at the
/// native rate.
#[derive(Debug)]
pub struct DrainedAudio {
    /// One truncating-average sample per captured frame.
    pub mono: Vec<i64>,
    /// The rate the samples were captured at, in hertz.
    pub native_rate: u32,
}

impl DrainedAudio {
    /// Whether the samples still have to be converted to the target rate
    /// before encoding.
    pub fn needs_resample(&self) -> (r: bool)
        ensures
            r <==> self.native_rate != TARGET_SAMPLE_RATE,
    {
        self.native_rate != TARGET_SAMPLE_RATE
    }
}

/// The recording state machine: two flags plus the shared audio session.
pub struct Recorder {
    /// True while a capture session is active.
    pub recording: bool,
    /// True once termination of the active session has been requested; only
    /// meaningful while `recording` is true.
    pub stop_requested: bool,
    /// The shared audio buffer the session accumulates into.
    pub session: AudioSession,
}

/// The channel count a drain divides by: the negotiated channel count,
/// or one if a session was never configured.
pub open spec fn effective_channels(s: AudioSession) -> int {
    if s.native_channels >= 1 {
        s.native_channels as int
    } else {
        1
    }
}

/// What a successful drain of session `s` returns: the truncating-average
/// downmix of everything captured, still at the native rate.
pub open spec fn drained_from(s: AudioSession, d: DrainedAudio) -> bool {
    &&& d.native_rate == s.native_sample_rate
    &&& d.mono@.len() == frame_count(s.samples@.len() as int, effective_channels(s))
    &&& forall|i: int|
        0 <= i < d.mono@.len() ==> d.mono@[i] == frame_average(
            s.samples@,
            effective_channels(s),
            i,
        )
    &&& samples_bounded(d.mono@)
}

impl Recorder {
    /// The machine invariant: the stored samples stay within the
    /// fixed-point magnitude bound.
    pub open spec fn wf(self) -> bool {
        self.session.wf()
    }

    /// An idle recorder with an empty session.
    pub fn new() -> (r: Recorder)
        ensures
            !r.recording,
            !r.stop_requested,
            r.session.samples@ == Seq::<i64>::empty(),
            r.wf(),
    {
        Recorder { recording: false, stop_requested: false, session: AudioSession::new() }
    }

    /// Starts a new recording session from the outcome of the device probe.
    ///
    /// A second `start` while one session is active is rejected rather than
    /// queued, and leaves the active session untouched. A missing device or
    /// an unusable configuration is rejected with the matching error and
    /// changes nothing. On success the session is reset to the freshly
    /// negotiated format before any frame can arrive, the stop request is
    /// cleared, and the machine is recording.
    pub fn start(&mut self, probe: DeviceProbe) -> (r: Result<(), RecordError>)
        requires
            old(self).wf(),
        ensures
            final(self).wf(),
            start_transition(*old(self), *final(self), probe, r),
            old(self).recording ==> r == Result::<(), RecordError>::Err(
                RecordError::AlreadyRecording,
            ) && *final(self) == *old(self),
            !old(self).recording && probe == DeviceProbe::Missing ==> r == Result::<
                (),
                RecordError,
            >::Err(RecordError::NoInputDevice) && *final(self) == *old(self),
            !old(self).recording && probe == DeviceProbe::ConfigUnavailable ==> r == Result::<
                (),
                RecordError,
            >::Err(RecordError::DeviceConfigError) && *final(self) == *old(self),
            !old(self).recording ==> (probe matches DeviceProbe::Ready { rate, channels } ==> {
                &&& r == Result::<(), RecordError>::Ok(())
                &&& final(self).recording
                &&& !final(self).stop_requested
                &&& final(self).session.samples@ == Seq::<i64>::empty()
                &&& final(self).session.native_sample_rate == rate
                &&& final(self).session.native_channels == channels
            }),
    {
        if self.recording {
            return Err(RecordError::AlreadyRecording);
        }
        match probe {
            DeviceProbe::Missing => Err(RecordError::NoInputDevice),
            DeviceProbe::ConfigUnavailable => Err(RecordError::DeviceConfigError),
            DeviceProbe::Ready { rate, channels } => {
                self.session.reset(rate, channels);
                self.stop_requested = false;
                self.recording = true;
                Ok(())
            },
        }
    }

    /// Appends one delivered block of fixed-point samples in arrival order.
    /// The application drops a block instead of calling this when the
    /// session lock is contended; a dropped block loses data but never
    /// corrupts what was already captured.
    pub fn append_frames(&mut self, frame: &Vec<i64>)
        requires
            old(self).wf(),
            samples_bounded(frame@),
        ensures
            final(self).wf(),
            final(self).recording == old(self).recording,
            final(self).stop_requested == old(self).stop_requested,
            final(self).session.samples@ == old(self).session.samples@ + frame@,
            final(self).session.native_sample_rate == old(self).session.native_sample_rate,
            final(self).session.native_channels == old(self).session.native_channels,
    {
        self.session.append(frame);
    }

    /// Appends one delivered block of signed 16-bit native samples; under
    /// the fixed-point scale each 16-bit sample stands for itself.
    pub fn append_i16_frames(&mut self, frame: &Vec<i16>)
        requires
            old(self).wf(),
        ensures
            final(self).wf(),
            final(self).recording == old(self).recording,
            final(self).stop_requested == old(self).stop_requested,
            final(self).session.samples@ == old(self).session.samples@ + frame@.map_values(
                |v: i16| v as i64,
            ),
            final(self).session.native_sample_rate == old(self).session.native_sample_rate,
            final(self).session.native_channels == old(self).session.native_channels,
    {
        self.session.append_i16(frame);
    }

    /// Records that the capture side shut down on its own: either its setup
    /// failed after `start` had already returned, or it observed the stop
    /// request and released the stream. Once this ran, the hardware
    /// resource is free and a later `start` sees a clean idle state.
    pub fn mark_capture_stopped(&mut self)
        requires
            old(self).wf(),
        ensures
            final(self).wf(),
            !final(self).recording,
            final(self).stop_requested == old(self).stop_requested,
            final(self).session == old(self).session,
    {
        self.recording = false;
    }

    /// Requests termination of the active session. Fails when nothing is
    /// recording, and then changes nothing.
    pub fn request_stop(&mut self) -> (r: Result<(), RecordError>)
        requires
            old(self).wf(),
        ensures
            final(self).wf(),
            !old(self).recording ==> r == Result::<(), RecordError>::Err(
                RecordError::NotRecording,
            ) && *final(self) == *old(self),
            old(self).recording ==> {
                &&& r == Result::<(), RecordError>::Ok(())
                &&& final(self).recording == old(self).recording
                &&& final(self).stop_requested
                &&& final(self).session == old(self).session
            },
    {
        if !self.recording {
            return Err(RecordError::NotRecording);
        }
        self.stop_requested = true;
        Ok(())
    }

    /// Reads and clears the session, downmixing what was captured to mono
    /// at the native rate. Fails when nothing was captured, and then leaves
    /// the machine idle with the empty session. The application calls this
    /// only after the capture side was observed stopped or its wait timed
    /// out.
    pub fn drain(&mut self) -> (r: Result<DrainedAudio, RecordError>)
        requires
            old(self).wf(),
        ensures
            final(self).wf(),
            !final(self).recording,
            !final(self).stop_requested,
            final(self).session.samples@ == Seq::<i64>::empty(),
            final(self).session.native_sample_rate == old(self).session.native_sample_rate,
            final(self).session.native_channels == old(self).session.native_channels,
            old(self).session.samples@.len() == 0 ==> r == Result::<
                DrainedAudio,
                RecordError,
            >::Err(RecordError::NoAudioCaptured),
            old(self).session.samples@.len() > 0 ==> r is Ok && drained_from(
                old(self).session,
                r->Ok_0,
            ),
    {
        self.recording = false;
        self.stop_requested = false;
        let raw = self.session.take_samples();
        if raw.len() == 0 {
            return Err(RecordError::NoAudioCaptured);
        }
        let channels: u16 = if self.session.native_channels >= 1 {
            self.session.native_channels
        } else {
            1
        };
        let mono = downmix(&raw, channels);
        Ok(DrainedAudio { mono, native_rate: self.session.native_sample_rate })
    }

    /// The whole stop operation of the sequential machine: reject when
    /// idle, otherwise terminate the session and drain it. The concurrent
    /// application performs the same steps as `request_stop`, a bounded
    /// wait for the capture side, then `drain`.
    pub fn stop(&mut self) -> (r: Result<DrainedAudio, RecordError>)
        requires
            old(self).wf(),
        ensures
            final(self).wf(),
            stop_transition(*old(self), *final(self), r),
            !old(self).recording ==> r == Result::<DrainedAudio, RecordError>::Err(
                RecordError::NotRecording,
            ) && *final(self) == *old(self),
            old(self).recording ==> {
                &&& !final(self).recording
                &&& final(self).session.samples@ == Seq::<i64>::empty()
                &&& (old(self).session.samples@.len() == 0 ==> r == Result::<
                    DrainedAudio,
                    RecordError,
                >::Err(RecordError::NoAudioCaptured))
                &&& (old(self).session.samples@.len() > 0 ==> r is Ok && drained_from(
                    old(self).session,
                    r->Ok_0,
                ))
            },
    {
        if !self.recording {
            return Err(RecordError::NotRecording);
        }
        self.stop_requested = true;
        self.drain()
    }
}

/// Stopping an idle machine always fails with `NotRecording` and leaves the
/// machine as it was, however often it is tried.
pub proof fn lemma_stop_idle_rejected(r: Recorder)
    requires
        !r.recording,
    ensures
        forall|r2: Recorder, res: Result<DrainedAudio, RecordError>|
            stop_transition(r, r2, res) ==> res == Result::<DrainedAudio, RecordError>::Err(
                RecordError::NotRecording,
            ) && r2 == r,
{
}

/// A `start` while a session is already recording always fails with
/// `AlreadyRecording` and leaves the active session unaffected; in
/// particular, starting twice without an intervening stop fails the second
/// call, whatever the probe saw.
pub proof fn lemma_double_start_rejected(r0: Recorder, r1: Recorder, p0: DeviceProbe, p1: DeviceProbe)
    requires
        !r0.recording,
        p0 matches DeviceProbe::Ready { .. },
        start_transition(r0, r1, p0, Result::<(), RecordError>::Ok(())),
    ensures
        forall|r2: Recorder, res: Result<(), RecordError>|
            start_transition(r1, r2, p1, res) ==> res == Result::<(), RecordError>::Err(
                RecordError::AlreadyRecording,
            ) && r2 == r1,
{
}

/// The transition relation `start` establishes, stated once so laws can
/// quantify over it: exactly the `ensures` of [`Recorder::start`].
pub open spec fn start_transition(
    pre: Recorder,
    post: Recorder,
    probe: DeviceProbe,
    r: Result<(), RecordError>,
) -> bool {
    &&& (pre.recording ==> r == Result::<(), RecordError>::Err(RecordError::AlreadyRecording)
        && post == pre)
    &&& (!pre.recording && probe == DeviceProbe::Missing ==> r == Result::<(), RecordError>::Err(
        RecordError::NoInputDevice,
    ) && post == pre)
    &&& (!pre.recording && probe == DeviceProbe::ConfigUnavailable ==> r == Result::<
        (),
        RecordError,
    >::Err(RecordError::DeviceConfigError) && post == pre)
    &&& (!pre.recording ==> (probe matches DeviceProbe::Ready { rate, channels } ==> {
        &&& r == Result::<(), RecordError>::Ok(())
        &&& post.recording
        &&& !post.stop_requested
        &&& post.session.samples@ == Seq::<i64>::empty()
        &&& post.session.native_sample_rate == rate
        &&& post.session.native_channels == channels
    }))
}

/// The part of `stop`'s transition relation the idempotence law needs:
/// exactly the idle clause of the `ensures` of [`Recorder::stop`].
pub open spec fn stop_transition(
    pre: Recorder,
    post: Recorder,
    r: Result<DrainedAudio, RecordError>,
) -> bool {
    &&& (!pre.recording ==> r == Result::<DrainedAudio, RecordError>::Err(
        RecordError::NotRecording,
    ) && post == pre)
    &&& (pre.recording ==> !post.recording && post.session.samples@ == Seq::<i64>::empty())
}

} // verus!
