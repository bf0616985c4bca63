//! The shared audio buffer: raw interleaved samples in the device's native
//! format, together with the native rate and channel count.
//!
//! One session value exists for the process; it is cleared and its metadata
//! overwritten on every new recording, written by the capture side while a
//! recording is active and drained when it stops.

use vstd::prelude::*;

use crate::SAMPLE_ABS_MAX;

verus! {

/// Seconds of audio whose capacity is reserved up front on reset, so the
/// hardware callback rarely has to grow the buffer.
pub const RESERVE_SECONDS: usize = 60;

/// Raw interleaved fixed-point samples plus the native format they were
/// captured in.
pub struct AudioSession {
    /// Interleaved samples, `native_channels` per frame, at the native rate.
    pub samples: Vec<i64>,
    /// Sample rate the device delivered, in hertz.
    pub native_sample_rate: u32,
    /// Channel count the device delivered.
    pub native_channels: u16,
}

/// Every sample of `s` has magnitude at most `SAMPLE_ABS_MAX`.
pub open spec fn samples_bounded(s: Seq<i64>) -> bool {
    forall|i: int| 0 <= i < s.len() ==> -SAMPLE_ABS_MAX <= #[trigger] s[i] <= SAMPLE_ABS_MAX
}

impl AudioSession {
    /// The session invariant: stored samples stay within the fixed-point
    /// magnitude bound, so later channel sums cannot overflow.
    pub open spec fn wf(self) -> bool {
        samples_bounded(self.samples@)
    }

    /// An empty session with no negotiated format yet.
    pub fn new() -> (s: AudioSession)
        ensures
            s.samples@ == Seq::<i64>::empty(),
            s.native_sample_rate == 0,
            s.native_channels == 0,
            s.wf(),
    {
        AudioSession { samples: Vec::new(), native_sample_rate: 0, native_channels: 0 }
    }

    /// Clears the buffer, records the freshly negotiated native format, and
    /// pre-reserves room for about a minute of audio at that rate.
    pub fn reset(&mut self, native_rate: u32, native_channels: u16)
        ensures
            final(self).samples@ == Seq::<i64>::empty(),
            final(self).native_sample_rate == native_rate,
            final(self).native_channels == native_channels,
            final(self).wf(),
    {
        self.samples.clear();
        if native_rate as usize <= usize::MAX / RESERVE_SECONDS {
            self.samples.reserve(native_rate as usize * RESERVE_SECONDS);
        }
        self.native_sample_rate = native_rate;
        self.native_channels = native_channels;
    }

    /// Appends one delivered frame block of fixed-point samples in arrival
    /// order. Values beyond the magnitude bound must be clamped by the
    /// caller before conversion.
    pub fn append(&mut self, frame: &Vec<i64>)
        requires
            old(self).wf(),
            samples_bounded(frame@),
        ensures
            final(self).samples@ == old(self).samples@ + frame@,
            final(self).native_sample_rate == old(self).native_sample_rate,
            final(self).native_channels == old(self).native_channels,
            final(self).wf(),
    {
        let n = frame.len();
        let mut i: usize = 0;
        while i < n
            invariant
                n == frame@.len(),
                i <= n,
                self.samples@ == old(self).samples@ + frame@.subrange(0, i as int),
                self.native_sample_rate == old(self).native_sample_rate,
                self.native_channels == old(self).native_channels,
                samples_bounded(frame@),
                old(self).wf(),
                self.wf(),
            decreases n - i,
        {
            self.samples.push(frame[i]);
            i = i + 1;
            proof {
                assert(self.samples@ =~= old(self).samples@ + frame@.subrange(0, i as int));
            }
        }
        proof {
            assert(frame@.subrange(0, n as int) =~= frame@);
        }
    }

    /// Appends one delivered block of signed 16-bit native samples. Under
    /// the fixed-point scale a 16-bit sample stands for itself, so the
    /// conversion is a plain widening.
    pub fn append_i16(&mut self, frame: &Vec<i16>)
        requires
            old(self).wf(),
        ensures
            final(self).samples@ == old(self).samples@ + frame@.map_values(|v: i16| v as i64),
            final(self).native_sample_rate == old(self).native_sample_rate,
            final(self).native_channels == old(self).native_channels,
            final(self).wf(),
    {
        let n = frame.len();
        let mut i: usize = 0;
        while i < n
            invariant
                n == frame@.len(),
                i <= n,
                self.samples@ == old(self).samples@ + frame@.subrange(0, i as int).map_values(
                    |v: i16| v as i64,
                ),
                self.native_sample_rate == old(self).native_sample_rate,
                self.native_channels == old(self).native_channels,
                old(self).wf(),
                self.wf(),
            decreases n - i,
        {
            self.samples.push(frame[i] as i64);
            i = i + 1;
            proof {
                assert(self.samples@ =~= old(self).samples@ + frame@.subrange(
                    0,
                    i as int,
                ).map_values(|v: i16| v as i64));
            }
        }
        proof {
            assert(frame@.subrange(0, n as int) =~= frame@);
        }
    }

    /// Number of raw samples captured so far.
    pub fn len(&self) -> (n: usize)
        ensures
            n == self.samples@.len(),
    {
        self.samples.len()
    }

    /// Removes and returns everything captured, leaving the buffer empty for
    /// the next session. The native format metadata stays.
    pub fn take_samples(&mut self) -> (r: Vec<i64>)
        ensures
            r@ == old(self).samples@,
            final(self).samples@ == Seq::<i64>::empty(),
            final(self).native_sample_rate == old(self).native_sample_rate,
            final(self).native_channels == old(self).native_channels,
            final(self).wf(),
            old(self).wf() ==> samples_bounded(r@),
    {
        let mut out: Vec<i64> = Vec::new();
        std::mem::swap(&mut out, &mut self.samples);
        out
    }
}

} // verus!
