//! Verified core of a local voice-capture pipeline.
//!
//! The library models the capture-and-resample subsystem of a microphone
//! recorder: a recording controller (state machine over an accumulating
//! audio session), channel downmixing, planning of block-based rate
//! conversion towards a fixed 16 000 Hz target, and a mono 16-bit PCM WAV
//! encoder and decoder.
//!
//! Samples are held as fixed-point integers: the value `32767` stands for
//! a full-scale sample of `1.0`, so a signed 16-bit native sample maps to
//! itself. The surrounding application converts floating-point hardware
//! frames to this representation at the boundary; everything the library
//! computes on them is verified.

use vstd::prelude::*;

pub mod controller;
pub mod downmix;
pub mod errors;
pub mod resample;
pub mod session;
pub mod stamp;
pub mod transcript;
pub mod wav;

verus! {

/// Sample rate of the encoded artifact, in hertz: the fixed rate the
/// downstream recognition engine requires.
pub const TARGET_SAMPLE_RATE: u32 = 16000;

/// Fixed-point scale: this integer sample value stands for a full-scale
/// amplitude of `1.0` (the largest positive signed 16-bit value).
pub const SAMPLE_UNIT: i64 = 32767;

/// Largest magnitude a stored sample may have. Hardware frames are nominally
/// within one unit of full scale, but resampler overshoot may exceed it; the
/// bound only has to keep channel sums inside `i64` (at most 65 535 channels
/// of `2^47` each stays below `2^63`).
pub const SAMPLE_ABS_MAX: i64 = 0x8000_0000_0000;

/// A recorded model file below this size is treated as a corrupt partial
/// download and fetched again.
pub const MIN_USABLE_MODEL_BYTES: u64 = 10_000_000;

/// Decides whether an already-present model file of `size` bytes can be
/// used, or must be downloaded afresh.
pub fn model_file_is_usable(size: u64) -> (r: bool)
    ensures
        r <==> size > MIN_USABLE_MODEL_BYTES,
{
    size > MIN_USABLE_MODEL_BYTES
}

} // verus!
