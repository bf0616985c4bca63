//! Planning for block-based spectral resampling from the native rate to the
//! fixed target rate.
//!
//! The conversion itself transforms blocks of floating-point samples in the
//! frequency domain; floating point stays outside this library, so the
//! application owns the engine and drives it with the plan computed here:
//! how many full analysis blocks the input holds, how long the zero-padded
//! tail is, and how many output samples of the tail block to keep. Keeping
//! exactly `ceil(tail_len * ratio)` tail samples is what pins the total
//! output length to the rate ratio instead of letting block-boundary drift
//! accumulate.

use vstd::prelude::*;

use vstd::arithmetic::div_mod::{
    lemma_div_multiples_vanish_fancy, lemma_div_pos_is_pos, lemma_fundamental_div_mod,
    lemma_remainder_lower, lemma_remainder_upper,
};

use crate::controller::DrainedAudio;
use crate::errors::RecordError;
use crate::TARGET_SAMPLE_RATE;

verus! {

/// Length in frames of one analysis block handed to the spectral engine.
pub const RESAMPLE_CHUNK_SIZE: usize = 1024;

/// Number of sub-blocks the engine splits each analysis block into; fixed
/// to balance latency and quality, not visible to callers of the pipeline.
pub const RESAMPLE_SUB_CHUNKS: usize = 2;

/// How one captured buffer is fed to the block-based engine.
pub struct ResamplePlan {
    /// Number of whole analysis blocks the input holds.
    pub full_blocks: usize,
    /// Samples left after the last whole block; zero-padded up to one block
    /// before the final engine call. Zero when the input divides evenly,
    /// and then no final call is made.
    pub tail_len: usize,
    /// How many output samples of the padded tail block to keep:
    /// `ceil(tail_len * target_rate / native_rate)`, the analytically
    /// expected yield of the real tail samples; everything past it is a
    /// padding artifact and is discarded.
    pub expected_tail_out: usize,
}

/// The tail retention count: `ceil(tail_len * TARGET_SAMPLE_RATE / native)`.
pub open spec fn spec_expected_tail_out(tail_len: int, native_rate: int) -> int {
    (tail_len * TARGET_SAMPLE_RATE + native_rate - 1) / native_rate
}

/// Computes how a mono buffer of `input_len` samples at `native_rate` is
/// split into analysis blocks, and how much of the padded tail block's
/// output the expected rate ratio justifies keeping.
pub fn resample_plan(input_len: usize, native_rate: u32) -> (p: ResamplePlan)
    requires
        native_rate >= 1,
    ensures
        p.full_blocks == input_len as int / RESAMPLE_CHUNK_SIZE as int,
        p.tail_len == input_len as int % RESAMPLE_CHUNK_SIZE as int,
        p.tail_len < RESAMPLE_CHUNK_SIZE,
        p.full_blocks * RESAMPLE_CHUNK_SIZE + p.tail_len == input_len,
        p.expected_tail_out == spec_expected_tail_out(p.tail_len as int, native_rate as int),
        p.tail_len == 0 ==> p.expected_tail_out == 0,
{
    let full_blocks: usize = input_len / RESAMPLE_CHUNK_SIZE;
    let tail_len: usize = input_len % RESAMPLE_CHUNK_SIZE;
    proof {
        lemma_fundamental_div_mod(input_len as int, RESAMPLE_CHUNK_SIZE as int);
        lemma_remainder_upper(input_len as int, RESAMPLE_CHUNK_SIZE as int);
        lemma_remainder_lower(input_len as int, RESAMPLE_CHUNK_SIZE as int);
        lemma_div_pos_is_pos(input_len as int, RESAMPLE_CHUNK_SIZE as int);
    }
    let numer: u64 = tail_len as u64 * TARGET_SAMPLE_RATE as u64 + native_rate as u64 - 1;
    let expected_tail_out: usize = (numer / native_rate as u64) as usize;
    proof {
        if tail_len == 0 {
            assert((native_rate - 1) as int / native_rate as int == 0) by {
                lemma_div_multiples_vanish_fancy(0, native_rate as int - 1, native_rate as int);
            }
        }
        assert(expected_tail_out as int == spec_expected_tail_out(
            tail_len as int,
            native_rate as int,
        )) by {
            let t16 = tail_len as int * TARGET_SAMPLE_RATE as int;
            let nr = native_rate as int;
            lemma_div_pos_is_pos(numer as int, nr);
            if t16 > 0 {
                assert(numer as int <= nr * t16 + (nr - 1)) by (nonlinear_arith)
                    requires
                        t16 >= 1,
                        nr >= 1,
                        numer as int == t16 + nr - 1,
                ;
                vstd::arithmetic::div_mod::lemma_div_is_ordered(
                    numer as int,
                    nr * t16 + (nr - 1),
                    nr,
                );
                lemma_div_multiples_vanish_fancy(t16, nr - 1, nr);
                assert(numer as int / nr <= t16);
            }
        }
    }
    ResamplePlan { full_blocks, tail_len, expected_tail_out }
}

/// The kept tail output tracks the rate ratio exactly: `expected_tail_out`
/// is the least count whose time span at the target rate covers the tail's
/// span at the native rate, so the tail contributes no drift beyond one
/// output sample.
pub proof fn lemma_tail_tracks_ratio(tail_len: int, native_rate: int)
    requires
        0 <= tail_len,
        1 <= native_rate,
    ensures
        spec_expected_tail_out(tail_len, native_rate) * native_rate >= tail_len
            * TARGET_SAMPLE_RATE,
        spec_expected_tail_out(tail_len, native_rate) * native_rate < tail_len * TARGET_SAMPLE_RATE
            + native_rate,
{
    let n = tail_len * TARGET_SAMPLE_RATE;
    let e = spec_expected_tail_out(tail_len, native_rate);
    lemma_fundamental_div_mod(n + native_rate - 1, native_rate);
    lemma_remainder_upper(n + native_rate - 1, native_rate);
    lemma_remainder_lower(n + native_rate - 1, native_rate);
    assert(native_rate * e == n + native_rate - 1 - ((n + native_rate - 1) % native_rate));
    assert(e * native_rate == native_rate * e) by (nonlinear_arith);
}


/// How drained audio reaches the encoder.
pub enum Prepared {
    /// The native rate already is the target rate: the samples go to the
    /// encoder exactly as drained, bit for bit, and no conversion runs.
    Direct {
        /// The drained mono samples, unchanged.
        mono: Vec<i64>,
    },
    /// The rate differs: the engine converts the samples per this plan
    /// before encoding.
    Resample {
        /// The drained mono samples, unchanged, to be fed to the engine.
        mono: Vec<i64>,
        /// How to feed them: whole blocks, then the padded tail.
        plan: ResamplePlan,
    },
}

/// Decides whether drained audio needs rate conversion. Equal rates skip
/// the conversion entirely; a native rate of zero can never have produced a
/// valid session and is rejected as a resampler construction failure, as
/// constructing the engine for it would fail.
pub fn prepare_for_encode(d: DrainedAudio) -> (r: Result<Prepared, RecordError>)
    ensures
        d.native_rate == TARGET_SAMPLE_RATE ==> (r matches Ok(Prepared::Direct { mono })
            && mono@ == d.mono@),
        d.native_rate != TARGET_SAMPLE_RATE && d.native_rate >= 1 ==> (r matches Ok(
            Prepared::Resample { mono, plan },
        ) && mono@ == d.mono@ && plan.full_blocks == d.mono@.len() as int
            / RESAMPLE_CHUNK_SIZE as int && plan.tail_len == d.mono@.len() as int
            % RESAMPLE_CHUNK_SIZE as int && plan.expected_tail_out == spec_expected_tail_out(
            plan.tail_len as int,
            d.native_rate as int,
        )),
        d.native_rate == 0 ==> r == Result::<Prepared, RecordError>::Err(
            RecordError::ResamplerConstructionFailure,
        ),
{
    if d.native_rate == TARGET_SAMPLE_RATE {
        return Ok(Prepared::Direct { mono: d.mono });
    }
    if d.native_rate == 0 {
        return Err(RecordError::ResamplerConstructionFailure);
    }
    let plan = resample_plan(d.mono.len(), d.native_rate);
    Ok(Prepared::Resample { mono: d.mono, plan })
}


/// Drift law for the assembled output length. The engine converts whole
/// blocks at a fixed integer ratio, so its combined yield for the whole
/// blocks stays within one analysis block of the exact rate ratio; granted
/// that, the assembled total — that yield plus the planned tail retention —
/// stays within one analysis block of the exact ratio for the whole input:
/// the tail handling adds no drift of its own, however long the recording.
pub proof fn lemma_assembled_length_drift(full_out: int, input_len: int, native_rate: int)
    requires
        1 <= native_rate,
        0 <= input_len,
        full_out * native_rate <= (input_len / RESAMPLE_CHUNK_SIZE as int
            * RESAMPLE_CHUNK_SIZE as int) * TARGET_SAMPLE_RATE,
        full_out * native_rate >= (input_len / RESAMPLE_CHUNK_SIZE as int
            * RESAMPLE_CHUNK_SIZE as int) * TARGET_SAMPLE_RATE - (RESAMPLE_CHUNK_SIZE - 1)
            * native_rate,
    ensures
        (full_out + spec_expected_tail_out(input_len % RESAMPLE_CHUNK_SIZE as int, native_rate))
            * native_rate >= input_len * TARGET_SAMPLE_RATE - (RESAMPLE_CHUNK_SIZE - 1)
            * native_rate,
        (full_out + spec_expected_tail_out(input_len % RESAMPLE_CHUNK_SIZE as int, native_rate))
            * native_rate < input_len * TARGET_SAMPLE_RATE + RESAMPLE_CHUNK_SIZE * native_rate,
{
    let ch = RESAMPLE_CHUNK_SIZE as int;
    let fi = input_len / ch * ch;
    let t = input_len % ch;
    lemma_fundamental_div_mod(input_len, ch);
    lemma_remainder_lower(input_len, ch);
    lemma_remainder_upper(input_len, ch);
    assert(fi + t == input_len);
    let e = spec_expected_tail_out(t, native_rate);
    lemma_tail_tracks_ratio(t, native_rate);
    assert((full_out + e) * native_rate == full_out * native_rate + e * native_rate)
        by (nonlinear_arith);
    assert((fi + t) * TARGET_SAMPLE_RATE == fi * TARGET_SAMPLE_RATE + t * TARGET_SAMPLE_RATE);
}

} // verus!


