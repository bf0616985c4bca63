//! Tests of the resample plan, and of the whole rate-conversion stage run
//! against the real spectral engine exactly as the application drives it.

use rubato::{FftFixedIn, Resampler};

use voicecap::downmix::downmix;
use voicecap::resample::{
    prepare_for_encode, resample_plan, RESAMPLE_CHUNK_SIZE, RESAMPLE_SUB_CHUNKS,
};
use voicecap::TARGET_SAMPLE_RATE;

/// Runs the spectral engine over fixed-point mono samples per the plan, the
/// way the application's stop path does: whole blocks in order, then the
/// zero-padded tail, of whose output only the expected count is kept.
fn run_engine(mono: &[i64], native_rate: u32) -> Vec<i64> {
    let plan = resample_plan(mono.len(), native_rate);
    let mut resampler = FftFixedIn::<f64>::new(
        native_rate as usize,
        TARGET_SAMPLE_RATE as usize,
        RESAMPLE_CHUNK_SIZE,
        RESAMPLE_SUB_CHUNKS,
        1,
    )
    .unwrap();
    let frames_needed: usize = resampler.input_frames_next();
    assert_eq!(frames_needed, RESAMPLE_CHUNK_SIZE);

    let as_f64: Vec<f64> = mono.iter().map(|&s| s as f64).collect();
    let mut output: Vec<i64> = Vec::new();
    let mut pos: usize = 0;
    for _ in 0..plan.full_blocks {
        let chunk = &as_f64[pos..pos + frames_needed];
        let result = resampler.process(&[chunk], None).unwrap();
        if let Some(channel) = result.first() {
            output.extend(channel.iter().map(|&s| s.round() as i64));
        }
        pos += frames_needed;
    }
    if plan.tail_len > 0 {
        let mut padded = as_f64[pos..].to_vec();
        assert_eq!(padded.len(), plan.tail_len);
        padded.resize(frames_needed, 0.0);
        let result = resampler.process(&[&padded], None).unwrap();
        if let Some(channel) = result.first() {
            let take = plan.expected_tail_out.min(channel.len());
            output.extend(channel[..take].iter().map(|&s| s.round() as i64));
        }
    }
    output
}

#[test]
fn plan_splits_input_into_blocks_and_tail() {
    let p = resample_plan(48000, 48000);
    assert_eq!(p.full_blocks, 46);
    assert_eq!(p.tail_len, 48000 - 46 * 1024);
    // ceil(896 * 16000 / 48000) = ceil(896 / 3) = 299.
    assert_eq!(p.expected_tail_out, 299);

    let even = resample_plan(2048, 32000);
    assert_eq!(even.full_blocks, 2);
    assert_eq!(even.tail_len, 0);
    assert_eq!(even.expected_tail_out, 0);

    let tiny = resample_plan(5, 44100);
    assert_eq!(tiny.full_blocks, 0);
    assert_eq!(tiny.tail_len, 5);
    // ceil(5 * 16000 / 44100) = 2.
    assert_eq!(tiny.expected_tail_out, 2);
}

#[test]
fn alternating_stereo_downmixes_and_resamples_to_silence() {
    // 48 000 frames of (full scale, negative full scale) at 48 000 Hz.
    let mut interleaved: Vec<i64> = Vec::new();
    for _ in 0..48000 {
        interleaved.push(32767);
        interleaved.push(-32767);
    }
    let mono = downmix(&interleaved, 2);
    assert_eq!(mono.len(), 48000);
    assert!(mono.iter().all(|&s| s == 0));

    let out = run_engine(&mono, 48000);
    // About one second at the target rate, within one analysis block.
    let diff: i64 = out.len() as i64 - 16000;
    assert!(
        diff.abs() <= RESAMPLE_CHUNK_SIZE as i64,
        "length {} drifts from 16000",
        out.len()
    );
    for &s in out.iter() {
        assert!(s.abs() <= 1, "silence resampled to {s}");
    }
}

#[test]
fn resampled_length_tracks_ratio_for_many_lengths() {
    for &native in [44100u32, 48000, 32000, 22050].iter() {
        for &len in [0usize, 5, 1024, 3000, 10240, 12345].iter() {
            let mono: Vec<i64> = vec![100; len];
            let out = run_engine(&mono, native);
            let expected = (len as f64) * (TARGET_SAMPLE_RATE as f64) / (native as f64);
            let drift = (out.len() as f64 - expected).abs();
            assert!(
                drift <= RESAMPLE_CHUNK_SIZE as f64,
                "len {len} at {native} Hz gave {} samples, expected about {expected}",
                out.len()
            );
        }
    }
}

#[test]
fn constant_signal_resamples_to_constant_plateau() {
    // Half scale at 48 000 Hz for half a second.
    let mono: Vec<i64> = vec![16384; 24000];
    let out = run_engine(&mono, 48000);
    let diff: i64 = out.len() as i64 - 8000;
    assert!(diff.abs() <= RESAMPLE_CHUNK_SIZE as i64);
    // Away from the edge transients of the spectral blocks, the plateau
    // keeps the input value. This fails if the engine stage were to hand
    // its input back unchanged, since the length would then be 24000.
    for &s in out[2048..6000].iter() {
        assert!(
            (s - 16384).abs() <= 164,
            "plateau sample {s} strays from 16384"
        );
    }
}

#[test]
fn zero_native_rate_is_a_construction_failure() {
    let d = voicecap::controller::DrainedAudio { mono: vec![1, 2, 3], native_rate: 0 };
    let err = match prepare_for_encode(d) {
        Err(e) => e,
        Ok(_) => panic!("a zero rate cannot be prepared"),
    };
    assert_eq!(err, voicecap::errors::RecordError::ResamplerConstructionFailure);
}
