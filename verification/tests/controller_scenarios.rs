//! Scenario tests driving the recording state machine end to end.

use voicecap::controller::{DeviceProbe, Recorder};
use voicecap::errors::RecordError;
use voicecap::resample::{prepare_for_encode, Prepared};
use voicecap::wav::{decode_wav, encode_wav};
use voicecap::TARGET_SAMPLE_RATE;

/// Converts a floating-point sample in [-1.0, 1.0] to the library's
/// fixed-point representation, as the capture boundary does.
fn to_fixed(x: f32) -> i64 {
    (x.clamp(-1.0, 1.0) * 32767.0).round() as i64
}

#[test]
fn stop_on_idle_fails_not_recording() {
    let mut rec = Recorder::new();
    assert_eq!(rec.stop().unwrap_err(), RecordError::NotRecording);
    // Stopping again gives the same failure: the machine stayed idle.
    assert_eq!(rec.stop().unwrap_err(), RecordError::NotRecording);
    assert!(!rec.recording);
}

#[test]
fn second_start_fails_already_recording() {
    let mut rec = Recorder::new();
    rec.start(DeviceProbe::Ready { rate: 48000, channels: 2 }).unwrap();
    let frame: Vec<i64> = vec![100, 200, 300, 400];
    rec.append_frames(&frame);

    let second = rec.start(DeviceProbe::Ready { rate: 44100, channels: 1 });
    assert_eq!(second.unwrap_err(), RecordError::AlreadyRecording);

    // The first session continues unaffected: still recording, same format,
    // samples intact and still accepting frames.
    assert!(rec.recording);
    assert_eq!(rec.session.native_sample_rate, 48000);
    assert_eq!(rec.session.native_channels, 2);
    assert_eq!(rec.session.samples, vec![100, 200, 300, 400]);
    rec.append_frames(&frame);
    assert_eq!(rec.session.samples.len(), 8);
}

#[test]
fn start_without_device_fails() {
    let mut rec = Recorder::new();
    assert_eq!(
        rec.start(DeviceProbe::Missing).unwrap_err(),
        RecordError::NoInputDevice
    );
    assert_eq!(
        rec.start(DeviceProbe::ConfigUnavailable).unwrap_err(),
        RecordError::DeviceConfigError
    );
    assert!(!rec.recording);
}

#[test]
fn stop_with_no_frames_fails_no_audio_captured() {
    let mut rec = Recorder::new();
    rec.start(DeviceProbe::Ready { rate: 16000, channels: 1 }).unwrap();
    assert_eq!(rec.stop().unwrap_err(), RecordError::NoAudioCaptured);
    // The failed stop still left the machine idle, so a new start works.
    rec.start(DeviceProbe::Ready { rate: 16000, channels: 1 }).unwrap();
    assert!(rec.recording);
}

#[test]
fn half_scale_mono_recording_round_trips() {
    let mut rec = Recorder::new();
    rec.start(DeviceProbe::Ready { rate: 16000, channels: 1 }).unwrap();

    let value: i64 = to_fixed(0.5);
    let frame: Vec<i64> = vec![value; 16000];
    rec.append_frames(&frame);

    let drained = rec.stop().unwrap();
    assert_eq!(drained.native_rate, 16000);
    assert_eq!(drained.mono.len(), 16000);
    assert!(!drained.needs_resample());

    let mono = match prepare_for_encode(drained).unwrap() {
        Prepared::Direct { mono } => mono,
        Prepared::Resample { .. } => panic!("equal rates must not resample"),
    };
    let bytes = encode_wav(&mono, TARGET_SAMPLE_RATE);
    let decoded = decode_wav(&bytes).unwrap();
    assert_eq!(decoded.sample_rate, 16000);
    assert_eq!(decoded.samples.len(), 16000);
    let expected: i64 = (0.5_f32 * 32767.0) as i64;
    for &s in decoded.samples.iter() {
        assert!((s - expected).abs() <= 1, "sample {s} not close to {expected}");
    }
}

#[test]
fn equal_rates_skip_resampling_bit_for_bit() {
    let mut rec = Recorder::new();
    rec.start(DeviceProbe::Ready { rate: TARGET_SAMPLE_RATE, channels: 1 }).unwrap();
    let frame: Vec<i64> = vec![7, -3, 32767, -32767, 0, 12345];
    rec.append_frames(&frame);
    let drained = rec.stop().unwrap();
    assert!(!drained.needs_resample());
    let kept = drained.mono.clone();
    match prepare_for_encode(drained).unwrap() {
        Prepared::Direct { mono } => assert_eq!(mono, kept),
        Prepared::Resample { .. } => panic!("equal rates must not resample"),
    }
    assert_eq!(kept, frame);
}

#[test]
fn capture_failure_returns_machine_to_idle() {
    let mut rec = Recorder::new();
    rec.start(DeviceProbe::Ready { rate: 48000, channels: 2 }).unwrap();
    // The capture thread reports that its own setup failed after start had
    // already returned.
    rec.mark_capture_stopped();
    assert!(!rec.recording);
    // A later start sees a clean idle state.
    rec.start(DeviceProbe::Ready { rate: 44100, channels: 1 }).unwrap();
    assert!(rec.recording);
    assert_eq!(rec.session.native_sample_rate, 44100);
}

#[test]
fn i16_frames_append_as_themselves() {
    let mut rec = Recorder::new();
    rec.start(DeviceProbe::Ready { rate: 16000, channels: 1 }).unwrap();
    let frame: Vec<i16> = vec![0, 1, -1, 32767, -32768];
    rec.append_i16_frames(&frame);
    assert_eq!(rec.session.samples, vec![0, 1, -1, 32767, -32768]);
}

#[test]
fn restart_clears_previous_session() {
    let mut rec = Recorder::new();
    rec.start(DeviceProbe::Ready { rate: 48000, channels: 2 }).unwrap();
    rec.append_frames(&vec![5, 5, 5, 5]);
    let _ = rec.stop().unwrap();
    rec.start(DeviceProbe::Ready { rate: 16000, channels: 1 }).unwrap();
    assert_eq!(rec.session.samples.len(), 0);
    assert_eq!(rec.session.native_sample_rate, 16000);
    assert_eq!(rec.session.native_channels, 1);
}
