//! Tests of the downmix arithmetic and the WAV artifact codec, with the
//! artifact bytes cross-checked against an independent WAV reader.

use std::io::Cursor;

use voicecap::downmix::downmix;
use voicecap::wav::{decode_wav, encode_wav, quantize, MAX_WAV_SAMPLES, WAV_HEADER_LEN};

#[test]
fn downmix_one_channel_is_identity() {
    let samples: Vec<i64> = vec![0, 1, -1, 32767, -32767, 1234, -999];
    let mono = downmix(&samples, 1);
    assert_eq!(mono, samples);
}

#[test]
fn downmix_constant_channels_yield_constant() {
    // Three channels of the same value, with a trailing partial frame.
    let v: i64 = -12345;
    let samples: Vec<i64> = vec![v; 3 * 100 + 2];
    let mono = downmix(&samples, 3);
    assert_eq!(mono.len(), 101);
    for &s in mono.iter() {
        assert_eq!(s, v);
    }
}

#[test]
fn downmix_alternating_stereo_cancels() {
    let mut samples: Vec<i64> = Vec::new();
    for _ in 0..1000 {
        samples.push(32767);
        samples.push(-32767);
    }
    let mono = downmix(&samples, 2);
    assert_eq!(mono.len(), 1000);
    for &s in mono.iter() {
        assert_eq!(s, 0);
    }
}

#[test]
fn downmix_averages_mixed_frame() {
    let samples: Vec<i64> = vec![10, 20, 31];
    let mono = downmix(&samples, 3);
    // (10 + 20 + 31) / 3 truncates toward zero.
    assert_eq!(mono, vec![20]);
    let negative: Vec<i64> = vec![-10, -20, -31];
    assert_eq!(downmix(&negative, 3), vec![-20]);
}

#[test]
fn quantize_clamps_to_full_scale() {
    assert_eq!(quantize(0), 0);
    assert_eq!(quantize(32767), 32767);
    assert_eq!(quantize(32768), 32767);
    assert_eq!(quantize(-32767), -32767);
    assert_eq!(quantize(-32768), -32767);
    assert_eq!(quantize(1 << 40), 32767);
    assert_eq!(quantize(-(1 << 40)), -32767);
}

#[test]
fn wav_header_bytes_are_canonical() {
    let samples: Vec<i64> = vec![0; 3];
    let bytes = encode_wav(&samples, 16000);
    assert_eq!(bytes.len(), WAV_HEADER_LEN + 6);
    assert_eq!(&bytes[0..4], b"RIFF");
    assert_eq!(u32::from_le_bytes([bytes[4], bytes[5], bytes[6], bytes[7]]), 36 + 6);
    assert_eq!(&bytes[8..12], b"WAVE");
    assert_eq!(&bytes[12..16], b"fmt ");
    assert_eq!(u32::from_le_bytes([bytes[16], bytes[17], bytes[18], bytes[19]]), 16);
    assert_eq!(u16::from_le_bytes([bytes[20], bytes[21]]), 1);
    assert_eq!(u16::from_le_bytes([bytes[22], bytes[23]]), 1);
    assert_eq!(u32::from_le_bytes([bytes[24], bytes[25], bytes[26], bytes[27]]), 16000);
    assert_eq!(u32::from_le_bytes([bytes[28], bytes[29], bytes[30], bytes[31]]), 32000);
    assert_eq!(u16::from_le_bytes([bytes[32], bytes[33]]), 2);
    assert_eq!(u16::from_le_bytes([bytes[34], bytes[35]]), 16);
    assert_eq!(&bytes[36..40], b"data");
    assert_eq!(u32::from_le_bytes([bytes[40], bytes[41], bytes[42], bytes[43]]), 6);
}

#[test]
fn wav_round_trip_recovers_quantized_samples() {
    let samples: Vec<i64> = vec![0, 1, -1, 32767, -32767, 40000, -40000, 16384, -2];
    let bytes = encode_wav(&samples, 16000);
    let decoded = decode_wav(&bytes).unwrap();
    assert_eq!(decoded.sample_rate, 16000);
    let expected: Vec<i64> = samples.iter().map(|&v| quantize(v)).collect();
    assert_eq!(decoded.samples, expected);
}

#[test]
fn wav_decoder_rejects_malformed_images() {
    assert!(decode_wav(&vec![]).is_none());
    assert!(decode_wav(&vec![0u8; 43]).is_none());

    let good = encode_wav(&vec![1, 2, 3], 16000);
    assert!(decode_wav(&good).is_some());

    // A wrong tag byte.
    let mut bad = good.clone();
    bad[0] = b'X';
    assert!(decode_wav(&bad).is_none());

    // A truncated data area: sizes no longer agree with the length.
    let mut short = good.clone();
    short.pop();
    short.pop();
    assert!(decode_wav(&short).is_none());

    // A stereo declaration is not an artifact of this pipeline.
    let mut stereo = good.clone();
    stereo[22] = 2;
    assert!(decode_wav(&stereo).is_none());
}

#[test]
fn wav_artifact_reads_back_with_independent_reader() {
    let samples: Vec<i64> = vec![0, 12345, -12345, 32767, -32767, 100, -1];
    let bytes = encode_wav(&samples, 16000);
    let mut reader = hound::WavReader::new(Cursor::new(bytes)).unwrap();
    let spec = reader.spec();
    assert_eq!(spec.channels, 1);
    assert_eq!(spec.sample_rate, 16000);
    assert_eq!(spec.bits_per_sample, 16);
    assert_eq!(spec.sample_format, hound::SampleFormat::Int);
    let read: Vec<i64> = reader
        .samples::<i16>()
        .map(|s| s.unwrap() as i64)
        .collect();
    assert_eq!(read, samples);
}

#[test]
fn wav_encoder_matches_independent_writer() {
    let samples: Vec<i64> = vec![7, -7, 32767, -32767, 0];
    let ours = encode_wav(&samples, 16000);

    let spec = hound::WavSpec {
        channels: 1,
        sample_rate: 16000,
        bits_per_sample: 16,
        sample_format: hound::SampleFormat::Int,
    };
    let mut cursor = Cursor::new(Vec::new());
    {
        let mut writer = hound::WavWriter::new(&mut cursor, spec).unwrap();
        for &s in samples.iter() {
            writer.write_sample(s as i16).unwrap();
        }
        writer.finalize().unwrap();
    }
    assert_eq!(ours, cursor.into_inner());
}

#[test]
fn max_sample_count_keeps_sizes_in_range() {
    // The size fields are 32 bits: the largest admissible count must still
    // give a data size and a RIFF size below their limit.
    let data: u64 = 2 * MAX_WAV_SAMPLES as u64;
    assert!(data + 36 <= u32::MAX as u64);
}
