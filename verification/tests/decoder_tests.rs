use whisper::decoder::{decode, decode_canonical, parse_wav};
use whisper::engine::{engine_step, EngineEvent, EngineState};
use whisper::errors::TranscribeError;
use whisper::segments::{extract_segments, SegmentFetch};

fn wav_bytes_tagged(format_tag: u16, channels: u16, rate: u32, bits: u16, samples: &[i16]) -> Vec<u8> {
    let data_len = (samples.len() * 2) as u32;
    let mut v: Vec<u8> = Vec::new();
    v.extend_from_slice(b"RIFF");
    v.extend_from_slice(&(36u32 + data_len).to_le_bytes());
    v.extend_from_slice(b"WAVE");
    v.extend_from_slice(b"fmt ");
    v.extend_from_slice(&16u32.to_le_bytes());
    v.extend_from_slice(&format_tag.to_le_bytes());
    v.extend_from_slice(&channels.to_le_bytes());
    v.extend_from_slice(&rate.to_le_bytes());
    let byte_rate = rate * channels as u32 * (bits as u32 / 8);
    v.extend_from_slice(&byte_rate.to_le_bytes());
    v.extend_from_slice(&(channels * (bits / 8)).to_le_bytes());
    v.extend_from_slice(&bits.to_le_bytes());
    v.extend_from_slice(b"data");
    v.extend_from_slice(&data_len.to_le_bytes());
    for s in samples {
        v.extend_from_slice(&s.to_le_bytes());
    }
    v
}

fn wav_bytes(channels: u16, rate: u32, samples: &[i16]) -> Vec<u8> {
    wav_bytes_tagged(1, channels, rate, 16, samples)
}

fn as_float(v: i32) -> f32 {
    v as f32 / 65536.0
}

#[test]
fn mono_silent_second_decodes_to_16000_zeros() {
    let samples = vec![0i16; 16000];
    let bytes = wav_bytes(1, 16000, &samples);
    match decode_canonical(&bytes) {
        Ok(buf) => {
            assert_eq!(buf.samples.len(), 16000);
            for v in &buf.samples {
                assert_eq!(*v, 0);
                assert_eq!(as_float(*v), 0.0);
            }
        }
        Err(_) => panic!("silent canonical audio must decode"),
    }
}

#[test]
fn stereo_left_max_right_zero_gives_half_max() {
    let mut samples: Vec<i16> = Vec::new();
    for _ in 0..16000 {
        samples.push(32767);
        samples.push(0);
    }
    let bytes = wav_bytes(2, 16000, &samples);
    match decode_canonical(&bytes) {
        Ok(buf) => {
            assert_eq!(buf.samples.len(), 16000);
            let expected = 0.5 * (32767.0f32 / 32768.0);
            for v in &buf.samples {
                assert_eq!(*v, 32767);
                assert_eq!(as_float(*v), expected);
            }
        }
        Err(_) => panic!("stereo canonical audio must decode"),
    }
}

#[test]
fn mono_scaling_is_sample_over_32768() {
    let samples: Vec<i16> = vec![-32768, -1, 0, 1, 32767, 12345, -20000];
    let bytes = wav_bytes(1, 16000, &samples);
    match decode_canonical(&bytes) {
        Ok(buf) => {
            assert_eq!(buf.samples.len(), samples.len());
            for (v, s) in buf.samples.iter().zip(samples.iter()) {
                assert_eq!(*v, 2 * (*s as i32));
                let f = as_float(*v);
                assert_eq!(f, *s as f32 / 32768.0);
                assert!((-1.0..=1.0).contains(&f));
            }
        }
        Err(_) => panic!("mono canonical audio must decode"),
    }
}

#[test]
fn stereo_downmix_averages_each_pair() {
    let pairs: Vec<(i16, i16)> = vec![(1000, 2000), (-500, 500), (32767, 32767), (-32768, -32768), (7, -8)];
    let mut samples: Vec<i16> = Vec::new();
    for (l, r) in &pairs {
        samples.push(*l);
        samples.push(*r);
    }
    let bytes = wav_bytes(2, 16000, &samples);
    match decode_canonical(&bytes) {
        Ok(buf) => {
            assert_eq!(buf.samples.len(), pairs.len());
            for (v, (l, r)) in buf.samples.iter().zip(pairs.iter()) {
                assert_eq!(*v, *l as i32 + *r as i32);
                let expected = 0.5 * (*l as f32 / 32768.0 + *r as f32 / 32768.0);
                assert_eq!(as_float(*v), expected);
            }
        }
        Err(_) => panic!("stereo canonical audio must decode"),
    }
}

#[test]
fn channel_and_rate_validation_is_an_iff() {
    let s = vec![0i16; 32];
    // accepted: 1 or 2 channels at exactly 16000 Hz
    assert!(decode_canonical(&wav_bytes(1, 16000, &s)).is_ok());
    assert!(decode_canonical(&wav_bytes(2, 16000, &s)).is_ok());
    // each condition is independently sufficient to fail
    for (ch, rate) in [(3u16, 16000u32), (0, 16000), (1, 8000), (1, 44100), (2, 22050), (3, 8000)] {
        match decode_canonical(&wav_bytes(ch, rate, &s)) {
            Err(e) => assert_eq!(e, TranscribeError::UnsupportedAudioFormat),
            Ok(_) => panic!("format {ch} ch {rate} Hz must be rejected"),
        }
    }
}

#[test]
fn eight_khz_must_be_resampled_before_decoding() {
    let s = vec![0i16; 8000];
    match decode_canonical(&wav_bytes(1, 8000, &s)) {
        Err(e) => assert_eq!(e, TranscribeError::UnsupportedAudioFormat),
        Ok(_) => panic!("8000 Hz audio must be rejected until resampled"),
    }
    // after resampling to 16000 Hz the decoder accepts it
    assert!(decode_canonical(&wav_bytes(1, 16000, &vec![0i16; 16000])).is_ok());
}

#[test]
fn corrupt_or_empty_bytes_are_rejected() {
    for bytes in [Vec::new(), b"RIFF".to_vec(), b"not audio at all".to_vec(), vec![0u8; 64]] {
        match decode_canonical(&bytes) {
            Err(e) => assert_eq!(e, TranscribeError::UnsupportedAudioFormat),
            Ok(_) => panic!("malformed bytes must be rejected"),
        }
    }
}

#[test]
fn non_pcm_or_non_16_bit_is_rejected() {
    let s = vec![0i16; 16];
    // IEEE-float format tag
    match decode_canonical(&wav_bytes_tagged(3, 1, 16000, 16, &s)) {
        Err(e) => assert_eq!(e, TranscribeError::UnsupportedAudioFormat),
        Ok(_) => panic!("float wav must be rejected"),
    }
    // 8-bit samples
    match decode_canonical(&wav_bytes_tagged(1, 1, 16000, 8, &s)) {
        Err(e) => assert_eq!(e, TranscribeError::UnsupportedAudioFormat),
        Ok(_) => panic!("8-bit wav must be rejected"),
    }
}

#[test]
fn extra_chunks_before_data_are_skipped() {
    let samples: Vec<i16> = vec![5, -6, 7];
    let tail = wav_bytes(1, 16000, &samples);
    // rebuild with a LIST chunk between fmt and data
    let mut v: Vec<u8> = Vec::new();
    v.extend_from_slice(&tail[..36]);
    v.extend_from_slice(b"LIST");
    v.extend_from_slice(&6u32.to_le_bytes());
    v.extend_from_slice(b"INFOxx");
    v.extend_from_slice(&tail[36..]);
    match parse_wav(&v) {
        Ok(w) => {
            assert_eq!(w.channels, 1);
            assert_eq!(w.sample_rate, 16000);
            assert_eq!(w.samples, samples);
        }
        Err(_) => panic!("wav with a LIST chunk must parse"),
    }
}

#[test]
fn parse_then_decode_matches_decode_canonical() {
    let samples: Vec<i16> = vec![1, 2, 3, 4];
    let bytes = wav_bytes(2, 16000, &samples);
    let w = match parse_wav(&bytes) {
        Ok(w) => w,
        Err(_) => panic!("must parse"),
    };
    assert_eq!(w.channels, 2);
    assert_eq!(w.sample_rate, 16000);
    assert_eq!(w.samples, samples);
    match decode(&w) {
        Ok(buf) => assert_eq!(buf.samples, vec![3, 7]),
        Err(_) => panic!("must decode"),
    }
}

#[test]
fn silent_second_with_zero_segments_gives_an_empty_transcript() {
    // one second of silent canonical audio decodes to 16000 zero samples
    let bytes = wav_bytes(1, 16000, &vec![0i16; 16000]);
    let buf = match decode_canonical(&bytes) {
        Ok(buf) => buf,
        Err(_) => panic!("silent canonical audio must decode"),
    };
    assert_eq!(buf.samples.len(), 16000);
    assert!(buf.samples.iter().all(|v| *v == 0));
    // a deterministic engine reporting 0 segments completes the lifecycle
    let mut st = EngineState::LoadContext;
    st = engine_step(st, EngineEvent::ContextLoaded);
    st = engine_step(st, EngineEvent::SessionCreated);
    st = engine_step(st, EngineEvent::RunCompleted);
    st = engine_step(st, EngineEvent::SegmentCount(0));
    assert_eq!(st, EngineState::Collect(0));
    // zero segments means zero fetches, and an empty transcript
    let fetches: Vec<SegmentFetch> = Vec::new();
    assert!(extract_segments(&fetches).is_empty());
}

#[test]
fn hound_written_wav_parses_identically() {
    let spec = hound::WavSpec {
        channels: 2,
        sample_rate: 16000,
        bits_per_sample: 16,
        sample_format: hound::SampleFormat::Int,
    };
    let samples: Vec<i16> = vec![100, -100, 2000, -32768, 32767, 0];
    let mut cursor = std::io::Cursor::new(Vec::new());
    {
        let mut writer = hound::WavWriter::new(&mut cursor, spec).expect("writer");
        for s in &samples {
            writer.write_sample(*s).expect("write");
        }
        writer.finalize().expect("finalize");
    }
    let bytes = cursor.into_inner();
    match parse_wav(&bytes) {
        Ok(w) => {
            assert_eq!(w.channels, 2);
            assert_eq!(w.sample_rate, 16000);
            assert_eq!(w.samples, samples);
        }
        Err(_) => panic!("wav produced by a reference encoder must parse"),
    }
}
