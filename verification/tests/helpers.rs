//! The pure helpers: addresses, bodies and frames.

use super_stt_backend_mistral::{
    build_multipart, encode_wav, is_stop, parse_base, parse_start, parse_transcript, ws_url,
};

/// Samples in -1.0..=1.0 as 16-bit samples, clamped.
fn quantised(samples: &[f32]) -> Vec<i16> {
    samples
        .iter()
        .map(|s| (s.clamp(-1.0, 1.0) * f32::from(i16::MAX)) as i16)
        .collect()
}

#[test]
fn encode_wav_header_and_clamping() {
    let wav = encode_wav(&quantised(&[0.0, 1.0, -1.0, 2.0, -2.0]), 16000);
    assert_eq!(&wav[0..4], b"RIFF");
    assert_eq!(&wav[8..12], b"WAVE");
    assert_eq!(&wav[36..40], b"data");
    // 44-byte header + 5 samples x 2 bytes.
    assert_eq!(wav.len(), 44 + 10);
    // sample_rate little-endian at offset 24.
    assert_eq!(&wav[24..28], &16000u32.to_le_bytes());
    // Out-of-range samples clamp to the largest magnitude.
    let s3 = i16::from_le_bytes([wav[44 + 6], wav[44 + 7]]); // 4th sample (2.0)
    let s4 = i16::from_le_bytes([wav[44 + 8], wav[44 + 9]]); // 5th sample (-2.0)
    assert_eq!(s3, i16::MAX);
    assert_eq!(s4, -i16::MAX);
}

#[test]
fn parse_base_scheme_and_authority() {
    assert_eq!(
        parse_base("https://api.mistral.ai"),
        (true, "api.mistral.ai".into())
    );
    assert_eq!(
        parse_base("http://localhost:8080/"),
        (false, "localhost:8080".into())
    );
    assert_eq!(
        parse_base("api.mistral.ai"),
        (true, "api.mistral.ai".into())
    );
}

#[test]
fn parse_transcript_happy_and_missing() {
    assert_eq!(parse_transcript(br#"{"text":"hi"}"#).unwrap(), "hi");
    assert!(parse_transcript(br#"{"other":"x"}"#).is_err());
    assert!(parse_transcript(b"not json").is_err());
}

#[test]
fn build_multipart_has_model_and_file_parts() {
    let body = build_multipart("BOUND", "voxtral-mini-latest", None, b"WAVDATA");
    let s = String::from_utf8_lossy(&body);
    assert!(s.starts_with("--BOUND\r\n"));
    assert!(s.contains("name=\"model\""));
    assert!(s.contains("voxtral-mini-latest"));
    assert!(s.contains("name=\"file\"; filename=\"audio.wav\""));
    assert!(s.contains("Content-Type: audio/wav"));
    assert!(s.contains("WAVDATA"));
    assert!(!s.contains("name=\"language\""));
    assert!(s.ends_with("--BOUND--\r\n"));
}

#[test]
fn build_multipart_includes_language_when_present() {
    let body = build_multipart("BOUND", "voxtral-mini-latest", Some("es"), b"WAVDATA");
    let s = String::from_utf8_lossy(&body);
    assert!(s.contains("name=\"language\""));
    assert!(s.contains("\r\n\r\nes\r\n"));
}

#[test]
fn ws_url_scheme_mapping() {
    assert_eq!(
        ws_url("https://api.mistral.ai", "m"),
        "wss://api.mistral.ai/v1/audio/transcriptions/realtime?model=m"
    );
    assert_eq!(
        ws_url("http://127.0.0.1:9/", "m"),
        "ws://127.0.0.1:9/v1/audio/transcriptions/realtime?model=m"
    );
    assert_eq!(
        ws_url("api.mistral.ai", "m"),
        "wss://api.mistral.ai/v1/audio/transcriptions/realtime?model=m"
    );
}

#[test]
fn parse_start_valid_default_and_invalid() {
    assert_eq!(
        parse_start(r#"{"type":"start","sample_rate":24000,"language":"fr"}"#).unwrap(),
        (24000, Some("fr".to_string()))
    );
    // Defaults sample_rate to 16000; language optional.
    assert_eq!(parse_start(r#"{"type":"start"}"#).unwrap(), (16000, None));
    assert!(parse_start(r#"{"type":"stop"}"#).is_err());
    assert!(parse_start("not json").is_err());
}

#[test]
fn is_stop_detects_stop_frames() {
    assert!(is_stop(r#"{"type":"stop"}"#));
    assert!(!is_stop(r#"{"type":"start"}"#));
    assert!(!is_stop("garbage"));
}
