//! Text, bytes, headers and frames on concrete values.

use super_stt_backend_mistral::bytes::{flush_pieces, FLUSH_LIMIT};
use super_stt_backend_mistral::frames::{event_type, start_frame, transcript_field};
use super_stt_backend_mistral::headers::settings;
use super_stt_backend_mistral::session::{INPUT_AUDIO_END, INPUT_AUDIO_FLUSH};
use super_stt_backend_mistral::text::{
    before_query, decimal_text, equals_ignoring_case, same_text, strip_prefix, trim,
    trim_end_slashes, white_space,
};
use super_stt_backend_mistral::{
    audio_append_json, build_multipart, done_json, encode_wav, error_json, header, is_stop,
    parse_base, parse_start, parse_transcript, preview_json, ws_url,
};

fn entry(name: &str, value: &[u8]) -> (String, Vec<u8>) {
    (name.to_string(), value.to_vec())
}

#[test]
fn white_space_is_that_of_the_standard_library() {
    for n in 0..=0x0010_ffff_u32 {
        if let Some(c) = char::from_u32(n) {
            assert_eq!(white_space(c), c.is_whitespace(), "{n:x}");
        }
    }
}

#[test]
fn trimming_takes_white_space_off_both_ends() {
    for s in [
        "",
        "  ",
        "a",
        " a b\t",
        "\u{3000}x\u{a0}",
        "\r\n y",
        "\u{200b}z",
    ] {
        assert_eq!(trim(s), s.trim());
    }
}

#[test]
fn text_helpers_on_edge_cases() {
    assert_eq!(trim_end_slashes("///"), "");
    assert_eq!(trim_end_slashes("/a//"), "/a");
    assert_eq!(strip_prefix("http://x", "http://"), Some("x"));
    assert_eq!(strip_prefix("http:/", "http://"), None);
    assert_eq!(strip_prefix("\u{e9}tat", "\u{e9}"), Some("tat"));
    assert_eq!(before_query("/a?b?c"), "/a");
    assert_eq!(before_query("/a"), "/a");
    assert_eq!(before_query("?"), "");
    assert!(same_text("\u{e9}", "\u{e9}"));
    assert!(!same_text("a", "ab"));
    assert!(equals_ignoring_case("X-Stt-Model", "x-sTT-mODEL"));
    assert!(!equals_ignoring_case("\u{c9}", "\u{e9}"));
    assert!(!equals_ignoring_case("a", "aa"));
    assert_eq!(decimal_text(0), "0");
    assert_eq!(decimal_text(503), "503");
    assert_eq!(decimal_text(65535), "65535");
}

#[test]
fn header_finds_the_first_match_whatever_the_case() {
    let entries = [
        entry("Other", b"x"),
        entry("X-STT-Model", b"first"),
        entry("x-stt-model", b"second"),
    ];
    assert_eq!(header(&entries, "x-stt-model"), Some("first".to_string()));
    assert_eq!(header(&entries, "X-STT-MODEL"), Some("first".to_string()));
    assert_eq!(header(&entries, "missing"), None);
    assert_eq!(header(&[], "x-stt-model"), None);
}

#[test]
fn header_values_are_decoded_lossily() {
    let entries = [
        entry("good", "caf\u{e9}".as_bytes()),
        entry("bad", b"a\xffb"),
    ];
    assert_eq!(header(&entries, "good"), Some("caf\u{e9}".to_string()));
    assert_eq!(header(&entries, "bad"), Some("a\u{fffd}b".to_string()));
}

#[test]
fn settings_need_a_key_and_have_defaults() {
    assert!(settings(&[entry("x-stt-model", b"m")]).is_none());
    let s = settings(&[entry("X-STT-Secret-Mistral_API_Key", b"k")]).unwrap();
    assert_eq!(s.api_key, "k");
    assert_eq!(s.base_url, "https://api.mistral.ai");
    assert_eq!(s.model, None);
    let s = settings(&[
        entry("x-stt-secret-mistral_api_key", b"k"),
        entry("x-stt-option-base_url", b"http://h"),
        entry("x-stt-model", b"m"),
    ])
    .unwrap();
    assert_eq!(s.base_url, "http://h");
    assert_eq!(s.model, Some("m".to_string()));
}

#[test]
fn base_urls_with_and_without_slashes_and_schemes() {
    assert_eq!(parse_base("h"), parse_base("https://h"));
    assert_eq!(parse_base("h/"), parse_base("h"));
    assert_eq!(parse_base("http://h///"), (false, "h".to_string()));
    assert_eq!(parse_base("https://"), (true, String::new()));
    assert_eq!(parse_base(""), (true, String::new()));
    // A scheme short of a slash is a host; the slash makes it a scheme.
    assert_eq!(parse_base("http:/"), (true, "http:".to_string()));
    assert_eq!(parse_base("http://"), (false, String::new()));
    assert_eq!(
        ws_url("http://h:1", "a b"),
        "ws://h:1/v1/audio/transcriptions/realtime?model=a b"
    );
}

#[test]
fn wav_is_exact() {
    let wav = encode_wav(&[1, -1, i16::MIN], 8000);
    let mut want = b"RIFF".to_vec();
    want.extend_from_slice(&42u32.to_le_bytes());
    want.extend_from_slice(b"WAVEfmt ");
    want.extend_from_slice(&16u32.to_le_bytes());
    want.extend_from_slice(&1u16.to_le_bytes());
    want.extend_from_slice(&1u16.to_le_bytes());
    want.extend_from_slice(&8000u32.to_le_bytes());
    want.extend_from_slice(&16000u32.to_le_bytes());
    want.extend_from_slice(&2u16.to_le_bytes());
    want.extend_from_slice(&16u16.to_le_bytes());
    want.extend_from_slice(b"data");
    want.extend_from_slice(&6u32.to_le_bytes());
    want.extend_from_slice(&[1, 0, 0xff, 0xff, 0, 0x80]);
    assert_eq!(wav, want);
}

#[test]
fn wav_byte_rate_keeps_its_low_bits() {
    let wav = encode_wav(&[], u32::MAX);
    assert_eq!(&wav[24..28], &u32::MAX.to_le_bytes());
    assert_eq!(&wav[28..32], &(u32::MAX - 1).to_le_bytes());
    assert_eq!(wav.len(), 44);
}

#[test]
fn multipart_is_exact() {
    let body = build_multipart("B", "m", Some("fr"), b"\xffW\r\n");
    let mut want = b"--B\r\nContent-Disposition: form-data; name=\"model\"\r\n\r\nm\r\n".to_vec();
    want.extend_from_slice(
        b"--B\r\nContent-Disposition: form-data; name=\"language\"\r\n\r\nfr\r\n",
    );
    want.extend_from_slice(
        b"--B\r\nContent-Disposition: form-data; name=\"file\"; filename=\"audio.wav\"\r\n",
    );
    want.extend_from_slice(b"Content-Type: audio/wav\r\n\r\n\xffW\r\n\r\n--B--\r\n");
    assert_eq!(body, want);
}

#[test]
fn pieces_make_up_the_data_within_the_limit() {
    for n in [0, 1, FLUSH_LIMIT - 1, FLUSH_LIMIT, FLUSH_LIMIT + 1, 3 * FLUSH_LIMIT] {
        let data: Vec<u8> = (0..n).map(|i| (i % 251) as u8).collect();
        let pieces = flush_pieces(&data);
        let want: Vec<Vec<u8>> = data.chunks(FLUSH_LIMIT).map(<[u8]>::to_vec).collect();
        assert_eq!(pieces, want);
        assert_eq!(pieces.concat(), data);
    }
}

#[test]
fn audio_frames_carry_base64() {
    assert_eq!(
        audio_append_json(b"hello"),
        r#"{"audio":"aGVsbG8=","type":"input_audio.append"}"#
    );
    assert_eq!(
        audio_append_json(b"hell"),
        r#"{"audio":"aGVsbA==","type":"input_audio.append"}"#
    );
    assert_eq!(
        audio_append_json(&[0xfb, 0xff, 0xbf]),
        r#"{"audio":"+/+/","type":"input_audio.append"}"#
    );
    assert_eq!(
        audio_append_json(&[]),
        r#"{"audio":"","type":"input_audio.append"}"#
    );
}

#[test]
fn consumer_frames_are_exact() {
    assert_eq!(preview_json("hi"), r#"{"text":"hi","type":"preview"}"#);
    assert_eq!(done_json("hi"), r#"{"transcription":"hi","type":"done"}"#);
    assert_eq!(error_json("no"), r#"{"message":"no","type":"error"}"#);
}

#[test]
fn frames_escape_and_read_back() {
    assert_eq!(
        done_json("\"\\\u{8}\t\n\u{c}\r\u{1}\u{1f}\u{7f}/\u{2192}"),
        "{\"transcription\":\"\\\"\\\\\\b\\t\\n\\f\\r\\u0001\\u001f\u{7f}/\u{2192}\",\"type\":\"done\"}"
    );
    for text in ["", "a\"b\\c", "\u{0}\n\u{10ffff}", "{}"] {
        let v: serde_json::Value = serde_json::from_str(&preview_json(text)).unwrap();
        assert_eq!(v["type"], "preview");
        assert_eq!(v["text"], text);
    }
}

#[test]
fn flush_and_end_are_events() {
    assert_eq!(
        event_type(INPUT_AUDIO_FLUSH),
        Some("input_audio.flush".to_string())
    );
    assert_eq!(
        event_type(INPUT_AUDIO_END),
        Some("input_audio.end".to_string())
    );
    assert_eq!(event_type(r#"{"type":1}"#), None);
    assert_eq!(event_type("["), None);
}

#[test]
fn start_frames_with_odd_fields() {
    // A rate that does not fit in 32 bits, is negative or is no number.
    for rate in ["4294967296", "-1", "1.5", "\"8000\"", "null"] {
        let s = format!("{{\"type\":\"start\",\"sample_rate\":{rate},\"language\":7}}");
        assert_eq!(parse_start(&s), Ok((16000, None)));
    }
    assert_eq!(
        parse_start(r#"{"type":"start","sample_rate":4294967295}"#),
        Ok((u32::MAX, None))
    );
    assert_eq!(parse_start("[]"), Err("invalid start frame".to_string()));
    assert_eq!(parse_start("{"), Err("invalid start frame".to_string()));
    assert_eq!(
        start_frame(Some("start"), Some(8000), Some("de")),
        Ok((8000, Some("de".to_string())))
    );
    assert_eq!(
        start_frame(None, Some(8000), Some("de")),
        Err("invalid start frame".to_string())
    );
    assert!(!is_stop(r#"["stop"]"#));
    assert!(is_stop(r#" {"x":1,"type":"stop"} "#));
}

#[test]
fn transcripts_and_why_there_is_none() {
    assert_eq!(
        parse_transcript(br#"{"text":1}"#),
        Err("no_text_field".to_string())
    );
    assert_eq!(
        parse_transcript(b"{"),
        Err("parse: EOF while parsing an object at line 1 column 1".to_string())
    );
    assert_eq!(transcript_field(Some("t")), Ok("t".to_string()));
    assert_eq!(transcript_field(None), Err("no_text_field".to_string()));
}
