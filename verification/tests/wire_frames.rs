use base64::Engine;
use eleventh_echo::wire::{
    audio_frame, encode_audio_frame, pcm16_to_le_bytes, AUDIO_FRAME_HEAD, AUDIO_FRAME_TAIL,
    END_STREAM_FRAME,
};

#[test]
fn samples_are_serialised_low_byte_first() {
    assert_eq!(pcm16_to_le_bytes(&[1, -2, 256]), vec![0x01, 0x00, 0xFE, 0xFF, 0x00, 0x01]);
    assert_eq!(pcm16_to_le_bytes(&[]), Vec::<u8>::new());
    assert_eq!(pcm16_to_le_bytes(&[i16::MAX, i16::MIN, -1, 0]), vec![
        0xFF, 0x7F, 0x00, 0x80, 0xFF, 0xFF, 0x00, 0x00
    ]);
}

#[test]
fn sample_bytes_agree_with_the_standard_library() {
    let samples: Vec<i16> = vec![-32768, -12345, -256, -255, -1, 0, 1, 255, 256, 12345, 32767];
    let expected: Vec<u8> = samples.iter().flat_map(|s| s.to_le_bytes().to_vec()).collect();
    assert_eq!(pcm16_to_le_bytes(&samples), expected);
}

#[test]
fn audio_frame_wraps_the_payload() {
    assert_eq!(audio_frame("AQD+"), "{\"type\":\"audio\",\"data\":\"AQD+\"}");
    assert_eq!(audio_frame(""), "{\"type\":\"audio\",\"data\":\"\"}");
    assert_eq!(AUDIO_FRAME_HEAD, "{\"type\":\"audio\",\"data\":\"");
    assert_eq!(AUDIO_FRAME_TAIL, "\"}");
}

#[test]
fn end_stream_frame_has_its_fixed_text() {
    assert_eq!(END_STREAM_FRAME, "{\"type\":\"end_stream\"}");
}

#[test]
fn audio_frame_carries_base64_of_the_sample_bytes() {
    assert_eq!(
        encode_audio_frame(&[1, -2, 256]),
        "{\"type\":\"audio\",\"data\":\"AQD+/wAB\"}"
    );
    assert_eq!(encode_audio_frame(&[0]), "{\"type\":\"audio\",\"data\":\"AAA=\"}");
    assert_eq!(encode_audio_frame(&[]), "{\"type\":\"audio\",\"data\":\"\"}");
}

#[test]
fn audio_frame_is_a_json_object_that_decodes_to_the_samples() {
    let samples: Vec<i16> = (0..1024).map(|k| (k * 37 - 15000) as i16).collect();
    let frame = encode_audio_frame(&samples);

    let parsed: serde_json::Value = serde_json::from_str(&frame).unwrap();
    let object = parsed.as_object().unwrap();
    assert_eq!(object.len(), 2);
    assert_eq!(parsed.get("type").and_then(|v| v.as_str()), Some("audio"));

    let payload = parsed.get("data").and_then(|v| v.as_str()).unwrap();
    let bytes = base64::engine::general_purpose::STANDARD.decode(payload).unwrap();
    let decoded: Vec<i16> =
        bytes.chunks(2).map(|pair| i16::from_le_bytes([pair[0], pair[1]])).collect();
    assert_eq!(decoded, samples);
}

#[test]
fn end_stream_frame_is_a_json_object_with_only_its_type() {
    let parsed: serde_json::Value = serde_json::from_str(END_STREAM_FRAME).unwrap();
    assert_eq!(parsed.as_object().unwrap().len(), 1);
    assert_eq!(parsed.get("type").and_then(|v| v.as_str()), Some("end_stream"));
}
