use hearit::synth::{decode_pcm, request_body, speech_url, SynthWait, SIDECAR_PORT, VOICE};

#[test]
fn speech_url_points_at_the_local_sidecar() {
    assert_eq!(speech_url(), "http://127.0.0.1:8880/v1/audio/speech");
    assert_eq!(SIDECAR_PORT, 8880);
}

#[test]
fn request_body_quotes_the_text() {
    let body = request_body("Say \"hi\"\n", "1.25");
    assert_eq!(
        body,
        "{\"input\":\"Say \\\"hi\\\"\\n\",\"model\":\"kokoro\",\"response_format\":\"pcm\",\"speed\":1.25,\"voice\":\"af_heart\"}"
    );
    let v: serde_json::Value = serde_json::from_str(&body).unwrap();
    assert_eq!(v["input"], "Say \"hi\"\n");
    assert_eq!(v["voice"], VOICE);
    assert_eq!(v["speed"], 1.25);
}

#[test]
fn decode_pcm_is_little_endian_signed() {
    let bytes = [0x01u8, 0x00, 0xff, 0xff, 0x00, 0x80, 0xff, 0x7f, 0x34, 0x12, 0x99];
    let samples = decode_pcm(&bytes).unwrap();
    assert_eq!(samples, vec![1i16, -1, i16::MIN, i16::MAX, 0x1234]);
}

#[test]
fn decode_pcm_without_a_sample_is_an_error() {
    assert_eq!(decode_pcm(&[]), Err("sidecar returned no audio".to_string()));
    assert_eq!(decode_pcm(&[7]), Err("sidecar returned no audio".to_string()));
}

#[test]
fn patient_synthesis_retries_until_patience_runs_out() {
    let mut w = SynthWait::new();
    w.begin_attempt();
    assert!(w.retry_after_failure(0, 30_000));
    w.begin_attempt();
    assert!(w.retry_after_failure(29_999, 30_000));
    assert!(!w.retry_after_failure(30_000, 30_000));
    assert_eq!(w.attempts, 2);
}

#[test]
fn timing_excludes_request_and_decode_from_engine_wait() {
    let mut w = SynthWait::new();
    w.begin_attempt();
    w.begin_attempt();
    w.begin_attempt();
    let t = w.on_success(2_000, 600, 20);
    assert_eq!(t.engine_wait_ms, 1_380);
    assert_eq!(t.attempts, 3);
    assert_eq!(t.http_ms, 600);
    assert_eq!(t.decode_ms, 20);
    let t = w.on_success(100, 600, 20);
    assert_eq!(t.engine_wait_ms, 0);
}

#[test]
fn assembled_body_wraps_the_quoted_sentence() {
    assert_eq!(
        hearit::synth::assemble_request_body("\"Ready.\"", "1.0"),
        "{\"input\":\"Ready.\",\"model\":\"kokoro\",\"response_format\":\"pcm\",\"speed\":1.0,\"voice\":\"af_heart\"}"
    );
}

#[test]
fn body_matches_serde_json_object_for_the_same_fields() {
    let body = request_body("a\u{1}b\t/c", "1.0");
    let value: serde_json::Value = serde_json::from_str(&body).unwrap();
    assert_eq!(serde_json::to_string(&value).unwrap(), body);
    assert!(body.contains("a\\u0001b\\t/c"));
}
