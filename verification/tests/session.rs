use hearit::session::{audio_ms, speak_begin, speak_stop, spoken, Takes};
use hearit::synth::SynthTiming;

fn timing() -> SynthTiming {
    SynthTiming { engine_wait_ms: 5, attempts: 2, http_ms: 300, decode_ms: 1 }
}

#[test]
fn new_selection_wins() {
    let mut takes = Takes::default();
    let first = speak_begin(&mut takes);
    assert_eq!(first, 1);
    assert!(takes.is_current(first));
    let second = speak_begin(&mut takes);
    assert_eq!(second, 2);
    assert!(!takes.is_current(first));
    assert!(takes.is_current(second));
}

#[test]
fn stop_kills_the_current_take() {
    let mut takes = Takes::default();
    let t = speak_begin(&mut takes);
    speak_stop(&mut takes);
    assert!(!takes.is_current(t));
    let s = spoken(&takes, t, 24_000, timing());
    assert!(!s.queued);
}

#[test]
fn counter_wraps_like_the_atomic() {
    let mut takes = Takes(u64::MAX);
    assert_eq!(speak_begin(&mut takes), 0);
}

#[test]
fn spoken_reports_audio_length_and_queues_current_take() {
    let mut takes = Takes::default();
    let t = speak_begin(&mut takes);
    let s = spoken(&takes, t, 36_000, timing());
    assert!(s.queued);
    assert_eq!(s.audio_ms, 1_500);
    assert_eq!(s.attempts, 2);
    assert_eq!(s.http_ms, 300);
    assert_eq!(s.decode_ms, 1);
    assert_eq!(s.engine_wait_ms, 5);
}

#[test]
fn audio_ms_rounds_down() {
    assert_eq!(audio_ms(0), 0);
    assert_eq!(audio_ms(23), 0);
    assert_eq!(audio_ms(24), 1);
    assert_eq!(audio_ms(48_012), 2_000);
}
