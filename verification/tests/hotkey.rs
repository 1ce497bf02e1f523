use hearit::hotkey::{
    clock_reading, is_fresh_press, ms_from_reading, on_shortcut, KeyAction, KeyEvent, SpeakKey, SPEAK_KEY, STUCK_AFTER_MS,
};

#[test]
fn fresh_press_emits() {
    let mut key = SpeakKey::new();
    assert!(key.press(10_000));
}

#[test]
fn auto_repeat_burst_collapses() {
    let mut key = SpeakKey::new();
    assert!(key.press(10_000));
    for t in (10_030..11_000).step_by(30) {
        assert!(!key.press(t), "repeat at {t} leaked");
    }
}

#[test]
fn missed_release_then_later_press_heals() {
    let mut key = SpeakKey::new();
    assert!(key.press(10_000));
    // No Released ever arrives. Next human press, seconds later:
    assert!(key.press(40_000));
}

#[test]
fn long_hold_does_not_double_emit() {
    let mut key = SpeakKey::new();
    assert!(key.press(10_000));
    assert!(!key.press(11_000), "slow first repeat leaked");
    for t in (11_030..15_000).step_by(30) {
        assert!(!key.press(t), "repeat at {t} leaked");
    }
}

#[test]
fn release_then_quick_press_emits() {
    let mut key = SpeakKey::new();
    assert!(key.press(10_000));
    key.release();
    assert!(key.press(10_200));
}

#[test]
fn threshold_is_exclusive() {
    assert!(!is_fresh_press(true, 10_000, 10_000 + STUCK_AFTER_MS));
    assert!(is_fresh_press(true, 10_000, 10_000 + STUCK_AFTER_MS + 1));
    assert!(is_fresh_press(false, 10_000, 10_000));
}

#[test]
fn clock_stepping_back_counts_as_no_silence() {
    assert!(!is_fresh_press(true, 50_000, 1_000));
    assert!(is_fresh_press(false, 50_000, 1_000));
}

#[test]
fn handle_reports_heal_with_silence() {
    let mut key = SpeakKey { down: true, last_pressed_ms: 10_000 };
    let action = key.handle(KeyEvent::Pressed, 40_000);
    assert_eq!(
        action,
        KeyAction::Emit { stamp: 40_000, healed_after_ms: Some(30_000) }
    );
    assert_eq!(key, SpeakKey { down: true, last_pressed_ms: 40_000 });
}

#[test]
fn handle_ordinary_press_and_release() {
    let mut key = SpeakKey::new();
    assert_eq!(
        key.handle(KeyEvent::Pressed, 5_000),
        KeyAction::Emit { stamp: 5_000, healed_after_ms: None }
    );
    assert_eq!(key.handle(KeyEvent::Pressed, 5_030), KeyAction::Quiet);
    assert_eq!(key.handle(KeyEvent::Released, 9_999), KeyAction::Quiet);
    assert_eq!(key, SpeakKey { down: false, last_pressed_ms: 5_030 });
}

#[test]
fn on_shortcut_stamps_with_the_clock() {
    let mut key = SpeakKey::new();
    match on_shortcut(&mut key, KeyEvent::Pressed) {
        KeyAction::Emit { stamp, healed_after_ms } => {
            assert!(stamp > 1_600_000_000_000);
            assert_eq!(healed_after_ms, None);
            assert_eq!(key.last_pressed_ms, stamp);
        }
        KeyAction::Quiet => panic!("a first press must emit"),
    }
    assert!(key.down);
    assert_eq!(on_shortcut(&mut key, KeyEvent::Released), KeyAction::Quiet);
    assert!(!key.down);
}

#[test]
fn now_ms_reads_the_wall_clock() {
    let a = hearit::hotkey::now_ms();
    let b = hearit::hotkey::now_ms();
    assert!(a > 1_600_000_000_000);
    assert!(b >= a);
}

#[test]
fn speak_key_is_f10() {
    assert_eq!(SPEAK_KEY, "F10");
}

#[test]
fn clock_reading_maps_to_stamp() {
    assert_eq!(ms_from_reading(None), 0);
    assert_eq!(ms_from_reading(Some(1_754_000_000_123)), 1_754_000_000_123);
    assert_eq!(ms_from_reading(Some((1u128 << 64) + 5)), 5);
    assert!(clock_reading().unwrap() > 1_600_000_000_000);
}
