//! The speak key: collapses the OS shortcut into one logical signal,
//! stamped with wall-clock milliseconds. Tap, not hold: the key acts on
//! the press; the release only re-arms it.

use std::time::{Duration, SystemTime, SystemTimeError};
use vstd::prelude::*;

verus! {

/// The speak key. F9 belongs to the sibling dictation tool.
pub const SPEAK_KEY: &'static str = "F10";

/// Silence longer than this between `Pressed` events means the earlier
/// press is over, even if its `Released` never arrived.
pub const STUCK_AFTER_MS: u64 = 1500;

#[verifier::external_type_specification]
#[verifier::external_body]
pub struct ExSystemTime(SystemTime);

#[verifier::external_type_specification]
#[verifier::external_body]
pub struct ExSystemTimeError(SystemTimeError);

/// Calls `SystemTime::now`. The clock's reading is not described.
#[verifier::external_body]
fn system_time_now() -> SystemTime {
    SystemTime::now()
}

/// Calls `SystemTime::duration_since(UNIX_EPOCH)`: `Err` when the clock
/// reads before the epoch. Nothing is claimed of the duration.
#[verifier::external_body]
fn since_unix_epoch(t: &SystemTime) -> Result<Duration, SystemTimeError> {
    t.duration_since(std::time::UNIX_EPOCH)
}

/// Calls `Duration::as_millis`: whole milliseconds in the duration.
/// Nothing is claimed of the value, since the duration is opaque here.
#[verifier::external_body]
fn duration_millis(d: &Duration) -> u128 {
    d.as_millis()
}

/// What the clock reading maps to: whole milliseconds since the Unix
/// epoch truncated to 64 bits, or 0 for a clock before the epoch (`None`).
pub open spec fn spec_ms_from_reading(reading: Option<u128>) -> u64 {
    match reading {
        Some(m) => m as u64,
        None => 0,
    }
}

/// Maps a clock reading (whole milliseconds since the Unix epoch, or
/// `None` for a clock before the epoch) to the key's stamp.
pub fn ms_from_reading(reading: Option<u128>) -> (ms: u64)
    ensures
        reading matches Some(m) ==> ms == m as u64,
        reading is None ==> ms == 0,
{
    match reading {
        Some(m) => m as u64,
        None => 0,
    }
}

/// Reads the wall clock: whole milliseconds since the Unix epoch, or
/// `None` when the clock reads before the epoch. The reading depends on
/// the clock, so no clause states it.
pub fn clock_reading() -> Option<u128> {
    let now = system_time_now();
    match since_unix_epoch(&now) {
        Ok(d) => Some(duration_millis(&d)),
        Err(_) => None,
    }
}

/// Wall-clock milliseconds since the Unix epoch, truncated to 64 bits, or
/// 0 when the clock reads before the epoch: the clock's reading mapped by
/// `ms_from_reading`. Which reading the clock gives is not stated.
pub fn now_ms() -> (ms: u64)
    ensures
        exists|reading: Option<u128>| ms == #[trigger] spec_ms_from_reading(reading),
{
    let reading = clock_reading();
    let ms = ms_from_reading(reading);
    assert(ms == spec_ms_from_reading(reading));
    ms
}

/// The silence between the previous press and this one; a clock that
/// stepped backwards counts as no silence.
pub open spec fn silence(last_pressed_ms: u64, now: u64) -> int {
    if now >= last_pressed_ms {
        now - last_pressed_ms
    } else {
        0
    }
}

/// The debounce decision: a press is fresh when the key was up, or when so
/// long has passed since the last press that the old one must have ended.
pub open spec fn spec_is_fresh_press(was_down: bool, last_pressed_ms: u64, now: u64) -> bool {
    !was_down || silence(last_pressed_ms, now) > STUCK_AFTER_MS
}

/// A press is fresh when the key was up, or when the silence since the last
/// press exceeds the stuck threshold.
pub fn is_fresh_press(was_down: bool, last_pressed_ms: u64, now: u64) -> (fresh: bool)
    ensures
        fresh == spec_is_fresh_press(was_down, last_pressed_ms, now),
{
    !was_down || now.saturating_sub(last_pressed_ms) > STUCK_AFTER_MS
}

/// What the key remembers between events: whether it is held, and when the
/// last `Pressed` arrived.
#[derive(Clone, Copy, Debug, PartialEq, Eq, Structural)]
pub struct SpeakKey {
    pub down: bool,
    pub last_pressed_ms: u64,
}

/// The two shortcut events the OS delivers.
#[derive(Clone, Copy, Debug, PartialEq, Eq, Structural)]
pub enum KeyEvent {
    Pressed,
    Released,
}

/// What the key asks its host to do.
#[derive(Clone, Copy, Debug, PartialEq, Eq, Structural)]
pub enum KeyAction {
    /// Nothing to emit.
    Quiet,
    /// Emit `speak_pressed` stamped with `stamp`. `healed_after_ms` is set
    /// when the down-flag was still set (a release went missing) and gives
    /// the silence that overruled it.
    Emit { stamp: u64, healed_after_ms: Option<u64> },
}

/// The key after a press at `now`, and whether that press was fresh.
pub open spec fn spec_press(k: SpeakKey, now: u64) -> (SpeakKey, bool) {
    (SpeakKey { down: true, last_pressed_ms: now }, spec_is_fresh_press(k.down, k.last_pressed_ms, now))
}

/// What the key does on `event` at time `now`.
pub open spec fn spec_handle(k: SpeakKey, event: KeyEvent, now: u64) -> (SpeakKey, KeyAction) {
    match event {
        KeyEvent::Released => (SpeakKey { down: false, ..k }, KeyAction::Quiet),
        KeyEvent::Pressed => {
            let (k2, fresh) = spec_press(k, now);
            if !fresh {
                (k2, KeyAction::Quiet)
            } else if k.down {
                (k2, KeyAction::Emit { stamp: now, healed_after_ms: Some(silence(k.last_pressed_ms, now) as u64) })
            } else {
                (k2, KeyAction::Emit { stamp: now, healed_after_ms: None })
            }
        },
    }
}

impl SpeakKey {
    /// A key that is up and has never been pressed.
    pub fn new() -> (k: SpeakKey)
        ensures
            k == (SpeakKey { down: false, last_pressed_ms: 0 }),
    {
        SpeakKey { down: false, last_pressed_ms: 0 }
    }

    /// A `Pressed` at `now`: the key is held from now on, the stamp is
    /// refreshed, and the result says whether the press is fresh.
    pub fn press(&mut self, now: u64) -> (fresh: bool)
        ensures
            (*final(self), fresh) == spec_press(*old(self), now),
    {
        let was_down = self.down;
        let prev = self.last_pressed_ms;
        self.down = true;
        self.last_pressed_ms = now;
        is_fresh_press(was_down, prev, now)
    }

    /// A `Released`: the key is up; the stamp is kept.
    pub fn release(&mut self)
        ensures
            *final(self) == (SpeakKey { down: false, ..*old(self) }),
    {
        self.down = false;
    }

    /// One shortcut event at a known time.
    pub fn handle(&mut self, event: KeyEvent, now: u64) -> (action: KeyAction)
        ensures
            (*final(self), action) == spec_handle(*old(self), event, now),
    {
        match event {
            KeyEvent::Released => {
                self.release();
                KeyAction::Quiet
            },
            KeyEvent::Pressed => {
                let was_down = self.down;
                let last = self.last_pressed_ms;
                let fresh = self.press(now);
                if !fresh {
                    KeyAction::Quiet
                } else if was_down {
                    KeyAction::Emit { stamp: now, healed_after_ms: Some(now.saturating_sub(last)) }
                } else {
                    KeyAction::Emit { stamp: now, healed_after_ms: None }
                }
            },
        }
    }
}

/// One shortcut event, stamped with the wall clock at the moment it is
/// handled. A `Released` only re-arms the key; a `Pressed` does what
/// `handle` does at the clock's reading, which the emitted stamp carries
/// (a quiet press gives no stamp, so only its effect on the key is stated).
pub fn on_shortcut(key: &mut SpeakKey, event: KeyEvent) -> (action: KeyAction)
    ensures
        event == KeyEvent::Released ==> (*final(key), action) == spec_handle(*old(key), event, 0),
        event == KeyEvent::Pressed ==> exists|now: u64|
            (*final(key), action) == #[trigger] spec_handle(*old(key), event, now),
        action matches KeyAction::Emit { stamp, .. } ==> (*final(key), action) == spec_handle(*old(key), event, stamp),
{
    match event {
        KeyEvent::Released => key.handle(event, 0),
        KeyEvent::Pressed => {
            let now = now_ms();
            key.handle(event, now)
        },
    }
}

/// The fresh/quiet verdicts of successive presses with no release between.
pub open spec fn press_all(k: SpeakKey, times: Seq<u64>) -> Seq<bool>
    decreases times.len(),
{
    if times.len() == 0 {
        Seq::empty()
    } else {
        let (k2, fresh) = spec_press(k, times[0]);
        seq![fresh] + press_all(k2, times.drop_first())
    }
}

/// Each press in `times` comes no later than the threshold after the one
/// before it (the first after `last`).
pub open spec fn repeats_within_threshold(last: u64, times: Seq<u64>) -> bool {
    forall|i: int|
        0 <= i < times.len() ==> silence(if i == 0 { last } else { times[i - 1] }, #[trigger] times[i])
            <= STUCK_AFTER_MS
}

/// A hold stays one logical press: while the key is held, presses that
/// each come within the threshold of the one before are never fresh,
/// however long the hold lasts in total.
pub proof fn hold_never_emits_again(k: SpeakKey, times: Seq<u64>)
    requires
        k.down,
        repeats_within_threshold(k.last_pressed_ms, times),
    ensures
        press_all(k, times).len() == times.len(),
        forall|i: int| 0 <= i < times.len() ==> !#[trigger] press_all(k, times)[i],
    decreases times.len(),
{
    if times.len() > 0 {
        let (k2, fresh) = spec_press(k, times[0]);
        let rest = times.drop_first();
        assert(silence(k.last_pressed_ms, times[0]) <= STUCK_AFTER_MS);
        assert(repeats_within_threshold(k2.last_pressed_ms, rest)) by {
            assert forall|i: int| 0 <= i < rest.len() implies silence(
                if i == 0 { k2.last_pressed_ms } else { rest[i - 1] },
                #[trigger] rest[i],
            ) <= STUCK_AFTER_MS by {
                assert(rest[i] == times[i + 1]);
                assert(silence(times[i], times[i + 1]) <= STUCK_AFTER_MS);
            }
        }
        hold_never_emits_again(k2, rest);
        assert forall|i: int| 0 <= i < times.len() implies !#[trigger] press_all(k, times)[i] by {
            if i > 0 {
                assert(press_all(k, times)[i] == press_all(k2, rest)[i - 1]);
            }
        }
    }
}

/// A release always re-arms the key: the next press is fresh, however soon
/// it comes.
pub proof fn release_then_press_is_fresh(k: SpeakKey, now: u64)
    ensures
        ({
            let (k1, _) = spec_handle(k, KeyEvent::Released, 0);
            spec_press(k1, now).1
        }),
{
}

/// A lost release heals: a press that comes after more than the threshold
/// of silence is fresh even though the key still reads as held, and the
/// key reports the heal with the silence that overruled the flag.
pub proof fn lost_release_heals(k: SpeakKey, now: u64)
    requires
        k.down,
        silence(k.last_pressed_ms, now) > STUCK_AFTER_MS,
    ensures
        spec_handle(k, KeyEvent::Pressed, now).1 == (KeyAction::Emit {
            stamp: now,
            healed_after_ms: Some((now - k.last_pressed_ms) as u64),
        }),
{
}

} // verus!
