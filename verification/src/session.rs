//! Takes: Rust's half of cancellation. Opening a take or stopping bumps
//! the counter; a synthesised sentence is queued for playback only when
//! its take is still the current one, so a new selection wins instantly
//! even while an old sentence is mid-synthesis.

use crate::synth::{SynthTiming, SAMPLE_RATE};
use vstd::prelude::*;

verus! {

/// The take counter after one bump; the counter wraps as the atomic it
/// stands for does.
pub open spec fn next_token(t: u64) -> u64 {
    if t == u64::MAX {
        0
    } else {
        (t + 1) as u64
    }
}

/// The counter after `k` bumps.
pub open spec fn bumped(t: u64, k: nat) -> u64
    decreases k,
{
    if k == 0 {
        t
    } else {
        next_token(bumped(t, (k - 1) as nat))
    }
}

/// The take counter.
#[derive(Debug)]
pub struct Takes(pub u64);

impl Default for Takes {
    fn default() -> (t: Takes)
        ensures
            t.0 == 0,
    {
        Takes(0)
    }
}

impl Takes {
    /// Whether `take` is still the current take.
    pub fn is_current(&self, take: u64) -> (current: bool)
        ensures
            current == (self.0 == take),
    {
        self.0 == take
    }

    fn bump(&mut self)
        ensures
            final(self).0 == next_token(old(self).0),
    {
        if self.0 == u64::MAX {
            self.0 = 0;
        } else {
            self.0 = self.0 + 1;
        }
    }
}

/// Opens a new take (the caller also stops whatever is speaking) and
/// returns its token, which is the new current take.
pub fn speak_begin(takes: &mut Takes) -> (token: u64)
    ensures
        final(takes).0 == next_token(old(takes).0),
        token == final(takes).0,
{
    takes.bump();
    takes.0
}

/// Silence on demand: kills the current take, so in-flight synthesis can
/// no longer resurrect the voice.
pub fn speak_stop(takes: &mut Takes)
    ensures
        final(takes).0 == next_token(old(takes).0),
{
    takes.bump();
}

proof fn bumped_is_modular(t: u64, k: nat)
    ensures
        bumped(t, k) as int == (t + k) % 0x1_0000_0000_0000_0000,
    decreases k,
{
    let m: int = 0x1_0000_0000_0000_0000;
    if k > 0 {
        bumped_is_modular(t, (k - 1) as nat);
        let prev = bumped(t, (k - 1) as nat);
        vstd::arithmetic::div_mod::lemma_add_mod_noop(t + k - 1, 1, m);
        vstd::arithmetic::div_mod::lemma_small_mod(1, m as nat);
        if prev == u64::MAX {
            vstd::arithmetic::div_mod::lemma_mod_self_0(m);
        } else {
            vstd::arithmetic::div_mod::lemma_small_mod((prev + 1) as nat, m as nat);
        }
    } else {
        vstd::arithmetic::div_mod::lemma_small_mod(t as nat, m as nat);
    }
}

/// The new selection wins: once a take has been superseded by any number
/// of later begins or stops (fewer than the counter's wrap-around), it is
/// never current again, so its audio is dropped rather than played.
pub proof fn superseded_take_is_never_current(token: u64, k: nat)
    requires
        0 < k < 0x1_0000_0000_0000_0000,
    ensures
        bumped(token, k) != token,
{
    let m: int = 0x1_0000_0000_0000_0000;
    bumped_is_modular(token, k);
    if token + k < m {
        vstd::arithmetic::div_mod::lemma_small_mod((token + k) as nat, m as nat);
    } else {
        vstd::arithmetic::div_mod::lemma_mod_sub_multiples_vanish(token + k - m, m);
        vstd::arithmetic::div_mod::lemma_small_mod((token + k - m) as nat, m as nat);
    }
}

/// Length of `n_samples` of audio at the sidecar's rate, in whole
/// milliseconds.
pub open spec fn spec_audio_ms(n_samples: nat) -> nat {
    n_samples * 1000 / SAMPLE_RATE as nat
}

/// Audio length in whole milliseconds.
pub fn audio_ms(n_samples: usize) -> (ms: u64)
    requires
        n_samples * 1000 <= u64::MAX,
    ensures
        ms == spec_audio_ms(n_samples as nat),
{
    n_samples as u64 * 1000 / SAMPLE_RATE as u64
}

/// One sentence's journey, as reported back to the coordinator.
#[derive(Clone, Copy, Debug, PartialEq, Eq, Structural)]
pub struct Spoken {
    pub engine_wait_ms: u64,
    pub attempts: u32,
    pub http_ms: u64,
    pub decode_ms: u64,
    /// Length of the synthesised audio itself.
    pub audio_ms: u64,
    /// False when the take was superseded mid-synthesis: the audio was
    /// dropped, not played.
    pub queued: bool,
}

/// The report for a sentence of `n_samples` synthesised for `take`: it is
/// queued exactly when `take` is still current.
pub fn spoken(takes: &Takes, take: u64, n_samples: usize, t: SynthTiming) -> (s: Spoken)
    requires
        n_samples * 1000 <= u64::MAX,
    ensures
        s.queued == (takes.0 == take),
        s.audio_ms == spec_audio_ms(n_samples as nat),
        s.engine_wait_ms == t.engine_wait_ms,
        s.attempts == t.attempts,
        s.http_ms == t.http_ms,
        s.decode_ms == t.decode_ms,
{
    Spoken {
        engine_wait_ms: t.engine_wait_ms,
        attempts: t.attempts,
        http_ms: t.http_ms,
        decode_ms: t.decode_ms,
        audio_ms: audio_ms(n_samples),
        queued: takes.is_current(take),
    }
}

} // verus!
