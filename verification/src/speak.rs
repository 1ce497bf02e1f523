//! The voice out loud, minus the speaker itself: the tap that copies every
//! played sample into a bounded ring for the pill, the ring's snapshot for
//! one FFT frame, the watch that decides when playback is done, and the
//! band layout of the pill's grid.

use std::collections::VecDeque;
use vstd::prelude::*;

verus! {

/// The pill's columns.
pub const BANDS: usize = 32;

/// The pill's rows.
pub const ROWS: u8 = 6;

/// FFT window in samples.
pub const FFT_N: usize = 1024;

/// Usable FFT bins (up to Nyquist).
pub const BINS: usize = 512;

/// Frame period of the pill's feed, in milliseconds.
pub const FRAME_MS: u64 = 33;

/// Consecutive empty frames before playback counts as done.
pub const DONE_FRAMES: u32 = 10;

/// Samples are handed to the ring in batches of this size.
pub const TAP_BATCH: usize = 256;

/// The ring keeps at most this many of the newest samples.
pub const RING_CAP: usize = 4096;

/// What the tap yields from position `pos`.
pub open spec fn spec_tap_next<T>(samples: Seq<T>, pos: int) -> Option<T> {
    if 0 <= pos < samples.len() {
        Some(samples[pos])
    } else {
        None
    }
}

/// Everything a tap yields, call after call of `next`, from position
/// `pos` until it runs dry.
pub open spec fn run_to_end<T>(samples: Seq<T>, pos: int) -> Seq<T>
    decreases samples.len() - pos,
{
    if 0 <= pos < samples.len() {
        match spec_tap_next(samples, pos) {
            Some(v) => seq![v] + run_to_end(samples, pos + 1),
            None => Seq::empty(),
        }
    } else {
        Seq::empty()
    }
}

/// A pass-through source: plays its samples unchanged and keeps a copy of
/// each played sample in `pending` until it is flushed into the ring.
pub struct Tap<T> {
    pub samples: Vec<T>,
    pub pos: usize,
    pub pending: Vec<T>,
}

impl<T: Copy> Tap<T> {
    /// A tap at the start of `samples`, with nothing pending.
    pub fn new(samples: Vec<T>) -> (tap: Tap<T>)
        ensures
            tap.samples@ == samples@,
            tap.pos == 0,
            tap.pending@.len() == 0,
    {
        Tap { samples, pos: 0, pending: Vec::with_capacity(TAP_BATCH) }
    }

    /// The next sample, unchanged; it is also recorded as pending.
    pub fn next(&mut self) -> (s: Option<T>)
        ensures
            s == spec_tap_next(old(self).samples@, old(self).pos as int),
            old(self).pos < old(self).samples@.len() ==> s == Some(old(self).samples@[old(self).pos as int]),
            old(self).pos >= old(self).samples@.len() ==> s is None,
            final(self).samples@ == old(self).samples@,
            s matches Some(v) ==> final(self).pos == old(self).pos + 1 && final(self).pending@
                == old(self).pending@.push(v),
            s is None ==> final(self).pos == old(self).pos && final(self).pending@
                == old(self).pending@,
    {
        if self.pos < self.samples.len() {
            let s = self.samples[self.pos];
            self.pos = self.pos + 1;
            self.pending.push(s);
            Some(s)
        } else {
            None
        }
    }

    /// Whether a full batch is waiting for the ring.
    pub fn flush_due(&self) -> (due: bool)
        ensures
            due == (self.pending@.len() >= TAP_BATCH),
    {
        self.pending.len() >= TAP_BATCH
    }

    /// The ring was busy: keep accumulating, unless the pending copy has
    /// outgrown the ring itself, in which case it is dropped (the ring is a
    /// visual aid; the audio path never waits and never grows without end).
    pub fn ring_busy(&mut self)
        ensures
            final(self).samples@ == old(self).samples@,
            final(self).pos == old(self).pos,
            final(self).pending@ == (if old(self).pending@.len() > RING_CAP {
                Seq::<T>::empty()
            } else {
                old(self).pending@
            }),
    {
        if self.pending.len() > RING_CAP {
            self.pending.clear();
        }
    }

    /// The ring was free: moves every pending sample into it, oldest first.
    pub fn flush_into(&mut self, ring: &mut SampleRing<T>)
        ensures
            final(self).samples@ == old(self).samples@,
            final(self).pos == old(self).pos,
            final(self).pending@.len() == 0,
            final(ring)@ == newest(old(ring)@ + old(self).pending@),
    {
        ring.extend(&self.pending);
        self.pending.clear();
    }
}

/// Yielding from any position to exhaustion gives back exactly the
/// samples from there on (from a fresh tap: all of them, in order): the
/// tap leaves the audio path untouched, sample by sample.
pub proof fn tap_passes_samples_through<T>(samples: Seq<T>, pos: int)
    requires
        0 <= pos <= samples.len(),
    ensures
        run_to_end(samples, pos) == samples.skip(pos),
        run_to_end(samples, pos).len() == samples.len() - pos,
        forall|k: int| 0 <= k < samples.len() - pos ==> #[trigger] run_to_end(samples, pos)[k] == samples[pos + k],
    decreases samples.len() - pos,
{
    if pos < samples.len() {
        tap_passes_samples_through(samples, pos + 1);
        assert(samples.skip(pos) =~= seq![samples[pos]] + samples.skip(pos + 1));
    } else {
        assert(samples.skip(pos) =~= Seq::<T>::empty());
    }
}

/// The newest `RING_CAP` elements of `s` (all of it when shorter).
pub open spec fn newest<T>(s: Seq<T>) -> Seq<T> {
    if s.len() > RING_CAP {
        s.skip(s.len() - RING_CAP)
    } else {
        s
    }
}

/// The most recent played samples, never more than `RING_CAP`.
pub struct SampleRing<T> {
    buf: VecDeque<T>,
}

impl<T> View for SampleRing<T> {
    type V = Seq<T>;

    closed spec fn view(&self) -> Seq<T> {
        self.buf@
    }
}

impl<T> SampleRing<T> {
    #[verifier::type_invariant]
    spec fn bounded(&self) -> bool {
        self.buf@.len() <= RING_CAP
    }

    /// An empty ring.
    pub fn new() -> (r: SampleRing<T>)
        ensures
            r@.len() == 0,
    {
        SampleRing { buf: VecDeque::with_capacity(RING_CAP) }
    }

    /// How many samples the ring holds.
    pub fn len(&self) -> (n: usize)
        ensures
            n == self@.len(),
    {
        self.buf.len()
    }

    /// Forgets everything (playback was stopped).
    pub fn clear(&mut self)
        ensures
            final(self)@.len() == 0,
    {
        self.buf = VecDeque::new();
    }

    /// Appends `items` in order, dropping the oldest samples once full.
    pub fn extend(&mut self, items: &Vec<T>) where T: Copy
        ensures
            final(self)@ == newest(old(self)@ + items@),
    {
        proof {
            use_type_invariant(&*self);
        }
        let mut buf: VecDeque<T> = VecDeque::new();
        std::mem::swap(&mut buf, &mut self.buf);
        let ghost start = buf@;
        let mut i: usize = 0;
        while i < items.len()
            invariant
                start.len() <= RING_CAP,
                i <= items@.len(),
                buf@ == newest(start + items@.take(i as int)),
            decreases items@.len() - i,
        {
            let ghost before = buf@;
            if buf.len() >= RING_CAP {
                buf.pop_front();
            }
            buf.push_back(items[i]);
            proof {
                let all = start + items@.take(i as int + 1);
                assert(all =~= (start + items@.take(i as int)).push(items@[i as int]));
                assert(buf@ =~= newest(all));
            }
            i = i + 1;
        }
        assert(items@.take(items@.len() as int) =~= items@);
        self.buf = buf;
    }

    /// The newest `n` samples, oldest first, padded in front with `zero`
    /// when the ring holds fewer.
    pub fn snapshot(&self, n: usize, zero: T) -> (frame: Vec<T>) where T: Copy
        ensures
            frame@ == (if self@.len() >= n {
                self@.skip(self@.len() - n)
            } else {
                Seq::new((n - self@.len()) as nat, |i: int| zero) + self@
            }),
    {
        let len = self.buf.len();
        let m = if len < n {
            len
        } else {
            n
        };
        let pad = n - m;
        let skip = len - m;
        let mut frame: Vec<T> = Vec::with_capacity(n);
        let mut i: usize = 0;
        while i < n
            invariant
                len == self@.len(),
                m <= len,
                m <= n,
                pad == n - m,
                skip == len - m,
                i <= n,
                frame@.len() == i,
                forall|j: int|
                    0 <= j < i ==> #[trigger] frame@[j] == (if j < pad {
                        zero
                    } else {
                        self@[skip + j - pad]
                    }),
            decreases n - i,
        {
            if i < pad {
                frame.push(zero);
            } else {
                frame.push(self.buf[skip + (i - pad)]);
            }
            i = i + 1;
        }
        proof {
            if len >= n {
                assert(frame@ =~= self@.skip(len - n));
            } else {
                assert(frame@ =~= Seq::new((n - len) as nat, |i: int| zero) + self@);
            }
        }
        frame
    }
}

/// What the pill's feed does on one frame.
#[derive(Clone, Copy, Debug, PartialEq, Eq, Structural)]
pub enum FrameAction {
    /// Nothing playing; nothing to draw.
    Idle,
    /// Playback has just ended: clear the grid and announce it.
    Done,
    /// Audio is playing: analyse the newest samples and draw them.
    Analyze,
}

/// Whether the feed believes audio is playing, and how many consecutive
/// empty frames it has seen since.
pub struct PlaybackWatch {
    speaking: bool,
    empty_frames: u32,
}

/// The watch's state after one frame, and its action.
pub open spec fn spec_on_frame(speaking: bool, empty_frames: u32, sink_empty: bool) -> (bool, u32, FrameAction) {
    if sink_empty {
        if speaking {
            if empty_frames + 1 >= DONE_FRAMES {
                (false, (empty_frames + 1) as u32, FrameAction::Done)
            } else {
                (true, (empty_frames + 1) as u32, FrameAction::Idle)
            }
        } else {
            (false, empty_frames, FrameAction::Idle)
        }
    } else {
        (true, 0, FrameAction::Analyze)
    }
}

/// The actions over a run of frames (`true` = the sink was empty).
pub open spec fn watch_run(speaking: bool, empty_frames: u32, frames: Seq<bool>) -> Seq<FrameAction>
    decreases frames.len(),
{
    if frames.len() == 0 {
        Seq::empty()
    } else {
        let (s2, e2, a) = spec_on_frame(speaking, empty_frames, frames[0]);
        seq![a] + watch_run(s2, e2, frames.drop_first())
    }
}

impl PlaybackWatch {
    #[verifier::type_invariant]
    spec fn inv(&self) -> bool {
        self.speaking ==> self.empty_frames < DONE_FRAMES
    }

    pub closed spec fn is_speaking(&self) -> bool {
        self.speaking
    }

    pub closed spec fn empty_count(&self) -> u32 {
        self.empty_frames
    }

    /// Nothing playing yet.
    pub fn new() -> (w: PlaybackWatch)
        ensures
            !w.is_speaking(),
            w.empty_count() == 0,
    {
        PlaybackWatch { speaking: false, empty_frames: 0 }
    }

    /// One frame: the sink's emptiness decides between idling, declaring
    /// playback done after `DONE_FRAMES` empty frames in a row, and
    /// analysing the audio that is playing.
    pub fn on_frame(&mut self, sink_empty: bool) -> (action: FrameAction)
        ensures
            (final(self).is_speaking(), final(self).empty_count(), action) == spec_on_frame(
                old(self).is_speaking(),
                old(self).empty_count(),
                sink_empty,
            ),
    {
        proof {
            use_type_invariant(&*self);
        }
        if sink_empty {
            if self.speaking {
                let n = self.empty_frames + 1;
                if n >= DONE_FRAMES {
                    *self = PlaybackWatch { speaking: false, empty_frames: n };
                    return FrameAction::Done;
                }
                *self = PlaybackWatch { speaking: true, empty_frames: n };
            }
            FrameAction::Idle
        } else {
            *self = PlaybackWatch { speaking: true, empty_frames: 0 };
            FrameAction::Analyze
        }
    }
}

/// After audio plays, playback is declared done exactly once, on the
/// `DONE_FRAMES`-th consecutive empty frame: a shorter underrun between
/// sentences never ends the take, and further silence stays idle.
pub proof fn done_exactly_once_after_silence(speaking: bool, empty_frames: u32, k: nat)
    ensures
        ({
            let frames = seq![false] + Seq::new(k, |i: int| true);
            let acts = watch_run(speaking, empty_frames, frames);
            &&& acts.len() == k + 1
            &&& acts[0] == FrameAction::Analyze
            &&& forall|i: int| 1 <= i <= k ==> (#[trigger] acts[i] == FrameAction::Done <==> i == DONE_FRAMES)
            &&& forall|i: int| 1 <= i <= k ==> (#[trigger] acts[i] == FrameAction::Done || acts[i] == FrameAction::Idle)
        }),
{
    let frames = seq![false] + Seq::new(k, |i: int| true);
    assert(frames.drop_first() =~= Seq::new(k, |i: int| true));
    silence_run(true, 0, k);
}

proof fn silence_run(speaking: bool, empty_frames: u32, k: nat)
    requires
        speaking ==> empty_frames < DONE_FRAMES,
    ensures
        ({
            let acts = watch_run(speaking, empty_frames, Seq::new(k, |i: int| true));
            &&& acts.len() == k
            &&& forall|i: int| 0 <= i < k ==> (#[trigger] acts[i] == FrameAction::Done <==> (speaking && i + 1
                + empty_frames == DONE_FRAMES))
            &&& forall|i: int| 0 <= i < k ==> (#[trigger] acts[i] == FrameAction::Done || acts[i] == FrameAction::Idle)
        }),
    decreases k,
{
    let frames = Seq::new(k, |i: int| true);
    if k > 0 {
        let (s2, e2, a) = spec_on_frame(speaking, empty_frames, true);
        assert(frames.drop_first() =~= Seq::new((k - 1) as nat, |i: int| true));
        silence_run(s2, e2, (k - 1) as nat);
        let acts = watch_run(speaking, empty_frames, frames);
        let rest = watch_run(s2, e2, Seq::new((k - 1) as nat, |i: int| true));
        assert(acts == seq![a] + rest);
        assert forall|i: int| 0 <= i < k implies (#[trigger] acts[i] == FrameAction::Done <==> (speaking && i
            + 1 + empty_frames == DONE_FRAMES)) by {
            if i > 0 {
                assert(acts[i] == rest[i - 1]);
            }
        }
        assert forall|i: int| 0 <= i < k implies (#[trigger] acts[i] == FrameAction::Done || acts[i]
            == FrameAction::Idle) by {
            if i > 0 {
                assert(acts[i] == rest[i - 1]);
            }
        }
    }
}

/// One band's FFT-bin range from its raw edges: the low edge clamped into
/// range, the high edge no lower than the low one and clamped too.
pub open spec fn band_slot(raw_lo: usize, raw_hi: usize) -> (usize, usize) {
    let lo = if raw_lo < BINS - 1 { raw_lo } else { (BINS - 1) as usize };
    let hi0 = if raw_hi > lo { raw_hi } else { lo };
    let hi = if hi0 < BINS - 1 { hi0 } else { (BINS - 1) as usize };
    (lo, hi)
}

/// The pill's band layout from each band's raw bin edges (the low edge
/// rounded down, the high edge rounded up, from the log-spaced frequency
/// grid). Every band is a non-empty range inside the usable bins; the
/// bands never start before the one to their left when the raw low edges
/// rise, and leave no gap between neighbours when each band's raw low edge
/// is no higher than its left neighbour's raw high edge (as the rounded
/// down and rounded up images of one shared frequency are).
pub fn band_map(raw_lo: &Vec<usize>, raw_hi: &Vec<usize>) -> (map: Vec<(usize, usize)>)
    requires
        raw_lo@.len() == BANDS,
        raw_hi@.len() == BANDS,
    ensures
        map@.len() == BANDS,
        forall|i: int| 0 <= i < BANDS ==> #[trigger] map@[i] == band_slot(raw_lo@[i], raw_hi@[i]),
        forall|i: int| 0 <= i < BANDS ==> (#[trigger] map@[i]).0 <= map@[i].1 && map@[i].1 < BINS,
        (forall|i: int, j: int| 0 <= i <= j < BANDS ==> raw_lo@[i] <= raw_lo@[j]) ==> forall|i: int, j: int|
            0 <= i <= j < BANDS ==> (#[trigger] map@[i]).0 <= (#[trigger] map@[j]).0,
        (forall|i: int, j: int| 0 <= i && j == i + 1 && j < BANDS ==> raw_lo@[j] <= raw_hi@[i]) ==> forall|
            i: int,
            j: int,
        | 0 <= i && j == i + 1 && j < BANDS ==> (#[trigger] map@[j]).0 <= (#[trigger] map@[i]).1,
{
    let mut map: Vec<(usize, usize)> = Vec::with_capacity(BANDS);
    let mut i: usize = 0;
    while i < BANDS
        invariant
            raw_lo@.len() == BANDS,
            raw_hi@.len() == BANDS,
            i <= BANDS,
            map@.len() == i,
            forall|j: int| 0 <= j < i ==> #[trigger] map@[j] == band_slot(raw_lo@[j], raw_hi@[j]),
        decreases BANDS - i,
    {
        let a = raw_lo[i];
        let b = raw_hi[i];
        let lo = if a < BINS - 1 {
            a
        } else {
            BINS - 1
        };
        let hi0 = if b > lo {
            b
        } else {
            lo
        };
        let hi = if hi0 < BINS - 1 {
            hi0
        } else {
            BINS - 1
        };
        map.push((lo, hi));
        i = i + 1;
    }
    map
}

} // verus!
