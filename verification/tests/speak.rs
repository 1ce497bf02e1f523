use hearit::speak::{
    band_map, FrameAction, PlaybackWatch, SampleRing, Tap, BANDS, BINS, DONE_FRAMES, FFT_N,
    RING_CAP, TAP_BATCH,
};
use hearit::synth::SAMPLE_RATE;

const MIN_HZ: f32 = 80.0;
const MAX_HZ: f32 = 5000.0;

fn raw_edges() -> (Vec<usize>, Vec<usize>) {
    let nyquist = SAMPLE_RATE as f32 / 2.0;
    let bins = FFT_N / 2;
    let ratio = MAX_HZ / MIN_HZ;
    let mut lo = Vec::new();
    let mut hi = Vec::new();
    for i in 0..BANDS {
        let lo_hz = MIN_HZ * ratio.powf(i as f32 / BANDS as f32);
        let hi_hz = MIN_HZ * ratio.powf((i + 1) as f32 / BANDS as f32);
        lo.push(((lo_hz / nyquist) * bins as f32).floor() as usize);
        hi.push(((hi_hz / nyquist) * bins as f32).ceil() as usize);
    }
    (lo, hi)
}

#[test]
fn band_map_is_monotonic_and_in_range() {
    let (lo, hi) = raw_edges();
    let map = band_map(&lo, &hi);
    let bins = FFT_N / 2;
    for i in 0..BANDS {
        let (lo, hi) = map[i];
        assert!(lo <= hi, "band {i}: lo {lo} > hi {hi}");
        assert!(hi < bins, "band {i}: hi {hi} out of range");
        if i > 0 {
            assert!(map[i - 1].0 <= lo, "band {i} starts before band {}", i - 1);
        }
    }
}

#[test]
fn band_map_leaves_no_gaps() {
    let (lo, hi) = raw_edges();
    let map = band_map(&lo, &hi);
    for i in 1..BANDS {
        assert!(map[i].0 <= map[i - 1].1, "gap before band {i}");
    }
}

#[test]
fn band_map_clamps_wild_edges() {
    let lo = vec![10_000usize; BANDS];
    let hi = vec![0usize; BANDS];
    let map = band_map(&lo, &hi);
    assert_eq!(map.len(), BANDS);
    assert!(map.iter().all(|&(l, h)| l == BINS - 1 && h == BINS - 1));
    let lo: Vec<usize> = (0..BANDS).collect();
    let hi: Vec<usize> = (0..BANDS).map(|i| i + 1).collect();
    let map = band_map(&lo, &hi);
    assert_eq!(map[3], (3, 4));
    assert_eq!(BINS, FFT_N / 2);
}

#[test]
fn tap_passes_samples_through_untouched() {
    let samples = vec![0.1f32, -0.2, 0.3];
    let mut tap = Tap::new(samples.clone());
    let mut out: Vec<f32> = Vec::new();
    while let Some(s) = tap.next() {
        out.push(s);
    }
    assert_eq!(out, samples);
    assert_eq!(tap.pending, samples);
}

#[test]
fn tap_flushes_into_ring_and_ring_keeps_newest() {
    let samples: Vec<i32> = (0..(RING_CAP as i32 + 300)).collect();
    let mut tap = Tap::new(samples);
    let mut ring = SampleRing::new();
    let mut flushes = 0;
    while tap.next().is_some() {
        if tap.flush_due() {
            tap.flush_into(&mut ring);
            flushes += 1;
        }
    }
    tap.flush_into(&mut ring);
    assert_eq!(flushes, (RING_CAP + 300) / TAP_BATCH);
    assert_eq!(ring.len(), RING_CAP);
    let frame = ring.snapshot(4, -1);
    let last = RING_CAP as i32 + 300;
    assert_eq!(frame, vec![last - 4, last - 3, last - 2, last - 1]);
    ring.clear();
    assert_eq!(ring.len(), 0);
}

#[test]
fn snapshot_pads_with_leading_silence() {
    let mut tap = Tap::new(vec![7i32, 8, 9]);
    while tap.next().is_some() {}
    let mut ring = SampleRing::new();
    tap.flush_into(&mut ring);
    assert_eq!(ring.snapshot(5, 0), vec![0, 0, 7, 8, 9]);
    assert_eq!(ring.snapshot(2, 0), vec![8, 9]);
}

#[test]
fn busy_ring_drops_an_overgrown_backlog_only() {
    let mut tap = Tap::new(vec![1u8; RING_CAP + 2]);
    for _ in 0..RING_CAP {
        tap.next();
    }
    tap.ring_busy();
    assert_eq!(tap.pending.len(), RING_CAP);
    tap.next();
    tap.ring_busy();
    assert_eq!(tap.pending.len(), 0);
    assert_eq!(tap.pos, RING_CAP + 1);
}

#[test]
fn playback_done_after_ten_empty_frames_once() {
    let mut w = PlaybackWatch::new();
    assert_eq!(w.on_frame(true), FrameAction::Idle);
    assert_eq!(w.on_frame(false), FrameAction::Analyze);
    for i in 1..DONE_FRAMES {
        assert_eq!(w.on_frame(true), FrameAction::Idle, "frame {i}");
    }
    assert_eq!(w.on_frame(true), FrameAction::Done);
    assert_eq!(w.on_frame(true), FrameAction::Idle);
    assert_eq!(w.on_frame(true), FrameAction::Idle);
}

#[test]
fn underrun_between_sentences_does_not_end_playback() {
    let mut w = PlaybackWatch::new();
    assert_eq!(w.on_frame(false), FrameAction::Analyze);
    for _ in 0..5 {
        assert_eq!(w.on_frame(true), FrameAction::Idle);
    }
    assert_eq!(w.on_frame(false), FrameAction::Analyze);
    for _ in 1..DONE_FRAMES {
        assert_eq!(w.on_frame(true), FrameAction::Idle);
    }
    assert_eq!(w.on_frame(true), FrameAction::Done);
}
