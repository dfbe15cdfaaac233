use vstd::prelude::*;
use std::collections::VecDeque;
use crate::value::SCALE;
use crate::widgets::geometry::{Bounds, PathPoint};

verus! {

/// A message to a waveform view.
#[derive(Clone, Copy, Debug, PartialEq, Eq, Structural)]
pub enum WaveformViewEvent {
    /// A new sample has arrived, in steps of `1 / SCALE` of full level.
    AddSample(i32),
}

/// The abstract state of a waveform view: the samples it shows, oldest
/// first, and how many it keeps.
pub struct WaveformState {
    pub samples: Seq<i32>,
    pub max_samples: usize,
}

/// The samples after one more has arrived: a full window drops its oldest
/// sample first.
pub open spec fn pushed(samples: Seq<i32>, max_samples: int, sample: i32) -> Seq<i32> {
    if samples.len() >= max_samples && samples.len() > 0 {
        samples.subrange(1, samples.len() as int).push(sample)
    } else {
        samples.push(sample)
    }
}

/// The window holds as many samples as it keeps. A view that keeps none
/// still shows the last sample that arrived.
pub open spec fn window_full(state: WaveformState) -> bool {
    if state.max_samples == 0 {
        state.samples.len() <= 1
    } else {
        state.samples.len() == state.max_samples
    }
}

/// How far a sample swings from the middle: its magnitude, at most full
/// level.
pub open spec fn level(sample: i32) -> int {
    let size = if sample < 0 {
        -(sample as int)
    } else {
        sample as int
    };
    if size > SCALE {
        SCALE as int
    } else {
        size
    }
}

/// How far sample `i` lies from the left edge, in output parts: the
/// samples are spread evenly over the width, the first on the left edge
/// and the last on the right. A view that keeps fewer than two samples
/// draws them on the left edge.
pub open spec fn x_offset(i: int, max_samples: int, w: int) -> int {
    if max_samples >= 2 {
        (40 * (i * w)) / (max_samples - 1)
    } else {
        0
    }
}

/// How far a sample's outline lies from the middle line, in output
/// parts: its level's share of half the height.
pub open spec fn swing(sample: i32, h: int) -> int {
    (20 * (h * level(sample))) / (SCALE as int)
}

/// The middle line of a box, in output parts.
pub open spec fn mid_y(bounds: Bounds) -> int {
    40 * bounds.y + 20 * bounds.h
}

/// The outline's point above the middle line for sample `i`.
pub open spec fn top_point(state: WaveformState, i: int, bounds: Bounds) -> PathPoint {
    PathPoint {
        x: (40 * bounds.x + x_offset(i, state.max_samples as int, bounds.w as int)) as i64,
        y: (mid_y(bounds) - swing(state.samples[i], bounds.h as int)) as i64,
    }
}

/// The outline's point below the middle line for sample `i`.
pub open spec fn bottom_point(state: WaveformState, i: int, bounds: Bounds) -> PathPoint {
    PathPoint {
        x: (40 * bounds.x + x_offset(i, state.max_samples as int, bounds.w as int)) as i64,
        y: (mid_y(bounds) + swing(state.samples[i], bounds.h as int)) as i64,
    }
}

/// The closed outline of the waveform: above the middle line from the
/// oldest sample to the newest, then back below it.
pub open spec fn outline(state: WaveformState, bounds: Bounds) -> Seq<PathPoint> {
    Seq::new(
        2 * state.samples.len(),
        |k: int|
            if k < state.samples.len() {
                top_point(state, k, bounds)
            } else {
                bottom_point(state, 2 * state.samples.len() - 1 - k, bounds)
            },
    )
}

/// What is drawn for a waveform.
#[derive(Debug, PartialEq, Eq)]
pub struct WaveformDrawing {
    /// The closed outline, to be filled and stroked.
    pub outline: Vec<PathPoint>,
    /// Where the middle line starts, on the left edge.
    pub center_from: PathPoint,
    /// Where the middle line ends, on the right edge.
    pub center_to: PathPoint,
}

/// What is drawn for a waveform in a box that is not empty.
pub open spec fn drawing_matches(
    drawing: WaveformDrawing,
    state: WaveformState,
    bounds: Bounds,
) -> bool {
    &&& drawing.outline@ == outline(state, bounds)
    &&& drawing.center_from == (PathPoint { x: (40 * bounds.x) as i64, y: mid_y(bounds) as i64 })
    &&& drawing.center_to == (PathPoint {
        x: (40 * bounds.x + 40 * bounds.w) as i64,
        y: mid_y(bounds) as i64,
    })
}

/// The horizontal offset of a sample stays within the width.
pub proof fn lemma_x_offset_bounds(i: int, max_samples: int, w: int)
    requires
        0 <= i,
        0 <= w,
        max_samples >= 2 ==> i <= max_samples - 1,
    ensures
        0 <= x_offset(i, max_samples, w) <= 40 * w,
{
    if max_samples >= 2 {
        let d = max_samples - 1;
        assert(0 <= i * w <= d * w) by (nonlinear_arith)
            requires
                0 <= i <= d,
                0 <= w,
        ;
        assert(0 <= (40 * (i * w)) / d <= 40 * w) by (nonlinear_arith)
            requires
                0 <= i * w <= d * w,
                d >= 1,
                0 <= w,
        ;
    }
}

/// The swing of a sample stays within half the height.
pub proof fn lemma_swing_bounds(sample: i32, h: int)
    requires
        0 <= h,
    ensures
        0 <= swing(sample, h) <= 20 * h,
{
    let l = level(sample);
    assert(0 <= h * l <= h * 1_000_000) by (nonlinear_arith)
        requires
            0 <= l <= 1_000_000,
            0 <= h,
    ;
}

/// A scrolling view of the most recent samples of a signal.
#[derive(Debug)]
pub struct WaveformView {
    buffer: VecDeque<i32>,
    max_samples: usize,
}

impl View for WaveformView {
    type V = WaveformState;

    closed spec fn view(&self) -> WaveformState {
        WaveformState { samples: self.buffer@, max_samples: self.max_samples }
    }
}

impl WaveformView {
    /// A view that keeps `max_samples` samples, all silent at first.
    pub fn new(max_samples: usize) -> (view: WaveformView)
        ensures
            view@.max_samples == max_samples,
            view@.samples == Seq::new(max_samples as nat, |i: int| 0i32),
            window_full(view@),
    {
        let mut buffer: VecDeque<i32> = VecDeque::new();
        let mut i: usize = 0;
        while i < max_samples
            invariant
                i <= max_samples,
                buffer@ == Seq::new(i as nat, |k: int| 0i32),
            decreases max_samples - i,
        {
            buffer.push_back(0);
            i = i + 1;
        }
        WaveformView { buffer, max_samples }
    }

    /// How many samples the view keeps.
    pub fn max_samples(&self) -> (n: usize)
        ensures
            n == self@.max_samples,
    {
        self.max_samples
    }

    /// How many samples the view shows.
    pub fn len(&self) -> (n: usize)
        ensures
            n == self@.samples.len(),
    {
        self.buffer.len()
    }

    /// Whether the window holds as many samples as it keeps, which is what
    /// drawing asks for. Every view made by `new` and fed by
    /// `push_sample` does.
    pub fn is_window_full(&self) -> (full: bool)
        ensures
            full == window_full(self@),
    {
        if self.max_samples == 0 {
            self.buffer.len() <= 1
        } else {
            self.buffer.len() == self.max_samples
        }
    }

    /// The sample at position `i`, counted from the oldest.
    pub fn sample(&self, i: usize) -> (s: Option<i32>)
        ensures
            s == (if i < self@.samples.len() {
                Some(self@.samples[i as int])
            } else {
                None
            }),
    {
        if i < self.buffer.len() {
            Some(self.buffer[i])
        } else {
            None
        }
    }

    /// Takes in one more sample. A full window drops its oldest sample
    /// first, so the view goes on showing the most recent ones.
    pub fn push_sample(&mut self, sample: i32)
        ensures
            final(self)@.max_samples == old(self)@.max_samples,
            final(self)@.samples == pushed(
                old(self)@.samples,
                old(self)@.max_samples as int,
                sample,
            ),
            window_full(old(self)@) ==> window_full(final(self)@),
    {
        if self.buffer.len() >= self.max_samples {
            self.buffer.pop_front();
        }
        self.buffer.push_back(sample);
    }

    /// Takes in the sample that the message carries and says that the
    /// view has to be drawn again.
    pub fn event(&mut self, event: &WaveformViewEvent) -> (redraw: bool)
        ensures
            final(self)@.max_samples == old(self)@.max_samples,
            final(self)@.samples == pushed(
                old(self)@.samples,
                old(self)@.max_samples as int,
                event->AddSample_0,
            ),
            window_full(old(self)@) ==> window_full(final(self)@),
            redraw,
    {
        match *event {
            WaveformViewEvent::AddSample(sample) => {
                self.push_sample(sample);
                true
            },
        }
    }

    /// What to draw for the view inside `bounds`: nothing in an empty
    /// box; otherwise the closed outline of the samples, mirrored about
    /// the middle line, and the middle line itself.
    pub fn draw(&self, bounds: Bounds) -> (drawing: Option<WaveformDrawing>)
        requires
            window_full(self@),
        ensures
            drawing is None <==> bounds.w == 0 || bounds.h == 0,
            drawing matches Some(d) ==> drawing_matches(d, self@, bounds),
    {
        if bounds.w == 0 || bounds.h == 0 {
            return None;
        }
        let len = self.buffer.len();
        let left: i64 = 40 * (bounds.x as i64);
        let middle: i64 = 40 * (bounds.y as i64) + 20 * (bounds.h as i64);
        let mut points: Vec<PathPoint> = Vec::new();
        let mut i: usize = 0;
        while i < len
            invariant
                window_full(self@),
                len == self@.samples.len(),
                i <= len,
                left == 40 * bounds.x,
                middle == mid_y(bounds),
                points@.len() == i,
                forall|k: int| 0 <= k < i ==> points@[k] == top_point(self@, k, bounds),
            decreases len - i,
        {
            proof {
                lemma_x_offset_bounds(i as int, self.max_samples as int, bounds.w as int);
                lemma_swing_bounds(self.buffer@[i as int], bounds.h as int);
            }
            let x: i64 = left + offset_of(i, self.max_samples, bounds.w);
            let y: i64 = middle - swing_of(self.buffer[i], bounds.h);
            points.push(PathPoint { x, y });
            i = i + 1;
        }
        let mut j: usize = len;
        while j > 0
            invariant
                window_full(self@),
                len == self@.samples.len(),
                j <= len,
                left == 40 * bounds.x,
                middle == mid_y(bounds),
                points@.len() == len + (len - j),
                forall|k: int| 0 <= k < len ==> points@[k] == top_point(self@, k, bounds),
                forall|k: int|
                    len <= k < points@.len() ==> points@[k] == bottom_point(
                        self@,
                        2 * len - 1 - k,
                        bounds,
                    ),
            decreases j,
        {
            j = j - 1;
            proof {
                lemma_x_offset_bounds(j as int, self.max_samples as int, bounds.w as int);
                lemma_swing_bounds(self.buffer@[j as int], bounds.h as int);
            }
            let x: i64 = left + offset_of(j, self.max_samples, bounds.w);
            let y: i64 = middle + swing_of(self.buffer[j], bounds.h);
            points.push(PathPoint { x, y });
        }
        assert(points@ =~= outline(self@, bounds));
        let right: i64 = left + 40 * (bounds.w as i64);
        Some(
            WaveformDrawing {
                outline: points,
                center_from: PathPoint { x: left, y: middle },
                center_to: PathPoint { x: right, y: middle },
            },
        )
    }
}

/// The horizontal offset of sample `i`, in output parts.
fn offset_of(i: usize, max_samples: usize, w: u32) -> (offset: i64)
    requires
        max_samples >= 2 ==> i <= max_samples - 1,
    ensures
        offset == x_offset(i as int, max_samples as int, w as int),
        0 <= offset <= 40 * w,
{
    proof {
        lemma_x_offset_bounds(i as int, max_samples as int, w as int);
    }
    if max_samples >= 2 {
        let gaps: u128 = (max_samples - 1) as u128;
        assert(0 <= i * w <= 0xffff_ffff_ffff_ffff * 0xffff_ffff) by (nonlinear_arith)
            requires
                0 <= i <= 0xffff_ffff_ffff_ffff,
                0 <= w <= 0xffff_ffff,
        ;
        let along: u128 = (i as u128) * (w as u128);
        let scaled: u128 = 40 * along;
        (scaled / gaps) as i64
    } else {
        0
    }
}

/// The swing of a sample, in output parts.
fn swing_of(sample: i32, h: u32) -> (parts: i64)
    ensures
        parts == swing(sample, h as int),
        0 <= parts <= 20 * h,
{
    proof {
        lemma_swing_bounds(sample, h as int);
    }
    let size: i64 = if sample < 0 {
        -(sample as i64)
    } else {
        sample as i64
    };
    let level: i64 = if size > SCALE as i64 {
        SCALE as i64
    } else {
        size
    };
    assert(0 <= h * level <= 0xffff_ffff * 1_000_000) by (nonlinear_arith)
        requires
            0 <= level <= 1_000_000,
            0 <= h <= 0xffff_ffff,
    ;
    let share: i64 = (h as i64) * level;
    (20 * share) / (SCALE as i64)
}

} // verus!
