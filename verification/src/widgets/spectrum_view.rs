use vstd::prelude::*;
use crate::widgets::geometry::Bounds;

verus! {

/// One bar of a spectrum, in `1 / LENGTH_PARTS` of a layout unit: its
/// left edge, its top edge, its width and its height.
#[derive(Clone, Copy, Debug, PartialEq, Eq, Structural)]
pub struct Bar {
    pub x: i64,
    pub y: i64,
    pub width: i64,
    pub height: i64,
}

/// The largest of the first `n` magnitudes, and zero at least.
pub open spec fn peak_upto(data: Seq<i32>, n: int) -> int
    decreases n,
{
    if n <= 0 {
        0
    } else if data[n - 1] > peak_upto(data, n - 1) {
        data[n - 1] as int
    } else {
        peak_upto(data, n - 1)
    }
}

/// The largest magnitude of all, and zero at least.
pub open spec fn peak(data: Seq<i32>) -> int {
    peak_upto(data, data.len() as int)
}

/// The width of one bar when `bins` bars share the width `w`.
pub open spec fn bin_width(bins: int, w: int) -> int {
    (40 * w) / bins
}

/// How far bar `i` lies from the left edge.
pub open spec fn bar_offset(i: int, bins: int, w: int) -> int {
    (40 * (i * w)) / bins
}

/// The height of a bar: the magnitude's share of the peak, taken of the
/// full height. Nothing is drawn for a magnitude below zero, nor when all
/// magnitudes are zero.
pub open spec fn bar_height(magnitude: int, peak: int, h: int) -> int {
    if peak > 0 && magnitude > 0 {
        (40 * (h * magnitude)) / peak
    } else {
        0
    }
}

/// Bar `i` of the spectrum inside `bounds`, standing on the bottom edge.
pub open spec fn bar(data: Seq<i32>, i: int, bounds: Bounds) -> Bar {
    let height = bar_height(data[i] as int, peak(data), bounds.h as int);
    Bar {
        x: (40 * bounds.x + bar_offset(i, data.len() as int, bounds.w as int)) as i64,
        y: (40 * bounds.y + 40 * bounds.h - height) as i64,
        width: bin_width(data.len() as int, bounds.w as int) as i64,
        height: height as i64,
    }
}

/// The bars of the spectrum, left to right: none in an empty box, one for
/// each magnitude otherwise.
pub open spec fn bars(data: Seq<i32>, bounds: Bounds) -> Seq<Bar> {
    if bounds.w == 0 || bounds.h == 0 {
        Seq::empty()
    } else {
        Seq::new(data.len(), |i: int| bar(data, i, bounds))
    }
}

/// No magnitude exceeds the peak, and the peak is one of the magnitudes
/// unless none is positive.
pub proof fn lemma_peak_bounds(data: Seq<i32>, n: int)
    requires
        0 <= n <= data.len(),
    ensures
        0 <= peak_upto(data, n) <= i32::MAX,
        forall|k: int| 0 <= k < n ==> data[k] <= peak_upto(data, n),
    decreases n,
{
    if n > 0 {
        lemma_peak_bounds(data, n - 1);
    }
}

/// A bar is no higher than the box.
pub proof fn lemma_bar_height_bounds(magnitude: int, peak: int, h: int)
    requires
        magnitude <= peak,
        0 <= h,
    ensures
        0 <= bar_height(magnitude, peak, h) <= 40 * h,
{
    if peak > 0 && magnitude > 0 {
        assert(0 <= h * magnitude <= h * peak) by (nonlinear_arith)
            requires
                0 < magnitude <= peak,
                0 <= h,
        ;
        assert(0 <= (40 * (h * magnitude)) / peak <= 40 * h) by (nonlinear_arith)
            requires
                0 <= h * magnitude <= h * peak,
                peak > 0,
                0 <= h,
        ;
    }
}

/// A bar starts within the box.
pub proof fn lemma_bar_offset_bounds(i: int, bins: int, w: int)
    requires
        0 <= i < bins,
        0 <= w,
    ensures
        0 <= bar_offset(i, bins, w) <= 40 * w,
        0 <= bin_width(bins, w) <= 40 * w,
{
    assert(0 <= i * w <= bins * w) by (nonlinear_arith)
        requires
            0 <= i < bins,
            0 <= w,
    ;
    assert(0 <= (40 * (i * w)) / bins <= 40 * w) by (nonlinear_arith)
        requires
            0 <= i * w <= bins * w,
            bins > 0,
            0 <= w,
    ;
    assert(0 <= (40 * w) / bins <= 40 * w) by (nonlinear_arith)
        requires
            bins > 0,
            0 <= w,
    ;
}

/// A bar chart of the magnitudes of a spectrum, scaled so that the
/// largest fills the height.
#[derive(Debug)]
pub struct SpectrumView {
    data: Vec<i32>,
}

impl View for SpectrumView {
    type V = Seq<i32>;

    closed spec fn view(&self) -> Seq<i32> {
        self.data@
    }
}

impl SpectrumView {
    /// A view of the given magnitudes, one per bin.
    pub fn new(data: Vec<i32>) -> (view: SpectrumView)
        ensures
            view@ == data@,
    {
        SpectrumView { data }
    }

    /// The largest magnitude, and zero at least.
    pub fn peak(&self) -> (max_val: i32)
        ensures
            max_val == peak(self@),
    {
        let mut max_val: i32 = 0;
        let mut i: usize = 0;
        while i < self.data.len()
            invariant
                i <= self.data@.len(),
                max_val == peak_upto(self.data@, i as int),
            decreases self.data@.len() - i,
        {
            if self.data[i] > max_val {
                max_val = self.data[i];
            }
            i = i + 1;
        }
        max_val
    }

    /// The bars to draw inside `bounds`, left to right.
    pub fn draw(&self, bounds: Bounds) -> (out: Vec<Bar>)
        ensures
            out@ == bars(self@, bounds),
    {
        let mut out: Vec<Bar> = Vec::new();
        if bounds.w == 0 || bounds.h == 0 || self.data.len() == 0 {
            assert(out@ =~= bars(self@, bounds));
            return out;
        }
        let max_val = self.peak();
        let bins = self.data.len();
        proof {
            lemma_bar_offset_bounds(0, bins as int, bounds.w as int);
        }
        let width: i64 = ((40 * (bounds.w as u64)) / (bins as u64)) as i64;
        let left: i64 = 40 * (bounds.x as i64);
        let bottom: i64 = 40 * (bounds.y as i64) + 40 * (bounds.h as i64);
        let mut i: usize = 0;
        while i < bins
            invariant
                bins == self.data@.len(),
                bins > 0,
                bounds.w != 0 && bounds.h != 0,
                i <= bins,
                max_val == peak(self@),
                width == bin_width(bins as int, bounds.w as int),
                left == 40 * bounds.x,
                bottom == 40 * bounds.y + 40 * bounds.h,
                out@.len() == i,
                forall|k: int| 0 <= k < i ==> out@[k] == bar(self@, k, bounds),
            decreases bins - i,
        {
            let magnitude = self.data[i];
            proof {
                lemma_peak_bounds(self.data@, bins as int);
                lemma_bar_height_bounds(magnitude as int, max_val as int, bounds.h as int);
                lemma_bar_offset_bounds(i as int, bins as int, bounds.w as int);
            }
            let height: i64 = if max_val > 0 && magnitude > 0 {
                assert(0 <= bounds.h * magnitude <= 0xffff_ffff * 0x7fff_ffff) by (nonlinear_arith)
                    requires
                        0 <= magnitude <= 0x7fff_ffff,
                        0 <= bounds.h <= 0xffff_ffff,
                ;
                let share: u128 = (bounds.h as u128) * (magnitude as u128);
                ((40 * share) / (max_val as u128)) as i64
            } else {
                0
            };
            assert(0 <= i * bounds.w <= 0xffff_ffff_ffff_ffff * 0xffff_ffff) by (nonlinear_arith)
                requires
                    0 <= i <= 0xffff_ffff_ffff_ffff,
                    0 <= bounds.w <= 0xffff_ffff,
            ;
            let along: u128 = (i as u128) * (bounds.w as u128);
            let offset: i64 = ((40 * along) / (bins as u128)) as i64;
            out.push(Bar { x: left + offset, y: bottom - height, width, height });
            i = i + 1;
        }
        assert(out@ =~= bars(self@, bounds));
        out
    }
}

} // verus!
