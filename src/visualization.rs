//! Reduction of a magnitude spectrum to a few display bands.
//!
//! Only the lower half of the spectrum is used (the upper half mirrors it).
//! When that half holds more bins than there are bands, it is cut into
//! `band_count` chunks of equal width (a remainder is dropped), each chunk is
//! summed, and the first two bands, which hold the dominating lowest
//! frequencies, are left out.
use vstd::prelude::*;

verus! {

/// Number of bins of a spectrum of `len` bins that banding uses.
pub open spec fn usable_len(len: int) -> int {
    len / 2
}

/// Leading bands that are never shown.
pub const SKIPPED_BANDS: usize = 2;

/// Number of bands shown for `usable` bins cut into `band_count` bands.
pub open spec fn shown_band_count(usable: int, band_count: int) -> int {
    if usable > band_count && band_count > SKIPPED_BANDS {
        band_count - SKIPPED_BANDS
    } else {
        0
    }
}

/// Bin range `[start, end)` of the `j`-th shown band.
pub open spec fn band_range(usable: int, band_count: int, j: int) -> (int, int) {
    let w = usable / band_count;
    ((j + SKIPPED_BANDS) * w, (j + SKIPPED_BANDS + 1) * w)
}

/// Sum of a sequence of magnitudes.
pub open spec fn magnitude_sum(s: Seq<u64>) -> int
    decreases s.len(),
{
    if s.len() == 0 {
        0
    } else {
        magnitude_sum(s.drop_last()) + s.last()
    }
}

proof fn lemma_sum_nonnegative(s: Seq<u64>)
    ensures
        magnitude_sum(s) >= 0,
    decreases s.len(),
{
    if s.len() > 0 {
        lemma_sum_nonnegative(s.drop_last());
    }
}

/// A sum of magnitudes, capped at the largest `u64`.
pub open spec fn capped_sum(s: Seq<u64>) -> u64 {
    if magnitude_sum(s) > u64::MAX {
        u64::MAX
    } else {
        magnitude_sum(s) as u64
    }
}

proof fn lemma_band_fits(usable: int, band_count: int, j: int)
    requires
        0 < band_count,
        0 <= usable,
        0 <= j,
        j + SKIPPED_BANDS < band_count,
    ensures
        0 <= band_range(usable, band_count, j).0 <= band_range(usable, band_count, j).1 <= usable,
{
    let w = usable / band_count;
    let i = j + SKIPPED_BANDS;
    assert(0 <= w) by (nonlinear_arith)
        requires
            0 < band_count,
            0 <= usable,
            w == usable / band_count,
    ;
    assert(i * w <= (i + 1) * w) by (nonlinear_arith)
        requires
            0 <= w,
            0 <= i,
    ;
    assert((i + 1) * w <= band_count * w) by (nonlinear_arith)
        requires
            0 <= w,
            i + 1 <= band_count,
    ;
    assert(band_count * w <= usable) by (nonlinear_arith)
        requires
            0 < band_count,
            0 <= usable,
            w == usable / band_count,
    ;
    assert(0 <= i * w) by (nonlinear_arith)
        requires
            0 <= w,
            0 <= i,
    ;
}

/// Bin ranges of the bands shown for a spectrum of `spectrum_len` bins, in
/// order: the ranges of [`band_range`] for each shown band.
pub fn band_ranges(spectrum_len: usize, band_count: usize) -> (r: Vec<(usize, usize)>)
    ensures
        r@.len() == shown_band_count(usable_len(spectrum_len as int), band_count as int),
        forall|j: int|
            0 <= j < r@.len() ==> (r@[j].0 as int, r@[j].1 as int) == band_range(
                usable_len(spectrum_len as int),
                band_count as int,
                j,
            ),
        forall|j: int| 0 <= j < r@.len() ==> (#[trigger] r@[j]).0 <= r@[j].1 <= usable_len(spectrum_len as int),
{
    let usable = spectrum_len / 2;
    let mut ranges: Vec<(usize, usize)> = Vec::new();
    if usable > band_count && band_count > SKIPPED_BANDS {
        let width = usable / band_count;
        let mut i: usize = SKIPPED_BANDS;
        while i < band_count
            invariant
                SKIPPED_BANDS <= i <= band_count,
                usable == spectrum_len / 2,
                usable > band_count > SKIPPED_BANDS,
                width == usable / band_count,
                ranges@.len() == i - SKIPPED_BANDS,
                forall|j: int|
                    0 <= j < ranges@.len() ==> (ranges@[j].0 as int, ranges@[j].1 as int)
                        == band_range(usable as int, band_count as int, j),
                forall|j: int| 0 <= j < ranges@.len() ==> (#[trigger] ranges@[j]).0 <= ranges@[j].1 <= usable,
            decreases band_count - i,
        {
            proof {
                lemma_band_fits(usable as int, band_count as int, i - SKIPPED_BANDS);
            }
            ranges.push((i * width, (i + 1) * width));
            i = i + 1;
        }
    }
    ranges
}

/// Sum of `spectrum[start..end]`, capped at the largest `u64`.
fn sum_range(spectrum: &Vec<u64>, start: usize, end: usize) -> (r: u64)
    requires
        start <= end <= spectrum@.len(),
    ensures
        r == capped_sum(spectrum@.subrange(start as int, end as int)),
{
    let mut acc: u64 = 0;
    let mut t: usize = start;
    while t < end
        invariant
            start <= t <= end <= spectrum@.len(),
            acc == capped_sum(spectrum@.subrange(start as int, t as int)),
        decreases end - t,
    {
        let ghost s0 = spectrum@.subrange(start as int, t as int);
        let ghost s1 = spectrum@.subrange(start as int, t as int + 1);
        proof {
            assert(s1.drop_last() =~= s0);
            assert(s1.last() == spectrum@[t as int]);
            assert(magnitude_sum(s1) == magnitude_sum(s0) + spectrum@[t as int]);
            lemma_sum_nonnegative(s0);
        }
        let x = spectrum[t];
        acc = acc.saturating_add(x);
        t = t + 1;
    }
    acc
}

/// Bar heights of the bands shown for a spectrum: for each shown band, the
/// capped sum of its bins.
pub open spec fn bar_heights(spectrum: Seq<u64>, band_count: int) -> Seq<u64> {
    let usable = usable_len(spectrum.len() as int);
    Seq::new(
        shown_band_count(usable, band_count) as nat,
        |j: int|
            capped_sum(
                spectrum.subrange(band_range(usable, band_count, j).0, band_range(usable, band_count, j).1),
            ),
    )
}

/// Bar-chart state: one labelled bar per shown band.
pub struct BarChartData {
    /// Label and height of each bar.
    pub audio_spectrum: Vec<(&'static str, u64)>,
    /// Number of bands the usable spectrum is cut into.
    pub audio_spectrum_band_count: usize,
}

impl BarChartData {
    /// An empty chart for `bar_count` bands.
    pub fn new(bar_count: usize) -> (r: BarChartData)
        ensures
            r.audio_spectrum@.len() == 0,
            r.audio_spectrum_band_count == bar_count,
    {
        BarChartData { audio_spectrum: Vec::new(), audio_spectrum_band_count: bar_count }
    }

    /// Replaces the bars with those of `raw_spectrum`: one unlabelled bar per
    /// shown band, as high as [`bar_heights`] gives; no bar when the usable
    /// spectrum does not exceed the band count.
    pub fn update_spectrum(&mut self, raw_spectrum: Vec<u64>)
        ensures
            final(self).audio_spectrum_band_count == old(self).audio_spectrum_band_count,
            final(self).audio_spectrum@.len() == bar_heights(
                raw_spectrum@,
                old(self).audio_spectrum_band_count as int,
            ).len(),
            forall|j: int|
                0 <= j < final(self).audio_spectrum@.len() ==> {
                    &&& final(self).audio_spectrum@[j].0@ == ""@
                    &&& final(self).audio_spectrum@[j].1 == bar_heights(
                        raw_spectrum@,
                        old(self).audio_spectrum_band_count as int,
                    )[j]
                },
    {
        let ghost heights = bar_heights(raw_spectrum@, self.audio_spectrum_band_count as int);
        let ranges = band_ranges(raw_spectrum.len(), self.audio_spectrum_band_count);
        let mut bars: Vec<(&'static str, u64)> = Vec::new();
        let mut j: usize = 0;
        while j < ranges.len()
            invariant
                j <= ranges@.len(),
                ranges@.len() == heights.len(),
                heights == bar_heights(raw_spectrum@, self.audio_spectrum_band_count as int),
                forall|k: int|
                    0 <= k < ranges@.len() ==> (ranges@[k].0 as int, ranges@[k].1 as int) == band_range(
                        usable_len(raw_spectrum@.len() as int),
                        self.audio_spectrum_band_count as int,
                        k,
                    ),
                forall|k: int|
                    0 <= k < ranges@.len() ==> (#[trigger] ranges@[k]).0 <= ranges@[k].1 <= usable_len(
                        raw_spectrum@.len() as int,
                    ),
                bars@.len() == j,
                forall|k: int| 0 <= k < j ==> (#[trigger] bars@[k]).0@ == ""@ && bars@[k].1 == heights[k],
            decreases ranges@.len() - j,
        {
            let (start, end) = ranges[j];
            let height = sum_range(&raw_spectrum, start, end);
            bars.push(("", height));
            j = j + 1;
        }
        self.audio_spectrum = bars;
    }
}

/// Number of bands shown: with more usable bins than bands, every band but
/// the two skipped ones; otherwise none. Where the usable length `l` and the
/// band count `b` satisfy `l / b == b`, that is `l / b - 2` bands.
pub proof fn shown_band_count_law(l: int, b: int)
    requires
        0 <= l,
        0 < b,
    ensures
        l <= b ==> shown_band_count(l, b) == 0,
        l > b && b > SKIPPED_BANDS ==> shown_band_count(l, b) == b - 2,
        l > b && l / b == b ==> shown_band_count(l, b) == l / b - 2,
{
    if b == 1 {
        assert(l / b == l) by (nonlinear_arith)
            requires
                b == 1,
        ;
    }
}

} // verus!
