//! The outline and the filled area of a histogram, as the moves and lines of
//! two paths among the data.

use vstd::prelude::*;
use polars::prelude::Column;
use crate::bounds::{Range, MAX_LABELS};
use crate::column::column_counts;
use crate::fixed::{spec_quot, ONE};
use crate::layout::Point;
use crate::series::{Counts, HistogramAxes};
use crate::ticks::interpolate;

verus! {

/// One step of a path.
#[derive(Clone, Copy, Debug, PartialEq, Eq, Structural)]
pub enum PathCommand {
    /// Lift the pen and set it down here.
    MoveTo(Point),
    /// Draw a straight line to here.
    LineTo(Point),
    /// Draw a straight line back to where the pen was set down.
    Close,
}

/// The height of a bar of `count` values, and `None` for a count that is
/// negative or beyond [`MAX_LABELS`].
pub open spec fn spec_height(count: Option<i64>) -> Option<i64> {
    match count {
        Some(c) if 0 <= c <= MAX_LABELS => Some((c * ONE) as i64),
        _ => None,
    }
}

/// The height of a bar of `count` values.
pub fn height(count: Option<i64>) -> (r: Option<i64>)
    ensures
        r == spec_height(count),
{
    match count {
        Some(c) => {
            if 0 <= c && c as u64 <= MAX_LABELS {
                Some(c * ONE)
            } else {
                None
            }
        },
        None => None,
    }
}

/// The left edge of bin `i` of `bins` bins of equal width that divide
/// `range`; the right edge of the last bin is the edge of index `bins`.
pub open spec fn spec_edge(range: Range, bins: nat, i: int) -> int {
    range.min + spec_quot(i * range.spec_size(), bins as int)
}

/// The two paths of a histogram while they are drawn.
pub struct Trace {
    /// The outline so far.
    pub outline: Seq<PathCommand>,
    /// The filled area so far.
    pub fill: Seq<PathCommand>,
    /// The height of the bar drawn last.
    pub prev: Option<i64>,
    /// The left edge of the run of bars that the outline is in.
    pub start: Option<i64>,
}

/// The paths before the first bar: both begin on the ground at the lower end
/// of the range.
pub open spec fn spec_begin(range: Range) -> Trace {
    let origin = Point { x: range.min, y: 0 };
    Trace {
        outline: seq![PathCommand::MoveTo(origin)],
        fill: seq![PathCommand::MoveTo(origin)],
        prev: None,
        start: None,
    }
}

/// The paths after one more bar, which reaches from `left` to `right` and
/// is `height` high.
///
/// The filled area rises or falls to the top of the bar and runs along it.
/// The outline gets to the left edge of the bar on the ground: with a line
/// where the bar is no higher than the one before, which was not empty, and
/// with a move otherwise; the first bar is reached with a line to its top.
/// From there the outline goes to the top of the bar, with a line where it
/// came with a move and with a move where it came with a line, and runs along
/// it. An empty bar has no top: the outline stays on the ground, and closes
/// the run of bars before it with a line back to where the run began.
pub open spec fn spec_bar(t: Trace, left: i64, right: i64, height: i64) -> Trace {
    let ground = Point { x: left, y: 0 };
    let top = Point { x: left, y: height };
    let end = Point { x: right, y: height };
    let arrived = match t.prev {
        Some(prev) => if height > prev || prev == 0 {
            if height != 0 {
                t.outline.push(PathCommand::MoveTo(ground)).push(PathCommand::LineTo(top))
            } else {
                t.outline.push(PathCommand::MoveTo(ground))
            }
        } else {
            if height != 0 {
                t.outline.push(PathCommand::LineTo(ground)).push(PathCommand::MoveTo(top))
            } else {
                t.outline.push(PathCommand::LineTo(ground))
            }
        },
        None => t.outline.push(PathCommand::LineTo(top)),
    };
    let fill = t.fill.push(PathCommand::LineTo(top)).push(PathCommand::LineTo(end));
    if height != 0 {
        Trace {
            outline: arrived.push(PathCommand::LineTo(end)),
            fill,
            prev: Some(height),
            start: if t.start.is_none() {
                Some(left)
            } else {
                t.start
            },
        }
    } else {
        match t.start {
            Some(start) => Trace {
                outline: arrived.push(PathCommand::LineTo(Point { x: start, y: 0 })),
                fill,
                prev: Some(height),
                start: None,
            },
            None => Trace { outline: arrived, fill, prev: Some(height), start: None },
        }
    }
}

/// The paths after the first `n` bins. A bin without height is passed over.
pub open spec fn spec_trace(range: Range, heights: Seq<Option<i64>>, n: nat) -> Trace
    decreases n,
{
    if n == 0 {
        spec_begin(range)
    } else {
        let before = spec_trace(range, heights, (n - 1) as nat);
        match heights[n - 1] {
            Some(height) => spec_bar(
                before,
                spec_edge(range, heights.len(), n - 1) as i64,
                spec_edge(range, heights.len(), n as int) as i64,
                height,
            ),
            None => before,
        }
    }
}

/// The finished outline: down to the ground at the upper end of the range,
/// and along the ground back to where the last run of bars began.
pub open spec fn spec_outline(range: Range, heights: Seq<Option<i64>>) -> Seq<PathCommand> {
    let t = spec_trace(range, heights, heights.len());
    let down = t.outline.push(PathCommand::LineTo(Point { x: range.max, y: 0 }));
    match t.start {
        Some(start) => down.push(PathCommand::LineTo(Point { x: start, y: 0 })),
        None => down,
    }
}

/// The finished area: down to the ground at the upper end of the range, and
/// closed.
pub open spec fn spec_fill(range: Range, heights: Seq<Option<i64>>) -> Seq<PathCommand> {
    let t = spec_trace(range, heights, heights.len());
    t.fill.push(PathCommand::LineTo(Point { x: range.max, y: 0 })).push(PathCommand::Close)
}

/// The outline and the filled area of a histogram.
pub struct HistogramPaths {
    pub outline: Vec<PathCommand>,
    pub fill: Vec<PathCommand>,
}

/// The outline and the filled area of the histogram whose bins divide
/// `range` and have the given heights.
pub fn histogram_paths(range: Range, heights: &Vec<Option<i64>>) -> (r: HistogramPaths)
    ensures
        r.outline@ == spec_outline(range, heights@),
        r.fill@ == spec_fill(range, heights@),
{
    let origin = Point { x: range.min, y: 0 };
    let mut outline: Vec<PathCommand> = Vec::new();
    let mut fill: Vec<PathCommand> = Vec::new();
    outline.push(PathCommand::MoveTo(origin));
    fill.push(PathCommand::MoveTo(origin));
    let mut prev: Option<i64> = None;
    let mut start: Option<i64> = None;
    let bins = heights.len();
    let mut i: usize = 0;
    assert(outline@ =~= spec_begin(range).outline);
    assert(fill@ =~= spec_begin(range).fill);
    while i < bins
        invariant
            bins == heights.len(),
            i <= bins,
            outline@ == spec_trace(range, heights@, i as nat).outline,
            fill@ == spec_trace(range, heights@, i as nat).fill,
            prev == spec_trace(range, heights@, i as nat).prev,
            start == spec_trace(range, heights@, i as nat).start,
        decreases bins - i,
    {
        let ghost before = spec_trace(range, heights@, i as nat);
        match heights[i] {
            None => {},
            Some(height) => {
                let left = interpolate(range.min, range.max, i, bins);
                let right = interpolate(range.min, range.max, i + 1, bins);
                let ground = Point { x: left, y: 0 };
                let top = Point { x: left, y: height };
                let end = Point { x: right, y: height };
                match prev {
                    Some(prev_height) => {
                        if height > prev_height || prev_height == 0 {
                            outline.push(PathCommand::MoveTo(ground));
                            if height != 0 {
                                outline.push(PathCommand::LineTo(top));
                            }
                        } else {
                            outline.push(PathCommand::LineTo(ground));
                            if height != 0 {
                                outline.push(PathCommand::MoveTo(top));
                            }
                        }
                    },
                    None => {
                        outline.push(PathCommand::LineTo(top));
                    },
                }
                prev = Some(height);
                fill.push(PathCommand::LineTo(top));
                fill.push(PathCommand::LineTo(end));
                if height != 0 {
                    outline.push(PathCommand::LineTo(end));
                    if start.is_none() {
                        start = Some(left);
                    }
                } else {
                    match start {
                        Some(start_x) => {
                            outline.push(PathCommand::LineTo(Point { x: start_x, y: 0 }));
                            start = None;
                        },
                        None => {},
                    }
                }
                assert(outline@ =~= spec_bar(before, left, right, height).outline);
                assert(fill@ =~= spec_bar(before, left, right, height).fill);
            },
        }
        i = i + 1;
    }
    fill.push(PathCommand::LineTo(Point { x: range.max, y: 0 }));
    fill.push(PathCommand::Close);
    outline.push(PathCommand::LineTo(Point { x: range.max, y: 0 }));
    match start {
        Some(start_x) => {
            outline.push(PathCommand::LineTo(Point { x: start_x, y: 0 }));
        },
        None => {},
    }
    HistogramPaths { outline, fill }
}

/// Half the width of a bar of a bar chart, of which each has a unit to
/// itself.
pub const BAR_HALF_WIDTH: i64 = 300_000;

/// The bar at index `i`, as tall as `value`: from the ground up its left
/// side, along its top, down its right side and back along the ground.
pub open spec fn spec_bar_at(i: int, value: i64) -> Seq<PathCommand> {
    let left = (i * ONE - BAR_HALF_WIDTH) as i64;
    let right = (i * ONE + BAR_HALF_WIDTH) as i64;
    seq![
        PathCommand::MoveTo(Point { x: left, y: 0 }),
        PathCommand::LineTo(Point { x: left, y: value }),
        PathCommand::LineTo(Point { x: right, y: value }),
        PathCommand::LineTo(Point { x: right, y: 0 }),
        PathCommand::LineTo(Point { x: left, y: 0 }),
    ]
}

/// The bars of the first `n` values, one after the other. A value that is
/// `None` has no bar.
pub open spec fn spec_bars(values: Seq<Option<i64>>, n: nat) -> Seq<PathCommand>
    decreases n,
{
    if n == 0 {
        Seq::empty()
    } else {
        let before = spec_bars(values, (n - 1) as nat);
        match values[n - 1] {
            Some(value) => before + spec_bar_at(n - 1, value),
            None => before,
        }
    }
}

/// The bars of a bar chart: the bar of the value at index `i` is centred on
/// `i`.
pub fn bar_path(values: &Vec<Option<i64>>) -> (r: Vec<PathCommand>)
    requires
        values.len() <= MAX_LABELS,
    ensures
        r@ == spec_bars(values@, values.len() as nat),
{
    let mut path: Vec<PathCommand> = Vec::new();
    let mut i: usize = 0;
    while i < values.len()
        invariant
            i <= values.len() <= MAX_LABELS,
            path@ == spec_bars(values@, i as nat),
        decreases values.len() - i,
    {
        match values[i] {
            Some(value) => {
                let left = (i as i64) * ONE - BAR_HALF_WIDTH;
                let right = (i as i64) * ONE + BAR_HALF_WIDTH;
                path.push(PathCommand::MoveTo(Point { x: left, y: 0 }));
                path.push(PathCommand::LineTo(Point { x: left, y: value }));
                path.push(PathCommand::LineTo(Point { x: right, y: value }));
                path.push(PathCommand::LineTo(Point { x: right, y: 0 }));
                path.push(PathCommand::LineTo(Point { x: left, y: 0 }));
                assert(path@ =~= spec_bars(values@, i as nat) + spec_bar_at(i as int, value));
            },
            None => {},
        }
        i = i + 1;
    }
    path
}

/// The height of the bar of a bin that holds `count` values, and `None` for
/// a count beyond [`MAX_LABELS`].
pub open spec fn spec_bin_height(count: u64) -> Option<i64> {
    if count <= MAX_LABELS {
        Some((count * ONE) as i64)
    } else {
        None
    }
}

/// The heights of the bars for the counts of the bins: the height of each
/// count in order, and `None` for a count that is no whole number or lies
/// beyond [`MAX_LABELS`].
pub open spec fn spec_heights(counts: Counts<'_>) -> Seq<Option<i64>> {
    match counts {
        Counts::Binned(binned) => Seq::new(
            binned.len() as nat,
            |i: int| spec_bin_height(binned[i]),
        ),
        Counts::Given(column) => Seq::new(
            column_counts(*column).len(),
            |i: int| spec_height(column_counts(*column)[i]),
        ),
    }
}

/// The counts of a column as heights of bars.
pub fn column_heights(column: &Column) -> (r: Vec<Option<i64>>)
    ensures
        r@ == spec_heights(Counts::Given(column)),
{
    let n = crate::column::len(column);
    let mut heights: Vec<Option<i64>> = Vec::new();
    let mut i: usize = 0;
    while i < n
        invariant
            i <= n,
            n == column_counts(*column).len(),
            heights.len() == i,
            forall|j: int|
                0 <= j < i ==> #[trigger] heights[j] == spec_height(column_counts(*column)[j]),
        decreases n - i,
    {
        heights.push(height(crate::column::count(column, i)));
        i = i + 1;
    }
    assert(heights@ =~= spec_heights(Counts::Given(column)));
    heights
}

/// The counts of bins as heights of bars.
pub fn binned_heights(counts: &Vec<u64>) -> (r: Vec<Option<i64>>)
    ensures
        r@ == spec_heights(Counts::Binned(*counts)),
{
    let mut heights: Vec<Option<i64>> = Vec::new();
    let mut i: usize = 0;
    while i < counts.len()
        invariant
            i <= counts.len(),
            heights.len() == i,
            forall|j: int| 0 <= j < i ==> #[trigger] heights[j] == spec_bin_height(counts[j]),
        decreases counts.len() - i,
    {
        let c = counts[i];
        heights.push(
            if c <= MAX_LABELS {
                Some((c as i64) * ONE)
            } else {
                None
            },
        );
        i = i + 1;
    }
    assert(heights@ =~= spec_heights(Counts::Binned(*counts)));
    heights
}

impl<'a> HistogramAxes<'a> {
    /// The heights of the bars: the count of each bin, and `None` for a
    /// count that cannot be read or lies beyond [`MAX_LABELS`].
    pub fn heights(&self) -> (r: Vec<Option<i64>>)
        ensures
            r@ == spec_heights(self.counts),
    {
        match &self.counts {
            Counts::Binned(counts) => binned_heights(counts),
            Counts::Given(column) => column_heights(column),
        }
    }

    /// The outline and the filled area of the histogram.
    pub fn paths(&self) -> (r: HistogramPaths)
        ensures
            r.outline@ == spec_outline(self.range, spec_heights(self.counts)),
            r.fill@ == spec_fill(self.range, spec_heights(self.counts)),
    {
        let heights = self.heights();
        histogram_paths(self.range, &heights)
    }
}

} // verus!
