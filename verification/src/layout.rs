//! Where the parts of a drawing go: the frame around the viewport, the marks
//! of a tick, the legend, and the canvas itself. All positions are in canvas
//! units, of which the canvas has a thousand along its shorter side, and the
//! vertical axis of the canvas runs downward.

use vstd::prelude::*;
use crate::bounds::{Bounds, Range};
use crate::fixed::{spec_quot, LIMIT};
use crate::style::{Align, Marker};

verus! {

/// A position: on the canvas, or among the data.
#[derive(Clone, Copy, Debug, PartialEq, Eq, Structural)]
pub struct Point {
    pub x: i64,
    pub y: i64,
}

/// A straight line between two positions.
#[derive(Clone, Copy, Debug, PartialEq, Eq, Structural)]
pub struct Segment {
    pub from: Point,
    pub to: Point,
}

/// The length of the shorter side of the canvas.
pub const CANVAS: i64 = 1_000_000_000;

/// The space between the canvas and the viewport on each side.
pub const FRAME: i64 = 80_000_000;

/// The distance of the title from the top of the viewport.
pub const TITLE_GAP: i64 = 10_000_000;

/// The distance of an axis title from its side of the viewport.
pub const AXIS_TITLE_GAP: i64 = 40_000_000;

/// The length of a tick mark.
pub const TICK_LENGTH: i64 = 10_000_000;

/// The distance of a tick's label from the viewport.
pub const TICK_LABEL_GAP: i64 = 15_000_000;

/// The size of a canvas for a surface of `width` by `height` pixels: a
/// thousand units along the shorter side, and along the longer side as many
/// as keep the units square, the fraction of a millionth dropped.
pub open spec fn spec_canvas_size(width: u32, height: u32) -> (int, int) {
    if width < height {
        (CANVAS as int, CANVAS * height / (width as int))
    } else {
        (CANVAS * width / (height as int), CANVAS as int)
    }
}

/// The size of a canvas for a surface of `width` by `height` pixels, and
/// `None` for a surface without width or height.
pub fn canvas_size(width: u32, height: u32) -> (r: Option<(i64, i64)>)
    ensures
        width == 0 || height == 0 ==> r.is_none(),
        width > 0 && height > 0 ==> r == Some(
            (spec_canvas_size(width, height).0 as i64, spec_canvas_size(width, height).1 as i64),
        ),
        r matches Some((w, h)) ==> 0 < w && 0 < h,
{
    if width == 0 || height == 0 {
        return None;
    }
    if width < height {
        let long = CANVAS * (height as i64) / (width as i64);
        assert(long >= 1) by (nonlinear_arith)
            requires
                long == CANVAS * height / (width as int),
                0 < width < height,
        ;
        Some((CANVAS, long))
    } else {
        let long = CANVAS * (width as i64) / (height as i64);
        assert(long >= 1) by (nonlinear_arith)
            requires
                long == CANVAS * width / (height as int),
                0 < height <= width,
        ;
        Some((long, CANVAS))
    }
}

/// The number of pixels in one canvas unit, as the quotient of two whole
/// numbers: the shorter side of the surface over a thousand.
pub fn pixels_per_unit(width: u32, height: u32) -> (r: (u32, u32))
    ensures
        r.0 == if width < height {
            width
        } else {
            height
        },
        r.1 == 1000,
{
    if width < height {
        (width, 1000)
    } else {
        (height, 1000)
    }
}

impl Align {
    /// Where a text of the given extent begins, relative to the position it
    /// is drawn at.
    pub open spec fn spec_offset(self, extent: int) -> int {
        match self {
            Align::Start => 0,
            Align::Center => -spec_quot(extent, 2),
            Align::End => -extent,
        }
    }

    /// Where a text of the given extent begins, relative to the position it
    /// is drawn at: at the position, half the extent before it, or the whole
    /// extent before it.
    pub fn offset(self, extent: i64) -> (r: i64)
        requires
            extent > i64::MIN,
        ensures
            r == self.spec_offset(extent as int),
    {
        match self {
            Align::Start => 0,
            Align::Center => {
                if extent >= 0 {
                    -(extent / 2)
                } else {
                    (-extent) / 2
                }
            },
            Align::End => -extent,
        }
    }
}

/// Where the fixed parts of a plot go.
#[derive(Clone, Copy, Debug, PartialEq, Eq, Structural)]
pub struct FrameLayout {
    /// The whole canvas. Its vertical range runs from the bottom up, and so
    /// from the greater coordinate to the lesser.
    pub outer: Bounds,
    /// The rectangle that the data is drawn into.
    pub viewport: Bounds,
    /// The title: centred, and ending above this position.
    pub title: Point,
    /// The title of the horizontal axis: centred, and beginning below this
    /// position.
    pub x_title: Point,
    /// The title of the vertical axis: turned a quarter to the left, centred,
    /// and ending at this position.
    pub y_title: Point,
    /// The border along the bottom of the viewport.
    pub bottom: Segment,
    /// The border along the left of the viewport.
    pub left: Segment,
}

impl FrameLayout {
    /// The layout on a canvas of `width` by `height`.
    ///
    /// The viewport is the canvas less [`FRAME`] on each side. The title sits
    /// in the middle of the canvas's width, [`TITLE_GAP`] above the viewport;
    /// the title of the horizontal axis in the middle of the width,
    /// [`AXIS_TITLE_GAP`] below the viewport; and the title of the vertical
    /// axis in the middle of the height, [`AXIS_TITLE_GAP`] left of the
    /// viewport. The border runs along the bottom and the left of the
    /// viewport.
    pub open spec fn spec_new(width: i64, height: i64) -> FrameLayout {
        let left = FRAME;
        let right = (width - FRAME) as i64;
        let bottom = (height - FRAME) as i64;
        let top = FRAME;
        FrameLayout {
            outer: Bounds { x: Range { min: 0, max: width }, y: Range { min: height, max: 0 } },
            viewport: Bounds {
                x: Range { min: left, max: right },
                y: Range { min: bottom, max: top },
            },
            title: Point { x: (width / 2) as i64, y: (top - TITLE_GAP) as i64 },
            x_title: Point { x: (width / 2) as i64, y: (bottom + AXIS_TITLE_GAP) as i64 },
            y_title: Point { x: (left - AXIS_TITLE_GAP) as i64, y: (height / 2) as i64 },
            bottom: Segment {
                from: Point { x: left, y: bottom },
                to: Point { x: right, y: bottom },
            },
            left: Segment { from: Point { x: left, y: bottom }, to: Point { x: left, y: top } },
        }
    }

    /// The layout on a canvas of `width` by `height`.
    pub fn new(width: i64, height: i64) -> (r: FrameLayout)
        requires
            0 < width <= LIMIT,
            0 < height <= LIMIT,
        ensures
            r == Self::spec_new(width, height),
            r.viewport.x.bounded(),
            r.viewport.y.bounded(),
    {
        let outer = Bounds::new(Range::new(0, width), Range::new(height, 0));
        let viewport = outer.shrink(FRAME);
        let middle = outer.width() / 2;
        let corner = Point { x: viewport.x.min, y: viewport.y.min };
        FrameLayout {
            outer,
            viewport,
            title: Point { x: middle, y: viewport.y.max - TITLE_GAP },
            x_title: Point { x: middle, y: viewport.y.min + AXIS_TITLE_GAP },
            y_title: Point { x: viewport.x.min - AXIS_TITLE_GAP, y: -(outer.height() / 2) },
            bottom: Segment { from: corner, to: Point { x: viewport.x.max, y: viewport.y.min } },
            left: Segment { from: corner, to: Point { x: viewport.x.min, y: viewport.y.max } },
        }
    }
}

/// The axis that a tick belongs to.
#[derive(Clone, Copy, Debug, PartialEq, Eq, Structural)]
pub enum Side {
    /// The horizontal axis, along the bottom of the viewport.
    Bottom,
    /// The vertical axis, along the left of the viewport.
    Left,
}

/// Where the parts of one tick go.
#[derive(Clone, Copy, Debug, PartialEq, Eq, Structural)]
pub struct TickLayout {
    /// The mark, from the viewport outward.
    pub mark: Segment,
    /// The grid line, across the viewport.
    pub grid: Segment,
    /// The position of the label.
    pub label: Point,
    /// How the label lies to its position horizontally.
    pub horizontal: Align,
    /// How the label lies to its position vertically.
    pub vertical: Align,
}

impl TickLayout {
    /// The parts of the tick at the coordinate `at` along its axis.
    ///
    /// On the left, the mark reaches [`TICK_LENGTH`] to the left of the
    /// viewport, the grid line runs from the left to the right of it, and the
    /// label ends [`TICK_LABEL_GAP`] left of it, centred on the tick. At the
    /// bottom, the mark reaches [`TICK_LENGTH`] below the viewport, the grid
    /// line runs from the bottom to the top of it, and the label begins
    /// [`TICK_LABEL_GAP`] below it, centred on the tick.
    pub open spec fn spec_new(side: Side, viewport: Bounds, at: i64) -> TickLayout {
        match side {
            Side::Left => TickLayout {
                mark: Segment {
                    from: Point { x: viewport.x.min, y: at },
                    to: Point { x: (viewport.x.min - TICK_LENGTH) as i64, y: at },
                },
                grid: Segment {
                    from: Point { x: viewport.x.min, y: at },
                    to: Point { x: viewport.x.max, y: at },
                },
                label: Point { x: (viewport.x.min - TICK_LABEL_GAP) as i64, y: at },
                horizontal: Align::End,
                vertical: Align::Center,
            },
            Side::Bottom => TickLayout {
                mark: Segment {
                    from: Point { x: at, y: viewport.y.min },
                    to: Point { x: at, y: (viewport.y.min + TICK_LENGTH) as i64 },
                },
                grid: Segment {
                    from: Point { x: at, y: viewport.y.min },
                    to: Point { x: at, y: viewport.y.max },
                },
                label: Point { x: at, y: (viewport.y.min + TICK_LABEL_GAP) as i64 },
                horizontal: Align::Center,
                vertical: Align::Start,
            },
        }
    }

    /// The parts of the tick at the coordinate `at` along its axis, and
    /// `None` for a tick that lies outside the viewport.
    pub fn new(side: Side, viewport: Bounds, at: i64) -> (r: Option<TickLayout>)
        requires
            viewport.x.bounded(),
            viewport.y.bounded(),
        ensures
            r == match side {
                Side::Left => if viewport.y.spec_contains(at as int) {
                    Some(Self::spec_new(side, viewport, at))
                } else {
                    None
                },
                Side::Bottom => if viewport.x.spec_contains(at as int) {
                    Some(Self::spec_new(side, viewport, at))
                } else {
                    None
                },
            },
    {
        match side {
            Side::Left => {
                if !viewport.y.contains(&at) {
                    return None;
                }
                let from = Point { x: viewport.x.min, y: at };
                Some(
                    TickLayout {
                        mark: Segment {
                            from,
                            to: Point { x: viewport.x.min - TICK_LENGTH, y: at },
                        },
                        grid: Segment { from, to: Point { x: viewport.x.max, y: at } },
                        label: Point { x: viewport.x.min - TICK_LABEL_GAP, y: at },
                        horizontal: Align::End,
                        vertical: Align::Center,
                    },
                )
            },
            Side::Bottom => {
                if !viewport.x.contains(&at) {
                    return None;
                }
                let from = Point { x: at, y: viewport.y.min };
                Some(
                    TickLayout {
                        mark: Segment {
                            from,
                            to: Point { x: at, y: viewport.y.min + TICK_LENGTH },
                        },
                        grid: Segment { from, to: Point { x: at, y: viewport.y.max } },
                        label: Point { x: at, y: viewport.y.min + TICK_LABEL_GAP },
                        horizontal: Align::Center,
                        vertical: Align::Start,
                    },
                )
            },
        }
    }
}

/// What a legend has to know of a plotted series.
#[derive(Clone, Copy, Debug, PartialEq, Eq, Structural)]
pub enum SeriesKind {
    /// A scatter plot with its marker, with or without a trend line.
    Scatter { marker: Marker, trendline: bool },
    Line,
    Histogram,
    BarChart,
}

/// What a row of the legend shows beside its text.
#[derive(Clone, Copy, Debug, PartialEq, Eq, Structural)]
pub enum LegendSample {
    /// The marker of a scatter plot.
    Marker(Marker),
    /// The line of a trend line.
    Trendline,
}

/// One row of the legend.
#[derive(Clone, Copy, Debug, PartialEq, Eq, Structural)]
pub struct LegendRow {
    /// The index of the series that the row stands for.
    pub series: usize,
    pub sample: LegendSample,
}

/// The rows that the series at index `i` has in the legend: a scatter plot
/// has one for its markers and, after it, one for its trend line where it
/// has one; the other kinds have none.
pub open spec fn spec_rows_of(i: int, kind: SeriesKind) -> Seq<LegendRow> {
    match kind {
        SeriesKind::Scatter { marker, trendline } => {
            let first = LegendRow { series: i as usize, sample: LegendSample::Marker(marker) };
            if trendline {
                seq![first, LegendRow { series: i as usize, sample: LegendSample::Trendline }]
            } else {
                seq![first]
            }
        },
        _ => Seq::empty(),
    }
}

/// The rows of the legend for the first `n` series, in the order of the
/// series.
pub open spec fn spec_legend_rows(series: Seq<SeriesKind>, n: nat) -> Seq<LegendRow>
    decreases n,
{
    if n == 0 {
        Seq::empty()
    } else {
        spec_legend_rows(series, (n - 1) as nat) + spec_rows_of(n - 1, series[n - 1])
    }
}

/// The rows of the legend for the series of a plot.
pub fn legend_rows(series: &Vec<SeriesKind>) -> (rows: Vec<LegendRow>)
    ensures
        rows@ == spec_legend_rows(series@, series.len() as nat),
{
    let mut rows: Vec<LegendRow> = Vec::new();
    let mut i: usize = 0;
    while i < series.len()
        invariant
            i <= series.len(),
            rows@ == spec_legend_rows(series@, i as nat),
        decreases series.len() - i,
    {
        let ghost before = rows@;
        match series[i] {
            SeriesKind::Scatter { marker, trendline } => {
                rows.push(LegendRow { series: i, sample: LegendSample::Marker(marker) });
                if trendline {
                    rows.push(LegendRow { series: i, sample: LegendSample::Trendline });
                }
            },
            _ => {},
        }
        assert(rows@ =~= before + spec_rows_of(i as int, series[i as int]));
        i = i + 1;
    }
    rows
}

impl LegendSample {
    /// The text of a row with this sample.
    pub open spec fn spec_label(self) -> Seq<char> {
        match self {
            LegendSample::Marker(_) => "scatter"@,
            LegendSample::Trendline => "trendline"@,
        }
    }

    /// The text of a row with this sample: `scatter` beside a marker,
    /// `trendline` beside a trend line.
    pub fn label(self) -> (s: &'static str)
        ensures
            s@ == self.spec_label(),
    {
        match self {
            LegendSample::Marker(_) => "scatter",
            LegendSample::Trendline => "trendline",
        }
    }
}

/// The space between the legend and the viewport.
pub const LEGEND_MARGIN: i64 = 20_000_000;

/// The space between the legend's border and its rows.
pub const LEGEND_PADDING: i64 = 10_000_000;

/// The space between the sample of a row and its text.
pub const LEGEND_GAP: i64 = 10_000_000;

/// The height of a row of the legend.
pub const LEGEND_LINE_HEIGHT: i64 = 20_000_000;

/// The width of the sample of a row: a stretch of line, or a marker in its
/// middle.
pub const LEGEND_SAMPLE_WIDTH: i64 = 40_000_000;

/// The widest text that a legend is laid out for.
pub const LEGEND_MAX_WIDTH: i64 = 1_000_000_000_000;

/// The most rows that a legend is laid out for.
pub const LEGEND_MAX_ROWS: usize = 1_000;

/// The greatest of `widths`, and zero where there are none or all are
/// negative.
pub open spec fn spec_widest(widths: Seq<i64>) -> int
    decreases widths.len(),
{
    if widths.len() == 0 {
        0
    } else {
        let rest = spec_widest(widths.drop_last());
        if widths.last() > rest {
            widths.last() as int
        } else {
            rest
        }
    }
}

/// Where a legend goes.
#[derive(Clone, Copy, Debug, PartialEq, Eq, Structural)]
pub struct LegendLayout {
    /// The rectangle of the legend, from its top left to its bottom right
    /// corner.
    pub rect: Bounds,
}

impl LegendLayout {
    /// The rectangle of a legend in the lower right corner of `viewport`,
    /// [`LEGEND_MARGIN`] from its sides, for rows whose texts have the given
    /// widths. It is as wide as the widest text, a sample, the gap between
    /// them and the padding on both sides, and as high as the rows and the
    /// padding above and below.
    pub open spec fn spec_rect(viewport: Bounds, widths: Seq<i64>) -> Bounds {
        let inner_width = spec_widest(widths) + LEGEND_SAMPLE_WIDTH;
        let inner_height = widths.len() * LEGEND_LINE_HEIGHT;
        Bounds {
            x: Range {
                min: (viewport.x.max - inner_width - LEGEND_MARGIN - LEGEND_PADDING * 2
                    - LEGEND_GAP) as i64,
                max: (viewport.x.max - LEGEND_MARGIN) as i64,
            },
            y: Range {
                min: (viewport.y.min - inner_height - LEGEND_MARGIN - LEGEND_PADDING * 2) as i64,
                max: (viewport.y.min - LEGEND_MARGIN) as i64,
            },
        }
    }

    /// The layout of a legend in the lower right corner of `viewport`, for
    /// rows whose texts have the given widths.
    pub fn new(viewport: Bounds, widths: &Vec<i64>) -> (r: LegendLayout)
        requires
            viewport.x.bounded(),
            viewport.y.bounded(),
            widths.len() <= LEGEND_MAX_ROWS,
            forall|i: int| 0 <= i < widths.len() ==> #[trigger] widths[i] <= LEGEND_MAX_WIDTH,
        ensures
            r.rect == Self::spec_rect(viewport, widths@),
            r.rect.x.within(2 * LIMIT),
            r.rect.y.within(2 * LIMIT),
    {
        let mut widest: i64 = 0;
        let mut i: usize = 0;
        assert(widths@.take(0) =~= Seq::empty());
        while i < widths.len()
            invariant
                i <= widths.len(),
                widest == spec_widest(widths@.take(i as int)),
                0 <= widest <= LEGEND_MAX_WIDTH,
                forall|j: int| 0 <= j < widths.len() ==> #[trigger] widths[j] <= LEGEND_MAX_WIDTH,
            decreases widths.len() - i,
        {
            proof {
                assert(widths@.take(i + 1).drop_last() =~= widths@.take(i as int));
                assert(widths@.take(i + 1).last() == widths[i as int]);
            }
            if widths[i] > widest {
                widest = widths[i];
            }
            i = i + 1;
        }
        assert(widths@.take(i as int) =~= widths@);
        let inner_width = widest + LEGEND_SAMPLE_WIDTH;
        let inner_height = (widths.len() as i64) * LEGEND_LINE_HEIGHT;
        LegendLayout {
            rect: Bounds {
                x: Range {
                    min: viewport.x.max - inner_width - LEGEND_MARGIN - LEGEND_PADDING * 2
                        - LEGEND_GAP,
                    max: viewport.x.max - LEGEND_MARGIN,
                },
                y: Range {
                    min: viewport.y.min - inner_height - LEGEND_MARGIN - LEGEND_PADDING * 2,
                    max: viewport.y.min - LEGEND_MARGIN,
                },
            },
        }
    }

    /// Where the sample of row `row` begins: inside the padding, in the
    /// middle of the row's height.
    pub open spec fn spec_row(self, row: int) -> (int, int) {
        (
            self.rect.x.min + LEGEND_PADDING,
            self.rect.y.min + row * LEGEND_LINE_HEIGHT + LEGEND_PADDING + LEGEND_LINE_HEIGHT / 2,
        )
    }

    /// Where the sample of row `row` begins. A line sample runs from here
    /// [`LEGEND_SAMPLE_WIDTH`] to the right, a marker sits half that far to
    /// the right, and the text begins at [`Self::text_of`].
    pub fn row(&self, row: usize) -> (r: Point)
        requires
            row < LEGEND_MAX_ROWS,
            self.rect.x.within(2 * LIMIT),
            self.rect.y.within(2 * LIMIT),
        ensures
            r.x == self.spec_row(row as int).0,
            r.y == self.spec_row(row as int).1,
    {
        Point {
            x: self.rect.x.min + LEGEND_PADDING,
            y: self.rect.y.min + (row as i64) * LEGEND_LINE_HEIGHT + LEGEND_PADDING
                + LEGEND_LINE_HEIGHT / 2,
        }
    }

    /// Where the text of row `row` begins: after the sample and the gap.
    pub fn text_of(&self, row: usize) -> (r: Point)
        requires
            row < LEGEND_MAX_ROWS,
            self.rect.x.within(2 * LIMIT),
            self.rect.y.within(2 * LIMIT),
        ensures
            r.x == self.spec_row(row as int).0 + LEGEND_SAMPLE_WIDTH + LEGEND_GAP,
            r.y == self.spec_row(row as int).1,
    {
        let at = self.row(row);
        Point { x: at.x + LEGEND_SAMPLE_WIDTH + LEGEND_GAP, y: at.y }
    }
}

} // verus!
