//! Intervals of fixed-point quantities, and the tick positions that divide one
//! into round steps.

use vstd::prelude::*;
use polars::prelude::Column;
use crate::column::column_kind;
use crate::fixed::{fits, spec_abs, spec_quot, spec_signum, spec_times, times, LIMIT};

verus! {

/// What the values along an axis count.
#[derive(Clone, Copy, Debug, PartialEq, Eq, Structural)]
pub enum RangeUnit {
    /// Plain numbers.
    Absolute,
    /// Nanoseconds of elapsed time.
    Duration,
    /// Days since 1970-01-01.
    Date,
}

/// The kinds of data type that the layout tells apart.
#[derive(Clone, Copy, Debug, PartialEq, Eq, Structural)]
pub enum ColumnKind {
    /// Elapsed time.
    Duration,
    /// Calendar dates.
    Date,
    /// Anything else.
    Other,
}

impl RangeUnit {
    /// The unit of the values of a column of the given kind: durations count
    /// nanoseconds, dates count days, and everything else is plain numbers.
    pub open spec fn spec_of(kind: ColumnKind) -> RangeUnit {
        match kind {
            ColumnKind::Duration => RangeUnit::Duration,
            ColumnKind::Date => RangeUnit::Date,
            ColumnKind::Other => RangeUnit::Absolute,
        }
    }

    /// The unit of the values of a column of the given kind.
    pub fn of(kind: ColumnKind) -> (u: RangeUnit)
        ensures
            u == Self::spec_of(kind),
    {
        match kind {
            ColumnKind::Duration => RangeUnit::Duration,
            ColumnKind::Date => RangeUnit::Date,
            ColumnKind::Other => RangeUnit::Absolute,
        }
    }
}

/// Why a range, a union or a transform could not be had.
#[derive(Clone, Copy, Debug, PartialEq, Eq, Structural)]
pub enum DataError {
    /// A value of a column is missing, is no number, or is too large to count
    /// in millionths.
    DataExtraction,
    /// A range without length where a length is divided by.
    EmptyRange,
    /// A union with a categorical range.
    IncompatibleRange,
}

/// A closed interval from `min` to `max`. Nothing orders the two ends: a range
/// whose `min` exceeds its `max` runs downward, as a vertical pixel axis does.
#[derive(Clone, Copy, Debug, PartialEq, Eq, Structural)]
pub struct Range {
    pub min: i64,
    pub max: i64,
}

impl Default for Range {
    fn default() -> (r: Range)
        ensures
            r == (Range { min: 0, max: 0 }),
    {
        Range::empty()
    }
}

impl Range {
    /// The signed length, `max - min`.
    pub open spec fn spec_size(self) -> int {
        self.max - self.min
    }

    /// Whether both ends lie within `bound` of zero.
    pub open spec fn within(self, bound: int) -> bool {
        -bound <= self.min <= bound && -bound <= self.max <= bound
    }

    /// Whether both ends lie within [`LIMIT`] of zero.
    pub open spec fn bounded(self) -> bool {
        self.within(LIMIT as int)
    }

    /// Whether `value` lies between the two ends, whichever way the range
    /// runs.
    pub open spec fn spec_contains(self, value: int) -> bool {
        (self.min <= value <= self.max) || (self.max <= value <= self.min)
    }

    /// The lower end after widening by `amount` along the range's direction.
    pub open spec fn spec_expand_min(self, amount: int) -> int {
        self.min - amount * spec_signum(self.spec_size())
    }

    /// The upper end after widening by `amount` along the range's direction.
    pub open spec fn spec_expand_max(self, amount: int) -> int {
        self.max + amount * spec_signum(self.spec_size())
    }

    /// The union of two ranges: the other operand where one has no length,
    /// else the least `min` and the greatest `max`.
    pub open spec fn spec_union(self, other: Range) -> Range {
        if self.min == self.max {
            other
        } else if other.min == other.max {
            self
        } else {
            Range {
                min: if self.min <= other.min {
                    self.min
                } else {
                    other.min
                },
                max: if self.max >= other.max {
                    self.max
                } else {
                    other.max
                },
            }
        }
    }

    /// The range from zero to zero.
    pub fn empty() -> (r: Range)
        ensures
            r == (Range { min: 0, max: 0 }),
    {
        Range { min: 0, max: 0 }
    }

    pub fn new(min: i64, max: i64) -> (r: Range)
        ensures
            r == (Range { min, max }),
    {
        Range { min, max }
    }

    /// Whether both ends lie within [`LIMIT`] of zero.
    pub fn is_bounded(&self) -> (b: bool)
        ensures
            b == self.bounded(),
    {
        -LIMIT <= self.min && self.min <= LIMIT && -LIMIT <= self.max && self.max <= LIMIT
    }

    /// The signed length, `max - min`: negative for a range that runs
    /// downward.
    pub fn size(&self) -> (s: i64)
        requires
            fits(self.spec_size()),
        ensures
            s == self.spec_size(),
    {
        self.max - self.min
    }

    /// Moves each end inward by `amount`, along the range's direction.
    pub fn shrink(self, amount: i64) -> (r: Range)
        requires
            fits(self.spec_expand_min(-amount)),
            fits(self.spec_expand_max(-amount)),
        ensures
            r.min == self.spec_expand_min(-amount),
            r.max == self.spec_expand_max(-amount),
    {
        if self.max < self.min {
            Range { min: self.min - amount, max: self.max + amount }
        } else {
            Range { min: self.min + amount, max: self.max - amount }
        }
    }

    /// Moves each end inward by the amount `size * fract`. The size is
    /// signed: for a range that runs downward the amount is negative, and the
    /// ends move outward.
    pub fn shrink_by(self, fract: i64) -> (r: Range)
        requires
            fits(self.spec_size()),
            fits(spec_times(self.spec_size(), fract as int)),
            fits(self.spec_expand_min(-spec_times(self.spec_size(), fract as int))),
            fits(self.spec_expand_max(-spec_times(self.spec_size(), fract as int))),
        ensures
            r.min == self.spec_expand_min(-spec_times(self.spec_size(), fract as int)),
            r.max == self.spec_expand_max(-spec_times(self.spec_size(), fract as int)),
    {
        self.shrink(times(self.size(), fract))
    }

    /// Moves each end outward by `amount`, along the range's direction: a
    /// range that runs downward gets a greater `min` and a lesser `max`.
    pub fn expand(self, amount: i64) -> (r: Range)
        requires
            fits(self.spec_expand_min(amount as int)),
            fits(self.spec_expand_max(amount as int)),
        ensures
            r.min == self.spec_expand_min(amount as int),
            r.max == self.spec_expand_max(amount as int),
    {
        if self.max < self.min {
            Range { min: self.min + amount, max: self.max - amount }
        } else {
            Range { min: self.min - amount, max: self.max + amount }
        }
    }

    /// Moves each end outward by the amount `size * fract`. The size is
    /// signed: for a range that runs downward the amount is negative, and the
    /// ends move inward.
    pub fn expand_by(self, fract: i64) -> (r: Range)
        requires
            fits(self.spec_size()),
            fits(spec_times(self.spec_size(), fract as int)),
            fits(self.spec_expand_min(spec_times(self.spec_size(), fract as int))),
            fits(self.spec_expand_max(spec_times(self.spec_size(), fract as int))),
        ensures
            r.min == self.spec_expand_min(spec_times(self.spec_size(), fract as int)),
            r.max == self.spec_expand_max(spec_times(self.spec_size(), fract as int)),
    {
        self.expand(times(self.size(), fract))
    }

    /// Whether `value` lies between the two ends, whichever way the range
    /// runs.
    pub fn contains(&self, value: &i64) -> (b: bool)
        ensures
            b == self.spec_contains(*value as int),
    {
        (*value >= self.min && *value <= self.max) || (*value <= self.min && *value >= self.max)
    }

    /// The union of two ranges. A range without length contributes nothing:
    /// the other operand comes back unchanged, so that a series of one point
    /// does not distort the union.
    pub fn union(&self, other: Range) -> (r: Range)
        ensures
            r == self.spec_union(other),
    {
        if self.min == self.max {
            other
        } else if other.min == other.max {
            *self
        } else {
            Range {
                min: if self.min <= other.min {
                    self.min
                } else {
                    other.min
                },
                max: if self.max >= other.max {
                    self.max
                } else {
                    other.max
                },
            }
        }
    }
}

/// The most labels that a categorical axis can place: a million million.
pub const MAX_LABELS: u64 = 1_000_000_000_000;

/// A rectangle: one range along each axis.
#[derive(Clone, Copy, Debug, PartialEq, Eq, Structural)]
pub struct Bounds {
    pub x: Range,
    pub y: Range,
}

/// The extent of one series along one axis.
#[derive(Clone, Copy)]
pub enum DataRange<'a> {
    /// An interval of numbers. The two flags say on which sides the series
    /// wants a margin: bars that stand on zero want none below.
    Continuous { range: Range, unit: RangeUnit, margin_min: bool, margin_max: bool },
    /// Labels, of which the one at index `i` sits at position `i`.
    Categorical(&'a Vec<String>),
}

/// The extent of one series along both axes.
#[derive(Clone, Copy)]
pub struct DataBounds<'a> {
    pub x: DataRange<'a>,
    pub y: DataRange<'a>,
}

impl<'a> From<Range> for DataRange<'a> {
    /// A continuous range of plain numbers with a margin on both sides.
    fn from(range: Range) -> (r: DataRange<'a>) {
        DataRange::Continuous {
            range,
            unit: RangeUnit::Absolute,
            margin_min: true,
            margin_max: true,
        }
    }
}

impl<'a> vstd::std_specs::convert::FromSpecImpl<Range> for DataRange<'a> {
    open spec fn obeys_from_spec() -> bool {
        true
    }

    open spec fn from_spec(range: Range) -> DataRange<'a> {
        DataRange::Continuous {
            range,
            unit: RangeUnit::Absolute,
            margin_min: true,
            margin_max: true,
        }
    }
}

impl<'a> DataRange<'a> {
    /// The range from `min` to `max` of a column's values, in the unit that
    /// the column's type stands for, with a margin on both sides. The two
    /// extremes are the caller's to find: they are read from the column as
    /// floating-point numbers, which this crate does not hold.
    pub fn from_column(column: &Column, min: i64, max: i64) -> (r: DataRange<'a>)
        ensures
            r == (DataRange::Continuous {
                range: Range { min, max },
                unit: RangeUnit::spec_of(column_kind(*column)),
                margin_min: true,
                margin_max: true,
            }),
    {
        DataRange::Continuous {
            range: Range::new(min, max),
            unit: RangeUnit::of(crate::column::kind(column)),
            margin_min: true,
            margin_max: true,
        }
    }

    /// The union of two extents along one axis. Two continuous ranges unite
    /// to the union of their intervals, in the unit of the left one, with a
    /// margin on each side where either of them wants one.
    pub open spec fn spec_union(self, other: DataRange<'a>) -> Result<DataRange<'a>, DataError> {
        match (self, other) {
            (
                DataRange::Continuous {
                    range: range_a,
                    unit: unit_a,
                    margin_min: min_a,
                    margin_max: max_a,
                },
                DataRange::Continuous {
                    range: range_b,
                    unit: _,
                    margin_min: min_b,
                    margin_max: max_b,
                },
            ) => Ok(
                DataRange::Continuous {
                    range: range_a.spec_union(range_b),
                    unit: unit_a,
                    margin_min: min_a || min_b,
                    margin_max: max_a || max_b,
                },
            ),
            _ => Err(DataError::IncompatibleRange),
        }
    }

    /// Whether the axis computations accept the extent: a continuous range
    /// lies within [`LIMIT`] of zero, and a categorical one has at most
    /// [`MAX_LABELS`] labels.
    pub open spec fn spec_plottable(self) -> bool {
        match self {
            DataRange::Continuous { range, .. } => range.bounded(),
            DataRange::Categorical(labels) => labels.len() <= MAX_LABELS,
        }
    }

    /// Whether the axis computations accept the extent.
    pub fn is_plottable(&self) -> (b: bool)
        ensures
            b == self.spec_plottable(),
    {
        match self {
            DataRange::Continuous { range, .. } => range.is_bounded(),
            DataRange::Categorical(labels) => labels.len() as u64 <= MAX_LABELS,
        }
    }
}

impl<'a> DataBounds<'a> {
    /// The union along each axis, and the error of the horizontal axis first
    /// where both fail.
    pub open spec fn spec_union(self, other: DataBounds<'a>) -> Result<DataBounds<'a>, DataError> {
        match (self.x.spec_union(other.x), self.y.spec_union(other.y)) {
            (Ok(x), Ok(y)) => Ok(DataBounds { x, y }),
            (Err(e), _) => Err(e),
            (_, Err(e)) => Err(e),
        }
    }
}

/// The map `v -> (scale * v + offset) / divisor` along one axis, held as
/// three whole numbers so that nothing is lost in a quotient.
#[derive(Clone, Copy, Debug, PartialEq, Eq, Structural)]
pub struct AxisMap {
    pub scale: i128,
    pub offset: i128,
    pub divisor: i128,
}

impl AxisMap {
    /// The image of `v`, truncated toward zero to a whole number of
    /// millionths.
    pub open spec fn spec_apply(self, v: int) -> int {
        if self.divisor > 0 {
            spec_quot(self.scale * v + self.offset, self.divisor as int)
        } else {
            spec_quot(-(self.scale * v + self.offset), -self.divisor as int)
        }
    }

    /// The map that takes `from.min` to `to.min` and `from.max` to `to.max`:
    /// its scale is `to.size / from.size` and its shift
    /// `to.min - from.min * scale`, both over the common divisor `from.size`.
    pub open spec fn spec_between(from: Range, to: Range) -> AxisMap {
        AxisMap {
            scale: to.spec_size() as i128,
            offset: (to.min * from.spec_size() - from.min * to.spec_size()) as i128,
            divisor: from.spec_size() as i128,
        }
    }

    /// The map that takes `from.min` to `to.min` and `from.max` to `to.max`.
    /// A `from` without length has no such map.
    pub fn between(from: Range, to: Range) -> (r: Result<AxisMap, DataError>)
        requires
            from.within(5 * LIMIT),
            to.bounded(),
        ensures
            from.min == from.max ==> r == Err::<AxisMap, DataError>(DataError::EmptyRange),
            from.min != from.max ==> r == Ok::<AxisMap, DataError>(Self::spec_between(from, to)),
            r matches Ok(map) ==> map.wf(),
    {
        if from.min == from.max {
            return Err(DataError::EmptyRange);
        }
        let from_size: i128 = (from.max as i128) - (from.min as i128);
        let to_size: i128 = (to.max as i128) - (to.min as i128);
        proof {
            lemma_bounded_product(to.min as int, from_size as int, LIMIT as int, 10 * LIMIT);
            lemma_bounded_product(from.min as int, to_size as int, 5 * LIMIT, 2 * LIMIT);
        }
        let offset: i128 = (to.min as i128) * from_size - (from.min as i128) * to_size;
        Ok(AxisMap { scale: to_size, offset, divisor: from_size })
    }

    /// What every map between two ranges satisfies: the divisor is not zero,
    /// and scale and offset are small enough for the image of any `i64` to be
    /// computed.
    pub open spec fn wf(self) -> bool {
        &&& self.divisor != 0
        &&& -10 * LIMIT <= self.divisor <= 10 * LIMIT
        &&& -2 * LIMIT <= self.scale <= 2 * LIMIT
        &&& -20 * LIMIT * LIMIT <= self.offset <= 20 * LIMIT * LIMIT
    }

    /// The image of `v`, truncated toward zero to a whole number of
    /// millionths, and `None` where it is more than an `i64` holds.
    pub fn apply(&self, v: i64) -> (r: Option<i64>)
        requires
            self.wf(),
        ensures
            fits(self.spec_apply(v as int)) ==> r == Some(self.spec_apply(v as int) as i64),
            !fits(self.spec_apply(v as int)) ==> r.is_none(),
    {
        proof {
            lemma_bounded_product(self.scale as int, v as int, 2 * LIMIT, 0x8000_0000_0000_0000);
        }
        let sum: i128 = self.scale * (v as i128) + self.offset;
        let (a, b): (i128, i128) = if self.divisor > 0 {
            (sum, self.divisor)
        } else {
            (-sum, -self.divisor)
        };
        let q: i128 = if a >= 0 {
            a / b
        } else {
            -((-a) / b)
        };
        if q < i64::MIN as i128 || q > i64::MAX as i128 {
            None
        } else {
            Some(q as i64)
        }
    }
}

/// A product of two bounded factors is bounded by the product of the bounds.
pub proof fn lemma_bounded_product(a: int, b: int, bound_a: int, bound_b: int)
    requires
        -bound_a <= a <= bound_a,
        -bound_b <= b <= bound_b,
    ensures
        -(bound_a * bound_b) <= a * b <= bound_a * bound_b,
{
    assert(-(bound_a * bound_b) <= a * b <= bound_a * bound_b) by (nonlinear_arith)
        requires
            -bound_a <= a <= bound_a,
            -bound_b <= b <= bound_b,
    ;
}

/// The map between two ranges takes each end of the first to the same end of
/// the second.
pub proof fn lemma_between_ends(from: Range, to: Range)
    requires
        from.min != from.max,
        from.within(5 * LIMIT),
        to.bounded(),
    ensures
        AxisMap::spec_between(from, to).spec_apply(from.min as int) == to.min,
        AxisMap::spec_between(from, to).spec_apply(from.max as int) == to.max,
{
    let d = from.spec_size();
    let s = to.spec_size();
    let m = AxisMap::spec_between(from, to);
    lemma_bounded_product(to.min as int, d, LIMIT as int, 10 * LIMIT);
    lemma_bounded_product(from.min as int, s, 5 * LIMIT, 2 * LIMIT);
    assert(5 * LIMIT * (2 * LIMIT) == 10_000_000_000_000_000_000_000_000_000_000_000_000);
    assert(LIMIT * (10 * LIMIT) == 10_000_000_000_000_000_000_000_000_000_000_000_000);
    let offset = to.min * d - from.min * s;
    assert(m.offset == offset);
    assert(s * from.min + offset == to.min * d) by (nonlinear_arith)
        requires
            offset == to.min * d - from.min * s,
    ;
    assert(s * from.max + offset == to.max * d) by (nonlinear_arith)
        requires
            offset == to.min * d - from.min * s,
            d == from.max - from.min,
            s == to.max - to.min,
    ;
    lemma_quot_of_multiple(to.min as int, d);
    lemma_quot_of_multiple(to.max as int, d);
}

/// The image under a map differs from the exact quotient by less than one:
/// times the divisor, it is less than the divisor away from
/// `scale * v + offset`.
pub proof fn lemma_apply_error(map: AxisMap, v: int)
    requires
        map.divisor != 0,
    ensures
        -spec_abs(map.divisor as int) < map.spec_apply(v) * map.divisor - (map.scale * v
            + map.offset) < spec_abs(map.divisor as int),
{
    let n = map.scale * v + map.offset;
    let d = map.divisor as int;
    let q = map.spec_apply(v);
    if d > 0 {
        if n >= 0 {
            assert(-d < (n / d) * d - n <= 0) by (nonlinear_arith)
                requires
                    d > 0,
            ;
        } else {
            assert(0 <= (-((-n) / d)) * d - n < d) by (nonlinear_arith)
                requires
                    d > 0,
            ;
        }
    } else {
        let e = -d;
        let m = -n;
        if m >= 0 {
            assert(-e < (m / e) * e - m <= 0) by (nonlinear_arith)
                requires
                    e > 0,
            ;
            assert(q * d - n == -((m / e) * e - m)) by (nonlinear_arith)
                requires
                    q == m / e,
                    d == -e,
                    n == -m,
            ;
        } else {
            assert(0 <= (-((-m) / e)) * e - m < e) by (nonlinear_arith)
                requires
                    e > 0,
            ;
            assert(q * d - n == -((-((-m) / e)) * e - m)) by (nonlinear_arith)
                requires
                    q == -((-m) / e),
                    d == -e,
                    n == -m,
            ;
        }
    }
}

/// A value that goes through the map between two ranges and back through
/// the map between them in reverse comes back to within
/// `|from.size / to.size| + 1` of itself: times the length of `to`, the
/// difference is less than the two lengths together.
pub proof fn lemma_between_round_trip(from: Range, to: Range, v: int)
    requires
        from.min != from.max,
        to.min != to.max,
        from.bounded(),
        to.bounded(),
    ensures
        ({
            let there = AxisMap::spec_between(from, to);
            let back = AxisMap::spec_between(to, from);
            let w = back.spec_apply(there.spec_apply(v));
            spec_abs((w - v) * to.spec_size()) < spec_abs(from.spec_size()) + spec_abs(
                to.spec_size(),
            )
        }),
{
    let d = from.spec_size();
    let s = to.spec_size();
    let there = AxisMap::spec_between(from, to);
    let back = AxisMap::spec_between(to, from);
    lemma_bounded_product(to.min as int, d, LIMIT as int, 2 * LIMIT);
    lemma_bounded_product(from.min as int, s, LIMIT as int, 2 * LIMIT);
    assert(LIMIT * (2 * LIMIT) == 2_000_000_000_000_000_000_000_000_000_000_000_000);
    let offset = to.min * d - from.min * s;
    assert(there.offset == offset);
    assert(back.offset == -offset);
    let p = there.spec_apply(v);
    let w = back.spec_apply(p);
    lemma_apply_error(there, v);
    lemma_apply_error(back, p);
    let e1 = p * d - (s * v + offset);
    let e2 = w * s - (d * p - offset);
    assert((w - v) * s == e1 + e2) by (nonlinear_arith)
        requires
            e1 == p * d - (s * v + offset),
            e2 == w * s - (d * p - offset),
    ;
}

/// Dividing a multiple of `d` by `d`, toward zero, gives the other factor
/// back, whatever the signs.
pub proof fn lemma_quot_of_multiple(a: int, d: int)
    requires
        d != 0,
    ensures
        d > 0 ==> spec_quot(a * d, d) == a,
        d < 0 ==> spec_quot(-(a * d), -d) == a,
{
    if d > 0 {
        if a * d >= 0 {
            assert((a * d) / d == a) by (nonlinear_arith)
                requires
                    d > 0,
            ;
        } else {
            assert((-(a * d)) / d == -a) by (nonlinear_arith)
                requires
                    d > 0,
            ;
        }
    } else {
        let e = -d;
        assert(-(a * d) == a * e) by (nonlinear_arith)
            requires
                e == -d,
        ;
        if a * e >= 0 {
            assert((a * e) / e == a) by (nonlinear_arith)
                requires
                    e > 0,
            ;
        } else {
            assert((-(a * e)) / e == -a) by (nonlinear_arith)
                requires
                    e > 0,
            ;
        }
    }
}

/// The map from one rectangle to another: one [`AxisMap`] along each axis,
/// with no rotation or shear.
#[derive(Clone, Copy, Debug, PartialEq, Eq, Structural)]
pub struct Affine {
    pub x: AxisMap,
    pub y: AxisMap,
}

impl Bounds {
    /// The rectangle without extent at the origin.
    pub fn empty() -> (b: Bounds)
        ensures
            b == (Bounds { x: Range { min: 0, max: 0 }, y: Range { min: 0, max: 0 } }),
    {
        Bounds { x: Range::empty(), y: Range::empty() }
    }

    pub fn new(x: Range, y: Range) -> (b: Bounds)
        ensures
            b == (Bounds { x, y }),
    {
        Bounds { x, y }
    }

    /// The signed length along the horizontal axis.
    pub fn width(&self) -> (w: i64)
        requires
            fits(self.x.spec_size()),
        ensures
            w == self.x.spec_size(),
    {
        self.x.size()
    }

    /// The signed length along the vertical axis.
    pub fn height(&self) -> (h: i64)
        requires
            fits(self.y.spec_size()),
        ensures
            h == self.y.spec_size(),
    {
        self.y.size()
    }

    /// Moves each side inward by `amount`.
    pub fn shrink(self, amount: i64) -> (b: Bounds)
        requires
            fits(self.x.spec_expand_min(-amount)),
            fits(self.x.spec_expand_max(-amount)),
            fits(self.y.spec_expand_min(-amount)),
            fits(self.y.spec_expand_max(-amount)),
        ensures
            b.x.min == self.x.spec_expand_min(-amount),
            b.x.max == self.x.spec_expand_max(-amount),
            b.y.min == self.y.spec_expand_min(-amount),
            b.y.max == self.y.spec_expand_max(-amount),
    {
        Bounds { x: self.x.shrink(amount), y: self.y.shrink(amount) }
    }

    /// Moves each side inward by the amount `size * fract`, with the signed
    /// size along its axis.
    pub fn shrink_by(self, fract: i64) -> (b: Bounds)
        requires
            fits(self.x.spec_size()),
            fits(spec_times(self.x.spec_size(), fract as int)),
            fits(self.x.spec_expand_min(-spec_times(self.x.spec_size(), fract as int))),
            fits(self.x.spec_expand_max(-spec_times(self.x.spec_size(), fract as int))),
            fits(self.y.spec_size()),
            fits(spec_times(self.y.spec_size(), fract as int)),
            fits(self.y.spec_expand_min(-spec_times(self.y.spec_size(), fract as int))),
            fits(self.y.spec_expand_max(-spec_times(self.y.spec_size(), fract as int))),
        ensures
            b.x.min == self.x.spec_expand_min(-spec_times(self.x.spec_size(), fract as int)),
            b.x.max == self.x.spec_expand_max(-spec_times(self.x.spec_size(), fract as int)),
            b.y.min == self.y.spec_expand_min(-spec_times(self.y.spec_size(), fract as int)),
            b.y.max == self.y.spec_expand_max(-spec_times(self.y.spec_size(), fract as int)),
    {
        Bounds { x: self.x.shrink_by(fract), y: self.y.shrink_by(fract) }
    }

    /// Moves each side outward by `amount`.
    pub fn expand(self, amount: i64) -> (b: Bounds)
        requires
            fits(self.x.spec_expand_min(amount as int)),
            fits(self.x.spec_expand_max(amount as int)),
            fits(self.y.spec_expand_min(amount as int)),
            fits(self.y.spec_expand_max(amount as int)),
        ensures
            b.x.min == self.x.spec_expand_min(amount as int),
            b.x.max == self.x.spec_expand_max(amount as int),
            b.y.min == self.y.spec_expand_min(amount as int),
            b.y.max == self.y.spec_expand_max(amount as int),
    {
        Bounds { x: self.x.expand(amount), y: self.y.expand(amount) }
    }

    /// Moves each side outward by the amount `size * fract`, with the signed
    /// size along its axis.
    pub fn expand_by(self, fract: i64) -> (b: Bounds)
        requires
            fits(self.x.spec_size()),
            fits(spec_times(self.x.spec_size(), fract as int)),
            fits(self.x.spec_expand_min(spec_times(self.x.spec_size(), fract as int))),
            fits(self.x.spec_expand_max(spec_times(self.x.spec_size(), fract as int))),
            fits(self.y.spec_size()),
            fits(spec_times(self.y.spec_size(), fract as int)),
            fits(self.y.spec_expand_min(spec_times(self.y.spec_size(), fract as int))),
            fits(self.y.spec_expand_max(spec_times(self.y.spec_size(), fract as int))),
        ensures
            b.x.min == self.x.spec_expand_min(spec_times(self.x.spec_size(), fract as int)),
            b.x.max == self.x.spec_expand_max(spec_times(self.x.spec_size(), fract as int)),
            b.y.min == self.y.spec_expand_min(spec_times(self.y.spec_size(), fract as int)),
            b.y.max == self.y.spec_expand_max(spec_times(self.y.spec_size(), fract as int)),
    {
        Bounds { x: self.x.expand_by(fract), y: self.y.expand_by(fract) }
    }

    /// The union along each axis.
    pub fn union(&self, other: Bounds) -> (b: Bounds)
        ensures
            b == (Bounds { x: self.x.spec_union(other.x), y: self.y.spec_union(other.y) }),
    {
        Bounds { x: self.x.union(other.x), y: self.y.union(other.y) }
    }

    /// The map that takes this rectangle onto `viewport`, side to side.
    /// Along each axis the scale is `viewport.size / self.size` and the
    /// shift `viewport.min - self.min * scale`. A rectangle without
    /// width or without height has no such map.
    pub fn transform_to(&self, viewport: Bounds) -> (r: Result<Affine, DataError>)
        requires
            self.x.within(5 * LIMIT),
            self.y.within(5 * LIMIT),
            viewport.x.bounded(),
            viewport.y.bounded(),
        ensures
            self.x.min == self.x.max || self.y.min == self.y.max ==> r == Err::<
                Affine,
                DataError,
            >(DataError::EmptyRange),
            self.x.min != self.x.max && self.y.min != self.y.max ==> r == Ok::<Affine, DataError>(
                Affine {
                    x: AxisMap::spec_between(self.x, viewport.x),
                    y: AxisMap::spec_between(self.y, viewport.y),
                },
            ),
            r matches Ok(affine) ==> affine.x.wf() && affine.y.wf(),
    {
        let x = match AxisMap::between(self.x, viewport.x) {
            Ok(x) => x,
            Err(e) => {
                return Err(e);
            },
        };
        match AxisMap::between(self.y, viewport.y) {
            Ok(y) => Ok(Affine { x, y }),
            Err(e) => Err(e),
        }
    }
}

/// The union of a range that has length with one that has none is the former,
/// on either side.
pub proof fn lemma_union_identity(a: Range, b: Range)
    requires
        a.min != a.max,
        b.min == b.max,
    ensures
        a.spec_union(b) == a,
        b.spec_union(a) == a,
{
}

/// A left operand without length always yields the right operand.
pub proof fn lemma_union_left_identity(a: Range, b: Range)
    requires
        a.min == a.max,
    ensures
        a.spec_union(b) == b,
{
}

/// The union of two ranges that both have length does not depend on their
/// order.
pub proof fn lemma_union_commutes(a: Range, b: Range)
    requires
        a.min != a.max,
        b.min != b.max,
    ensures
        a.spec_union(b) == b.spec_union(a),
{
}

/// The union of ranges that do not run downward does not depend on how the
/// unions are grouped.
pub proof fn lemma_union_associates(a: Range, b: Range, c: Range)
    requires
        a.min <= a.max,
        b.min <= b.max,
        c.min <= c.max,
    ensures
        a.spec_union(b).spec_union(c) == a.spec_union(b.spec_union(c)),
{
}

/// The union of two ranges that both have length contains every value that
/// either of them contains, where both run upward.
pub proof fn lemma_union_covers(a: Range, b: Range, value: int)
    requires
        a.min < a.max,
        b.min < b.max,
        a.spec_contains(value) || b.spec_contains(value),
    ensures
        a.spec_union(b).spec_contains(value),
{
}

} // verus!
