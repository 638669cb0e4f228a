//! What a plotted series tells the plot of its extent: the bars of a bar
//! chart and the bins of a histogram.

use vstd::prelude::*;
use polars::prelude::Column;
use crate::bounds::{DataBounds, DataError, DataRange, Range, RangeUnit, MAX_LABELS};
use crate::column::{column_counts, column_max};
use crate::fixed::{LIMIT, ONE};

verus! {

/// The vertical extent of bars that stand on zero and of which the tallest
/// counts `max`, for a series of `rows` values: from zero to `max`, with a
/// margin above and none below.
///
/// A series without values has no extent, and the error is
/// [`DataError::EmptyRange`]. Where the values have no greatest whole number,
/// or it lies beyond [`LIMIT`] when counted in millionths, the error is
/// [`DataError::DataExtraction`].
pub open spec fn spec_counted_range<'a>(rows: nat, max: Option<i64>) -> Result<
    DataRange<'a>,
    DataError,
> {
    if rows == 0 {
        Err(DataError::EmptyRange)
    } else {
        match max {
            Some(v) if -LIMIT <= v * ONE <= LIMIT => Ok(
                DataRange::Continuous {
                    range: Range { min: 0, max: (v * ONE) as i64 },
                    unit: RangeUnit::Absolute,
                    margin_min: false,
                    margin_max: true,
                },
            ),
            _ => Err(DataError::DataExtraction),
        }
    }
}

/// The vertical extent of bars that stand on zero and of which the tallest
/// counts `max`, for a series of `rows` values.
pub fn counted_range<'a>(rows: usize, max: Option<i64>) -> (r: Result<DataRange<'a>, DataError>)
    ensures
        r == spec_counted_range::<'a>(rows as nat, max),
{
    if rows == 0 {
        return Err(DataError::EmptyRange);
    }
    match max {
        Some(v) => {
            if v < -(LIMIT / ONE) || v > LIMIT / ONE {
                return Err(DataError::DataExtraction);
            }
            Ok(
                DataRange::Continuous {
                    range: Range::new(0, v * ONE),
                    unit: RangeUnit::Absolute,
                    margin_min: false,
                    margin_max: true,
                },
            )
        },
        None => Err(DataError::DataExtraction),
    }
}

/// The greatest value of a column as a whole number, where it has one.
pub fn max_of(column: &Column) -> (r: Option<i64>)
    ensures
        r == column_max(*column),
{
    match crate::column::max(column) {
        Ok(v) => Some(v),
        Err(_) => None,
    }
}

/// A bar chart: one bar for each label, as tall as the value beside it.
pub struct BarChartAxes<'a> {
    pub labels: &'a Vec<String>,
    pub values: &'a Column,
}

impl<'a> BarChartAxes<'a> {
    pub fn new(labels: &'a Vec<String>, values: &'a Column) -> (r: Self)
        ensures
            r.labels == labels,
            r.values == values,
    {
        BarChartAxes { labels, values }
    }

    /// The extent of the chart: the labels along the horizontal axis, and
    /// from zero to the greatest value along the vertical one.
    pub fn data_bounds(&self) -> (r: Result<DataBounds<'a>, DataError>)
        ensures
            r == match spec_counted_range::<'a>(
                column_counts(*self.values).len(),
                column_max(*self.values),
            ) {
                Ok(y) => Ok::<DataBounds<'a>, DataError>(
                    DataBounds { x: DataRange::Categorical(self.labels), y },
                ),
                Err(e) => Err(e),
            },
    {
        let rows = crate::column::len(self.values);
        match counted_range(rows, max_of(self.values)) {
            Ok(y) => Ok(DataBounds { x: DataRange::Categorical(self.labels), y }),
            Err(e) => Err(e),
        }
    }
}

/// The bin that `value` falls into, of `bins` bins of equal width that
/// divide `range`: bin `i` holds the values from `min + i * width` up to,
/// but not including, `min + (i + 1) * width`, and the last bin holds
/// `range.max` as well. Values below the range go to the first bin and values
/// above it to the last. A range without length has all its values in the
/// first bin.
pub open spec fn spec_bin_index(value: int, range: Range, bins: nat) -> int {
    if range.max <= range.min || value <= range.min {
        0
    } else {
        let raw = ((value - range.min) * bins) / range.spec_size();
        if raw >= bins {
            bins - 1
        } else {
            raw
        }
    }
}

/// The number of `values` that fall into bin `bin`.
pub open spec fn spec_bin_count(values: Seq<i64>, range: Range, bins: nat, bin: int) -> nat
    decreases values.len(),
{
    if values.len() == 0 {
        0
    } else {
        let rest = spec_bin_count(values.drop_last(), range, bins, bin);
        if spec_bin_index(values.last() as int, range, bins) == bin {
            rest + 1
        } else {
            rest
        }
    }
}

/// No bin holds more values than there are.
pub proof fn lemma_bin_count_bound(values: Seq<i64>, range: Range, bins: nat, bin: int)
    ensures
        spec_bin_count(values, range, bins, bin) <= values.len(),
    decreases values.len(),
{
    if values.len() > 0 {
        lemma_bin_count_bound(values.drop_last(), range, bins, bin);
    }
}

/// The bin that `value` falls into.
pub fn bin_index(value: i64, range: Range, bins: usize) -> (index: usize)
    requires
        bins > 0,
    ensures
        index == spec_bin_index(value as int, range, bins as nat),
        index < bins,
{
    if range.max <= range.min || value <= range.min {
        return 0;
    }
    let size: u128 = ((range.max as i128) - (range.min as i128)) as u128;
    if value >= range.max {
        assert(((value - range.min) * bins) / (size as int) >= bins) by (nonlinear_arith)
            requires
                value - range.min >= size,
                size > 0,
                bins > 0,
        ;
        return bins - 1;
    }
    let offset: u128 = ((value as i128) - (range.min as i128)) as u128;
    assert(offset * bins < size * bins <= 0xffff_ffff_ffff_ffff * 0xffff_ffff_ffff_ffff)
        by (nonlinear_arith)
        requires
            0 <= offset < size <= 0xffff_ffff_ffff_ffff,
            0 < bins <= 0xffff_ffff_ffff_ffff,
    ;
    let raw: u128 = (offset * (bins as u128)) / size;
    assert(raw < bins) by (nonlinear_arith)
        requires
            raw == (offset * bins) / (size as int),
            0 <= offset * bins < size * bins,
            size > 0,
    ;
    raw as usize
}

/// The least and the greatest of `values`, which must not be empty.
pub fn extent_of(values: &Vec<i64>) -> (r: Range)
    requires
        values.len() > 0,
    ensures
        forall|i: int|
            0 <= i < values.len() ==> r.min <= #[trigger] values[i] && values[i] <= r.max,
        exists|i: int| 0 <= i < values.len() && #[trigger] values[i] == r.min,
        exists|i: int| 0 <= i < values.len() && #[trigger] values[i] == r.max,
{
    let mut min = values[0];
    let mut max = values[0];
    let mut i: usize = 1;
    while i < values.len()
        invariant
            1 <= i <= values.len(),
            forall|j: int| 0 <= j < i ==> min <= #[trigger] values[j] && values[j] <= max,
            exists|j: int| 0 <= j < i && #[trigger] values[j] == min,
            exists|j: int| 0 <= j < i && #[trigger] values[j] == max,
        decreases values.len() - i,
    {
        if values[i] < min {
            min = values[i];
        }
        if values[i] > max {
            max = values[i];
        }
        i = i + 1;
    }
    Range::new(min, max)
}

/// How many of `values` fall into each of `bins` bins of equal width that
/// divide `range`.
pub fn bin_counts(values: &Vec<i64>, range: Range, bins: usize) -> (counts: Vec<u64>)
    requires
        bins > 0,
    ensures
        counts.len() == bins,
        forall|b: int|
            0 <= b < bins ==> counts[b] == spec_bin_count(values@, range, bins as nat, b),
{
    let mut counts: Vec<u64> = Vec::new();
    let mut b: usize = 0;
    while b < bins
        invariant
            b <= bins,
            counts.len() == b,
            forall|j: int| 0 <= j < b ==> #[trigger] counts[j] == 0,
        decreases bins - b,
    {
        counts.push(0);
        b = b + 1;
    }
    let mut i: usize = 0;
    assert(values@.take(0) =~= Seq::empty());
    while i < values.len()
        invariant
            bins > 0,
            i <= values.len(),
            counts.len() == bins,
            forall|j: int|
                0 <= j < bins ==> counts[j] == spec_bin_count(
                    values@.take(i as int),
                    range,
                    bins as nat,
                    j,
                ),
        decreases values.len() - i,
    {
        let index = bin_index(values[i], range, bins);
        proof {
            assert(values@.take(i + 1).drop_last() =~= values@.take(i as int));
            assert(values@.take(i + 1).last() == values[i as int]);
            lemma_bin_count_bound(values@.take(i as int), range, bins as nat, index as int);
        }
        let count = counts[index];
        counts.set(index, count + 1);
        i = i + 1;
    }
    assert(values@.take(i as int) =~= values@);
    counts
}

/// The greatest of `counts`, and `None` where there are none or where it is
/// more than an `i64` holds.
pub fn max_count(counts: &Vec<u64>) -> (r: Option<i64>)
    ensures
        counts.len() == 0 ==> r.is_none(),
        r matches Some(m) ==> {
            &&& forall|i: int| 0 <= i < counts.len() ==> #[trigger] counts[i] <= m
            &&& exists|i: int| 0 <= i < counts.len() && #[trigger] counts[i] == m
        },
        r.is_none() && counts.len() > 0 ==> exists|i: int|
            0 <= i < counts.len() && #[trigger] counts[i] > i64::MAX,
{
    if counts.len() == 0 {
        return None;
    }
    let mut max: u64 = counts[0];
    let mut i: usize = 1;
    while i < counts.len()
        invariant
            1 <= i <= counts.len(),
            forall|j: int| 0 <= j < i ==> #[trigger] counts[j] <= max,
            exists|j: int| 0 <= j < i && #[trigger] counts[j] == max,
        decreases counts.len() - i,
    {
        if counts[i] > max {
            max = counts[i];
        }
        i = i + 1;
    }
    if max > i64::MAX as u64 {
        None
    } else {
        Some(max as i64)
    }
}

/// The bins of a histogram: counted here from the values, or given as a
/// column of counts.
pub enum Counts<'a> {
    Binned(Vec<u64>),
    Given(&'a Column),
}

/// A histogram: bins of equal width over a range, each as tall as the number
/// of values in it.
pub struct HistogramAxes<'a> {
    pub range: Range,
    pub counts: Counts<'a>,
}

impl<'a> HistogramAxes<'a> {
    /// The histogram of `values` in `bins` bins over the range from the
    /// least to the greatest of them. Without values, and without bins, there
    /// is no histogram, and the error is [`DataError::EmptyRange`].
    pub fn new(values: &Vec<i64>, bins: usize) -> (r: Result<Self, DataError>)
        ensures
            values.len() == 0 || bins == 0 ==> r == Err::<Self, DataError>(DataError::EmptyRange),
            values.len() > 0 && bins > 0 ==> {
                &&& r matches Ok(h)
                &&& forall|i: int|
                    0 <= i < values.len() ==> h.range.min <= #[trigger] values[i] && values[i]
                        <= h.range.max
                &&& exists|i: int| 0 <= i < values.len() && #[trigger] values[i] == h.range.min
                &&& exists|i: int| 0 <= i < values.len() && #[trigger] values[i] == h.range.max
                &&& h.counts matches Counts::Binned(counts)
                &&& counts.len() == bins
                &&& forall|b: int|
                    0 <= b < bins ==> counts[b] == spec_bin_count(
                        values@,
                        h.range,
                        bins as nat,
                        b,
                    )
            },
    {
        if values.len() == 0 || bins == 0 {
            return Err(DataError::EmptyRange);
        }
        let range = extent_of(values);
        let counts = bin_counts(values, range, bins);
        Ok(HistogramAxes { range, counts: Counts::Binned(counts) })
    }

    /// The histogram whose bins are counted already: bin `i` reaches from
    /// `i` to `i + 1`. More than [`MAX_LABELS`] bins are refused with
    /// [`DataError::DataExtraction`].
    pub fn new_counted(counts: &'a Column) -> (r: Result<Self, DataError>)
        ensures
            column_counts(*counts).len() > MAX_LABELS ==> r == Err::<Self, DataError>(
                DataError::DataExtraction,
            ),
            column_counts(*counts).len() <= MAX_LABELS ==> {
                &&& r matches Ok(h)
                &&& h.range == (Range { min: 0, max: (column_counts(*counts).len() * ONE) as i64 })
                &&& h.counts matches Counts::Given(given)
                &&& given == counts
            },
    {
        let n = crate::column::len(counts);
        if n as u64 > MAX_LABELS {
            return Err(DataError::DataExtraction);
        }
        Ok(HistogramAxes { range: Range::new(0, (n as i64) * ONE), counts: Counts::Given(counts) })
    }

    /// The number of bins and the greatest count.
    pub open spec fn spec_tallest(&self, rows: nat, max: Option<i64>) -> bool {
        match self.counts {
            Counts::Given(column) => rows == column_counts(*column).len() && max == column_max(
                *column,
            ),
            Counts::Binned(counts) => {
                &&& rows == counts.len()
                &&& max matches Some(m) ==> {
                    &&& forall|i: int| 0 <= i < counts.len() ==> #[trigger] counts[i] <= m
                    &&& exists|i: int| 0 <= i < counts.len() && #[trigger] counts[i] == m
                }
                &&& max.is_none() && counts.len() > 0 ==> exists|i: int|
                    0 <= i < counts.len() && #[trigger] counts[i] > i64::MAX
            },
        }
    }

    /// The extent of the histogram: its range along the horizontal axis,
    /// without margins, and from zero to the greatest count along the
    /// vertical one, with a margin above.
    pub fn data_bounds(&self) -> (r: Result<DataBounds<'a>, DataError>)
        ensures
            exists|rows: nat, max: Option<i64>|
                {
                    &&& self.spec_tallest(rows, max)
                    &&& r == match spec_counted_range::<'a>(rows, max) {
                        Ok(y) => Ok::<DataBounds<'a>, DataError>(
                            DataBounds {
                                x: DataRange::Continuous {
                                    range: self.range,
                                    unit: RangeUnit::Absolute,
                                    margin_min: false,
                                    margin_max: false,
                                },
                                y,
                            },
                        ),
                        Err(e) => Err(e),
                    }
                },
    {
        let (rows, max) = match &self.counts {
            Counts::Given(column) => (crate::column::len(column), max_of(column)),
            Counts::Binned(counts) => (counts.len(), max_count(counts)),
        };
        assert(self.spec_tallest(rows as nat, max));
        match counted_range(rows, max) {
            Ok(y) => Ok(
                DataBounds {
                    x: DataRange::Continuous {
                        range: self.range,
                        unit: RangeUnit::Absolute,
                        margin_min: false,
                        margin_max: false,
                    },
                    y,
                },
            ),
            Err(e) => Err(e),
        }
    }
}

} // verus!
