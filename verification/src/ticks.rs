//! The ticks of an axis: nice steps, a fixed number of even steps, or one tick
//! per label.

use vstd::prelude::*;
use crate::axis::{tame, Axis, Scale, Ticks};
use crate::bounds::{DataRange, Range, RangeUnit, MAX_LABELS};
use crate::fixed::{spec_quot, ONE};
use crate::nice::NiceTicksIter;

verus! {

/// The tick at index `i` of `count` ticks spaced evenly from `range.min` to
/// `range.max`: `min + i * size / (count - 1)`, the quotient truncated toward
/// zero. A single tick sits at `min`.
pub open spec fn spec_fixed_tick(range: Range, count: nat, i: int) -> int {
    if count <= 1 {
        range.min as int
    } else {
        range.min + spec_quot(i * range.spec_size(), count - 1)
    }
}

/// `count` ticks spaced evenly from `range.min` to `range.max`.
pub open spec fn spec_fixed_ticks(range: Range, count: nat) -> Seq<int> {
    Seq::new(count, |i: int| spec_fixed_tick(range, count, i))
}

/// The point `i` parts of `n` along the way from `start` to `end`.
pub(crate) fn interpolate(start: i64, end: i64, i: usize, n: usize) -> (r: i64)
    requires
        0 < n,
        i <= n,
    ensures
        r == start + spec_quot(i * (end - start), n as int),
{
    if end >= start {
        let size: u128 = ((end as i128) - (start as i128)) as u128;
        assert(i * size <= n * size <= 0xffff_ffff_ffff_ffff * 0xffff_ffff_ffff_ffff)
            by (nonlinear_arith)
            requires
                0 <= i <= n <= 0xffff_ffff_ffff_ffff,
                0 <= size <= 0xffff_ffff_ffff_ffff,
        ;
        let q: u128 = ((i as u128) * size) / (n as u128);
        assert(q <= size) by (nonlinear_arith)
            requires
                q == (i * size) / (n as int),
                0 <= i * size <= n * size,
                n > 0,
        ;
        ((start as i128) + (q as i128)) as i64
    } else {
        let size: u128 = ((start as i128) - (end as i128)) as u128;
        assert(i * size <= n * size <= 0xffff_ffff_ffff_ffff * 0xffff_ffff_ffff_ffff)
            by (nonlinear_arith)
            requires
                0 <= i <= n <= 0xffff_ffff_ffff_ffff,
                0 <= size <= 0xffff_ffff_ffff_ffff,
        ;
        let q: u128 = ((i as u128) * size) / (n as u128);
        assert(q <= size) by (nonlinear_arith)
            requires
                q == (i * size) / (n as int),
                0 <= i * size <= n * size,
                n > 0,
        ;
        assert(i * (end - start) == -(i * size)) by (nonlinear_arith)
            requires
                size == start - end,
        ;
        ((start as i128) - (q as i128)) as i64
    }
}

/// A fixed number of ticks spaced evenly over a range, handed out one at a
/// time.
pub struct FixedTicksIter {
    count: usize,
    current: usize,
    start: i64,
    end: i64,
}

impl View for FixedTicksIter {
    type V = Seq<int>;

    /// The ticks that are still to come.
    closed spec fn view(&self) -> Seq<int> {
        Seq::new(
            (self.count - self.current) as nat,
            |j: int|
                spec_fixed_tick(
                    Range { min: self.start, max: self.end },
                    self.count as nat,
                    self.current + j,
                ),
        )
    }
}

impl FixedTicksIter {
    /// What every value of the type satisfies: no more ticks were handed out
    /// than there are.
    pub closed spec fn wf(&self) -> bool {
        self.current <= self.count
    }

    /// `count` ticks from `range.min` to `range.max`, both included. One tick
    /// alone sits at `range.min`.
    pub fn new(range: Range, count: usize) -> (it: FixedTicksIter)
        ensures
            it.wf(),
            it@ == spec_fixed_ticks(range, count as nat),
    {
        let it = FixedTicksIter { count, current: 0, start: range.min, end: range.max };
        assert(it@ =~= spec_fixed_ticks(range, count as nat));
        it
    }

    /// The next tick, or `None` after the last one.
    pub fn next(&mut self) -> (r: Option<i64>)
        requires
            old(self).wf(),
        ensures
            final(self).wf(),
            old(self)@.len() == 0 ==> r.is_none() && final(self)@ == old(self)@,
            old(self)@.len() > 0 ==> {
                &&& r matches Some(tick)
                &&& tick == old(self)@[0]
                &&& final(self)@ == old(self)@.drop_first()
            },
    {
        if self.current >= self.count {
            None
        } else {
            let value = if self.count == 1 {
                self.start
            } else {
                interpolate(self.start, self.end, self.current, self.count - 1)
            };
            self.current = self.current + 1;
            assert(final(self)@ =~= old(self)@.drop_first());
            Some(value)
        }
    }
}

/// Labels with their indices, handed out one at a time.
pub struct ColumnIter<'a> {
    pub column: &'a Vec<String>,
    pub current: usize,
}

impl<'a> ColumnIter<'a> {
    /// The next index and the text of its label, or `None` after the last
    /// one.
    pub fn next(&mut self) -> (r: Option<(usize, String)>)
        ensures
            final(self).column == old(self).column,
            old(self).current >= old(self).column.len() ==> {
                &&& r.is_none()
                &&& final(self).current == old(self).current
            },
            old(self).current < old(self).column.len() ==> {
                &&& r matches Some((index, label))
                &&& index == old(self).current
                &&& label@ == old(self).column[index as int]@
                &&& final(self).current == old(self).current + 1
            },
    {
        if self.current >= self.column.len() {
            return None;
        }
        let index = self.current;
        let label = self.column[index].clone();
        self.current = self.current + 1;
        Some((index, label))
    }
}

/// One tick of an axis.
#[derive(Clone, Debug, PartialEq, Eq)]
pub enum Tick {
    /// A tick at a nice step, with the decimal places that tell it from its
    /// neighbours and the unit of its value.
    Auto { value: i64, precision: u32, unit: RangeUnit },
    /// One of a fixed number of ticks.
    Fixed { value: i64 },
    /// The tick of the label at `index`.
    Label { label: String, index: usize },
}

impl Tick {
    /// Where the tick sits along its axis.
    pub open spec fn spec_position(&self) -> int {
        match self {
            Tick::Auto { value, .. } => *value as int,
            Tick::Fixed { value } => *value as int,
            Tick::Label { index, .. } => index * ONE,
        }
    }

    /// Where the tick sits along its axis: at its value, and a label at its
    /// index.
    pub fn position(&self) -> (p: i64)
        requires
            self matches Tick::Label { index, .. } ==> index <= MAX_LABELS,
        ensures
            p == self.spec_position(),
    {
        match self {
            Tick::Auto { value, .. } => *value,
            Tick::Fixed { value } => *value,
            Tick::Label { index, .. } => (*index as i64) * ONE,
        }
    }
}

/// The ticks of an axis, handed out one at a time.
pub enum TicksIter<'a> {
    Auto { iter: NiceTicksIter, scale: Scale, unit: RangeUnit },
    Fixed(FixedTicksIter),
    Labeled(ColumnIter<'a>),
}

impl<'a> TicksIter<'a> {
    /// What every value of the type satisfies.
    pub open spec fn wf(&self) -> bool {
        match self {
            TicksIter::Auto { iter, .. } => iter.wf(),
            TicksIter::Fixed(iter) => iter.wf(),
            TicksIter::Labeled(_) => true,
        }
    }

    /// Whether handing out `r` takes the ticks from `self` to `after`.
    ///
    /// A nice tick comes out as it is on a linear scale and as what `exp10`
    /// returns for it on a logarithmic one, with the precision and the unit
    /// of the run. A fixed tick comes out as it is. A label comes out with
    /// its index.
    pub open spec fn spec_next<E: Fn(i64) -> i64>(
        self,
        after: TicksIter<'a>,
        r: Option<Tick>,
        exp10: &E,
    ) -> bool {
        match self {
            TicksIter::Auto { iter, scale, unit } => {
                &&& after matches TicksIter::Auto {
                    iter: rest,
                    scale: scale_after,
                    unit: unit_after,
                }
                &&& scale_after == scale
                &&& unit_after == unit
                &&& rest.spec_precision() == iter.spec_precision()
                &&& if iter@.len() == 0 {
                    r.is_none() && rest@ == iter@
                } else {
                    &&& rest@ == iter@.drop_first()
                    &&& r matches Some(Tick::Auto { value, precision, unit: unit_out })
                    &&& unit_out == unit
                    &&& precision == iter.spec_precision()
                    &&& match scale {
                        Scale::Linear => value == iter@[0],
                        Scale::Logarithmic => call_ensures(*exp10, (iter@[0] as i64,), value),
                    }
                }
            },
            TicksIter::Fixed(iter) => {
                &&& after matches TicksIter::Fixed(rest)
                &&& if iter@.len() == 0 {
                    r.is_none() && rest@ == iter@
                } else {
                    &&& rest@ == iter@.drop_first()
                    &&& r matches Some(Tick::Fixed { value })
                    &&& value == iter@[0]
                }
            },
            TicksIter::Labeled(iter) => {
                &&& after matches TicksIter::Labeled(rest)
                &&& rest.column == iter.column
                &&& if iter.current >= iter.column.len() {
                    r.is_none() && rest.current == iter.current
                } else {
                    &&& rest.current == iter.current + 1
                    &&& r matches Some(Tick::Label { label, index })
                    &&& index == iter.current
                    &&& label@ == iter.column[index as int]@
                }
            },
        }
    }

    /// The next tick, or `None` after the last one.
    pub fn next<E: Fn(i64) -> i64>(&mut self, exp10: &E) -> (r: Option<Tick>)
        requires
            old(self).wf(),
            tame(exp10),
        ensures
            final(self).wf(),
            old(self).spec_next(*final(self), r, exp10),
    {
        match self {
            TicksIter::Auto { iter, scale, unit } => {
                proof {
                    iter.lemma_precision_bound();
                }
                match iter.next() {
                    Some(v) => {
                        let value = match scale {
                            Scale::Linear => v,
                            Scale::Logarithmic => exp10(v),
                        };
                        Some(Tick::Auto { value, precision: iter.precision() as u32, unit: *unit })
                    },
                    None => None,
                }
            },
            TicksIter::Fixed(iter) => match iter.next() {
                Some(value) => Some(Tick::Fixed { value }),
                None => None,
            },
            TicksIter::Labeled(iter) => match iter.next() {
                Some((index, label)) => Some(Tick::Label { label, index }),
                None => None,
            },
        }
    }
}

impl Axis {
    /// Whether `it` holds the ticks of this axis for the extent `range` of
    /// its data, with `nice_ticks` the number of nice steps wanted.
    ///
    /// A fixed number of ticks is spread evenly over the range that the axis
    /// shows. Otherwise a categorical range has one tick per label, and a
    /// continuous range has nice ticks: on a linear scale those of the range
    /// itself, on a logarithmic scale those of the range between what
    /// `log10` returns for its two ends.
    pub open spec fn spec_ticks<'a, L: Fn(i64) -> i64, E: Fn(i64) -> i64>(
        &self,
        range: DataRange<'a>,
        nice_ticks: u32,
        log10: &L,
        exp10: &E,
        it: TicksIter<'a>,
    ) -> bool {
        match self.ticks {
            Ticks::Fixed(count) => {
                &&& it matches TicksIter::Fixed(iter)
                &&& exists|shown: Range|
                    self.spec_is_pretty(range, log10, exp10, shown) && iter@ == spec_fixed_ticks(
                        shown,
                        count as nat,
                    )
            },
            Ticks::Auto => match range {
                DataRange::Categorical(labels) => {
                    &&& it matches TicksIter::Labeled(iter)
                    &&& iter.column == labels
                    &&& iter.current == 0
                },
                DataRange::Continuous { range: data, unit, .. } => {
                    &&& it matches TicksIter::Auto { iter, scale, unit: unit_out }
                    &&& scale == self.scale
                    &&& unit_out == unit
                    &&& exists|scaled: Range|
                        {
                            &&& self.spec_scaled(data, log10, scaled)
                            &&& iter@ == scaled.spec_nice_ticks(nice_ticks)
                            &&& iter.spec_precision() == scaled.spec_tick_precision(nice_ticks)
                        }
                },
            },
        }
    }

    /// Whether `scaled` is `data` as the scale of this axis places it: `data`
    /// itself on a linear scale, and the range between what `log10` returns
    /// for its ends on a logarithmic one.
    pub open spec fn spec_scaled<L: Fn(i64) -> i64>(
        &self,
        data: Range,
        log10: &L,
        scaled: Range,
    ) -> bool {
        match self.scale {
            Scale::Linear => scaled == data,
            Scale::Logarithmic => call_ensures(*log10, (data.min,), scaled.min) && call_ensures(
                *log10,
                (data.max,),
                scaled.max,
            ),
        }
    }

    /// `data` as the scale of this axis places it.
    pub fn scaled<L: Fn(i64) -> i64>(&self, data: Range, log10: &L) -> (r: Range)
        requires
            tame(log10),
        ensures
            self.spec_scaled(data, log10, r),
            self.scale == Scale::Linear ==> r == data,
            self.scale == Scale::Logarithmic ==> r.bounded(),
    {
        match self.scale {
            Scale::Linear => data,
            Scale::Logarithmic => Range::new(log10(data.min), log10(data.max)),
        }
    }

    /// The ticks of this axis for the extent `range` of its data.
    /// `nice_ticks` is the number of nice steps wanted where the ticks are
    /// chosen automatically.
    pub fn iter_ticks<'a, L: Fn(i64) -> i64, E: Fn(i64) -> i64>(
        &self,
        range: DataRange<'a>,
        nice_ticks: u32,
        log10: &L,
        exp10: &E,
    ) -> (it: TicksIter<'a>)
        requires
            self.wf(),
            tame(log10),
            tame(exp10),
            range.spec_plottable(),
            self.ticks is Fixed ==> self.spec_margin_fits(range),
        ensures
            it.wf(),
            self.spec_ticks(range, nice_ticks, log10, exp10, it),
    {
        match self.ticks {
            Ticks::Auto => match range {
                DataRange::Categorical(labels) => TicksIter::Labeled(
                    ColumnIter { column: labels, current: 0 },
                ),
                DataRange::Continuous { range: data, unit, .. } => {
                    let scaled = self.scaled(data, log10);
                    TicksIter::Auto { iter: scaled.nice_ticks(nice_ticks), scale: self.scale, unit }
                },
            },
            Ticks::Fixed(count) => {
                let shown = self.pretty_range(range, log10, exp10);
                TicksIter::Fixed(FixedTicksIter::new(shown, count))
            },
        }
    }
}

} // verus!
