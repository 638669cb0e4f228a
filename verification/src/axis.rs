//! One axis of a plot: its scale, its explicit ends, its margin, and the
//! range that it finally shows.
//!
//! Logarithms are not computed here. Where an axis has a logarithmic scale,
//! the caller hands in the two functions `log10` and `exp10` on fixed-point
//! quantities, and the contracts speak of whatever those functions return.

use vstd::prelude::*;
use crate::bounds::{DataRange, Range};
use crate::fixed::{
    abs, fits, lemma_times_bound, spec_abs, spec_times, times, HALF, LIMIT, ONE,
};

verus! {

/// How positions along an axis follow from values.
#[derive(Clone, Copy, Debug, PartialEq, Eq, Structural)]
pub enum Scale {
    Linear,
    Logarithmic,
}

impl Default for Scale {
    fn default() -> (s: Scale)
        ensures
            s == Scale::Linear,
    {
        Scale::Linear
    }
}

/// How the ticks of an axis are chosen.
#[derive(Clone, Copy, Debug, PartialEq, Eq, Structural)]
pub enum Ticks {
    /// Nice steps for a continuous range, one tick per label for a
    /// categorical one.
    Auto,
    /// This many ticks, evenly spaced over the range shown.
    Fixed(usize),
}

impl Default for Ticks {
    fn default() -> (t: Ticks)
        ensures
            t == Ticks::Auto,
    {
        Ticks::Auto
    }
}

/// What is asked of a function that stands for `log10` or `exp10`: it accepts
/// every quantity, and what it returns lies within [`LIMIT`] of zero.
pub open spec fn tame<F: Fn(i64) -> i64>(f: &F) -> bool {
    &&& forall|v: i64| call_requires(*f, (v,))
    &&& forall|v: i64, w: i64| call_ensures(*f, (v,), w) ==> -LIMIT <= w <= LIMIT
}

impl Scale {
    /// The position that the scale gives to `value`: `value` itself on a
    /// linear scale, and what `log10` makes of it on a logarithmic one.
    pub fn scale_value<L: Fn(i64) -> i64>(&self, value: i64, log10: &L) -> (r: i64)
        requires
            tame(log10),
        ensures
            *self == Scale::Linear ==> r == value,
            *self == Scale::Logarithmic ==> call_ensures(*log10, (value,), r),
    {
        match self {
            Scale::Linear => value,
            Scale::Logarithmic => log10(value),
        }
    }
}

/// The settings of one axis.
pub struct Axis {
    pub title: Option<String>,
    pub scale: Scale,
    /// An explicit lower end, which replaces the one computed.
    pub min: Option<i64>,
    /// An explicit upper end, which replaces the one computed.
    pub max: Option<i64>,
    /// The fraction of the range's length that is left free on each side
    /// that wants a margin.
    pub margin: i64,
    pub ticks: Ticks,
}

impl Default for Axis {
    /// A linear axis without title or explicit ends, with a margin of a tenth
    /// and automatic ticks.
    fn default() -> (a: Axis)
        ensures
            a == Axis::spec_default(),
            a.wf(),
    {
        Axis {
            title: None,
            scale: Scale::Linear,
            min: None,
            max: None,
            margin: ONE / 10,
            ticks: Ticks::Auto,
        }
    }
}

impl Axis {
    /// A linear axis without title or explicit ends, with a margin of a tenth
    /// and automatic ticks.
    pub open spec fn spec_default() -> Axis {
        Axis {
            title: None,
            scale: Scale::Linear,
            min: None,
            max: None,
            margin: 100_000,
            ticks: Ticks::Auto,
        }
    }

    /// The settings that the range computations accept: explicit ends
    /// within [`LIMIT`] of zero.
    pub open spec fn wf(&self) -> bool {
        &&& self.min matches Some(m) ==> -LIMIT <= m <= LIMIT
        &&& self.max matches Some(m) ==> -LIMIT <= m <= LIMIT
    }

    /// Whether the margins of the extent `r` can be computed in an `i64`
    /// with room for what follows. An extent that wants no margin, and a
    /// categorical one, always can. On a linear scale the margin itself, the
    /// magnitude of `size * margin`, must be at most four times [`LIMIT`];
    /// on a logarithmic scale, where the distance between the logarithms is
    /// known only once they are taken, the margin fraction must be at most
    /// four in magnitude.
    pub open spec fn spec_margin_fits(&self, r: DataRange<'_>) -> bool {
        match r {
            DataRange::Continuous { range, margin_min, margin_max, .. } => (margin_min
                || margin_max) ==> self.spec_margin_fits_range(range),
            DataRange::Categorical(_) => true,
        }
    }

    /// Whether a margin of `range` can be computed.
    pub open spec fn spec_margin_fits_range(&self, range: Range) -> bool {
        match self.scale {
            Scale::Linear => self.spec_linear_margin(range) <= 4 * LIMIT,
            Scale::Logarithmic => -4 * ONE <= self.margin <= 4 * ONE,
        }
    }

    /// Whether the margins of the extent `r` can be computed.
    pub fn margin_fits(&self, r: &DataRange<'_>) -> (b: bool)
        ensures
            b == self.spec_margin_fits(*r),
    {
        match r {
            DataRange::Continuous { range, margin_min, margin_max, .. } => {
                if !*margin_min && !*margin_max {
                    return true;
                }
                match self.scale {
                    Scale::Linear => {
                        let size: i128 = (range.max as i128) - (range.min as i128);
                        proof {
                            lemma_wide_product(size as int, self.margin as int);
                        }
                        let product: i128 = size * (self.margin as i128);
                        let amount: i128 = if product >= 0 {
                            product / (ONE as i128)
                        } else {
                            (-product) / (ONE as i128)
                        };
                        amount <= 4 * (LIMIT as i128)
                    },
                    Scale::Logarithmic => -4 * ONE <= self.margin && self.margin <= 4 * ONE,
                }
            },
            DataRange::Categorical(_) => true,
        }
    }

    /// Whether the range computations accept the settings.
    pub fn is_wf(&self) -> (b: bool)
        ensures
            b == self.wf(),
    {
        let min_ok = match self.min {
            Some(m) => -LIMIT <= m && m <= LIMIT,
            None => true,
        };
        let max_ok = match self.max {
            Some(m) => -LIMIT <= m && m <= LIMIT,
            None => true,
        };
        min_ok && max_ok
    }

    pub fn title(&mut self, title: String) -> (r: &mut Self)
        ensures
            *r == (Axis { title: Some(title), ..*old(self) }),
            *final(self) == *final(r),
    {
        self.title = Some(title);
        self
    }

    /// Fixes the lower end of the range shown.
    pub fn min(&mut self, min: i64) -> (r: &mut Self)
        ensures
            *r == (Axis { min: Some(min), ..*old(self) }),
            *final(self) == *final(r),
    {
        self.min = Some(min);
        self
    }

    /// Fixes the upper end of the range shown.
    pub fn max(&mut self, max: i64) -> (r: &mut Self)
        ensures
            *r == (Axis { max: Some(max), ..*old(self) }),
            *final(self) == *final(r),
    {
        self.max = Some(max);
        self
    }

    /// Sets the fraction of the range's length that is left free on each
    /// side.
    pub fn margin(&mut self, margin: i64) -> (r: &mut Self)
        ensures
            *r == (Axis { margin, ..*old(self) }),
            *final(self) == *final(r),
    {
        self.margin = margin;
        self
    }

    /// Asks for `count` evenly spaced ticks.
    pub fn ticks_fixed(&mut self, count: usize) -> (r: &mut Self)
        ensures
            *r == (Axis { ticks: Ticks::Fixed(count), ..*old(self) }),
            *final(self) == *final(r),
    {
        self.ticks = Ticks::Fixed(count);
        self
    }

    /// Makes the scale logarithmic.
    pub fn log_scale(&mut self) -> (r: &mut Self)
        ensures
            *r == (Axis { scale: Scale::Logarithmic, ..*old(self) }),
            *final(self) == *final(r),
    {
        self.scale = Scale::Logarithmic;
        self
    }

    /// The margin on one side of `range` on a linear scale: the magnitude of
    /// the margin fraction of the range's length.
    pub open spec fn spec_linear_margin(&self, range: Range) -> int {
        spec_abs(spec_times(range.spec_size(), self.margin as int))
    }

    /// Whether `amount` is a margin on one side of `range` on a logarithmic
    /// scale: what `exp10` returns for the magnitude of the margin fraction of
    /// the distance between what `log10` returns for the two ends.
    pub open spec fn spec_log_margin<L: Fn(i64) -> i64, E: Fn(i64) -> i64>(
        &self,
        range: Range,
        log10: &L,
        exp10: &E,
        amount: i64,
    ) -> bool {
        exists|hi: i64, lo: i64|
            {
                &&& call_ensures(*log10, (range.max,), hi)
                &&& call_ensures(*log10, (range.min,), lo)
                &&& call_ensures(
                    *exp10,
                    (spec_abs(spec_times(hi - lo, self.margin as int)) as i64,),
                    amount,
                )
            }
    }

    /// Whether `amount` is a margin on one side of `range` on this axis's
    /// scale.
    pub open spec fn spec_margin<L: Fn(i64) -> i64, E: Fn(i64) -> i64>(
        &self,
        range: Range,
        log10: &L,
        exp10: &E,
        amount: i64,
    ) -> bool {
        match self.scale {
            Scale::Linear => amount == self.spec_linear_margin(range),
            Scale::Logarithmic => self.spec_log_margin(range, log10, exp10, amount),
        }
    }

    /// The range shown for a continuous range whose lower end moves down by
    /// `below` and whose upper end moves up by `above`, each only where a
    /// margin is wanted, and whose ends are then replaced by the explicit
    /// ones, where the axis has them.
    pub open spec fn spec_with_margins(
        &self,
        range: Range,
        margin_min: bool,
        margin_max: bool,
        below: i64,
        above: i64,
    ) -> Range {
        Range {
            min: match self.min {
                Some(m) => m,
                None => if margin_min {
                    (range.min - below) as i64
                } else {
                    range.min
                },
            },
            max: match self.max {
                Some(m) => m,
                None => if margin_max {
                    (range.max + above) as i64
                } else {
                    range.max
                },
            },
        }
    }

    /// The range shown for a continuous range on a linear scale: the same
    /// margin, the magnitude of `size * margin`, on each side that wants one.
    pub open spec fn spec_pretty_linear(
        &self,
        range: Range,
        margin_min: bool,
        margin_max: bool,
    ) -> Range {
        let amount = self.spec_linear_margin(range) as i64;
        self.spec_with_margins(range, margin_min, margin_max, amount, amount)
    }

    /// Whether `out` is the range that the axis shows for the extent `r`.
    pub open spec fn spec_is_pretty<L: Fn(i64) -> i64, E: Fn(i64) -> i64>(
        &self,
        r: DataRange<'_>,
        log10: &L,
        exp10: &E,
        out: Range,
    ) -> bool {
        match r {
            DataRange::Categorical(labels) => {
                &&& out.min == -HALF
                &&& out.max == labels.len() * ONE - HALF
            },
            DataRange::Continuous { range, margin_min, margin_max, .. } => exists|
                below: i64,
                above: i64,
            |
                {
                    &&& margin_min ==> self.spec_margin(range, log10, exp10, below)
                    &&& margin_max ==> self.spec_margin(range, log10, exp10, above)
                    &&& out == self.spec_with_margins(range, margin_min, margin_max, below, above)
                },
        }
    }

    /// The range shown for a continuous range whose margins are given: the
    /// lower end moves down by `below` and the upper end up by `above`, each
    /// only where a margin is wanted, and an explicit end of the axis replaces
    /// the end computed.
    pub fn with_margins(
        &self,
        range: Range,
        margin_min: bool,
        margin_max: bool,
        below: i64,
        above: i64,
    ) -> (out: Range)
        requires
            margin_min ==> fits(range.min - below),
            margin_max ==> fits(range.max + above),
        ensures
            out == self.spec_with_margins(range, margin_min, margin_max, below, above),
    {
        let lowered = if margin_min {
            range.min - below
        } else {
            range.min
        };
        let raised = if margin_max {
            range.max + above
        } else {
            range.max
        };
        Range::new(
            match self.min {
                Some(m) => m,
                None => lowered,
            },
            match self.max {
                Some(m) => m,
                None => raised,
            },
        )
    }

    /// The margin on one side of `range`: on a linear scale the magnitude of
    /// `size * margin`, on a logarithmic scale what `exp10` returns for the
    /// magnitude of `(log10(max) - log10(min)) * margin`.
    pub fn margin_of<L: Fn(i64) -> i64, E: Fn(i64) -> i64>(
        &self,
        range: Range,
        log10: &L,
        exp10: &E,
    ) -> (amount: i64)
        requires
            tame(log10),
            tame(exp10),
            range.bounded(),
            self.spec_margin_fits_range(range),
        ensures
            self.spec_margin(range, log10, exp10, amount),
            self.scale == Scale::Linear ==> 0 <= amount <= 4 * LIMIT,
            self.scale == Scale::Logarithmic ==> -LIMIT <= amount <= LIMIT,
    {
        match self.scale {
            Scale::Linear => abs(times(range.max - range.min, self.margin)),
            Scale::Logarithmic => {
                let hi = log10(range.max);
                let lo = log10(range.min);
                proof {
                    lemma_times_bound(hi - lo, self.margin as int, 4);
                }
                let spread = abs(times(hi - lo, self.margin));
                exp10(spread)
            },
        }
    }

    /// The range that the axis shows for the extent `r` of its data.
    ///
    /// A continuous range gets a margin on each side that wants one, and
    /// the margin of each side is measured on the range as the data gives
    /// it. On a linear scale a margin is the magnitude of `size * margin`;
    /// on a logarithmic scale it is
    /// `exp10(|log10(max) - log10(min)| * margin)`, which is subtracted and
    /// added as it stands. An explicit `min` or `max` of the axis then
    /// replaces the end computed, whatever the margins are.
    ///
    /// A categorical range of `n` labels is shown from `-0.5` to `n - 0.5`,
    /// so that each label's position is the middle of its cell; margins and
    /// explicit ends play no part.
    pub fn pretty_range<L: Fn(i64) -> i64, E: Fn(i64) -> i64>(
        &self,
        r: DataRange<'_>,
        log10: &L,
        exp10: &E,
    ) -> (out: Range)
        requires
            self.wf(),
            tame(log10),
            tame(exp10),
            r.spec_plottable(),
            self.spec_margin_fits(r),
        ensures
            self.spec_is_pretty(r, log10, exp10, out),
            out.within(5 * LIMIT),
            r matches DataRange::Continuous { range, margin_min, margin_max, .. } ==> (self.scale
                == Scale::Linear ==> out == self.spec_pretty_linear(range, margin_min, margin_max)),
            r is Continuous && self.min.is_some() ==> out.min == self.min.unwrap(),
            r is Continuous && self.max.is_some() ==> out.max == self.max.unwrap(),
    {
        match r {
            DataRange::Continuous { range, margin_min, margin_max, .. } => {
                let mut below: i64 = 0;
                let mut above: i64 = 0;
                if margin_min {
                    below = self.margin_of(range, log10, exp10);
                }
                if margin_max {
                    above = self.margin_of(range, log10, exp10);
                }
                self.with_margins(range, margin_min, margin_max, below, above)
            },
            DataRange::Categorical(labels) => {
                let n = labels.len();
                Range::new(-HALF, (n as i64) * ONE - HALF)
            },
        }
    }
}

/// An explicit end of an axis is an end of the range shown for a continuous
/// extent, whatever the margins, the scale and the margin flags are.
pub proof fn lemma_explicit_ends_win<L: Fn(i64) -> i64, E: Fn(i64) -> i64>(
    axis: Axis,
    r: DataRange<'_>,
    log10: &L,
    exp10: &E,
    out: Range,
)
    requires
        r is Continuous,
        axis.spec_is_pretty(r, log10, exp10, out),
    ensures
        axis.min matches Some(m) ==> out.min == m,
        axis.max matches Some(m) ==> out.max == m,
{
}

/// The range shown for a categorical extent depends on nothing but the
/// number of labels: two axes, whatever their settings, show the same range,
/// from half a unit below the first index to half a unit above the last.
pub proof fn lemma_categorical_range<L: Fn(i64) -> i64, E: Fn(i64) -> i64>(
    a: Axis,
    b: Axis,
    r: DataRange<'_>,
    log10: &L,
    exp10: &E,
    out_a: Range,
    out_b: Range,
)
    requires
        r is Categorical,
        r.spec_plottable(),
        a.spec_is_pretty(r, log10, exp10, out_a),
        b.spec_is_pretty(r, log10, exp10, out_b),
    ensures
        out_a == out_b,
        out_a.min == -HALF,
        r matches DataRange::Categorical(labels) ==> out_a.max == labels.len() * ONE
            - HALF,
{
}

/// The product of a length and a fraction fits an `i128`.
proof fn lemma_wide_product(size: int, fract: int)
    requires
        -0xffff_ffff_ffff_ffff <= size <= 0xffff_ffff_ffff_ffff,
        -0x8000_0000_0000_0000 <= fract <= 0x7fff_ffff_ffff_ffff,
    ensures
        -0x7fff_ffff_ffff_ffff_ffff_ffff_ffff_ffff <= size * fract
            <= 0x7fff_ffff_ffff_ffff_ffff_ffff_ffff_ffff,
{
    assert(-0x7fff_ffff_ffff_ffff_ffff_ffff_ffff_ffff <= size * fract
        <= 0x7fff_ffff_ffff_ffff_ffff_ffff_ffff_ffff) by (nonlinear_arith)
        requires
            -0xffff_ffff_ffff_ffff <= size <= 0xffff_ffff_ffff_ffff,
            -0x8000_0000_0000_0000 <= fract <= 0x8000_0000_0000_0000,
    ;
}

} // verus!
