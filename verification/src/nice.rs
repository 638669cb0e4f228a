//! Round tick positions for a range.
//!
//! A step is *nice* when it is 1, 2, 2.5 or 5 times a power of ten. For a
//! range and a wanted number of ticks, the step chosen is the smallest nice
//! step that exceeds `size / count`, and the ticks are its multiples from the
//! last one at or below `min` to the first one at or above `max`.
//!
//! All of this is exact: the ticks are whole multiples of the step, so no
//! rounding of the positions is needed. One millionth is the finest step
//! there is; 2.5 millionths is not a step.

use vstd::prelude::*;
use crate::bounds::Range;
use crate::fixed::{
    ceil_to, floor_to, lemma_ceil_to, lemma_floor_to, lemma_magnitude_brackets,
    lemma_pow10_grows, lemma_pow10_values, magnitude, pow10, spec_ceil_to, spec_floor_to,
    spec_magnitude, spec_pow10,
};

verus! {

/// The nice step for a raw step whose whole part, in millionths, is `x`: with
/// `p` the greatest power of ten that is at most `x`, it is the first of
/// `2p`, `2.5p`, `5p` and `10p` that exceeds the raw step, and one millionth
/// where the raw step is below that.
pub open spec fn spec_nice_step(x: int) -> int {
    let p = spec_pow10(spec_magnitude(x as nat)) as int;
    if x < p {
        p
    } else if x < 2 * p {
        2 * p
    } else if p >= 10 && 2 * x < 5 * p {
        5 * p / 2
    } else if x < 5 * p {
        5 * p
    } else {
        10 * p
    }
}

/// The number of decimal places that tells the ticks of a step apart with
/// room to spare: four more than the step's own decimal order calls for. `k`
/// is the order of magnitude of the raw step counted in millionths, so the
/// order of the step in units is `k - 6`, and the places are `4 - (k - 6)`,
/// or none where that is negative.
pub open spec fn spec_step_precision(k: nat) -> nat {
    if k <= 10 {
        (10 - k) as nat
    } else {
        0
    }
}

/// A nice step exceeds the raw step it was chosen for, by a factor of at most
/// ten, and is kept small enough by a raw step of at most `2 * 10^18` for the
/// ticks around a bounded range to fit.
pub proof fn lemma_nice_step_bounds(x: int)
    requires
        0 <= x,
    ensures
        x < spec_nice_step(x),
        1 <= spec_nice_step(x),
        x >= 1 ==> spec_nice_step(x) <= 10 * x,
        x <= 2_000_000_000_000_000_000 ==> spec_nice_step(x) <= 2_500_000_000_000_000_000,
{
    let k = spec_magnitude(x as nat);
    let p = spec_pow10(k) as int;
    lemma_pow10_grows(0, k);
    if x >= 1 {
        lemma_magnitude_brackets(x as nat);
        assert(spec_pow10(k + 1) == 10 * spec_pow10(k));
    } else {
        assert(spec_pow10(0) == 1);
    }
    if x <= 2_000_000_000_000_000_000 {
        lemma_pow10_values();
        if k >= 19 {
            lemma_pow10_grows(19, k);
            assert(spec_pow10(19) == 10 * spec_pow10(18));
        } else if k <= 17 {
            lemma_pow10_grows(k, 17);
        }
    }
}

/// Whether `s` is a nice step: 1, 2, 2.5 or 5 times a power of ten, and a
/// whole number of millionths.
pub open spec fn spec_is_nice(s: int) -> bool {
    exists|j: nat| spec_is_nice_at(s, j)
}

/// Whether `s` is 1, 2, 5 or 25 times the `j`-th power of ten.
pub open spec fn spec_is_nice_at(s: int, j: nat) -> bool {
    ||| s == spec_pow10(j)
    ||| s == 2 * spec_pow10(j)
    ||| s == 5 * spec_pow10(j)
    ||| s == 25 * spec_pow10(j)
}

/// The step chosen for a raw step is a nice step.
pub proof fn lemma_nice_step_is_nice(x: int)
    requires
        0 <= x,
    ensures
        spec_is_nice(spec_nice_step(x)),
{
    let k = spec_magnitude(x as nat);
    let p = spec_pow10(k) as int;
    let s = spec_nice_step(x);
    if s == p || s == 2 * p || s == 5 * p {
        assert(spec_is_nice_at(s, k));
    } else if s == 10 * p {
        assert(spec_pow10(k + 1) == 10 * spec_pow10(k));
        assert(spec_is_nice_at(s, k + 1));
    } else {
        lemma_pow10_grows(0, k);
        assert(k >= 1) by {
            if k == 0 {
                assert(spec_pow10(0) == 1);
            }
        }
        assert(spec_pow10(k) == 10 * spec_pow10((k - 1) as nat));
        assert(spec_is_nice_at(s, (k - 1) as nat));
    }
}

/// The step chosen for a raw step is the least nice step that exceeds it.
pub proof fn lemma_nice_step_least(x: int, s: int)
    requires
        0 <= x < s,
        spec_is_nice(s),
    ensures
        spec_nice_step(x) <= s,
{
    let j = choose|j: nat| spec_is_nice_at(s, j);
    let k = spec_magnitude(x as nat);
    let p = spec_pow10(k) as int;
    let q = spec_pow10(j) as int;
    lemma_pow10_grows(0, k);
    lemma_pow10_grows(0, j);
    if x == 0 {
        assert(spec_pow10(0) == 1);
    } else {
        lemma_magnitude_brackets(x as nat);
        assert(spec_pow10(k + 1) == 10 * spec_pow10(k));
        if j >= k + 1 {
            lemma_pow10_grows(k + 1, j);
        } else if j == k {
        } else if j + 1 == k {
            assert(spec_pow10(k) == 10 * spec_pow10(j));
        } else {
            lemma_pow10_grows(j, (k - 2) as nat);
            assert(spec_pow10(k) == 10 * spec_pow10((k - 1) as nat));
            assert(spec_pow10((k - 1) as nat) == 10 * spec_pow10((k - 2) as nat));
        }
    }
}

impl Range {
    /// Whether the range has ticks at all: it must run upward over some
    /// length, and at least one tick must be wanted.
    pub open spec fn has_ticks(self, count: u32) -> bool {
        self.min < self.max && count > 0
    }

    /// The whole part of the raw step `size / count`.
    pub open spec fn spec_raw_step(self, count: u32) -> int {
        self.spec_size() / (count as int)
    }

    /// The step between two ticks.
    pub open spec fn spec_tick_step(self, count: u32) -> int {
        spec_nice_step(self.spec_raw_step(count))
    }

    /// The first tick: the last multiple of the step at or below `min`.
    pub open spec fn spec_tick_lo(self, count: u32) -> int {
        spec_floor_to(self.min as int, self.spec_tick_step(count))
    }

    /// The last tick: the first multiple of the step at or above `max`.
    pub open spec fn spec_tick_hi(self, count: u32) -> int {
        spec_ceil_to(self.max as int, self.spec_tick_step(count))
    }

    /// The ticks, in rising order. A range that does not run upward, and a
    /// count of zero, have none.
    pub open spec fn spec_nice_ticks(self, count: u32) -> Seq<int> {
        if self.has_ticks(count) {
            spec_ticks_from(
                self.spec_tick_lo(count),
                self.spec_tick_step(count),
                self.spec_tick_hi(count),
            )
        } else {
            Seq::empty()
        }
    }

    /// The decimal places reported with the ticks.
    pub open spec fn spec_tick_precision(self, count: u32) -> nat {
        if self.has_ticks(count) {
            spec_step_precision(spec_magnitude(self.spec_raw_step(count) as nat))
        } else {
            0
        }
    }

    /// The ticks that divide the range into about `count` nice steps.
    ///
    /// The range must lie within [`crate::fixed::LIMIT`] of zero, which keeps
    /// every tick within an `i64`.
    pub fn nice_ticks(&self, count: u32) -> (it: NiceTicksIter)
        requires
            self.bounded(),
        ensures
            it.wf(),
            it@ == self.spec_nice_ticks(count),
            it.spec_precision() == self.spec_tick_precision(count),
    {
        if self.min >= self.max || count == 0 {
            return NiceTicksIter::new(1, 0, 1, 0);
        }
        let raw: i64 = (self.max - self.min) / (count as i64);
        let k: u32 = magnitude(raw);
        let p: i64 = pow10(k);
        proof {
            lemma_nice_step_bounds(raw as int);
            lemma_pow10_grows(0, k as nat);
            if raw >= 1 {
                lemma_magnitude_brackets(raw as nat);
            } else {
                assert(spec_pow10(0) == 1);
            }
        }
        let step: i64 = if raw < p {
            p
        } else if raw < 2 * p {
            2 * p
        } else if p >= 10 && 2 * raw < 5 * p {
            5 * p / 2
        } else if raw < 5 * p {
            5 * p
        } else {
            10 * p
        };
        let lo: i64 = floor_to(self.min, step);
        let hi: i64 = ceil_to(self.max, step);
        proof {
            lemma_floor_to(self.min as int, step as int);
            lemma_ceil_to(self.max as int, step as int);
        }
        let precision: usize = if k <= 10 {
            (10 - k) as usize
        } else {
            0
        };
        NiceTicksIter::new(lo, hi, step, precision)
    }
}

/// The multiples of `step` from `lo` up to `hi`.
pub open spec fn spec_ticks_from(lo: int, step: int, hi: int) -> Seq<int> {
    if lo <= hi {
        Seq::new(((hi - lo) / step + 1) as nat, |i: int| lo + i * step)
    } else {
        Seq::empty()
    }
}

/// The ticks of a range, handed out one at a time.
pub struct NiceTicksIter {
    current: i64,
    step: i64,
    hi: i64,
    precision: usize,
}

impl View for NiceTicksIter {
    type V = Seq<int>;

    /// The ticks that are still to come.
    closed spec fn view(&self) -> Seq<int> {
        spec_ticks_from(self.current as int, self.step as int, self.hi as int)
    }
}

impl NiceTicksIter {
    /// What every value of the type satisfies: the step is positive, the
    /// position after the last tick is still an `i64`, and the precision is
    /// at most ten places.
    pub closed spec fn wf(&self) -> bool {
        &&& self.step > 0
        &&& self.hi + self.step <= i64::MAX
        &&& self.precision <= 10
    }

    /// No tick is told apart by more than ten decimal places.
    pub proof fn lemma_precision_bound(&self)
        requires
            self.wf(),
        ensures
            self.spec_precision() <= 10,
    {
    }

    /// The decimal places that tell the ticks apart.
    pub closed spec fn spec_precision(&self) -> nat {
        self.precision as nat
    }

    fn new(lo: i64, hi: i64, step: i64, precision: usize) -> (it: NiceTicksIter)
        requires
            step > 0,
            hi + step <= i64::MAX,
            precision <= 10,
        ensures
            it.wf(),
            it@ == spec_ticks_from(lo as int, step as int, hi as int),
            it.spec_precision() == precision,
    {
        NiceTicksIter { current: lo, step, hi, precision }
    }

    /// The decimal places that tell the ticks apart: pass them on to
    /// whatever formats the ticks.
    pub fn precision(&self) -> (p: usize)
        ensures
            p == self.spec_precision(),
    {
        self.precision
    }

    /// The next tick, or `None` after the last one.
    pub fn next(&mut self) -> (r: Option<i64>)
        requires
            old(self).wf(),
        ensures
            final(self).wf(),
            final(self).spec_precision() == old(self).spec_precision(),
            old(self)@.len() == 0 ==> r.is_none() && final(self)@ == old(self)@,
            old(self)@.len() > 0 ==> {
                &&& r matches Some(tick)
                &&& tick == old(self)@[0]
                &&& final(self)@ == old(self)@.drop_first()
            },
    {
        if self.current <= self.hi {
            let result = self.current;
            proof {
                lemma_ticks_from_step(self.current as int, self.step as int, self.hi as int);
            }
            self.current = self.current + self.step;
            Some(result)
        } else {
            None
        }
    }
}

/// Taking the first of the multiples from `lo` leaves the multiples from
/// `lo + step`.
pub proof fn lemma_ticks_from_step(lo: int, step: int, hi: int)
    requires
        step > 0,
        lo <= hi,
    ensures
        spec_ticks_from(lo, step, hi).len() > 0,
        spec_ticks_from(lo, step, hi)[0] == lo,
        spec_ticks_from(lo, step, hi).drop_first() == spec_ticks_from(lo + step, step, hi),
{
    let n = (hi - lo) / step;
    assert(n >= 0 && n * step <= hi - lo < (n + 1) * step) by (nonlinear_arith)
        requires
            step > 0,
            lo <= hi,
            n == (hi - lo) / step,
    ;
    let a = spec_ticks_from(lo, step, hi);
    let b = spec_ticks_from(lo + step, step, hi);
    assert(a[0] == lo) by (nonlinear_arith)
        requires
            a[0] == lo + 0 * step,
    ;
    if lo + step <= hi {
        let m = (hi - (lo + step)) / step;
        assert(m == n - 1) by (nonlinear_arith)
            requires
                step > 0,
                lo + step <= hi,
                n == (hi - lo) / step,
                m == (hi - (lo + step)) / step,
        ;
        assert forall|i: int| 0 <= i < b.len() implies a.drop_first()[i] == b[i] by {
            assert(lo + (i + 1) * step == lo + step + i * step) by (nonlinear_arith);
        }
        assert(a.drop_first() =~= b);
    } else {
        assert(n == 0) by (nonlinear_arith)
            requires
                step > 0,
                n >= 0,
                n * step <= hi - lo,
                hi - lo < step,
        ;
        assert(a.drop_first() =~= b);
    }
}

/// Two multiples of a step are a whole number of steps apart.
proof fn lemma_multiples_apart(a: int, b: int, step: int)
    requires
        step > 0,
    ensures
        (-(-b * step) - a * step) / step == b - a,
        ((-(-b * step) - a * step) / step) * step == -(-b * step) - a * step,
        b * step - a * step == (b - a) * step,
{
    assert(-(-b * step) - a * step == (b - a) * step) by (nonlinear_arith);
    assert(((b - a) * step) / step == b - a) by (nonlinear_arith)
        requires
            step > 0,
    ;
    assert(b * step - a * step == (b - a) * step) by (nonlinear_arith);
}

/// Every tick of a range lies between the first and the last, which enclose
/// the range; the first tick is the lower of these and the last tick the
/// upper; and each tick is one step above the one before it.
pub proof fn lemma_ticks_contained(r: Range, count: u32, i: int)
    requires
        r.has_ticks(count),
        0 <= i < r.spec_nice_ticks(count).len(),
    ensures
        r.spec_tick_step(count) >= 1,
        r.spec_tick_lo(count) <= r.min,
        r.max <= r.spec_tick_hi(count),
        r.spec_tick_lo(count) <= r.spec_nice_ticks(count)[i] <= r.spec_tick_hi(count),
        r.spec_tick_lo(count) - r.spec_tick_step(count) / 2 <= r.spec_nice_ticks(count)[i]
            <= r.spec_tick_hi(count) + r.spec_tick_step(count) / 2,
        r.spec_nice_ticks(count)[i] == r.spec_tick_lo(count) + i * r.spec_tick_step(count),
        r.spec_nice_ticks(count)[0] == r.spec_tick_lo(count),
        r.spec_nice_ticks(count).last() == r.spec_tick_hi(count),
{
    let step = r.spec_tick_step(count);
    let lo = r.spec_tick_lo(count);
    let hi = r.spec_tick_hi(count);
    let raw = r.spec_raw_step(count);
    assert(raw >= 0) by (nonlinear_arith)
        requires
            raw == r.spec_size() / (count as int),
            r.spec_size() > 0,
            count > 0,
    ;
    lemma_nice_step_bounds(raw);
    lemma_floor_to(r.min as int, step);
    lemma_ceil_to(r.max as int, step);
    let n = (hi - lo) / step;
    lemma_multiples_apart(r.min as int / step, -((-r.max) / step), step);
    assert(lo <= lo + i * step <= hi) by (nonlinear_arith)
        requires
            0 <= i <= n,
            n * step == hi - lo,
            step > 0,
    ;
    assert(lo + 0 * step == lo) by (nonlinear_arith);
}

/// The ticks number at most two more than were wanted, and the step exceeds
/// the raw step `size / count`.
pub proof fn lemma_ticks_count(r: Range, count: u32)
    requires
        r.has_ticks(count),
    ensures
        r.spec_tick_step(count) * count > r.spec_size(),
        2 <= r.spec_nice_ticks(count).len() <= count + 2,
{
    let step = r.spec_tick_step(count);
    let lo = r.spec_tick_lo(count);
    let hi = r.spec_tick_hi(count);
    let raw = r.spec_raw_step(count);
    let size = r.spec_size();
    let c = count as int;
    assert(raw >= 0 && size < (raw + 1) * c) by (nonlinear_arith)
        requires
            raw == size / c,
            size > 0,
            c > 0,
    ;
    lemma_nice_step_bounds(raw);
    assert(step * c > size) by (nonlinear_arith)
        requires
            step >= raw + 1,
            size < (raw + 1) * c,
            c > 0,
    ;
    lemma_floor_to(r.min as int, step);
    lemma_ceil_to(r.max as int, step);
    let n = (hi - lo) / step;
    lemma_multiples_apart(r.min as int / step, -((-r.max) / step), step);
    assert(1 <= n <= c + 1) by (nonlinear_arith)
        requires
            n * step == hi - lo,
            hi - lo < size + 2 * step,
            hi - lo >= size,
            size > 0,
            step * c > size,
            step > 0,
            c > 0,
    ;
}

/// Two runs of the tick computation on one range and one count give the same
/// ticks and the same precision: nothing is remembered between runs.
pub proof fn lemma_nice_ticks_repeatable(r: Range, count: u32, a: NiceTicksIter, b: NiceTicksIter)
    requires
        a@ == r.spec_nice_ticks(count),
        a.spec_precision() == r.spec_tick_precision(count),
        b@ == r.spec_nice_ticks(count),
        b.spec_precision() == r.spec_tick_precision(count),
    ensures
        a@ == b@,
        a.spec_precision() == b.spec_precision(),
{
}

} // verus!
