//! Fixed-point quantities.
//!
//! Every coordinate, length and fraction in this crate is an `i64` that counts
//! millionths: the value `1_000_000` stands for one. Arithmetic on such
//! quantities is exact wherever the result is a whole number of millionths and
//! is truncated toward zero where it is not.

use vstd::prelude::*;

verus! {

/// One whole unit.
pub const ONE: i64 = 1_000_000;

/// Half a unit.
pub const HALF: i64 = 500_000;

/// The largest magnitude of a coordinate that the tick and margin
/// computations accept: a million million units.
pub const LIMIT: i64 = 1_000_000_000_000_000_000;

/// The number of decimal places that a quantity carries.
pub const PLACES: u32 = 6;

/// Whether a mathematical integer can be held in an `i64`.
pub open spec fn fits(v: int) -> bool {
    i64::MIN <= v <= i64::MAX
}

/// The magnitude of `v`.
pub open spec fn spec_abs(v: int) -> int {
    if v < 0 {
        -v
    } else {
        v
    }
}

/// The direction of a length: `-1` for a negative one, `1` otherwise. A
/// length of zero counts as positive.
pub open spec fn spec_signum(v: int) -> int {
    if v < 0 {
        -1
    } else {
        1
    }
}

/// `a / b` rounded toward zero, for a positive `b`.
pub open spec fn spec_quot(a: int, b: int) -> int {
    if a >= 0 {
        a / b
    } else {
        -((-a) / b)
    }
}

/// The product of a quantity and a fraction, truncated toward zero to a whole
/// number of millionths.
pub open spec fn spec_times(a: int, fract: int) -> int {
    spec_quot(a * fract, ONE as int)
}

/// Ten to the power `n`.
pub open spec fn spec_pow10(n: nat) -> nat
    decreases n,
{
    if n == 0 {
        1
    } else {
        10 * spec_pow10((n - 1) as nat)
    }
}

/// The decimal order of magnitude of `x`: the number of its decimal digits
/// less one, and `0` for `x == 0`.
pub open spec fn spec_magnitude(x: nat) -> nat
    decreases x,
{
    if x < 10 {
        0
    } else {
        1 + spec_magnitude(x / 10)
    }
}

/// Powers of ten are positive and grow with the exponent.
pub proof fn lemma_pow10_grows(a: nat, b: nat)
    requires
        a <= b,
    ensures
        1 <= spec_pow10(a) <= spec_pow10(b),
    decreases b,
{
    if b == 0 {
    } else if a == b {
        lemma_pow10_grows(0, (b - 1) as nat);
    } else {
        lemma_pow10_grows(a, (b - 1) as nat);
    }
}

/// The first nineteen powers of ten.
pub proof fn lemma_pow10_values()
    ensures
        spec_pow10(0) == 1,
        spec_pow10(1) == 10,
        spec_pow10(2) == 100,
        spec_pow10(3) == 1_000,
        spec_pow10(4) == 10_000,
        spec_pow10(5) == 100_000,
        spec_pow10(6) == 1_000_000,
        spec_pow10(7) == 10_000_000,
        spec_pow10(8) == 100_000_000,
        spec_pow10(9) == 1_000_000_000,
        spec_pow10(10) == 10_000_000_000,
        spec_pow10(11) == 100_000_000_000,
        spec_pow10(12) == 1_000_000_000_000,
        spec_pow10(13) == 10_000_000_000_000,
        spec_pow10(14) == 100_000_000_000_000,
        spec_pow10(15) == 1_000_000_000_000_000,
        spec_pow10(16) == 10_000_000_000_000_000,
        spec_pow10(17) == 100_000_000_000_000_000,
        spec_pow10(18) == 1_000_000_000_000_000_000,
{
    reveal_with_fuel(spec_pow10, 20);
}

/// The order of magnitude brackets its argument between two consecutive
/// powers of ten.
pub proof fn lemma_magnitude_brackets(x: nat)
    requires
        x >= 1,
    ensures
        spec_pow10(spec_magnitude(x)) <= x < spec_pow10(spec_magnitude(x) + 1),
    decreases x,
{
    if x < 10 {
        reveal_with_fuel(spec_pow10, 3);
    } else {
        lemma_magnitude_brackets(x / 10);
    }
}

/// The order of magnitude is the only exponent whose power of ten brackets
/// the argument.
pub proof fn lemma_magnitude_unique(x: nat, k: nat)
    requires
        spec_pow10(k) <= x < spec_pow10(k + 1),
    ensures
        spec_magnitude(x) == k,
    decreases k,
{
    if k == 0 {
        reveal_with_fuel(spec_pow10, 3);
    } else {
        lemma_pow10_grows(1, k);
        reveal_with_fuel(spec_pow10, 2);
        assert(spec_pow10((k - 1) as nat) <= x / 10 < spec_pow10(k));
        lemma_magnitude_unique(x / 10, (k - 1) as nat);
    }
}

/// Ten to the power `n`.
pub fn pow10(n: u32) -> (p: i64)
    requires
        n <= 18,
    ensures
        p == spec_pow10(n as nat),
{
    let mut p: i64 = 1;
    let mut i: u32 = 0;
    while i < n
        invariant
            i <= n <= 18,
            p == spec_pow10(i as nat),
        decreases n - i,
    {
        proof {
            lemma_pow10_grows((i + 1) as nat, 18);
            lemma_pow10_values();
        }
        p = p * 10;
        i = i + 1;
    }
    p
}

/// The decimal order of magnitude of a non-negative quantity.
pub fn magnitude(x: i64) -> (k: u32)
    requires
        x >= 0,
    ensures
        k == spec_magnitude(x as nat),
        k <= 18,
{
    let mut k: u32 = 0;
    let mut rest: i64 = x;
    assert(spec_pow10(0) == 1);
    while rest >= 10
        invariant
            0 <= rest <= x,
            spec_magnitude(x as nat) == k + spec_magnitude(rest as nat),
            rest * spec_pow10(k as nat) <= x,
            k <= 18,
        decreases rest,
    {
        proof {
            let p = spec_pow10(k as nat) as int;
            let q = (rest / 10) as int;
            assert(q * (10 * p) <= rest * p) by (nonlinear_arith)
                requires
                    q * 10 <= rest,
                    p >= 0,
            ;
            if k == 18 {
                lemma_pow10_values();
                assert(rest * p >= 10 * p) by (nonlinear_arith)
                    requires
                        rest >= 10,
                        p >= 0,
                ;
            }
        }
        rest = rest / 10;
        k = k + 1;
    }
    k
}

/// The magnitude of a quantity.
pub fn abs(v: i64) -> (r: i64)
    requires
        v > i64::MIN,
    ensures
        r == spec_abs(v as int),
{
    if v < 0 {
        -v
    } else {
        v
    }
}

/// The largest multiple of `step` that is at most `a`.
pub open spec fn spec_floor_to(a: int, step: int) -> int {
    (a / step) * step
}

/// The smallest multiple of `step` that is at least `a`.
pub open spec fn spec_ceil_to(a: int, step: int) -> int {
    -(((-a) / step) * step)
}

/// Rounding down to a multiple of `step` moves a value by less than `step`,
/// and not at all if it is a multiple already.
pub proof fn lemma_floor_to(a: int, step: int)
    requires
        step > 0,
    ensures
        a - step < spec_floor_to(a, step) <= a,
        spec_floor_to(a, step) % step == 0,
        a % step == 0 ==> spec_floor_to(a, step) == a,
{
    let q = a / step;
    assert(a == q * step + a % step && 0 <= a % step < step) by (nonlinear_arith)
        requires
            step > 0,
            q == a / step,
    ;
    assert((q * step) % step == 0) by (nonlinear_arith)
        requires
            step > 0,
    ;
}

/// Rounding up to a multiple of `step` moves a value by less than `step`,
/// and not at all if it is a multiple already.
pub proof fn lemma_ceil_to(a: int, step: int)
    requires
        step > 0,
    ensures
        a <= spec_ceil_to(a, step) < a + step,
        spec_ceil_to(a, step) % step == 0,
        a % step == 0 ==> spec_ceil_to(a, step) == a,
{
    lemma_floor_to(-a, step);
    let f = spec_floor_to(-a, step);
    assert((-f) % step == 0) by (nonlinear_arith)
        requires
            step > 0,
            f % step == 0,
    ;
    if a % step == 0 {
        assert((-a) % step == 0) by (nonlinear_arith)
            requires
                step > 0,
                a % step == 0,
        ;
    }
}

/// The largest multiple of `step` that is at most `a`.
pub fn floor_to(a: i64, step: i64) -> (r: i64)
    requires
        step > 0,
        a - step >= i64::MIN,
    ensures
        r == spec_floor_to(a as int, step as int),
{
    if a >= 0 {
        let m = a % step;
        assert(spec_floor_to(a as int, step as int) == a - m) by (nonlinear_arith)
            requires
                step > 0,
                m == a % step,
        ;
        a - m
    } else {
        let m = (-a) % step;
        if m == 0 {
            assert(spec_floor_to(a as int, step as int) == a) by (nonlinear_arith)
                requires
                    step > 0,
                    (-a) % (step as int) == 0,
            ;
            a
        } else {
            assert(spec_floor_to(a as int, step as int) == a + m - step) by (nonlinear_arith)
                requires
                    step > 0,
                    m == (-a) % (step as int),
                    0 < m < step,
            ;
            a + m - step
        }
    }
}

/// The smallest multiple of `step` that is at least `a`.
pub fn ceil_to(a: i64, step: i64) -> (r: i64)
    requires
        step > 0,
        a + step <= i64::MAX,
        a > i64::MIN,
    ensures
        r == spec_ceil_to(a as int, step as int),
{
    let f = floor_to(-a, step);
    proof {
        lemma_floor_to(-a as int, step as int);
    }
    -f
}

/// The product of a quantity and a fraction, truncated toward zero.
pub fn times(a: i64, fract: i64) -> (r: i64)
    requires
        fits(spec_times(a as int, fract as int)),
    ensures
        r == spec_times(a as int, fract as int),
{
    proof {
        lemma_product_bound(a as int, fract as int);
    }
    let p: i128 = (a as i128) * (fract as i128);
    if p >= 0 {
        (p / (ONE as i128)) as i64
    } else {
        (-((-p) / (ONE as i128))) as i64
    }
}

/// The product of two `i64` values fits an `i128` with room to spare.
pub proof fn lemma_product_bound(a: int, b: int)
    requires
        fits(a),
        fits(b),
    ensures
        -0x4000_0000_0000_0000_0000_0000_0000_0000 <= a * b
            <= 0x4000_0000_0000_0000_0000_0000_0000_0000,
{
    assert(-0x4000_0000_0000_0000_0000_0000_0000_0000 <= a * b
        <= 0x4000_0000_0000_0000_0000_0000_0000_0000) by (nonlinear_arith)
        requires
            -0x8000_0000_0000_0000 <= a <= 0x8000_0000_0000_0000,
            -0x8000_0000_0000_0000 <= b <= 0x8000_0000_0000_0000,
    ;
}

/// A fraction of at most `k` in magnitude lengthens a quantity at most `k`
/// times.
pub proof fn lemma_times_bound(a: int, fract: int, k: int)
    requires
        k >= 0,
        -k * ONE <= fract <= k * ONE,
    ensures
        spec_abs(spec_times(a, fract)) <= k * spec_abs(a),
{
    let p = a * fract;
    assert(spec_abs(p) <= k * spec_abs(a) * ONE) by (nonlinear_arith)
        requires
            p == a * fract,
            k >= 0,
            -k * ONE <= fract <= k * ONE,
    ;
}

} // verus!
