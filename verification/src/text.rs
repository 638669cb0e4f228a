//! The text of a tick.
//!
//! Plain numbers are written in decimal with a fixed number of places,
//! rounded to the nearest with ties to the even neighbour. Durations and
//! dates are written by the standard library and the data frame library.

use vstd::prelude::*;
use crate::bounds::RangeUnit;
use crate::column::{date_text, duration_text, spec_date_text, spec_duration_text};
use crate::fixed::{
    lemma_pow10_grows, lemma_pow10_values, pow10, spec_abs, spec_pow10, spec_quot, ONE, PLACES,
};
use crate::ticks::Tick;

verus! {

/// The most decimal places that a number is written with.
pub const MAX_PLACES: u32 = 12;

/// The character of one decimal digit.
pub open spec fn spec_digit(d: int) -> char {
    if d == 0 {
        '0'
    } else if d == 1 {
        '1'
    } else if d == 2 {
        '2'
    } else if d == 3 {
        '3'
    } else if d == 4 {
        '4'
    } else if d == 5 {
        '5'
    } else if d == 6 {
        '6'
    } else if d == 7 {
        '7'
    } else if d == 8 {
        '8'
    } else {
        '9'
    }
}

/// The decimal digits of `n`, without leading zeros.
pub open spec fn spec_digits(n: nat) -> Seq<char>
    decreases n,
{
    if n < 10 {
        seq![spec_digit(n as int)]
    } else {
        spec_digits(n / 10).push(spec_digit((n % 10) as int))
    }
}

/// The last `width` decimal digits of `n`, with leading zeros.
pub open spec fn spec_padded(n: nat, width: nat) -> Seq<char>
    decreases width,
{
    if width == 0 {
        Seq::empty()
    } else {
        spec_padded(n / 10, (width - 1) as nat).push(spec_digit((n % 10) as int))
    }
}

/// `a / unit` rounded to the nearest whole number, a tie to the even one.
pub open spec fn spec_round(a: nat, unit: nat) -> nat {
    let q = a / unit;
    let rest = a % unit;
    if 2 * rest > unit || (2 * rest == unit && q % 2 == 1) {
        q + 1
    } else {
        q
    }
}

/// The magnitude of a quantity counted in units of `10^-places`: exact where
/// `places` is at least the six that a quantity carries, rounded otherwise.
pub open spec fn spec_scaled(v: int, places: nat) -> nat {
    let mag = spec_abs(v) as nat;
    if places >= PLACES {
        mag * spec_pow10((places - PLACES) as nat)
    } else {
        spec_round(mag, spec_pow10((PLACES - places) as nat))
    }
}

/// A quantity in decimal with `places` digits after the point: a minus sign
/// for a negative quantity, the whole part, and, where `places` is not zero,
/// the point and the fraction.
pub open spec fn spec_decimal(v: int, places: nat) -> Seq<char> {
    let scaled = spec_scaled(v, places);
    let unit = spec_pow10(places);
    let sign = if v < 0 {
        seq!['-']
    } else {
        Seq::<char>::empty()
    };
    let whole = sign + spec_digits(scaled / unit);
    if places == 0 {
        whole
    } else {
        whole.push('.') + spec_padded(scaled % unit, places)
    }
}

/// The whole nanoseconds of a quantity: none for a negative one.
pub open spec fn spec_nanos(v: int) -> u64 {
    if v <= 0 {
        0
    } else {
        (v / (ONE as int)) as u64
    }
}

/// The whole days of a quantity, the fraction dropped.
pub open spec fn spec_days(v: int) -> int {
    spec_quot(v, ONE as int)
}

/// The character of one decimal digit.
fn digit(d: u8) -> (c: char)
    requires
        d < 10,
    ensures
        c == spec_digit(d as int),
{
    if d == 0 {
        '0'
    } else if d == 1 {
        '1'
    } else if d == 2 {
        '2'
    } else if d == 3 {
        '3'
    } else if d == 4 {
        '4'
    } else if d == 5 {
        '5'
    } else if d == 6 {
        '6'
    } else if d == 7 {
        '7'
    } else if d == 8 {
        '8'
    } else {
        '9'
    }
}

/// Appends the decimal digits of `n`.
fn push_digits(s: &mut String, n: u128)
    ensures
        final(s)@ == old(s)@ + spec_digits(n as nat),
    decreases n,
{
    if n >= 10 {
        push_digits(s, n / 10);
    }
    s.push(digit((n % 10) as u8));
}

/// Appends the last `width` decimal digits of `n`.
fn push_padded(s: &mut String, n: u128, width: u32)
    ensures
        final(s)@ == old(s)@ + spec_padded(n as nat, width as nat),
    decreases width,
{
    if width > 0 {
        push_padded(s, n / 10, width - 1);
        s.push(digit((n % 10) as u8));
    }
}

/// A quantity in decimal with `places` digits after the point.
pub fn format_decimal(v: i64, places: u32) -> (s: String)
    requires
        places <= MAX_PLACES,
    ensures
        s@ == spec_decimal(v as int, places as nat),
{
    let mag: u128 = if v < 0 {
        (-(v as i128)) as u128
    } else {
        v as u128
    };
    proof {
        lemma_pow10_values();
    }
    let scaled: u128 = if places >= PLACES {
        let factor = pow10(places - PLACES);
        proof {
            lemma_pow10_grows((places - PLACES) as nat, 6);
        }
        assert(mag * factor <= 0x8000_0000_0000_0000 * 1_000_000) by (nonlinear_arith)
            requires
                0 <= mag <= 0x8000_0000_0000_0000,
                0 <= factor <= 1_000_000,
        ;
        mag * (factor as u128)
    } else {
        let unit = pow10(PLACES - places) as u128;
        proof {
            lemma_pow10_grows(1, (PLACES - places) as nat);
        }
        let q = mag / unit;
        let rest = mag % unit;
        if 2 * rest > unit || (2 * rest == unit && q % 2 == 1) {
            q + 1
        } else {
            q
        }
    };
    let unit = pow10(places) as u128;
    proof {
        lemma_pow10_grows(0, places as nat);
    }
    let mut s = String::new();
    if v < 0 {
        s.push('-');
    }
    push_digits(&mut s, scaled / unit);
    if places > 0 {
        s.push('.');
        push_padded(&mut s, scaled % unit, places);
    }
    assert(s@ =~= spec_decimal(v as int, places as nat));
    s
}

/// The whole nanoseconds of a quantity: none for a negative one.
pub fn nanos(v: i64) -> (n: u64)
    ensures
        n == spec_nanos(v as int),
{
    if v <= 0 {
        0
    } else {
        (v / ONE) as u64
    }
}

/// The whole days of a quantity, the fraction dropped.
pub fn days(v: i64) -> (d: i64)
    ensures
        d == spec_days(v as int),
{
    if v >= 0 {
        v / ONE
    } else {
        -(((-(v as i128)) / (ONE as i128)) as i64)
    }
}

/// The greatest number of days before or after 1970-01-01 that is written as
/// a date.
pub const MAX_DAYS: i64 = 90_000_000;

impl Tick {
    /// Whether the tick can be written: a number has at most
    /// [`MAX_PLACES`] places after the point, and a date lies within
    /// [`MAX_DAYS`] of 1970-01-01.
    pub open spec fn spec_printable(&self) -> bool {
        match self {
            Tick::Auto { precision, unit: RangeUnit::Absolute, .. } => *precision <= MAX_PLACES + 3,
            Tick::Auto { value, unit: RangeUnit::Date, .. } => -MAX_DAYS <= spec_days(*value as int)
                <= MAX_DAYS,
            _ => true,
        }
    }

    /// Whether the tick can be written.
    pub fn is_printable(&self) -> (b: bool)
        ensures
            b == self.spec_printable(),
    {
        match self {
            Tick::Auto { precision, unit: RangeUnit::Absolute, .. } => *precision <= MAX_PLACES + 3,
            Tick::Auto { value, unit: RangeUnit::Date, .. } => {
                let d = days(*value);
                -MAX_DAYS <= d && d <= MAX_DAYS
            },
            _ => true,
        }
    }

    /// The text of the tick.
    ///
    /// A nice tick of plain numbers is written with three places fewer than
    /// its precision, and with none where the precision is below three: the
    /// precision is generous by that much. A nice tick of durations is the
    /// duration of its whole nanoseconds, and one of dates the date of its
    /// whole days. A fixed tick is written with two places. A label is its
    /// own text.
    pub open spec fn spec_text(&self) -> Seq<char> {
        match self {
            Tick::Auto { value, precision, unit: RangeUnit::Absolute } => spec_decimal(
                *value as int,
                if *precision >= 3 {
                    (*precision - 3) as nat
                } else {
                    0
                },
            ),
            Tick::Auto { value, unit: RangeUnit::Duration, .. } => spec_duration_text(
                spec_nanos(*value as int),
            ),
            Tick::Auto { value, unit: RangeUnit::Date, .. } => spec_date_text(
                spec_days(*value as int) as i32,
            ),
            Tick::Fixed { value } => spec_decimal(*value as int, 2),
            Tick::Label { label, .. } => label@,
        }
    }

    /// The text of the tick.
    pub fn to_string(&self) -> (s: String)
        requires
            self.spec_printable(),
        ensures
            s@ == self.spec_text(),
    {
        match self {
            Tick::Auto { value, precision, unit: RangeUnit::Absolute } => {
                let places: u32 = if *precision >= 3 {
                    *precision - 3
                } else {
                    0
                };
                format_decimal(*value, places)
            },
            Tick::Auto { value, unit: RangeUnit::Duration, .. } => duration_text(nanos(*value)),
            Tick::Auto { value, unit: RangeUnit::Date, .. } => date_text(days(*value) as i32),
            Tick::Fixed { value } => format_decimal(*value, 2),
            Tick::Label { label, .. } => label.clone(),
        }
    }
}

} // verus!
