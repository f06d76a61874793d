//! Time bases, timestamps, and the rebasing of tick values between time
//! bases.

use vstd::prelude::*;
use vstd::arithmetic::mul::lemma_mul_unary_negation;

verus! {

/// A rational number: `numerator / denominator`. Used for time bases (the
/// duration of one timestamp tick, in seconds) and for frame rates.
#[derive(Clone, Copy, Debug, PartialEq, Eq, Structural)]
pub struct Rational {
    pub numerator: i32,
    pub denominator: i32,
}

impl Rational {
    /// A usable time base: one tick lasts a positive fraction of a second.
    pub open spec fn is_time_base(self) -> bool {
        self.numerator >= 1 && self.denominator >= 1
    }

    pub fn new(numerator: i32, denominator: i32) -> (r: Rational)
        ensures
            r == (Rational { numerator, denominator }),
    {
        Rational { numerator, denominator }
    }
}

/// A timestamp: an optional tick value paired with the time base needed to
/// convert it to seconds. A missing tick value means the source carried no
/// timestamp.
#[derive(Clone, Copy, Debug, PartialEq, Eq)]
pub struct Timestamp {
    pub ticks: Option<i64>,
    pub time_base: Rational,
}

impl Timestamp {
    pub fn new(ticks: Option<i64>, time_base: Rational) -> (r: Timestamp)
        ensures
            r == (Timestamp { ticks, time_base }),
    {
        Timestamp { ticks, time_base }
    }
}

/// Division of `a` by a positive `d`, rounded to the nearest integer with
/// ties away from zero.
pub open spec fn div_round_nearest(a: int, d: int) -> int
    recommends
        d >= 1,
{
    if a >= 0 {
        (a + d / 2) / d
    } else {
        -((-a + d / 2) / d)
    }
}

/// The tick value `t`, expressed in time base `to` instead of time base
/// `from`: exactly `t * (from / to)`, rounded to the nearest integer tick
/// with ties away from zero.
pub open spec fn rescale_spec(t: int, from: Rational, to: Rational) -> int
    recommends
        from.is_time_base(),
        to.is_time_base(),
{
    div_round_nearest(t * from.numerator * to.denominator, from.denominator * to.numerator)
}

/// Rebasing of an optional tick value: a missing tick stays missing, and a
/// rescaled tick that does not fit the tick range is dropped rather than
/// misstated.
pub open spec fn rescale_ts_spec(t: Option<i64>, from: Rational, to: Rational) -> Option<i64>
    recommends
        from.is_time_base(),
        to.is_time_base(),
{
    match t {
        None => None,
        Some(v) => {
            let r = rescale_spec(v as int, from, to);
            if i64::MIN <= r <= i64::MAX {
                Some(r as i64)
            } else {
                None
            }
        },
    }
}

/// Rebases an optional tick value from time base `from` to time base `to`,
/// losslessly up to the final rounding to a whole tick.
pub fn rescale_ts(t: Option<i64>, from: Rational, to: Rational) -> (r: Option<i64>)
    requires
        from.is_time_base(),
        to.is_time_base(),
    ensures
        r == rescale_ts_spec(t, from, to),
{
    let v: i64 = match t {
        None => {
            return None;
        },
        Some(v) => v,
    };
    let fnum: u128 = from.numerator as u128;
    let fden: u128 = from.denominator as u128;
    let tnum: u128 = to.numerator as u128;
    let tden: u128 = to.denominator as u128;
    let neg: bool = v < 0;
    let mag: u128 = if v < 0 {
        (-(v as i128)) as u128
    } else {
        v as u128
    };
    assert(mag * fnum <= 0x4000_0000_0000_0000_0000_0000u128
        && mag * fnum * tden <= 0x2000_0000_0000_0000_0000_0000_0000_0000u128
        && 1 <= fden * tnum <= 0x4000_0000_0000_0000u128
        && (mag >= 1 ==> mag * fnum * tden >= 1)) by (nonlinear_arith)
        requires
            mag <= 0x8000_0000_0000_0000u128,
            1 <= fnum <= 0x8000_0000u128,
            1 <= fden <= 0x8000_0000u128,
            1 <= tnum <= 0x8000_0000u128,
            1 <= tden <= 0x8000_0000u128,
    ;
    let a: u128 = mag * fnum * tden;
    let d: u128 = fden * tnum;
    let q: u128 = (a + d / 2) / d;
    proof {
        let ti = v as int;
        if neg {
            lemma_mul_unary_negation(ti, from.numerator as int);
            lemma_mul_unary_negation(ti * (from.numerator as int), to.denominator as int);
            assert(a as int == -(ti * from.numerator * to.denominator));
        } else {
            assert(a as int == ti * from.numerator * to.denominator);
        }
    }
    if neg {
        // the unrounded value is negative here, since the magnitude is at
        // least one tick's worth; ties round away from zero
        if q <= 0x8000_0000_0000_0000u128 {
            let qi: i128 = q as i128;
            Some((-qi) as i64)
        } else {
            None
        }
    } else {
        if q <= 0x7fff_ffff_ffff_ffffu128 {
            Some(q as i64)
        } else {
            None
        }
    }
}

} // verus!
