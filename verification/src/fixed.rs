//! The fixed-point scalar type `Fx` and its exactly-specified arithmetic.
//!
//! Every value on the animation axis (positions, durations, times, unit
//! progress fractions) is an `Fx`: an `i64` count of millionths. The
//! operations saturate at the `i64` range instead of overflowing, and every
//! operation's result is pinned exactly by a spec-level counterpart, so all
//! progress computations built on them are deterministic.

use vstd::prelude::*;

verus! {

/// Number of raw units that represent `1.0` on the fixed-point scale.
pub const FX_SCALE: i64 = 1_000_000;

/// Clamps a mathematical integer into the range of `i64`.
pub open spec fn sat64(x: int) -> int {
    if x > i64::MAX {
        i64::MAX as int
    } else if x < i64::MIN {
        i64::MIN as int
    } else {
        x
    }
}

/// Magnitude of a mathematical integer.
pub open spec fn iabs(x: int) -> int {
    if x < 0 {
        -x
    } else {
        x
    }
}

/// Division truncated toward zero; zero when the divisor is zero.
pub open spec fn div_trunc(a: int, b: int) -> int {
    if b == 0 {
        0
    } else if (a < 0) != (b < 0) {
        -(iabs(a) / iabs(b))
    } else {
        iabs(a) / iabs(b)
    }
}

/// `max(0, x)` on mathematical integers.
pub open spec fn max0(x: int) -> int {
    if x < 0 {
        0
    } else {
        x
    }
}

/// Saturating fixed-point addition on raw values.
pub open spec fn fx_add(a: int, b: int) -> int {
    sat64(a + b)
}

/// Saturating fixed-point subtraction on raw values.
pub open spec fn fx_sub(a: int, b: int) -> int {
    sat64(a - b)
}

/// Saturating fixed-point multiplication on raw values: the mathematical
/// product rescaled by `FX_SCALE`, truncated toward zero.
pub open spec fn fx_mul(a: int, b: int) -> int {
    sat64(div_trunc(a * b, 1_000_000))
}

/// Saturating fixed-point division on raw values, truncated toward zero;
/// zero when the divisor is zero.
pub open spec fn fx_div(a: int, b: int) -> int {
    sat64(div_trunc(a * 1_000_000, b))
}

/// Remainder of a nonnegative value by a positive cycle length; zero when
/// either side leaves that domain.
pub open spec fn fx_rem(a: int, b: int) -> int {
    if a < 0 || b <= 0 {
        0
    } else {
        a % b
    }
}

/// The fraction `(ec mod dur) / dur` expressed on the fixed-point scale,
/// truncated; zero when `ec` is negative or `dur` is not positive.
pub open spec fn unit_frac(ec: int, dur: int) -> int {
    if ec < 0 || dur <= 0 {
        0
    } else {
        ((ec % dur) * 1_000_000) / dur
    }
}

/// A scalar on the animation axis: an `i64` count of millionths.
#[derive(Clone, Copy, Debug)]
pub struct Fx {
    pub raw: i64,
}

impl PartialEq for Fx {
    fn eq(&self, other: &Fx) -> bool {
        self.raw == other.raw
    }
}

impl vstd::std_specs::cmp::PartialEqSpecImpl for Fx {
    open spec fn obeys_eq_spec() -> bool {
        true
    }

    open spec fn eq_spec(&self, other: &Fx) -> bool {
        self.raw == other.raw
    }
}

/// Magnitude of an `i64`, as a `u64`.
fn mag64(v: i64) -> (m: u64)
    ensures
        m == iabs(v as int),
{
    if v >= 0 {
        v as u64
    } else if v == i64::MIN {
        9223372036854775808u64
    } else {
        (-v) as u64
    }
}

/// Clamps a nonnegative magnitude into the positive `i64` range.
fn pos_sat(q: u128) -> (r: i64)
    ensures
        r as int == sat64(q as int),
{
    if q > i64::MAX as u128 {
        i64::MAX
    } else {
        q as i64
    }
}

/// Clamps a negated magnitude into the negative `i64` range.
fn neg_sat(q: u128) -> (r: i64)
    ensures
        r as int == sat64(-(q as int)),
{
    if q >= 9223372036854775808u128 {
        i64::MIN
    } else {
        -(q as i64)
    }
}

/// `iabs` distributes over products.
proof fn lemma_abs_mul(a: int, b: int)
    ensures
        iabs(a * b) == iabs(a) * iabs(b),
        (a * b < 0) <==> ((a < 0) != (b < 0)) && a * b != 0,
{
    if a >= 0 && b >= 0 {
        assert(a * b >= 0) by (nonlinear_arith)
            requires
                a >= 0 && b >= 0,
        ;
    } else if a < 0 && b < 0 {
        assert(a * b >= 0 && (-a) * (-b) == a * b) by (nonlinear_arith)
            requires
                a < 0 && b < 0,
        ;
    } else if a < 0 && b >= 0 {
        assert(a * b <= 0 && (-a) * b == -(a * b)) by (nonlinear_arith)
            requires
                a < 0 && b >= 0,
        ;
    } else {
        assert(a * b <= 0 && a * (-b) == -(a * b)) by (nonlinear_arith)
            requires
                a >= 0 && b < 0,
        ;
    }
}

/// A product with a factor from the unit interval stays within the other
/// factor's bound.
pub proof fn lemma_fx_mul_unit_bound(a: int, b: int)
    requires
        0 <= a <= FX_SCALE as int,
        0 <= b <= i64::MAX,
    ensures
        0 <= fx_mul(a, b) <= b,
{
    vstd::arithmetic::mul::lemma_mul_nonnegative(a, b);
    vstd::arithmetic::mul::lemma_mul_inequality(a, 1_000_000, b);
    vstd::arithmetic::mul::lemma_mul_is_commutative(1_000_000, b);
    vstd::arithmetic::div_mod::lemma_div_multiples_vanish(b, 1_000_000);
    vstd::arithmetic::div_mod::lemma_div_is_ordered(a * b, b * 1_000_000, 1_000_000);
    vstd::arithmetic::div_mod::lemma_div_pos_is_pos(a * b, 1_000_000);
}

/// The unit fraction of a span within a period is always a proper
/// fraction: at least zero and strictly below one.
pub proof fn lemma_unit_frac_range(ec: int, dur: int)
    ensures
        0 <= unit_frac(ec, dur) < FX_SCALE as int,
{
    if ec >= 0 && dur > 0 {
        let m = ec % dur;
        vstd::arithmetic::div_mod::lemma_mod_division_less_than_divisor(ec, dur);
        vstd::arithmetic::mul::lemma_mul_nonnegative(m, 1_000_000);
        vstd::arithmetic::div_mod::lemma_div_pos_is_pos(m * 1_000_000, dur);
        vstd::arithmetic::mul::lemma_mul_inequality(m, dur - 1, 1_000_000);
        assert((dur - 1) * 1_000_000 < dur * 1_000_000) by (nonlinear_arith)
            requires
                dur > 0,
        ;
        vstd::arithmetic::div_mod::lemma_multiply_divide_lt(m * 1_000_000, dur, 1_000_000);
    }
}

/// Multiplying by one on the fixed-point scale is the identity.
pub proof fn lemma_fx_mul_one(x: int)
    requires
        i64::MIN <= x <= i64::MAX,
    ensures
        fx_mul(1_000_000, x) == x,
{
    lemma_abs_mul(1_000_000, x);
    vstd::arithmetic::div_mod::lemma_div_multiples_vanish(iabs(x), 1_000_000);
    vstd::arithmetic::mul::lemma_mul_is_commutative(1_000_000, iabs(x));
}

impl Fx {
    /// Builds a scalar directly from its raw count of millionths.
    pub fn from_raw(raw: i64) -> (r: Fx)
        ensures
            r.raw == raw,
    {
        Fx { raw }
    }

    /// Builds the scalar that represents the integer `v`.
    pub fn from_int(v: i32) -> (r: Fx)
        ensures
            r.raw == v as int * FX_SCALE as int,
    {
        Fx { raw: (v as i64) * FX_SCALE }
    }

    /// The scalar zero.
    pub fn zero() -> (r: Fx)
        ensures
            r.raw == 0,
    {
        Fx { raw: 0 }
    }

    /// The scalar one.
    pub fn one() -> (r: Fx)
        ensures
            r.raw == FX_SCALE as int,
    {
        Fx { raw: FX_SCALE }
    }

    /// Saturating addition.
    pub fn sat_add(self, other: Fx) -> (r: Fx)
        ensures
            r.raw == fx_add(self.raw as int, other.raw as int),
    {
        match self.raw.checked_add(other.raw) {
            Some(v) => Fx { raw: v },
            None => if self.raw >= 0 {
                Fx { raw: i64::MAX }
            } else {
                Fx { raw: i64::MIN }
            },
        }
    }

    /// Saturating subtraction.
    pub fn sat_sub(self, other: Fx) -> (r: Fx)
        ensures
            r.raw == fx_sub(self.raw as int, other.raw as int),
    {
        match self.raw.checked_sub(other.raw) {
            Some(v) => Fx { raw: v },
            None => if self.raw >= 0 {
                Fx { raw: i64::MAX }
            } else {
                Fx { raw: i64::MIN }
            },
        }
    }

    /// Saturating fixed-point multiplication.
    pub fn sat_mul(self, other: Fx) -> (r: Fx)
        ensures
            r.raw == fx_mul(self.raw as int, other.raw as int),
    {
        let a: i64 = self.raw;
        let b: i64 = other.raw;
        let neg: bool = (a < 0) != (b < 0);
        let ma: u128 = mag64(a) as u128;
        let mb: u128 = mag64(b) as u128;
        proof {
            lemma_abs_mul(a as int, b as int);
            vstd::arithmetic::mul::lemma_mul_upper_bound(
                ma as int,
                0x8000_0000_0000_0000,
                mb as int,
                0x8000_0000_0000_0000,
            );
        }
        let q: u128 = (ma * mb) / (FX_SCALE as u128);
        if neg {
            Fx { raw: neg_sat(q) }
        } else {
            Fx { raw: pos_sat(q) }
        }
    }

    /// Saturating fixed-point division; zero when the divisor is zero.
    pub fn sat_div(self, other: Fx) -> (r: Fx)
        ensures
            r.raw == fx_div(self.raw as int, other.raw as int),
    {
        let a: i64 = self.raw;
        let b: i64 = other.raw;
        if b == 0 {
            return Fx { raw: 0 };
        }
        let neg: bool = (a < 0) != (b < 0);
        let ma: u128 = mag64(a) as u128;
        let mb: u128 = mag64(b) as u128;
        proof {
            lemma_abs_mul(a as int, FX_SCALE as int);
            vstd::arithmetic::mul::lemma_mul_upper_bound(
                ma as int,
                0x8000_0000_0000_0000,
                FX_SCALE as int,
                0x10_0000,
            );
        }
        let q: u128 = (ma * (FX_SCALE as u128)) / mb;
        if neg {
            Fx { raw: neg_sat(q) }
        } else {
            Fx { raw: pos_sat(q) }
        }
    }

    /// Remainder within a repeat cycle; zero outside the nonnegative domain.
    pub fn rem_cycle(self, m: Fx) -> (r: Fx)
        ensures
            r.raw == fx_rem(self.raw as int, m.raw as int),
    {
        if self.raw < 0 || m.raw <= 0 {
            Fx { raw: 0 }
        } else {
            Fx { raw: ((self.raw as u64) % (m.raw as u64)) as i64 }
        }
    }

    /// Clamps a negative value to zero.
    pub fn at_least_zero(self) -> (r: Fx)
        ensures
            r.raw == max0(self.raw as int),
    {
        if self.raw < 0 {
            Fx { raw: 0 }
        } else {
            self
        }
    }

    /// The fraction of `self` within one period of `dur`, on the unit scale.
    pub fn unit_fraction(self, dur: Fx) -> (r: Fx)
        ensures
            r.raw == unit_frac(self.raw as int, dur.raw as int),
    {
        if self.raw < 0 || dur.raw <= 0 {
            return Fx { raw: 0 };
        }
        let m: u128 = ((self.raw as u64) % (dur.raw as u64)) as u128;
        let q: u128 = (m * (FX_SCALE as u128)) / (dur.raw as u128);
        proof {
            vstd::arithmetic::mul::lemma_mul_upper_bound(
                m as int,
                0x8000_0000_0000_0000,
                FX_SCALE as int,
                0x10_0000,
            );
            vstd::arithmetic::div_mod::lemma_multiply_divide_lt(
                m as int * FX_SCALE as int,
                dur.raw as int,
                FX_SCALE as int,
            );
        }
        Fx { raw: q as i64 }
    }

    /// Saturating multiplication by a repetition count.
    pub fn mul_count(self, n: u64) -> (r: Fx)
        ensures
            r.raw == sat64(self.raw as int * n as int),
    {
        let ma: u128 = mag64(self.raw) as u128;
        proof {
            lemma_abs_mul(self.raw as int, n as int);
            vstd::arithmetic::mul::lemma_mul_upper_bound(
                ma as int,
                0x8000_0000_0000_0000,
                n as int,
                0xFFFF_FFFF_FFFF_FFFF,
            );
        }
        let q: u128 = ma * (n as u128);
        if self.raw < 0 {
            Fx { raw: neg_sat(q) }
        } else {
            Fx { raw: pos_sat(q) }
        }
    }
}

} // verus!
