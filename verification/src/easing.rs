//! The easing curve catalog.
//!
//! Each curve maps a unit progress fraction to an eased fraction, both on the
//! fixed-point scale. Curves that are transcendental in their textbook form
//! (sine, exponential, circular, elastic) are realized here as fixed-point
//! polynomial approximations whose endpoints are pinned exactly, so that a
//! finished animation always lands exactly on its destination. Every curve is
//! total: inputs outside the unit interval are accepted and extrapolated.

use vstd::prelude::*;

use crate::fixed::Fx;
use crate::fixed::FX_SCALE;
use crate::fixed::fx_add;
use crate::fixed::fx_sub;
use crate::fixed::fx_mul;
use crate::fixed::fx_div;
use crate::fixed::fx_rem;
use crate::fixed::iabs;
use crate::fixed::max0;
use crate::fixed::sat64;

verus! {

/// Coefficient of `t` in the quarter-wave sine polynomial.
pub const C_SIN1: i64 = 1_570_796;

/// Coefficient of `t^3` in the quarter-wave sine polynomial.
pub const C_SIN3: i64 = -645_964;

/// Coefficient of `t^5` in the quarter-wave sine polynomial; chosen so the
/// three coefficients sum to exactly one.
pub const C_SIN5: i64 = 75_168;

/// Coefficient of `f` in the binary exponential polynomial.
pub const C_EXP1: i64 = 693_147;

/// Coefficient of `f^2` in the binary exponential polynomial.
pub const C_EXP2: i64 = 240_227;

/// Coefficient of `f^3` in the binary exponential polynomial.
pub const C_EXP3: i64 = 55_504;

/// Coefficient of `f^4` in the binary exponential polynomial; chosen so the
/// polynomial reaches exactly two at one.
pub const C_EXP4: i64 = 11_122;

/// One half on the fixed-point scale.
pub const HALF: i64 = 500_000;

/// The overshoot constant of the back curves.
pub const C_BACK1: i64 = 1_701_580;

/// `C_BACK1 + 1` on the fixed-point scale.
pub const C_BACK3: i64 = 2_701_580;

/// `C_BACK1 * 1.525` on the fixed-point scale.
pub const C_BACK2: i64 = 2_594_910;

/// The bounce amplitude constant, `7.5625`.
pub const C_BNC_N1: i64 = 7_562_500;

/// First bounce threshold, `1 / 2.75`.
pub const C_BNC_T1: i64 = 363_636;

/// Second bounce threshold, `2 / 2.75`.
pub const C_BNC_T2: i64 = 727_272;

/// Third bounce threshold, `2.5 / 2.75`.
pub const C_BNC_T3: i64 = 909_090;

/// First bounce center, `1.5 / 2.75`.
pub const C_BNC_O1: i64 = 545_454;

/// Second bounce center, `2.25 / 2.75`.
pub const C_BNC_O2: i64 = 818_181;

/// Third bounce center, `2.625 / 2.75`.
pub const C_BNC_O3: i64 = 954_545;

/// First bounce plateau, `0.75`.
pub const C_BNC_P1: i64 = 750_000;

/// Second bounce plateau, `0.9375`.
pub const C_BNC_P2: i64 = 937_500;

/// Third bounce plateau; one millionth above `0.984375` so the curve reaches
/// exactly one at one.
pub const C_BNC_P3: i64 = 984_376;

/// Ten on the fixed-point scale.
pub const TEN: i64 = 10_000_000;

/// Twenty on the fixed-point scale.
pub const TWENTY: i64 = 20_000_000;

/// `10.75` on the fixed-point scale.
pub const TEN_75: i64 = 10_750_000;

/// `11.125` on the fixed-point scale.
pub const ELEVEN_125: i64 = 11_125_000;

/// `0.75` on the fixed-point scale.
pub const THREE_Q: i64 = 750_000;

/// Three on the fixed-point scale.
pub const THREE: i64 = 3_000_000;

/// `4.5` on the fixed-point scale.
pub const FOUR_HALF: i64 = 4_500_000;

/// Quarter-wave sine: approximates `sin(t * pi / 2)` for `t` in the unit
/// interval, with `0` and `1` mapped exactly.
#[verifier::opaque]
pub open spec fn spec_sin_quarter(t: int) -> int {
    let t2 = fx_mul(t, t);
    let t3 = fx_mul(t2, t);
    let t5 = fx_mul(t3, t2);
    fx_add(fx_add(fx_mul(1_570_796, t), fx_mul(-645_964, t3)), fx_mul(75_168, t5))
}

fn sin_quarter(t: Fx) -> (r: Fx)
    ensures
        r.raw == spec_sin_quarter(t.raw as int),
{
    proof {
        reveal(spec_sin_quarter);
    }
    let t2: Fx = t.sat_mul(t);
    let t3: Fx = t2.sat_mul(t);
    let t5: Fx = t3.sat_mul(t2);
    let p1: Fx = Fx::from_raw(C_SIN1).sat_mul(t);
    let p3: Fx = Fx::from_raw(C_SIN3).sat_mul(t3);
    let p5: Fx = Fx::from_raw(C_SIN5).sat_mul(t5);
    p1.sat_add(p3).sat_add(p5)
}

/// Approximates `cos(pi * x)` for `x` in the unit interval by quarter-wave
/// symmetry; `cos(pi / 2)` is exactly zero.
#[verifier::opaque]
pub open spec fn spec_cos_pi(x: int) -> int {
    let d = fx_add(x, x);
    if d <= 1_000_000 {
        spec_sin_quarter(fx_sub(1_000_000, d))
    } else {
        fx_sub(0, spec_sin_quarter(fx_sub(d, 1_000_000)))
    }
}

fn cos_pi(x: Fx) -> (r: Fx)
    ensures
        r.raw == spec_cos_pi(x.raw as int),
{
    proof {
        reveal(spec_cos_pi);
    }
    let d: Fx = x.sat_add(x);
    if d.raw <= FX_SCALE {
        sin_quarter(Fx::from_raw(FX_SCALE).sat_sub(d))
    } else {
        Fx::from_raw(0).sat_sub(sin_quarter(d.sat_sub(Fx::from_raw(FX_SCALE))))
    }
}

/// The argument reduced into one turn: `u` modulo one, always nonnegative.
#[verifier::opaque]
pub open spec fn spec_mod_unit(u: int) -> int {
    if u >= 0 {
        fx_rem(u, 1_000_000)
    } else {
        let m = fx_rem(iabs(u), 1_000_000);
        if m == 0 {
            0
        } else {
            1_000_000 - m
        }
    }
}

fn mod_unit(u: Fx) -> (r: Fx)
    ensures
        r.raw == spec_mod_unit(u.raw as int),
{
    proof {
        reveal(spec_mod_unit);
    }
    if u.raw >= 0 {
        Fx { raw: ((u.raw as u64) % (FX_SCALE as u64)) as i64 }
    } else {
        let mag: u64 = if u.raw == i64::MIN {
            9223372036854775808u64
        } else {
            (-u.raw) as u64
        };
        let m: u64 = mag % (FX_SCALE as u64);
        if m == 0 {
            Fx { raw: 0 }
        } else {
            Fx { raw: FX_SCALE - (m as i64) }
        }
    }
}

/// Full-wave sine in turns: approximates `sin(2 * pi * u)` for any `u`,
/// reduced by symmetry to the quarter-wave polynomial. Quarter-turn points
/// are mapped exactly.
#[verifier::opaque]
pub open spec fn spec_sin_turn(u: int) -> int {
    let m = spec_mod_unit(u);
    let f = fx_add(fx_add(m, m), fx_add(m, m));
    if f < 1_000_000 {
        spec_sin_quarter(f)
    } else if f < 2_000_000 {
        spec_sin_quarter(fx_sub(2_000_000, f))
    } else if f < 3_000_000 {
        fx_sub(0, spec_sin_quarter(fx_sub(f, 2_000_000)))
    } else {
        fx_sub(0, spec_sin_quarter(fx_sub(4_000_000, f)))
    }
}

fn sin_turn(u: Fx) -> (r: Fx)
    ensures
        r.raw == spec_sin_turn(u.raw as int),
{
    proof {
        reveal(spec_sin_turn);
    }
    let m: Fx = mod_unit(u);
    let f: Fx = m.sat_add(m).sat_add(m.sat_add(m));
    if f.raw < FX_SCALE {
        sin_quarter(f)
    } else if f.raw < 2 * FX_SCALE {
        sin_quarter(Fx::from_raw(2 * FX_SCALE).sat_sub(f))
    } else if f.raw < 3 * FX_SCALE {
        Fx::from_raw(0).sat_sub(sin_quarter(f.sat_sub(Fx::from_raw(2 * FX_SCALE))))
    } else {
        Fx::from_raw(0).sat_sub(sin_quarter(Fx::from_raw(4 * FX_SCALE).sat_sub(f)))
    }
}

/// Binary exponential on a unit fraction: approximates `2^f` for `f` in
/// `[0, 1)`, with `2^0` exactly one.
#[verifier::opaque]
pub open spec fn spec_exp2_unit(f: int) -> int {
    fx_add(
        1_000_000,
        fx_mul(
            f,
            fx_add(
                693_147,
                fx_mul(
                    f,
                    fx_add(240_227, fx_mul(f, fx_add(55_504, fx_mul(f, 11_122)))),
                ),
            ),
        ),
    )
}

fn exp2_unit(f: Fx) -> (r: Fx)
    ensures
        r.raw == spec_exp2_unit(f.raw as int),
{
    proof {
        reveal(spec_exp2_unit);
    }
    let h3: Fx = Fx::from_raw(C_EXP3).sat_add(f.sat_mul(Fx::from_raw(C_EXP4)));
    let h2: Fx = Fx::from_raw(C_EXP2).sat_add(f.sat_mul(h3));
    let h1: Fx = Fx::from_raw(C_EXP1).sat_add(f.sat_mul(h2));
    Fx::from_raw(FX_SCALE).sat_add(f.sat_mul(h1))
}

/// Binary exponential: approximates `2^e` for any fixed-point exponent,
/// split into an integer shift and a unit fraction. Integer exponents from
/// zero upward, and exactly zero, are mapped exactly.
#[verifier::opaque]
pub open spec fn spec_exp2(e: int) -> int {
    if e >= 0 {
        let n = e / (1_000_000);
        let f = e % (1_000_000);
        if n >= 63 {
            i64::MAX as int
        } else {
            sat64(spec_exp2_unit(f) * vstd::arithmetic::power2::pow2(n as nat))
        }
    } else {
        let m = fx_rem(iabs(e), 1_000_000);
        let k = iabs(e) / (1_000_000);
        if m == 0 {
            if k >= 63 {
                0
            } else {
                1_000_000int / (vstd::arithmetic::power2::pow2(k as nat) as int)
            }
        } else {
            if k + 1 >= 63 {
                0
            } else {
                spec_exp2_unit(1_000_000 - m) / (vstd::arithmetic::power2::pow2(
                    (k + 1) as nat,
                ) as int)
            }
        }
    }
}

/// The binary exponential polynomial stays between one and two on the unit
/// interval.
proof fn lemma_exp2_unit_range(f: int)
    requires
        0 <= f <= 1_000_000,
    ensures
        1_000_000 <= spec_exp2_unit(f) <= 2_000_000,
{
    reveal(spec_exp2_unit);
    crate::fixed::lemma_fx_mul_unit_bound(f, 11_122);
    let h3 = fx_add(55_504, fx_mul(f, 11_122));
    crate::fixed::lemma_fx_mul_unit_bound(f, h3);
    let h2 = fx_add(240_227, fx_mul(f, h3));
    crate::fixed::lemma_fx_mul_unit_bound(f, h2);
    let h1 = fx_add(693_147, fx_mul(f, h2));
    crate::fixed::lemma_fx_mul_unit_bound(f, h1);
}

/// `2^n` as a `u64`, for `n < 63`.
fn pow2_u64(n: u64) -> (r: u64)
    requires
        n < 63,
    ensures
        r == vstd::arithmetic::power2::pow2(n as nat),
{
    let mut i: u64 = 0;
    let mut p: u64 = 1;
    proof {
        vstd::arithmetic::power2::lemma2_to64();
    }
    while i < n
        invariant
            i <= n < 63,
            p == vstd::arithmetic::power2::pow2(i as nat),
            p <= 0x4000_0000_0000_0000,
        decreases n - i,
    {
        proof {
            vstd::arithmetic::power2::lemma_pow2_unfold((i + 1) as nat);
            if i + 1 < 62 {
                vstd::arithmetic::power2::lemma_pow2_strictly_increases((i + 1) as nat, 62);
            }
            vstd::arithmetic::power2::lemma2_to64_rest();
        }
        p = p * 2;
        i = i + 1;
    }
    p
}

fn exp2_fx(e: Fx) -> (r: Fx)
    ensures
        r.raw == spec_exp2(e.raw as int),
{
    proof {
        reveal(spec_exp2);
    }
    if e.raw >= 0 {
        let n: u64 = (e.raw as u64) / (FX_SCALE as u64);
        let f: u64 = (e.raw as u64) % (FX_SCALE as u64);
        if n >= 63 {
            Fx { raw: i64::MAX }
        } else {
            let base: Fx = exp2_unit(Fx { raw: f as i64 });
            base.mul_count(pow2_u64(n))
        }
    } else {
        let mag: u64 = if e.raw == i64::MIN {
            9223372036854775808u64
        } else {
            (-e.raw) as u64
        };
        let m: u64 = mag % (FX_SCALE as u64);
        let k: u64 = mag / (FX_SCALE as u64);
        if m == 0 {
            if k >= 63 {
                Fx { raw: 0 }
            } else {
                let p: u64 = pow2_u64(k);
                proof {
                    vstd::arithmetic::power2::lemma_pow2_pos(k as nat);
                }
                Fx { raw: ((FX_SCALE as u64) / p) as i64 }
            }
        } else {
            if k + 1 >= 63 {
                Fx { raw: 0 }
            } else {
                let base: Fx = exp2_unit(Fx { raw: FX_SCALE - (m as i64) });
                proof {
                    lemma_exp2_unit_range(1_000_000 - m as int);
                }
                let p: u64 = pow2_u64(k + 1);
                proof {
                    vstd::arithmetic::power2::lemma_pow2_pos((k + 1) as nat);
                }
                Fx { raw: ((base.raw as u64) / p) as i64 }
            }
        }
    }
}

/// Whether `r` is the integer square root of `n`.
pub open spec fn is_isqrt(n: int, r: int) -> bool {
    r >= 0 && r * r <= n && n < ((r + 1) * (r + 1))
}

/// The nonnegative integer square root, as selected by its defining bounds.
pub open spec fn fx_isqrt(n: int) -> int {
    choose|r: int| is_isqrt(n, r)
}

/// Fixed-point square root of the nonnegative part of `v`.
#[verifier::opaque]
pub open spec fn spec_sqrt(v: int) -> int {
    fx_isqrt(max0(v) * (1_000_000))
}

proof fn lemma_isqrt_unique(n: int, r: int)
    requires
        is_isqrt(n, r),
    ensures
        fx_isqrt(n) == r,
{
    let c = fx_isqrt(n);
    assert(is_isqrt(n, c)) by {
        assert(exists|x: int| is_isqrt(n, x)) by {
            assert(is_isqrt(n, r));
        }
    }
    if c < r {
        assert((c + 1) * (c + 1) <= r * r) by (nonlinear_arith)
            requires
                0 <= c && c < r,
        ;
        assert(false);
    } else if c > r {
        assert((r + 1) * (r + 1) <= c * c) by (nonlinear_arith)
            requires
                0 <= r && r < c,
        ;
        assert(false);
    }
}

/// Integer square root by bisection.
fn isqrt_u128(n: u128) -> (r: u64)
    requires
        n < 0x1000000000000000000000,
    ensures
        r as int * r as int <= n as int,
        (r as int + 1) * (r as int + 1) > n as int,
{
    let mut lo: u64 = 0;
    let mut hi: u64 = 0x40000000000u64;
    proof {
        assert((0x40000000000 as int) * (0x40000000000 as int) == 0x1000000000000000000000int);
    }
    while lo + 1 < hi
        invariant
            lo < hi,
            hi <= 0x40000000000u64,
            lo as int * lo as int <= n as int,
            (n as int) < (hi as int * hi as int),
        decreases hi - lo,
    {
        let mid: u64 = lo + (hi - lo) / 2;
        proof {
            vstd::arithmetic::mul::lemma_mul_upper_bound(
                mid as int,
                0x40000000000,
                mid as int,
                0x40000000000,
            );
        }
        let sq: u128 = (mid as u128) * (mid as u128);
        if sq <= n {
            lo = mid;
        } else {
            hi = mid;
        }
    }
    lo
}

pub(crate) fn sqrt_fx(v: Fx) -> (r: Fx)
    ensures
        r.raw == spec_sqrt(v.raw as int),
{
    proof {
        reveal(spec_sqrt);
    }
    let c: Fx = v.at_least_zero();
    let n: u128 = (c.raw as u128) * (FX_SCALE as u128);
    proof {
        vstd::arithmetic::mul::lemma_mul_upper_bound(
            c.raw as int,
            0x8000_0000_0000_0000,
            1_000_000,
            0x10_0000,
        );
    }
    let r: u64 = isqrt_u128(n);
    proof {
        lemma_isqrt_unique(n as int, r as int);
        assert((r as int) < 0x40000000000) by (nonlinear_arith)
            requires
                r as int >= 0 && (r as int * r as int) < 0x1000000000000000000000int,
        ;
    }
    Fx { raw: r as i64 }
}

} // verus!

verus! {

/// Two on the fixed-point scale.
pub const TWO: i64 = 2_000_000;

/// Four on the fixed-point scale.
pub const FOUR: i64 = 4_000_000;

/// Eight on the fixed-point scale.
pub const EIGHT: i64 = 8_000_000;

/// Sixteen on the fixed-point scale.
pub const SIXTEEN: i64 = 16_000_000;

/// `C_BACK2 + 1` on the fixed-point scale.
pub const C_BACK2P1: i64 = 3_594_910;

/// The rising-bounce curve: piecewise parabolas reaching exactly one at one.
#[verifier::opaque]
pub open spec fn spec_out_bounce(x: int) -> int {
    if x < 363_636 {
        fx_mul(7_562_500, fx_mul(x, x))
    } else if x < 727_272 {
        let y = fx_sub(x, 545_454);
        fx_add(fx_mul(7_562_500, fx_mul(y, y)), 750_000)
    } else if x < 909_090 {
        let y = fx_sub(x, 818_181);
        fx_add(fx_mul(7_562_500, fx_mul(y, y)), 937_500)
    } else {
        let y = fx_sub(x, 954_545);
        fx_add(fx_mul(7_562_500, fx_mul(y, y)), 984_376)
    }
}

fn out_bounce(x: Fx) -> (r: Fx)
    ensures
        r.raw == spec_out_bounce(x.raw as int),
{
    proof {
        reveal(spec_out_bounce);
    }
    let n1: Fx = Fx::from_raw(C_BNC_N1);
    if x.raw < C_BNC_T1 {
        n1.sat_mul(x.sat_mul(x))
    } else if x.raw < C_BNC_T2 {
        let y: Fx = x.sat_sub(Fx::from_raw(C_BNC_O1));
        n1.sat_mul(y.sat_mul(y)).sat_add(Fx::from_raw(C_BNC_P1))
    } else if x.raw < C_BNC_T3 {
        let y: Fx = x.sat_sub(Fx::from_raw(C_BNC_O2));
        n1.sat_mul(y.sat_mul(y)).sat_add(Fx::from_raw(C_BNC_P2))
    } else {
        let y: Fx = x.sat_sub(Fx::from_raw(C_BNC_O3));
        n1.sat_mul(y.sat_mul(y)).sat_add(Fx::from_raw(C_BNC_P3))
    }
}

/// The catalog of easing curves.
#[derive(Clone, Copy, Debug, PartialEq, Eq, Structural)]
pub enum Easing {
    Linear,
    EaseIn,
    EaseOut,
    EaseInOut,
    EaseInQuad,
    EaseOutQuad,
    EaseInOutQuad,
    EaseInCubic,
    EaseOutCubic,
    EaseInOutCubic,
    EaseInQuart,
    EaseOutQuart,
    EaseInOutQuart,
    EaseInQuint,
    EaseOutQuint,
    EaseInOutQuint,
    EaseInExpo,
    EaseOutExpo,
    EaseInOutExpo,
    EaseInCirc,
    EaseOutCirc,
    EaseInOutCirc,
    EaseInBack,
    EaseOutBack,
    EaseInOutBack,
    EaseInElastic,
    EaseOutElastic,
    EaseInOutElastic,
    EaseInBounce,
    EaseOutBounce,
    EaseInOutBounce,
}

/// The value of an easing curve at `x`, both on the fixed-point scale.
#[verifier::opaque]
pub open spec fn spec_ease(e: Easing, x: int) -> int {
    let s = 1_000_000;
    match e {
        Easing::Linear => x,
        Easing::EaseIn => fx_sub(s, spec_sin_quarter(fx_sub(s, x))),
        Easing::EaseOut => spec_sin_quarter(x),
        Easing::EaseInOut => fx_mul(fx_sub(s, spec_cos_pi(x)), 500_000),
        Easing::EaseInQuad => fx_mul(x, x),
        Easing::EaseOutQuad => {
            let y = fx_sub(s, x);
            fx_sub(s, fx_mul(y, y))
        },
        Easing::EaseInOutQuad => if x < 500_000 {
            fx_mul(fx_mul(2_000_000, x), x)
        } else {
            let y = fx_sub(2_000_000, fx_add(x, x));
            fx_sub(s, fx_mul(fx_mul(y, y), 500_000))
        },
        Easing::EaseInCubic => fx_mul(fx_mul(x, x), x),
        Easing::EaseOutCubic => {
            let y = fx_sub(s, x);
            fx_sub(s, fx_mul(fx_mul(y, y), y))
        },
        Easing::EaseInOutCubic => if x < 500_000 {
            fx_mul(fx_mul(fx_mul(4_000_000, x), x), x)
        } else {
            let y = fx_sub(2_000_000, fx_add(x, x));
            fx_sub(s, fx_mul(fx_mul(fx_mul(y, y), y), 500_000))
        },
        Easing::EaseInQuart => fx_mul(fx_mul(fx_mul(x, x), x), x),
        Easing::EaseOutQuart => {
            let y = fx_sub(s, x);
            fx_sub(s, fx_mul(fx_mul(fx_mul(y, y), y), y))
        },
        Easing::EaseInOutQuart => if x < 500_000 {
            fx_mul(fx_mul(fx_mul(fx_mul(8_000_000, x), x), x), x)
        } else {
            let y = fx_sub(2_000_000, fx_add(x, x));
            fx_sub(s, fx_mul(fx_mul(fx_mul(fx_mul(y, y), y), y), 500_000))
        },
        Easing::EaseInQuint => fx_mul(fx_mul(fx_mul(fx_mul(x, x), x), x), x),
        Easing::EaseOutQuint => {
            let y = fx_sub(s, x);
            fx_sub(s, fx_mul(fx_mul(fx_mul(fx_mul(y, y), y), y), y))
        },
        Easing::EaseInOutQuint => if x < 500_000 {
            fx_mul(fx_mul(fx_mul(fx_mul(fx_mul(16_000_000, x), x), x), x), x)
        } else {
            let y = fx_sub(2_000_000, fx_add(x, x));
            fx_sub(s, fx_mul(fx_mul(fx_mul(fx_mul(fx_mul(y, y), y), y), y), 500_000))
        },
        Easing::EaseInExpo => if x == 0 {
            0
        } else {
            spec_exp2(fx_sub(fx_mul(10_000_000, x), 10_000_000))
        },
        Easing::EaseOutExpo => if x == s {
            s
        } else {
            fx_sub(s, spec_exp2(fx_sub(0, fx_mul(10_000_000, x))))
        },
        Easing::EaseInOutExpo => if x == 0 {
            0
        } else if x == s {
            s
        } else if x < 500_000 {
            fx_mul(spec_exp2(fx_sub(fx_mul(20_000_000, x), 10_000_000)), 500_000)
        } else {
            fx_mul(fx_sub(2_000_000, spec_exp2(fx_sub(10_000_000, fx_mul(20_000_000, x)))), 500_000)
        },
        Easing::EaseInCirc => fx_sub(s, spec_sqrt(fx_sub(s, fx_mul(x, x)))),
        Easing::EaseOutCirc => {
            let y = fx_sub(x, s);
            spec_sqrt(fx_sub(s, fx_mul(y, y)))
        },
        Easing::EaseInOutCirc => if x < 500_000 {
            let d = fx_add(x, x);
            fx_mul(fx_sub(s, spec_sqrt(fx_sub(s, fx_mul(d, d)))), 500_000)
        } else {
            let y = fx_sub(2_000_000, fx_add(x, x));
            fx_mul(fx_add(s, spec_sqrt(fx_sub(s, fx_mul(y, y)))), 500_000)
        },
        Easing::EaseInBack => fx_sub(
            fx_mul(2_701_580, fx_mul(fx_mul(x, x), x)),
            fx_mul(1_701_580, fx_mul(x, x)),
        ),
        Easing::EaseOutBack => {
            let y = fx_sub(x, s);
            fx_add(
                fx_add(s, fx_mul(2_701_580, fx_mul(fx_mul(y, y), y))),
                fx_mul(1_701_580, fx_mul(y, y)),
            )
        },
        Easing::EaseInOutBack => if x < 500_000 {
            let d = fx_add(x, x);
            fx_mul(fx_mul(fx_mul(d, d), fx_sub(fx_mul(3_594_910, d), 2_594_910)), 500_000)
        } else {
            let y = fx_sub(fx_add(x, x), 2_000_000);
            fx_mul(
                fx_add(fx_mul(fx_mul(y, y), fx_add(fx_mul(3_594_910, y), 2_594_910)), 2_000_000),
                500_000,
            )
        },
        Easing::EaseInElastic => if x == 0 {
            0
        } else if x == s {
            s
        } else {
            fx_sub(
                0,
                fx_mul(
                    spec_exp2(fx_sub(fx_mul(10_000_000, x), 10_000_000)),
                    spec_sin_turn(fx_div(fx_sub(fx_mul(10_000_000, x), 10_750_000), 3_000_000)),
                ),
            )
        },
        Easing::EaseOutElastic => if x == 0 {
            0
        } else if x == s {
            s
        } else {
            fx_add(
                fx_mul(
                    spec_exp2(fx_sub(0, fx_mul(10_000_000, x))),
                    spec_sin_turn(fx_div(fx_sub(fx_mul(10_000_000, x), 750_000), 3_000_000)),
                ),
                s,
            )
        },
        Easing::EaseInOutElastic => if x == 0 {
            0
        } else if x == s {
            s
        } else if x < 500_000 {
            fx_sub(
                0,
                fx_mul(
                    fx_mul(
                        spec_exp2(fx_sub(fx_mul(20_000_000, x), 10_000_000)),
                        spec_sin_turn(
                            fx_div(fx_sub(fx_mul(20_000_000, x), 11_125_000), 4_500_000),
                        ),
                    ),
                    500_000,
                ),
            )
        } else {
            fx_add(
                fx_mul(
                    fx_mul(
                        spec_exp2(fx_sub(10_000_000, fx_mul(20_000_000, x))),
                        spec_sin_turn(
                            fx_div(fx_sub(fx_mul(20_000_000, x), 11_125_000), 4_500_000),
                        ),
                    ),
                    500_000,
                ),
                s,
            )
        },
        Easing::EaseInBounce => fx_sub(s, spec_out_bounce(fx_sub(s, x))),
        Easing::EaseOutBounce => spec_out_bounce(x),
        Easing::EaseInOutBounce => if x < 500_000 {
            fx_mul(fx_sub(s, spec_out_bounce(fx_sub(s, fx_add(x, x)))), 500_000)
        } else {
            fx_mul(fx_add(s, spec_out_bounce(fx_sub(fx_add(x, x), s))), 500_000)
        },
    }
}

impl Easing {
    /// Evaluates this curve at `x` on the fixed-point scale.
    pub fn value(self, x: Fx) -> (r: Fx)
        ensures
            r.raw == spec_ease(self, x.raw as int),
    {
        proof {
            reveal(spec_ease);
        }
        let s: Fx = Fx::from_raw(FX_SCALE);
        let half: Fx = Fx::from_raw(HALF);
        let two: Fx = Fx::from_raw(TWO);
        match self {
            Easing::Linear => x,
            Easing::EaseIn => s.sat_sub(sin_quarter(s.sat_sub(x))),
            Easing::EaseOut => sin_quarter(x),
            Easing::EaseInOut => s.sat_sub(cos_pi(x)).sat_mul(half),
            Easing::EaseInQuad => x.sat_mul(x),
            Easing::EaseOutQuad => {
                let y: Fx = s.sat_sub(x);
                s.sat_sub(y.sat_mul(y))
            },
            Easing::EaseInOutQuad => if x.raw < HALF {
                two.sat_mul(x).sat_mul(x)
            } else {
                let y: Fx = two.sat_sub(x.sat_add(x));
                s.sat_sub(y.sat_mul(y).sat_mul(half))
            },
            Easing::EaseInCubic => x.sat_mul(x).sat_mul(x),
            Easing::EaseOutCubic => {
                let y: Fx = s.sat_sub(x);
                s.sat_sub(y.sat_mul(y).sat_mul(y))
            },
            Easing::EaseInOutCubic => if x.raw < HALF {
                Fx::from_raw(FOUR).sat_mul(x).sat_mul(x).sat_mul(x)
            } else {
                let y: Fx = two.sat_sub(x.sat_add(x));
                s.sat_sub(y.sat_mul(y).sat_mul(y).sat_mul(half))
            },
            Easing::EaseInQuart => x.sat_mul(x).sat_mul(x).sat_mul(x),
            Easing::EaseOutQuart => {
                let y: Fx = s.sat_sub(x);
                s.sat_sub(y.sat_mul(y).sat_mul(y).sat_mul(y))
            },
            Easing::EaseInOutQuart => if x.raw < HALF {
                Fx::from_raw(EIGHT).sat_mul(x).sat_mul(x).sat_mul(x).sat_mul(x)
            } else {
                let y: Fx = two.sat_sub(x.sat_add(x));
                s.sat_sub(y.sat_mul(y).sat_mul(y).sat_mul(y).sat_mul(half))
            },
            Easing::EaseInQuint => x.sat_mul(x).sat_mul(x).sat_mul(x).sat_mul(x),
            Easing::EaseOutQuint => {
                let y: Fx = s.sat_sub(x);
                s.sat_sub(y.sat_mul(y).sat_mul(y).sat_mul(y).sat_mul(y))
            },
            Easing::EaseInOutQuint => if x.raw < HALF {
                Fx::from_raw(SIXTEEN).sat_mul(x).sat_mul(x).sat_mul(x).sat_mul(x).sat_mul(x)
            } else {
                let y: Fx = two.sat_sub(x.sat_add(x));
                s.sat_sub(y.sat_mul(y).sat_mul(y).sat_mul(y).sat_mul(y).sat_mul(half))
            },
            Easing::EaseInExpo => if x.raw == 0 {
                Fx::from_raw(0)
            } else {
                exp2_fx(Fx::from_raw(TEN).sat_mul(x).sat_sub(Fx::from_raw(TEN)))
            },
            Easing::EaseOutExpo => if x.raw == FX_SCALE {
                s
            } else {
                s.sat_sub(exp2_fx(Fx::from_raw(0).sat_sub(Fx::from_raw(TEN).sat_mul(x))))
            },
            Easing::EaseInOutExpo => if x.raw == 0 {
                Fx::from_raw(0)
            } else if x.raw == FX_SCALE {
                s
            } else if x.raw < HALF {
                exp2_fx(Fx::from_raw(TWENTY).sat_mul(x).sat_sub(Fx::from_raw(TEN))).sat_mul(half)
            } else {
                two.sat_sub(
                    exp2_fx(Fx::from_raw(TEN).sat_sub(Fx::from_raw(TWENTY).sat_mul(x))),
                ).sat_mul(half)
            },
            Easing::EaseInCirc => s.sat_sub(sqrt_fx(s.sat_sub(x.sat_mul(x)))),
            Easing::EaseOutCirc => {
                let y: Fx = x.sat_sub(s);
                sqrt_fx(s.sat_sub(y.sat_mul(y)))
            },
            Easing::EaseInOutCirc => if x.raw < HALF {
                let d: Fx = x.sat_add(x);
                s.sat_sub(sqrt_fx(s.sat_sub(d.sat_mul(d)))).sat_mul(half)
            } else {
                let y: Fx = two.sat_sub(x.sat_add(x));
                s.sat_add(sqrt_fx(s.sat_sub(y.sat_mul(y)))).sat_mul(half)
            },
            Easing::EaseInBack => Fx::from_raw(C_BACK3).sat_mul(x.sat_mul(x).sat_mul(x)).sat_sub(
                Fx::from_raw(C_BACK1).sat_mul(x.sat_mul(x)),
            ),
            Easing::EaseOutBack => {
                let y: Fx = x.sat_sub(s);
                s.sat_add(Fx::from_raw(C_BACK3).sat_mul(y.sat_mul(y).sat_mul(y))).sat_add(
                    Fx::from_raw(C_BACK1).sat_mul(y.sat_mul(y)),
                )
            },
            Easing::EaseInOutBack => if x.raw < HALF {
                let d: Fx = x.sat_add(x);
                d.sat_mul(d).sat_mul(
                    Fx::from_raw(C_BACK2P1).sat_mul(d).sat_sub(Fx::from_raw(C_BACK2)),
                ).sat_mul(half)
            } else {
                let y: Fx = x.sat_add(x).sat_sub(two);
                y.sat_mul(y).sat_mul(
                    Fx::from_raw(C_BACK2P1).sat_mul(y).sat_add(Fx::from_raw(C_BACK2)),
                ).sat_add(two).sat_mul(half)
            },
            Easing::EaseInElastic => if x.raw == 0 {
                Fx::from_raw(0)
            } else if x.raw == FX_SCALE {
                s
            } else {
                Fx::from_raw(0).sat_sub(
                    exp2_fx(Fx::from_raw(TEN).sat_mul(x).sat_sub(Fx::from_raw(TEN))).sat_mul(
                        sin_turn(
                            Fx::from_raw(TEN).sat_mul(x).sat_sub(Fx::from_raw(TEN_75)).sat_div(
                                Fx::from_raw(THREE),
                            ),
                        ),
                    ),
                )
            },
            Easing::EaseOutElastic => if x.raw == 0 {
                Fx::from_raw(0)
            } else if x.raw == FX_SCALE {
                s
            } else {
                exp2_fx(Fx::from_raw(0).sat_sub(Fx::from_raw(TEN).sat_mul(x))).sat_mul(
                    sin_turn(
                        Fx::from_raw(TEN).sat_mul(x).sat_sub(Fx::from_raw(THREE_Q)).sat_div(
                            Fx::from_raw(THREE),
                        ),
                    ),
                ).sat_add(s)
            },
            Easing::EaseInOutElastic => if x.raw == 0 {
                Fx::from_raw(0)
            } else if x.raw == FX_SCALE {
                s
            } else if x.raw < HALF {
                Fx::from_raw(0).sat_sub(
                    exp2_fx(Fx::from_raw(TWENTY).sat_mul(x).sat_sub(Fx::from_raw(TEN))).sat_mul(
                        sin_turn(
                            Fx::from_raw(TWENTY).sat_mul(x).sat_sub(Fx::from_raw(ELEVEN_125)).sat_div(
                                Fx::from_raw(FOUR_HALF),
                            ),
                        ),
                    ).sat_mul(half),
                )
            } else {
                exp2_fx(Fx::from_raw(TEN).sat_sub(Fx::from_raw(TWENTY).sat_mul(x))).sat_mul(
                    sin_turn(
                        Fx::from_raw(TWENTY).sat_mul(x).sat_sub(Fx::from_raw(ELEVEN_125)).sat_div(
                            Fx::from_raw(FOUR_HALF),
                        ),
                    ),
                ).sat_mul(half).sat_add(s)
            },
            Easing::EaseInBounce => s.sat_sub(out_bounce(s.sat_sub(x))),
            Easing::EaseOutBounce => out_bounce(x),
            Easing::EaseInOutBounce => if x.raw < HALF {
                s.sat_sub(out_bounce(s.sat_sub(x.sat_add(x)))).sat_mul(half)
            } else {
                s.sat_add(out_bounce(x.sat_add(x).sat_sub(s))).sat_mul(half)
            },
        }
    }
}

} // verus!

verus! {

/// Evaluates a fixed-point product of two terms whose values are known:
/// the caller supplies the values and the rescaled truncated quotient.
proof fn fx_mul_value(a: int, b: int, va: int, vb: int, p: int, r: int)
    requires
        a == va,
        b == vb,
        va * vb == p,
        i64::MIN <= r <= i64::MAX,
        p >= 0 ==> 1_000_000 * r <= p < 1_000_000 * (r + 1),
        p < 0 ==> 1_000_000 * (-r) <= -p < 1_000_000 * (-r + 1),
    ensures
        fx_mul(a, b) == r,
{
    assert(a * b == va * vb) by (nonlinear_arith)
        requires
            a == va && b == vb,
    ;
    if p >= 0 {
        vstd::arithmetic::div_mod::lemma_fundamental_div_mod_converse(
            va * vb,
            1_000_000,
            r,
            va * vb - 1_000_000 * r,
        );
    } else {
        vstd::arithmetic::div_mod::lemma_fundamental_div_mod_converse(
            -(va * vb),
            1_000_000,
            -r,
            -(va * vb) - 1_000_000 * (-r),
        );
    }
}

/// The transcendental helpers at the endpoints of the unit interval.
#[verifier::rlimit(100)]
proof fn lemma_helper_endpoints()
    ensures
        spec_sin_quarter(0) == 0,
        spec_sin_quarter(1_000_000) == 1_000_000,
        spec_cos_pi(0) == 1_000_000,
        spec_cos_pi(1_000_000) == -1_000_000,
        spec_exp2_unit(0) == 1_000_000,
        spec_exp2(0) == 1_000_000,
        spec_sqrt(0) == 0,
        spec_sqrt(1_000_000) == 1_000_000,
        spec_out_bounce(0) == 0,
        spec_out_bounce(1_000_000) == 1_000_000,
{
    reveal(spec_sin_quarter);
    reveal(spec_cos_pi);
    reveal(spec_exp2_unit);
    reveal(spec_exp2);
    reveal(spec_sqrt);
    reveal(spec_out_bounce);
    vstd::arithmetic::power2::lemma2_to64();
    lemma_isqrt_unique(0, 0);
    lemma_isqrt_unique(1000000000000, 1000000);
    assert(spec_exp2_unit(0) == 1_000_000);
    assert(spec_exp2_unit(0int % 1_000_000int) * vstd::arithmetic::power2::pow2(
        (0int / 1_000_000int) as nat,
    ) == 1_000_000) by (nonlinear_arith)
        requires
            spec_exp2_unit(0int % 1_000_000int) == 1_000_000 && vstd::arithmetic::power2::pow2(
                (0int / 1_000_000int) as nat,
            ) == 1,
    ;
    assert(fx_sub(1_000_000, 954_545) == 45_455);
    assert(fx_mul(45_455, 45_455) == 2_066);
    assert(fx_mul(7_562_500, 2_066) == 15_624);
}

#[verifier::rlimit(100)]
proof fn lemma_endpoints_linear()
    ensures
        spec_ease(Easing::Linear, 0) == 0,
        spec_ease(Easing::Linear, 1_000_000) == 1_000_000,
{
    reveal(spec_ease);
}

#[verifier::rlimit(100)]
proof fn lemma_endpoints_ease_in()
    ensures
        spec_ease(Easing::EaseIn, 0) == 0,
        spec_ease(Easing::EaseIn, 1_000_000) == 1_000_000,
{
    reveal(spec_ease);
    lemma_helper_endpoints();
    assert(fx_sub(1_000_000, 0) == 1_000_000);
    assert(spec_sin_quarter(fx_sub(1_000_000, 0)) == 1_000_000);
    assert(spec_ease(Easing::EaseIn, 0) == (fx_sub(1_000_000, spec_sin_quarter(fx_sub(1_000_000, 0)))));
    assert(spec_ease(Easing::EaseIn, 0) == 0);
    assert(fx_sub(1_000_000, 1_000_000) == 0);
    assert(spec_sin_quarter(fx_sub(1_000_000, 1_000_000)) == 0);
    assert(spec_ease(Easing::EaseIn, 1_000_000) == (fx_sub(1_000_000, spec_sin_quarter(fx_sub(1_000_000, 1_000_000)))));
    assert(spec_ease(Easing::EaseIn, 1_000_000) == 1_000_000);
}

#[verifier::rlimit(100)]
proof fn lemma_endpoints_ease_out()
    ensures
        spec_ease(Easing::EaseOut, 0) == 0,
        spec_ease(Easing::EaseOut, 1_000_000) == 1_000_000,
{
    reveal(spec_ease);
    lemma_helper_endpoints();
    assert(spec_ease(Easing::EaseOut, 0) == (spec_sin_quarter(0)));
    assert(spec_ease(Easing::EaseOut, 0) == 0);
    assert(spec_ease(Easing::EaseOut, 1_000_000) == (spec_sin_quarter(1_000_000)));
    assert(spec_ease(Easing::EaseOut, 1_000_000) == 1_000_000);
}

#[verifier::rlimit(100)]
proof fn lemma_endpoints_ease_in_out()
    ensures
        spec_ease(Easing::EaseInOut, 0) == 0,
        spec_ease(Easing::EaseInOut, 1_000_000) == 1_000_000,
{
    reveal(spec_ease);
    lemma_helper_endpoints();
    assert(spec_ease(Easing::EaseInOut, 0) == (fx_mul(fx_sub(1_000_000, spec_cos_pi(0)), 500_000)));
    assert(spec_ease(Easing::EaseInOut, 0) == 0);
    assert(spec_ease(Easing::EaseInOut, 1_000_000) == (fx_mul(fx_sub(1_000_000, spec_cos_pi(1_000_000)), 500_000)));
    assert(spec_ease(Easing::EaseInOut, 1_000_000) == 1_000_000);
}

#[verifier::rlimit(100)]
proof fn lemma_endpoints_ease_in_quad()
    ensures
        spec_ease(Easing::EaseInQuad, 0) == 0,
        spec_ease(Easing::EaseInQuad, 1_000_000) == 1_000_000,
{
    reveal(spec_ease);
    assert(spec_ease(Easing::EaseInQuad, 0) == (fx_mul(0, 0)));
    assert(spec_ease(Easing::EaseInQuad, 0) == 0);
    assert(spec_ease(Easing::EaseInQuad, 1_000_000) == (fx_mul(1_000_000, 1_000_000)));
    assert(spec_ease(Easing::EaseInQuad, 1_000_000) == 1_000_000);
}

#[verifier::rlimit(100)]
proof fn lemma_endpoints_ease_out_quad()
    ensures
        spec_ease(Easing::EaseOutQuad, 0) == 0,
        spec_ease(Easing::EaseOutQuad, 1_000_000) == 1_000_000,
{
    reveal(spec_ease);
    assert(spec_ease(Easing::EaseOutQuad, 0) == (fx_sub(1_000_000, fx_mul(fx_sub(1_000_000, 0), fx_sub(1_000_000, 0)))));
    assert(1_000_000int * 1_000_000int == 1_000_000_000_000int) by (nonlinear_arith);
    fx_mul_value(fx_sub(1_000_000, 0), fx_sub(1_000_000, 0), 1_000_000, 1_000_000, 1_000_000_000_000, 1_000_000);
    assert(spec_ease(Easing::EaseOutQuad, 0) == 0);
    assert(spec_ease(Easing::EaseOutQuad, 1_000_000) == (fx_sub(1_000_000, fx_mul(fx_sub(1_000_000, 1_000_000), fx_sub(1_000_000, 1_000_000)))));
    assert(0int * 0int == 0int) by (nonlinear_arith);
    fx_mul_value(fx_sub(1_000_000, 1_000_000), fx_sub(1_000_000, 1_000_000), 0, 0, 0, 0);
    assert(spec_ease(Easing::EaseOutQuad, 1_000_000) == 1_000_000);
}

#[verifier::rlimit(100)]
proof fn lemma_endpoints_ease_in_out_quad()
    ensures
        spec_ease(Easing::EaseInOutQuad, 0) == 0,
        spec_ease(Easing::EaseInOutQuad, 1_000_000) == 1_000_000,
{
    reveal(spec_ease);
    assert(spec_ease(Easing::EaseInOutQuad, 0) == (fx_mul(fx_mul(2_000_000, 0), 0)));
    assert(spec_ease(Easing::EaseInOutQuad, 0) == 0);
    assert(spec_ease(Easing::EaseInOutQuad, 1_000_000) == (fx_sub(1_000_000, fx_mul(fx_mul(fx_sub(2_000_000, fx_add(1_000_000, 1_000_000)), fx_sub(2_000_000, fx_add(1_000_000, 1_000_000))), 500_000))));
    assert(spec_ease(Easing::EaseInOutQuad, 1_000_000) == 1_000_000);
}

#[verifier::rlimit(100)]
proof fn lemma_endpoints_ease_in_cubic()
    ensures
        spec_ease(Easing::EaseInCubic, 0) == 0,
        spec_ease(Easing::EaseInCubic, 1_000_000) == 1_000_000,
{
    reveal(spec_ease);
    assert(spec_ease(Easing::EaseInCubic, 0) == (fx_mul(fx_mul(0, 0), 0)));
    assert(spec_ease(Easing::EaseInCubic, 0) == 0);
    assert(spec_ease(Easing::EaseInCubic, 1_000_000) == (fx_mul(fx_mul(1_000_000, 1_000_000), 1_000_000)));
    assert(spec_ease(Easing::EaseInCubic, 1_000_000) == 1_000_000);
}

#[verifier::rlimit(100)]
proof fn lemma_endpoints_ease_out_cubic()
    ensures
        spec_ease(Easing::EaseOutCubic, 0) == 0,
        spec_ease(Easing::EaseOutCubic, 1_000_000) == 1_000_000,
{
    reveal(spec_ease);
    assert(spec_ease(Easing::EaseOutCubic, 0) == (fx_sub(1_000_000, fx_mul(fx_mul(fx_sub(1_000_000, 0), fx_sub(1_000_000, 0)), fx_sub(1_000_000, 0)))));
    assert(1_000_000int * 1_000_000int == 1_000_000_000_000int) by (nonlinear_arith);
    fx_mul_value(fx_sub(1_000_000, 0), fx_sub(1_000_000, 0), 1_000_000, 1_000_000, 1_000_000_000_000, 1_000_000);
    assert(1_000_000int * 1_000_000int == 1_000_000_000_000int) by (nonlinear_arith);
    fx_mul_value(fx_mul(fx_sub(1_000_000, 0), fx_sub(1_000_000, 0)), fx_sub(1_000_000, 0), 1_000_000, 1_000_000, 1_000_000_000_000, 1_000_000);
    assert(spec_ease(Easing::EaseOutCubic, 0) == 0);
    assert(spec_ease(Easing::EaseOutCubic, 1_000_000) == (fx_sub(1_000_000, fx_mul(fx_mul(fx_sub(1_000_000, 1_000_000), fx_sub(1_000_000, 1_000_000)), fx_sub(1_000_000, 1_000_000)))));
    assert(0int * 0int == 0int) by (nonlinear_arith);
    fx_mul_value(fx_sub(1_000_000, 1_000_000), fx_sub(1_000_000, 1_000_000), 0, 0, 0, 0);
    assert(0int * 0int == 0int) by (nonlinear_arith);
    fx_mul_value(fx_mul(fx_sub(1_000_000, 1_000_000), fx_sub(1_000_000, 1_000_000)), fx_sub(1_000_000, 1_000_000), 0, 0, 0, 0);
    assert(spec_ease(Easing::EaseOutCubic, 1_000_000) == 1_000_000);
}

#[verifier::rlimit(100)]
proof fn lemma_endpoints_ease_in_out_cubic()
    ensures
        spec_ease(Easing::EaseInOutCubic, 0) == 0,
        spec_ease(Easing::EaseInOutCubic, 1_000_000) == 1_000_000,
{
    reveal(spec_ease);
    assert(spec_ease(Easing::EaseInOutCubic, 0) == (fx_mul(fx_mul(fx_mul(4_000_000, 0), 0), 0)));
    assert(spec_ease(Easing::EaseInOutCubic, 0) == 0);
    assert(spec_ease(Easing::EaseInOutCubic, 1_000_000) == (fx_sub(1_000_000, fx_mul(fx_mul(fx_mul(fx_sub(2_000_000, fx_add(1_000_000, 1_000_000)), fx_sub(2_000_000, fx_add(1_000_000, 1_000_000))), fx_sub(2_000_000, fx_add(1_000_000, 1_000_000))), 500_000))));
    assert(spec_ease(Easing::EaseInOutCubic, 1_000_000) == 1_000_000);
}

#[verifier::rlimit(100)]
proof fn lemma_endpoints_ease_in_quart()
    ensures
        spec_ease(Easing::EaseInQuart, 0) == 0,
        spec_ease(Easing::EaseInQuart, 1_000_000) == 1_000_000,
{
    reveal(spec_ease);
    assert(spec_ease(Easing::EaseInQuart, 0) == (fx_mul(fx_mul(fx_mul(0, 0), 0), 0)));
    assert(spec_ease(Easing::EaseInQuart, 0) == 0);
    assert(spec_ease(Easing::EaseInQuart, 1_000_000) == (fx_mul(fx_mul(fx_mul(1_000_000, 1_000_000), 1_000_000), 1_000_000)));
    assert(spec_ease(Easing::EaseInQuart, 1_000_000) == 1_000_000);
}

#[verifier::rlimit(100)]
proof fn lemma_endpoints_ease_out_quart()
    ensures
        spec_ease(Easing::EaseOutQuart, 0) == 0,
        spec_ease(Easing::EaseOutQuart, 1_000_000) == 1_000_000,
{
    reveal(spec_ease);
    assert(spec_ease(Easing::EaseOutQuart, 0) == (fx_sub(1_000_000, fx_mul(fx_mul(fx_mul(fx_sub(1_000_000, 0), fx_sub(1_000_000, 0)), fx_sub(1_000_000, 0)), fx_sub(1_000_000, 0)))));
    assert(1_000_000int * 1_000_000int == 1_000_000_000_000int) by (nonlinear_arith);
    fx_mul_value(fx_sub(1_000_000, 0), fx_sub(1_000_000, 0), 1_000_000, 1_000_000, 1_000_000_000_000, 1_000_000);
    assert(1_000_000int * 1_000_000int == 1_000_000_000_000int) by (nonlinear_arith);
    fx_mul_value(fx_mul(fx_sub(1_000_000, 0), fx_sub(1_000_000, 0)), fx_sub(1_000_000, 0), 1_000_000, 1_000_000, 1_000_000_000_000, 1_000_000);
    assert(1_000_000int * 1_000_000int == 1_000_000_000_000int) by (nonlinear_arith);
    fx_mul_value(fx_mul(fx_mul(fx_sub(1_000_000, 0), fx_sub(1_000_000, 0)), fx_sub(1_000_000, 0)), fx_sub(1_000_000, 0), 1_000_000, 1_000_000, 1_000_000_000_000, 1_000_000);
    assert(spec_ease(Easing::EaseOutQuart, 0) == 0);
    assert(spec_ease(Easing::EaseOutQuart, 1_000_000) == (fx_sub(1_000_000, fx_mul(fx_mul(fx_mul(fx_sub(1_000_000, 1_000_000), fx_sub(1_000_000, 1_000_000)), fx_sub(1_000_000, 1_000_000)), fx_sub(1_000_000, 1_000_000)))));
    assert(0int * 0int == 0int) by (nonlinear_arith);
    fx_mul_value(fx_sub(1_000_000, 1_000_000), fx_sub(1_000_000, 1_000_000), 0, 0, 0, 0);
    assert(0int * 0int == 0int) by (nonlinear_arith);
    fx_mul_value(fx_mul(fx_sub(1_000_000, 1_000_000), fx_sub(1_000_000, 1_000_000)), fx_sub(1_000_000, 1_000_000), 0, 0, 0, 0);
    assert(0int * 0int == 0int) by (nonlinear_arith);
    fx_mul_value(fx_mul(fx_mul(fx_sub(1_000_000, 1_000_000), fx_sub(1_000_000, 1_000_000)), fx_sub(1_000_000, 1_000_000)), fx_sub(1_000_000, 1_000_000), 0, 0, 0, 0);
    assert(spec_ease(Easing::EaseOutQuart, 1_000_000) == 1_000_000);
}

#[verifier::rlimit(100)]
proof fn lemma_endpoints_ease_in_out_quart()
    ensures
        spec_ease(Easing::EaseInOutQuart, 0) == 0,
        spec_ease(Easing::EaseInOutQuart, 1_000_000) == 1_000_000,
{
    reveal(spec_ease);
    assert(spec_ease(Easing::EaseInOutQuart, 0) == (fx_mul(fx_mul(fx_mul(fx_mul(8_000_000, 0), 0), 0), 0)));
    assert(spec_ease(Easing::EaseInOutQuart, 0) == 0);
    assert(spec_ease(Easing::EaseInOutQuart, 1_000_000) == (fx_sub(1_000_000, fx_mul(fx_mul(fx_mul(fx_mul(fx_sub(2_000_000, fx_add(1_000_000, 1_000_000)), fx_sub(2_000_000, fx_add(1_000_000, 1_000_000))), fx_sub(2_000_000, fx_add(1_000_000, 1_000_000))), fx_sub(2_000_000, fx_add(1_000_000, 1_000_000))), 500_000))));
    assert(spec_ease(Easing::EaseInOutQuart, 1_000_000) == 1_000_000);
}

#[verifier::rlimit(100)]
proof fn lemma_endpoints_ease_in_quint()
    ensures
        spec_ease(Easing::EaseInQuint, 0) == 0,
        spec_ease(Easing::EaseInQuint, 1_000_000) == 1_000_000,
{
    reveal(spec_ease);
    assert(spec_ease(Easing::EaseInQuint, 0) == (fx_mul(fx_mul(fx_mul(fx_mul(0, 0), 0), 0), 0)));
    assert(spec_ease(Easing::EaseInQuint, 0) == 0);
    assert(spec_ease(Easing::EaseInQuint, 1_000_000) == (fx_mul(fx_mul(fx_mul(fx_mul(1_000_000, 1_000_000), 1_000_000), 1_000_000), 1_000_000)));
    assert(spec_ease(Easing::EaseInQuint, 1_000_000) == 1_000_000);
}

#[verifier::rlimit(100)]
proof fn lemma_endpoints_ease_out_quint()
    ensures
        spec_ease(Easing::EaseOutQuint, 0) == 0,
        spec_ease(Easing::EaseOutQuint, 1_000_000) == 1_000_000,
{
    reveal(spec_ease);
    assert(spec_ease(Easing::EaseOutQuint, 0) == (fx_sub(1_000_000, fx_mul(fx_mul(fx_mul(fx_mul(fx_sub(1_000_000, 0), fx_sub(1_000_000, 0)), fx_sub(1_000_000, 0)), fx_sub(1_000_000, 0)), fx_sub(1_000_000, 0)))));
    assert(1_000_000int * 1_000_000int == 1_000_000_000_000int) by (nonlinear_arith);
    fx_mul_value(fx_sub(1_000_000, 0), fx_sub(1_000_000, 0), 1_000_000, 1_000_000, 1_000_000_000_000, 1_000_000);
    assert(1_000_000int * 1_000_000int == 1_000_000_000_000int) by (nonlinear_arith);
    fx_mul_value(fx_mul(fx_sub(1_000_000, 0), fx_sub(1_000_000, 0)), fx_sub(1_000_000, 0), 1_000_000, 1_000_000, 1_000_000_000_000, 1_000_000);
    assert(1_000_000int * 1_000_000int == 1_000_000_000_000int) by (nonlinear_arith);
    fx_mul_value(fx_mul(fx_mul(fx_sub(1_000_000, 0), fx_sub(1_000_000, 0)), fx_sub(1_000_000, 0)), fx_sub(1_000_000, 0), 1_000_000, 1_000_000, 1_000_000_000_000, 1_000_000);
    assert(1_000_000int * 1_000_000int == 1_000_000_000_000int) by (nonlinear_arith);
    fx_mul_value(fx_mul(fx_mul(fx_mul(fx_sub(1_000_000, 0), fx_sub(1_000_000, 0)), fx_sub(1_000_000, 0)), fx_sub(1_000_000, 0)), fx_sub(1_000_000, 0), 1_000_000, 1_000_000, 1_000_000_000_000, 1_000_000);
    assert(spec_ease(Easing::EaseOutQuint, 0) == 0);
    assert(spec_ease(Easing::EaseOutQuint, 1_000_000) == (fx_sub(1_000_000, fx_mul(fx_mul(fx_mul(fx_mul(fx_sub(1_000_000, 1_000_000), fx_sub(1_000_000, 1_000_000)), fx_sub(1_000_000, 1_000_000)), fx_sub(1_000_000, 1_000_000)), fx_sub(1_000_000, 1_000_000)))));
    assert(0int * 0int == 0int) by (nonlinear_arith);
    fx_mul_value(fx_sub(1_000_000, 1_000_000), fx_sub(1_000_000, 1_000_000), 0, 0, 0, 0);
    assert(0int * 0int == 0int) by (nonlinear_arith);
    fx_mul_value(fx_mul(fx_sub(1_000_000, 1_000_000), fx_sub(1_000_000, 1_000_000)), fx_sub(1_000_000, 1_000_000), 0, 0, 0, 0);
    assert(0int * 0int == 0int) by (nonlinear_arith);
    fx_mul_value(fx_mul(fx_mul(fx_sub(1_000_000, 1_000_000), fx_sub(1_000_000, 1_000_000)), fx_sub(1_000_000, 1_000_000)), fx_sub(1_000_000, 1_000_000), 0, 0, 0, 0);
    assert(0int * 0int == 0int) by (nonlinear_arith);
    fx_mul_value(fx_mul(fx_mul(fx_mul(fx_sub(1_000_000, 1_000_000), fx_sub(1_000_000, 1_000_000)), fx_sub(1_000_000, 1_000_000)), fx_sub(1_000_000, 1_000_000)), fx_sub(1_000_000, 1_000_000), 0, 0, 0, 0);
    assert(spec_ease(Easing::EaseOutQuint, 1_000_000) == 1_000_000);
}

#[verifier::rlimit(100)]
proof fn lemma_endpoints_ease_in_out_quint()
    ensures
        spec_ease(Easing::EaseInOutQuint, 0) == 0,
        spec_ease(Easing::EaseInOutQuint, 1_000_000) == 1_000_000,
{
    reveal(spec_ease);
    assert(spec_ease(Easing::EaseInOutQuint, 0) == (fx_mul(fx_mul(fx_mul(fx_mul(fx_mul(16_000_000, 0), 0), 0), 0), 0)));
    assert(spec_ease(Easing::EaseInOutQuint, 0) == 0);
    assert(spec_ease(Easing::EaseInOutQuint, 1_000_000) == (fx_sub(1_000_000, fx_mul(fx_mul(fx_mul(fx_mul(fx_mul(fx_sub(2_000_000, fx_add(1_000_000, 1_000_000)), fx_sub(2_000_000, fx_add(1_000_000, 1_000_000))), fx_sub(2_000_000, fx_add(1_000_000, 1_000_000))), fx_sub(2_000_000, fx_add(1_000_000, 1_000_000))), fx_sub(2_000_000, fx_add(1_000_000, 1_000_000))), 500_000))));
    assert(spec_ease(Easing::EaseInOutQuint, 1_000_000) == 1_000_000);
}

#[verifier::rlimit(100)]
proof fn lemma_endpoints_ease_in_expo()
    ensures
        spec_ease(Easing::EaseInExpo, 0) == 0,
        spec_ease(Easing::EaseInExpo, 1_000_000) == 1_000_000,
{
    reveal(spec_ease);
    lemma_helper_endpoints();
    assert(spec_ease(Easing::EaseInExpo, 0) == 0);
    assert(10_000_000int * 1_000_000int == 10_000_000_000_000int) by (nonlinear_arith);
    fx_mul_value(10_000_000, 1_000_000, 10_000_000, 1_000_000, 10_000_000_000_000, 10_000_000);
    assert(fx_mul(10_000_000, 1_000_000) == 10_000_000);
    assert(fx_sub(fx_mul(10_000_000, 1_000_000), 10_000_000) == 0);
    assert(spec_exp2(fx_sub(fx_mul(10_000_000, 1_000_000), 10_000_000)) == 1_000_000);
    assert(spec_ease(Easing::EaseInExpo, 1_000_000) == (spec_exp2(fx_sub(fx_mul(10_000_000, 1_000_000), 10_000_000))));
    assert(spec_ease(Easing::EaseInExpo, 1_000_000) == 1_000_000);
}

#[verifier::rlimit(100)]
proof fn lemma_endpoints_ease_out_expo()
    ensures
        spec_ease(Easing::EaseOutExpo, 0) == 0,
        spec_ease(Easing::EaseOutExpo, 1_000_000) == 1_000_000,
{
    reveal(spec_ease);
    lemma_helper_endpoints();
    assert(fx_mul(10_000_000, 0) == 0);
    assert(fx_sub(0, fx_mul(10_000_000, 0)) == 0);
    assert(spec_exp2(fx_sub(0, fx_mul(10_000_000, 0))) == 1_000_000);
    assert(spec_ease(Easing::EaseOutExpo, 0) == (fx_sub(1_000_000, spec_exp2(fx_sub(0, fx_mul(10_000_000, 0))))));
    assert(spec_ease(Easing::EaseOutExpo, 0) == 0);
    assert(spec_ease(Easing::EaseOutExpo, 1_000_000) == 1_000_000);
}

#[verifier::rlimit(100)]
proof fn lemma_endpoints_ease_in_out_expo()
    ensures
        spec_ease(Easing::EaseInOutExpo, 0) == 0,
        spec_ease(Easing::EaseInOutExpo, 1_000_000) == 1_000_000,
{
    reveal(spec_ease);
    assert(spec_ease(Easing::EaseInOutExpo, 0) == 0);
    assert(spec_ease(Easing::EaseInOutExpo, 1_000_000) == 1_000_000);
}

#[verifier::rlimit(100)]
proof fn lemma_endpoints_ease_in_circ()
    ensures
        spec_ease(Easing::EaseInCirc, 0) == 0,
        spec_ease(Easing::EaseInCirc, 1_000_000) == 1_000_000,
{
    reveal(spec_ease);
    lemma_helper_endpoints();
    assert(fx_mul(0, 0) == 0);
    assert(fx_sub(1_000_000, fx_mul(0, 0)) == 1_000_000);
    assert(spec_sqrt(fx_sub(1_000_000, fx_mul(0, 0))) == 1_000_000);
    assert(spec_ease(Easing::EaseInCirc, 0) == (fx_sub(1_000_000, spec_sqrt(fx_sub(1_000_000, fx_mul(0, 0))))));
    assert(spec_ease(Easing::EaseInCirc, 0) == 0);
    assert(fx_mul(1_000_000, 1_000_000) == 1_000_000);
    assert(spec_sqrt(fx_sub(1_000_000, fx_mul(1_000_000, 1_000_000))) == 0);
    assert(spec_ease(Easing::EaseInCirc, 1_000_000) == (fx_sub(1_000_000, spec_sqrt(fx_sub(1_000_000, fx_mul(1_000_000, 1_000_000))))));
    assert(spec_ease(Easing::EaseInCirc, 1_000_000) == 1_000_000);
}

#[verifier::rlimit(100)]
proof fn lemma_endpoints_ease_out_circ()
    ensures
        spec_ease(Easing::EaseOutCirc, 0) == 0,
        spec_ease(Easing::EaseOutCirc, 1_000_000) == 1_000_000,
{
    reveal(spec_ease);
    lemma_helper_endpoints();
    assert(-1_000_000int * -1_000_000int == 1_000_000_000_000int) by (nonlinear_arith);
    fx_mul_value(fx_sub(0, 1_000_000), fx_sub(0, 1_000_000), -1_000_000, -1_000_000, 1_000_000_000_000, 1_000_000);
    assert(fx_mul(fx_sub(0, 1_000_000), fx_sub(0, 1_000_000)) == 1_000_000);
    assert(spec_sqrt(fx_sub(1_000_000, fx_mul(fx_sub(0, 1_000_000), fx_sub(0, 1_000_000)))) == 0);
    assert(spec_ease(Easing::EaseOutCirc, 0) == (spec_sqrt(fx_sub(1_000_000, fx_mul(fx_sub(0, 1_000_000), fx_sub(0, 1_000_000))))));
    assert(spec_ease(Easing::EaseOutCirc, 0) == 0);
    assert(fx_mul(fx_sub(1_000_000, 1_000_000), fx_sub(1_000_000, 1_000_000)) == 0);
    assert(spec_sqrt(fx_sub(1_000_000, fx_mul(fx_sub(1_000_000, 1_000_000), fx_sub(1_000_000, 1_000_000)))) == 1_000_000);
    assert(spec_ease(Easing::EaseOutCirc, 1_000_000) == (spec_sqrt(fx_sub(1_000_000, fx_mul(fx_sub(1_000_000, 1_000_000), fx_sub(1_000_000, 1_000_000))))));
    assert(spec_ease(Easing::EaseOutCirc, 1_000_000) == 1_000_000);
}

#[verifier::rlimit(100)]
proof fn lemma_endpoints_ease_in_out_circ()
    ensures
        spec_ease(Easing::EaseInOutCirc, 0) == 0,
        spec_ease(Easing::EaseInOutCirc, 1_000_000) == 1_000_000,
{
    reveal(spec_ease);
    lemma_helper_endpoints();
    assert(0int * 0int == 0int) by (nonlinear_arith);
    fx_mul_value(fx_add(0, 0), fx_add(0, 0), 0, 0, 0, 0);
    assert(spec_sqrt(fx_sub(1_000_000, fx_mul(fx_add(0, 0), fx_add(0, 0)))) == 1_000_000);
    assert(spec_ease(Easing::EaseInOutCirc, 0) == (fx_mul(fx_sub(1_000_000, spec_sqrt(fx_sub(1_000_000, fx_mul(fx_add(0, 0), fx_add(0, 0))))), 500_000)));
    assert(spec_ease(Easing::EaseInOutCirc, 0) == 0);
    assert(0int * 0int == 0int) by (nonlinear_arith);
    fx_mul_value(fx_sub(2_000_000, fx_add(1_000_000, 1_000_000)), fx_sub(2_000_000, fx_add(1_000_000, 1_000_000)), 0, 0, 0, 0);
    assert(spec_sqrt(fx_sub(1_000_000, fx_mul(fx_sub(2_000_000, fx_add(1_000_000, 1_000_000)), fx_sub(2_000_000, fx_add(1_000_000, 1_000_000))))) == 1_000_000);
    assert(spec_ease(Easing::EaseInOutCirc, 1_000_000) == (fx_mul(fx_add(1_000_000, spec_sqrt(fx_sub(1_000_000, fx_mul(fx_sub(2_000_000, fx_add(1_000_000, 1_000_000)), fx_sub(2_000_000, fx_add(1_000_000, 1_000_000)))))), 500_000)));
    assert(spec_ease(Easing::EaseInOutCirc, 1_000_000) == 1_000_000);
}

#[verifier::rlimit(100)]
proof fn lemma_endpoints_ease_in_back()
    ensures
        spec_ease(Easing::EaseInBack, 0) == 0,
        spec_ease(Easing::EaseInBack, 1_000_000) == 1_000_000,
{
    reveal(spec_ease);
    assert(spec_ease(Easing::EaseInBack, 0) == (fx_sub(fx_mul(2_701_580, fx_mul(fx_mul(0, 0), 0)), fx_mul(1_701_580, fx_mul(0, 0)))));
    assert(spec_ease(Easing::EaseInBack, 0) == 0);
    assert(spec_ease(Easing::EaseInBack, 1_000_000) == (fx_sub(fx_mul(2_701_580, fx_mul(fx_mul(1_000_000, 1_000_000), 1_000_000)), fx_mul(1_701_580, fx_mul(1_000_000, 1_000_000)))));
    assert(spec_ease(Easing::EaseInBack, 1_000_000) == 1_000_000);
}

#[verifier::rlimit(100)]
proof fn lemma_endpoints_ease_out_back()
    ensures
        spec_ease(Easing::EaseOutBack, 0) == 0,
        spec_ease(Easing::EaseOutBack, 1_000_000) == 1_000_000,
{
    reveal(spec_ease);
    assert(spec_ease(Easing::EaseOutBack, 0) == (fx_add(fx_add(1_000_000, fx_mul(2_701_580, fx_mul(fx_mul(fx_sub(0, 1_000_000), fx_sub(0, 1_000_000)), fx_sub(0, 1_000_000)))), fx_mul(1_701_580, fx_mul(fx_sub(0, 1_000_000), fx_sub(0, 1_000_000))))));
    assert(-1_000_000int * -1_000_000int == 1_000_000_000_000int) by (nonlinear_arith);
    fx_mul_value(fx_sub(0, 1_000_000), fx_sub(0, 1_000_000), -1_000_000, -1_000_000, 1_000_000_000_000, 1_000_000);
    assert(1_000_000int * -1_000_000int == -1_000_000_000_000int) by (nonlinear_arith);
    fx_mul_value(fx_mul(fx_sub(0, 1_000_000), fx_sub(0, 1_000_000)), fx_sub(0, 1_000_000), 1_000_000, -1_000_000, -1_000_000_000_000, -1_000_000);
    assert(spec_ease(Easing::EaseOutBack, 0) == 0);
    assert(spec_ease(Easing::EaseOutBack, 1_000_000) == (fx_add(fx_add(1_000_000, fx_mul(2_701_580, fx_mul(fx_mul(fx_sub(1_000_000, 1_000_000), fx_sub(1_000_000, 1_000_000)), fx_sub(1_000_000, 1_000_000)))), fx_mul(1_701_580, fx_mul(fx_sub(1_000_000, 1_000_000), fx_sub(1_000_000, 1_000_000))))));
    assert(0int * 0int == 0int) by (nonlinear_arith);
    fx_mul_value(fx_sub(1_000_000, 1_000_000), fx_sub(1_000_000, 1_000_000), 0, 0, 0, 0);
    assert(0int * 0int == 0int) by (nonlinear_arith);
    fx_mul_value(fx_mul(fx_sub(1_000_000, 1_000_000), fx_sub(1_000_000, 1_000_000)), fx_sub(1_000_000, 1_000_000), 0, 0, 0, 0);
    assert(spec_ease(Easing::EaseOutBack, 1_000_000) == 1_000_000);
}

#[verifier::rlimit(100)]
proof fn lemma_endpoints_ease_in_out_back()
    ensures
        spec_ease(Easing::EaseInOutBack, 0) == 0,
        spec_ease(Easing::EaseInOutBack, 1_000_000) == 1_000_000,
{
    reveal(spec_ease);
    assert(spec_ease(Easing::EaseInOutBack, 0) == (fx_mul(fx_mul(fx_mul(fx_add(0, 0), fx_add(0, 0)), fx_sub(fx_mul(3_594_910, fx_add(0, 0)), 2_594_910)), 500_000)));
    assert(0int * 0int == 0int) by (nonlinear_arith);
    fx_mul_value(fx_add(0, 0), fx_add(0, 0), 0, 0, 0, 0);
    assert(0int * -2_594_910int == 0int) by (nonlinear_arith);
    fx_mul_value(fx_mul(fx_add(0, 0), fx_add(0, 0)), fx_sub(fx_mul(3_594_910, fx_add(0, 0)), 2_594_910), 0, -2_594_910, 0, 0);
    assert(spec_ease(Easing::EaseInOutBack, 0) == 0);
    assert(spec_ease(Easing::EaseInOutBack, 1_000_000) == (fx_mul(fx_add(fx_mul(fx_mul(fx_sub(fx_add(1_000_000, 1_000_000), 2_000_000), fx_sub(fx_add(1_000_000, 1_000_000), 2_000_000)), fx_add(fx_mul(3_594_910, fx_sub(fx_add(1_000_000, 1_000_000), 2_000_000)), 2_594_910)), 2_000_000), 500_000)));
    assert(0int * 0int == 0int) by (nonlinear_arith);
    fx_mul_value(fx_sub(fx_add(1_000_000, 1_000_000), 2_000_000), fx_sub(fx_add(1_000_000, 1_000_000), 2_000_000), 0, 0, 0, 0);
    assert(0int * 2_594_910int == 0int) by (nonlinear_arith);
    fx_mul_value(fx_mul(fx_sub(fx_add(1_000_000, 1_000_000), 2_000_000), fx_sub(fx_add(1_000_000, 1_000_000), 2_000_000)), fx_add(fx_mul(3_594_910, fx_sub(fx_add(1_000_000, 1_000_000), 2_000_000)), 2_594_910), 0, 2_594_910, 0, 0);
    assert(spec_ease(Easing::EaseInOutBack, 1_000_000) == 1_000_000);
}

#[verifier::rlimit(100)]
proof fn lemma_endpoints_ease_in_elastic()
    ensures
        spec_ease(Easing::EaseInElastic, 0) == 0,
        spec_ease(Easing::EaseInElastic, 1_000_000) == 1_000_000,
{
    reveal(spec_ease);
    assert(spec_ease(Easing::EaseInElastic, 0) == 0);
    assert(spec_ease(Easing::EaseInElastic, 1_000_000) == 1_000_000);
}

#[verifier::rlimit(100)]
proof fn lemma_endpoints_ease_out_elastic()
    ensures
        spec_ease(Easing::EaseOutElastic, 0) == 0,
        spec_ease(Easing::EaseOutElastic, 1_000_000) == 1_000_000,
{
    reveal(spec_ease);
    assert(spec_ease(Easing::EaseOutElastic, 0) == 0);
    assert(spec_ease(Easing::EaseOutElastic, 1_000_000) == 1_000_000);
}

#[verifier::rlimit(100)]
proof fn lemma_endpoints_ease_in_out_elastic()
    ensures
        spec_ease(Easing::EaseInOutElastic, 0) == 0,
        spec_ease(Easing::EaseInOutElastic, 1_000_000) == 1_000_000,
{
    reveal(spec_ease);
    assert(spec_ease(Easing::EaseInOutElastic, 0) == 0);
    assert(spec_ease(Easing::EaseInOutElastic, 1_000_000) == 1_000_000);
}

#[verifier::rlimit(100)]
proof fn lemma_endpoints_ease_in_bounce()
    ensures
        spec_ease(Easing::EaseInBounce, 0) == 0,
        spec_ease(Easing::EaseInBounce, 1_000_000) == 1_000_000,
{
    reveal(spec_ease);
    lemma_helper_endpoints();
    assert(spec_out_bounce(fx_sub(1_000_000, 0)) == 1_000_000);
    assert(spec_ease(Easing::EaseInBounce, 0) == (fx_sub(1_000_000, spec_out_bounce(fx_sub(1_000_000, 0)))));
    assert(spec_ease(Easing::EaseInBounce, 0) == 0);
    assert(spec_out_bounce(fx_sub(1_000_000, 1_000_000)) == 0);
    assert(spec_ease(Easing::EaseInBounce, 1_000_000) == (fx_sub(1_000_000, spec_out_bounce(fx_sub(1_000_000, 1_000_000)))));
    assert(spec_ease(Easing::EaseInBounce, 1_000_000) == 1_000_000);
}

#[verifier::rlimit(100)]
proof fn lemma_endpoints_ease_out_bounce()
    ensures
        spec_ease(Easing::EaseOutBounce, 0) == 0,
        spec_ease(Easing::EaseOutBounce, 1_000_000) == 1_000_000,
{
    reveal(spec_ease);
    lemma_helper_endpoints();
    assert(spec_ease(Easing::EaseOutBounce, 0) == (spec_out_bounce(0)));
    assert(spec_ease(Easing::EaseOutBounce, 0) == 0);
    assert(spec_ease(Easing::EaseOutBounce, 1_000_000) == (spec_out_bounce(1_000_000)));
    assert(spec_ease(Easing::EaseOutBounce, 1_000_000) == 1_000_000);
}

#[verifier::rlimit(100)]
proof fn lemma_endpoints_ease_in_out_bounce()
    ensures
        spec_ease(Easing::EaseInOutBounce, 0) == 0,
        spec_ease(Easing::EaseInOutBounce, 1_000_000) == 1_000_000,
{
    reveal(spec_ease);
    lemma_helper_endpoints();
    assert(spec_out_bounce(fx_sub(1_000_000, fx_add(0, 0))) == 1_000_000);
    assert(spec_ease(Easing::EaseInOutBounce, 0) == (fx_mul(fx_sub(1_000_000, spec_out_bounce(fx_sub(1_000_000, fx_add(0, 0)))), 500_000)));
    assert(spec_ease(Easing::EaseInOutBounce, 0) == 0);
    assert(spec_out_bounce(fx_sub(fx_add(1_000_000, 1_000_000), 1_000_000)) == 1_000_000);
    assert(spec_ease(Easing::EaseInOutBounce, 1_000_000) == (fx_mul(fx_add(1_000_000, spec_out_bounce(fx_sub(fx_add(1_000_000, 1_000_000), 1_000_000))), 500_000)));
    assert(spec_ease(Easing::EaseInOutBounce, 1_000_000) == 1_000_000);
}

/// Law: every curve in the catalog maps zero to exactly zero and one to
/// exactly one on the fixed-point scale, so an animation that has not
/// started sits exactly on its origin, and a finished one lands exactly on
/// its destination, whatever easing is configured.
pub proof fn lemma_ease_endpoints(e: Easing)
    ensures
        spec_ease(e, 0) == 0,
        spec_ease(e, 1_000_000) == 1_000_000,
{
    match e {
        Easing::Linear => lemma_endpoints_linear(),
        Easing::EaseIn => lemma_endpoints_ease_in(),
        Easing::EaseOut => lemma_endpoints_ease_out(),
        Easing::EaseInOut => lemma_endpoints_ease_in_out(),
        Easing::EaseInQuad => lemma_endpoints_ease_in_quad(),
        Easing::EaseOutQuad => lemma_endpoints_ease_out_quad(),
        Easing::EaseInOutQuad => lemma_endpoints_ease_in_out_quad(),
        Easing::EaseInCubic => lemma_endpoints_ease_in_cubic(),
        Easing::EaseOutCubic => lemma_endpoints_ease_out_cubic(),
        Easing::EaseInOutCubic => lemma_endpoints_ease_in_out_cubic(),
        Easing::EaseInQuart => lemma_endpoints_ease_in_quart(),
        Easing::EaseOutQuart => lemma_endpoints_ease_out_quart(),
        Easing::EaseInOutQuart => lemma_endpoints_ease_in_out_quart(),
        Easing::EaseInQuint => lemma_endpoints_ease_in_quint(),
        Easing::EaseOutQuint => lemma_endpoints_ease_out_quint(),
        Easing::EaseInOutQuint => lemma_endpoints_ease_in_out_quint(),
        Easing::EaseInExpo => lemma_endpoints_ease_in_expo(),
        Easing::EaseOutExpo => lemma_endpoints_ease_out_expo(),
        Easing::EaseInOutExpo => lemma_endpoints_ease_in_out_expo(),
        Easing::EaseInCirc => lemma_endpoints_ease_in_circ(),
        Easing::EaseOutCirc => lemma_endpoints_ease_out_circ(),
        Easing::EaseInOutCirc => lemma_endpoints_ease_in_out_circ(),
        Easing::EaseInBack => lemma_endpoints_ease_in_back(),
        Easing::EaseOutBack => lemma_endpoints_ease_out_back(),
        Easing::EaseInOutBack => lemma_endpoints_ease_in_out_back(),
        Easing::EaseInElastic => lemma_endpoints_ease_in_elastic(),
        Easing::EaseOutElastic => lemma_endpoints_ease_out_elastic(),
        Easing::EaseInOutElastic => lemma_endpoints_ease_in_out_elastic(),
        Easing::EaseInBounce => lemma_endpoints_ease_in_bounce(),
        Easing::EaseOutBounce => lemma_endpoints_ease_out_bounce(),
        Easing::EaseInOutBounce => lemma_endpoints_ease_in_out_bounce(),
    }
}

} // verus!
