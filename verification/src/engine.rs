//! The fragment generation engine.
//!
//! Given a fragmentation event, the engine draws the fragment population
//! the event's parameters imply, by inverse-transform sampling of the
//! cumulative count law. The whole pipeline is fixed point and
//! deterministic: a seed fixes every draw, and identical seeds reproduce
//! identical populations.
//!
//! Sampling laws, documented precisely:
//! - The fractional fragment count truncates to a whole number of
//!   fragments.
//! - Per fragment, in fragment-index order, the engine consumes exactly
//!   twelve draws: one size draw, then four area-to-mass draws, then four
//!   delta-velocity draws, then three direction draws.
//! - Size: `L = L_min * u^(1 / exponent)` for a uniform `u`, clamped into
//!   `[L_min, L_max]`.
//! - A standard normal variate is approximated by the scaled Irwin-Hall
//!   sum of four uniform draws: `z = (u1 + u2 + u3 + u4 - 2) * sqrt(3)`.
//! - Area-to-mass ratio: `log10(A/m) = mean(kind) + spread(kind) * z`,
//!   with mean -1.75 and spread 0.5 for rocket bodies, mean -2.0 and
//!   spread 0.6 otherwise: a single log-normal component per population.
//! - Area: `A = 0.556945 * L^(8211 / 4096)` for `L >= 0.00167`, else
//!   `A = 0.540424 * L^2`; mass is `A` over the sampled ratio.
//! - Velocity magnitude: `log10(dv) = c0 * log10(A/m) + c1 + 0.4 * z2`
//!   with `(c0, c1)` the event's offset pair (capped at 10), the
//!   magnitude capped at ten thousand kilometers per second.
//! - Direction: a vector with components uniform over the cube, scaled to
//!   the magnitude (an explicit approximation of the isotropic law; the
//!   components are odd integers, so the vector is never zero).
//! - Fixed-point overflow in a sampled quantity saturates; it never
//!   aborts a run.

use crate::event::FragmentationEvent;
use crate::fixed::{
    fp_div_sat, fp_div_sat_spec, fp_mul_sat, fp_mul_sat_spec, fp_pow, fp_pow_spec, isqrt128,
    lemma_sqrt_floor_bounds, sqrt_floor, POW_DENOM, SCALE,
};
use crate::rng::{draw_of_state_spec, lcg_next_spec, Rng};
use crate::satellite::{SatKind, Vec3};
use crate::BreakupError;
use vstd::prelude::*;

verus! {

/// Fixed-point square root of three.
pub const SQRT3_FP: u64 = 1_732_051;

/// Bound on the approximate standard-normal variate.
pub const Z_BOUND: i64 = 3_500_000;

/// Log-ratio mean for rocket-body fragments: `-1.75`.
pub const AM_MEAN_RB: i64 = -1_750_000;

/// Log-ratio spread for rocket-body fragments: `0.5`.
pub const AM_SPREAD_RB: u64 = 500_000;

/// Log-ratio mean for all other fragments: `-2.0`.
pub const AM_MEAN_OTHER: i64 = -2_000_000;

/// Log-ratio spread for all other fragments: `0.6`.
pub const AM_SPREAD_OTHER: u64 = 600_000;

/// Spread of the velocity-magnitude law: `0.4`.
pub const DV_Z_SPREAD: u64 = 400_000;

/// Fixed-point ten, the base of the logarithmic laws.
pub const TEN_FP: u64 = 10_000_000;

/// Area coefficient for lengths of at least `AREA_SPLIT_LEN`: `0.556945`.
pub const AREA_COEFF_LARGE: u64 = 556_945;

/// Area exponent numerator for large lengths: `2.0047` as `8211 / 4096`.
pub const AREA_EXP_NUM: u32 = 8211;

/// Area coefficient below `AREA_SPLIT_LEN`: `0.540424`.
pub const AREA_COEFF_SMALL: u64 = 540_424;

/// The length `0.00167` meters splitting the two area laws.
pub const AREA_SPLIT_LEN: u64 = 1670;

/// Velocity magnitudes cap at ten million meters per second.
pub const DV_CAP: u64 = 10_000_000_000_000;

/// Velocity-offset constants cap at ten.
pub const OFFSET_CAP: u64 = 10_000_000;

/// One synthesized debris fragment.
#[derive(Clone, Copy, Debug, PartialEq, Eq, Structural)]
pub struct Fragment {
    pub characteristic_length: u64,
    pub mass: u64,
    pub area_to_mass: u64,
    pub delta_velocity: Vec3,
    pub position: Vec3,
}

/// `c * x / SCALE` with truncation toward zero.
pub open spec fn mul_div_scale_spec(c: int, x: int) -> int {
    if x >= 0 {
        c * x / (SCALE as int)
    } else {
        -(c * (-x) / (SCALE as int))
    }
}

/// Fixed-point product of a non-negative coefficient and a signed value,
/// truncated toward zero.
pub fn mul_div_scale(c: u64, x: i64) -> (r: i64)
    requires
        c <= OFFSET_CAP,
        -10_000_000_000 <= x <= 10_000_000_000,
    ensures
        r as int == mul_div_scale_spec(c as int, x as int),
        -100_000_000_000 <= r <= 100_000_000_000,
{
    proof {
        let xa: int = if x >= 0 {
            x as int
        } else {
            -(x as int)
        };
        assert((c as int) * xa <= 100_000_000_000_000_000 && (c as int) * xa >= 0)
            by (nonlinear_arith)
            requires 0 <= c <= 10_000_000 && 0 <= xa <= 10_000_000_000;
        assert(0 <= (c as int) * xa / (SCALE as int) <= 100_000_000_000) by (nonlinear_arith)
            requires 0 <= (c as int) * xa <= 100_000_000_000_000_000 && SCALE == 1_000_000;
    }
    if x >= 0 {
        ((c as u128) * (x as u128) / (SCALE as u128)) as i64
    } else {
        let m = ((c as u128) * ((-x) as u128) / (SCALE as u128)) as i64;
        -m
    }
}

/// The approximate standard-normal value a sum of four unit draws yields:
/// `(sum - 2) * sqrt(3)` in fixed point, truncated toward zero.
pub open spec fn z_from_sum_spec(sum: int) -> int {
    if sum >= 2 * (SCALE as int) {
        (sum - 2 * (SCALE as int)) * (SQRT3_FP as int) / (SCALE as int)
    } else {
        -((2 * (SCALE as int) - sum) * (SQRT3_FP as int) / (SCALE as int))
    }
}

/// The generator state after the four draws of one normal variate.
pub open spec fn state_after_z_spec(s: int) -> int {
    lcg_next_spec(lcg_next_spec(lcg_next_spec(lcg_next_spec(s))))
}

/// The sum of the four draw values the four successor states of `s`
/// yield.
pub open spec fn z_draw_sum_spec(s: int) -> int {
    let s1 = lcg_next_spec(s);
    let s2 = lcg_next_spec(s1);
    let s3 = lcg_next_spec(s2);
    let s4 = lcg_next_spec(s3);
    draw_of_state_spec(s1) + draw_of_state_spec(s2) + draw_of_state_spec(s3) + draw_of_state_spec(
        s4,
    )
}

/// Draws an approximate standard-normal variate: the scaled Irwin-Hall
/// sum of four uniform draws.
pub fn draw_z(rng: &mut Rng) -> (r: i64)
    ensures
        final(rng).state as int == state_after_z_spec(old(rng).state as int),
        r as int == z_from_sum_spec(z_draw_sum_spec(old(rng).state as int)),
        -Z_BOUND <= r <= Z_BOUND,
{
    let u1 = rng.draw();
    let u2 = rng.draw();
    let u3 = rng.draw();
    let u4 = rng.draw();
    let sum = u1 + u2 + u3 + u4;
    proof {
        let d: int = if sum >= 2 * SCALE {
            sum - 2 * (SCALE as int)
        } else {
            2 * (SCALE as int) - sum
        };
        assert(d * (SQRT3_FP as int) <= 3_464_102_000_000 && d * (SQRT3_FP as int) >= 0)
            by (nonlinear_arith)
            requires 0 <= d <= 2_000_000 && SQRT3_FP == 1_732_051;
        assert(d * (SQRT3_FP as int) / (SCALE as int) <= 3_464_102) by (nonlinear_arith)
            requires 0 <= d * (SQRT3_FP as int) <= 3_464_102_000_000 && SCALE == 1_000_000;
        assert(d * (SQRT3_FP as int) / (SCALE as int) >= 0) by (nonlinear_arith)
            requires d * (SQRT3_FP as int) >= 0 && SCALE == 1_000_000;
    }
    if sum >= 2 * SCALE {
        (((sum - 2 * SCALE) as u128) * (SQRT3_FP as u128) / (SCALE as u128)) as i64
    } else {
        let m = (((2 * SCALE - sum) as u128) * (SQRT3_FP as u128) / (SCALE as u128)) as i64;
        -m
    }
}

/// The exponent numerator `y * POW_DENOM / SCALE` a fixed-point exponent
/// magnitude maps to.
pub open spec fn exp_num_spec(y: int) -> u32 {
    (y * (POW_DENOM as int) / (SCALE as int)) as u32
}

/// `10^y` in fixed point: the power chain on the magnitude of `y`, and
/// for negative `y` its reciprocal. Where `10^|y|` is not representable
/// the positive case saturates and the reciprocal is zero; where the
/// power underflows to zero the reciprocal saturates.
pub open spec fn exp10_spec(y: int) -> int {
    if y >= 0 {
        match fp_pow_spec(TEN_FP as int, exp_num_spec(y)) {
            Some(v) => v,
            None => u64::MAX as int,
        }
    } else {
        match fp_pow_spec(TEN_FP as int, exp_num_spec(-y)) {
            Some(p) => if p == 0 {
                u64::MAX as int
            } else {
                fp_div_sat_spec(SCALE as int, p)
            },
            None => 0,
        }
    }
}

/// Evaluates `10^y` for a fixed-point exponent.
pub fn exp10_fp(y: i64) -> (r: u64)
    requires
        -100_000_000 <= y <= 100_000_000,
    ensures
        r as int == exp10_spec(y as int),
{
    proof {
        let ya: int = if y >= 0 {
            y as int
        } else {
            -(y as int)
        };
        assert(0 <= ya * (POW_DENOM as int) <= 409_600_000_000) by (nonlinear_arith)
            requires 0 <= ya <= 100_000_000 && POW_DENOM == 4096;
        assert(0 <= ya * (POW_DENOM as int) / (SCALE as int) <= 409_600) by (nonlinear_arith)
            requires 0 <= ya * (POW_DENOM as int) <= 409_600_000_000 && SCALE == 1_000_000;
    }
    if y >= 0 {
        let num = ((y as u64) * (POW_DENOM as u64) / SCALE) as u32;
        match fp_pow(TEN_FP, num) {
            Some(v) => v,
            None => u64::MAX,
        }
    } else {
        let num = (((-y) as u64) * (POW_DENOM as u64) / SCALE) as u32;
        match fp_pow(TEN_FP, num) {
            Some(p) => {
                if p == 0 {
                    u64::MAX
                } else {
                    fp_div_sat(SCALE, p)
                }
            },
            None => 0,
        }
    }
}

/// The inverse-transform sample of the size law: `L_min / u^(1 / b)` for
/// the exponent magnitude's reciprocal numerator, with every undefined or
/// out-of-range case clamped into `[L_min, L_max]`.
pub open spec fn sample_length_spec(l_min: int, l_max: int, u: int, inv_num: u32) -> int {
    let p = fp_pow_spec(u, inv_num);
    let raw = if p is None || p->0 == 0 {
        l_max
    } else {
        match crate::fixed::fp_div_chk(l_min, p->0) {
            Some(v) => v,
            None => l_max,
        }
    };
    if raw < l_min {
        l_min
    } else if raw > l_max {
        l_max
    } else {
        raw
    }
}

/// Samples one characteristic length.
pub fn sample_length(l_min: u64, l_max: u64, u: u64, inv_num: u32) -> (r: u64)
    requires
        l_min <= l_max,
    ensures
        r as int == sample_length_spec(l_min as int, l_max as int, u as int, inv_num),
        l_min <= r <= l_max,
{
    let raw = match fp_pow(u, inv_num) {
        None => l_max,
        Some(p) => {
            if p == 0 {
                l_max
            } else {
                match crate::fixed::fp_div(l_min, p) {
                    Some(v) => v,
                    None => l_max,
                }
            }
        },
    };
    if raw < l_min {
        l_min
    } else if raw > l_max {
        l_max
    } else {
        raw
    }
}

/// The log-ratio `mean(kind) + spread(kind) * z` of one fragment.
pub open spec fn chi_spec(kind: SatKind, z: int) -> int {
    if kind == SatKind::Rb {
        AM_MEAN_RB as int + mul_div_scale_spec(AM_SPREAD_RB as int, z)
    } else {
        AM_MEAN_OTHER as int + mul_div_scale_spec(AM_SPREAD_OTHER as int, z)
    }
}

/// Samples the area-to-mass ratio of one fragment; returns the ratio and
/// its log-ratio.
pub fn sample_area_to_mass(kind: SatKind, z: i64) -> (r: (u64, i64))
    requires
        -Z_BOUND <= z <= Z_BOUND,
    ensures
        r.1 as int == chi_spec(kind, z as int),
        -5_000_000 <= r.1 <= 5_000_000,
        r.0 as int == exp10_spec(chi_spec(kind, z as int)),
{
    let chi = if kind == SatKind::Rb {
        AM_MEAN_RB + mul_div_scale(AM_SPREAD_RB, z)
    } else {
        AM_MEAN_OTHER + mul_div_scale(AM_SPREAD_OTHER, z)
    };
    let am = exp10_fp(chi);
    (am, chi)
}

/// The area the empirical relation assigns to a length, saturating.
pub open spec fn area_spec(l: int) -> int {
    if l >= AREA_SPLIT_LEN as int {
        match fp_pow_spec(l, AREA_EXP_NUM) {
            Some(p) => fp_mul_sat_spec(AREA_COEFF_LARGE as int, p),
            None => u64::MAX as int,
        }
    } else {
        fp_mul_sat_spec(AREA_COEFF_SMALL as int, fp_mul_sat_spec(l, l))
    }
}

/// Derives the cross-sectional area of one fragment from its length.
pub fn area_from_length(l: u64) -> (r: u64)
    ensures
        r as int == area_spec(l as int),
{
    if l >= AREA_SPLIT_LEN {
        match fp_pow(l, AREA_EXP_NUM) {
            Some(p) => fp_mul_sat(AREA_COEFF_LARGE, p),
            None => u64::MAX,
        }
    } else {
        fp_mul_sat(AREA_COEFF_SMALL, fp_mul_sat(l, l))
    }
}

/// The velocity-magnitude law: `10^(c0 * chi + c1 + 0.4 * z)`, capped.
pub open spec fn dv_mag_spec(c0: int, c1: int, chi: int, z: int) -> int {
    let e = mul_div_scale_spec(c0, chi) + c1 + mul_div_scale_spec(DV_Z_SPREAD as int, z);
    let m = exp10_spec(e);
    if m > DV_CAP as int {
        DV_CAP as int
    } else {
        m
    }
}

/// Samples the velocity-delta magnitude of one fragment.
pub fn sample_dv_mag(c0: u64, c1: u64, chi: i64, z: i64) -> (r: u64)
    requires
        c0 <= OFFSET_CAP,
        c1 <= OFFSET_CAP,
        -5_000_000 <= chi <= 5_000_000,
        -Z_BOUND <= z <= Z_BOUND,
    ensures
        r as int == dv_mag_spec(c0 as int, c1 as int, chi as int, z as int),
        r <= DV_CAP,
{
    let a = mul_div_scale(c0, chi);
    let b = mul_div_scale(DV_Z_SPREAD, z);
    proof {
        let ca: int = if chi >= 0 {
            chi as int
        } else {
            -(chi as int)
        };
        assert(0 <= (c0 as int) * ca <= 50_000_000_000_000) by (nonlinear_arith)
            requires 0 <= c0 <= 10_000_000 && 0 <= ca <= 5_000_000;
        assert(0 <= (c0 as int) * ca / (SCALE as int) <= 50_000_000) by (nonlinear_arith)
            requires 0 <= (c0 as int) * ca <= 50_000_000_000_000 && SCALE == 1_000_000;
        let za: int = if z >= 0 {
            z as int
        } else {
            -(z as int)
        };
        assert(0 <= (DV_Z_SPREAD as int) * za <= 1_400_000_000_000) by (nonlinear_arith)
            requires 0 <= za <= 3_500_000 && DV_Z_SPREAD == 400_000;
        assert(0 <= (DV_Z_SPREAD as int) * za / (SCALE as int) <= 1_400_000) by (nonlinear_arith)
            requires 0 <= (DV_Z_SPREAD as int) * za <= 1_400_000_000_000 && SCALE == 1_000_000;
    }
    let e = a + (c1 as i64) + b;
    let m = exp10_fp(e);
    if m > DV_CAP {
        DV_CAP
    } else {
        m
    }
}

/// One signed direction component scaled to the magnitude:
/// `d * mag / n`, truncated toward zero.
pub open spec fn scale_component_spec(d: int, mag: int, n: int) -> int {
    if d >= 0 {
        d * mag / n
    } else {
        -((-d) * mag / n)
    }
}

/// Scales one direction component to the sampled magnitude.
pub fn scale_component(d: i64, mag: u64, n: u64) -> (r: i64)
    requires
        1 <= n <= 2_000_000,
        -(n as int) <= d <= n as int,
        mag <= DV_CAP,
    ensures
        r as int == scale_component_spec(d as int, mag as int, n as int),
        -(DV_CAP as int) <= r <= DV_CAP as int,
{
    proof {
        let da: int = if d >= 0 {
            d as int
        } else {
            -(d as int)
        };
        assert(0 <= da * (mag as int) <= (n as int) * (mag as int) && (n as int) * (mag as int)
            <= 20_000_000_000_000_000_000) by (nonlinear_arith)
            requires 0 <= da <= n as int && 1 <= n <= 2_000_000 && 0 <= mag
                <= 10_000_000_000_000;
        assert(da * (mag as int) / (n as int) <= mag as int) by (nonlinear_arith)
            requires 0 <= da <= n as int && 1 <= n && 0 <= mag;
        assert(da * (mag as int) / (n as int) >= 0) by (nonlinear_arith)
            requires da * (mag as int) >= 0 && n >= 1;
    }
    if d >= 0 {
        ((d as u128) * (mag as u128) / (n as u128)) as i64
    } else {
        let m = (((-d) as u128) * (mag as u128) / (n as u128)) as i64;
        -m
    }
}

/// One draw value mapped to a symmetric cube component: `2 u - (S + 1)`,
/// an odd (hence non-zero) integer in `[-(S - 1), S - 1]`.
pub open spec fn cube_component_spec(u: int) -> int {
    2 * u - (SCALE as int) - 1
}

/// The floor of the Euclidean norm of a direction vector.
pub open spec fn direction_norm_spec(d1: int, d2: int, d3: int) -> int {
    sqrt_floor((d1 * d1 + d2 * d2 + d3 * d3) as nat) as int
}

/// The direction of one fragment: three cube components and the floor of
/// their Euclidean norm.
#[verifier::rlimit(50)]
pub fn sample_direction(rng: &mut Rng) -> (r: (i64, i64, i64, u64))
    ensures
        ({
            let s1 = lcg_next_spec(old(rng).state as int);
            let s2 = lcg_next_spec(s1);
            let s3 = lcg_next_spec(s2);
            &&& final(rng).state as int == s3
            &&& r.0 as int == cube_component_spec(draw_of_state_spec(s1))
            &&& r.1 as int == cube_component_spec(draw_of_state_spec(s2))
            &&& r.2 as int == cube_component_spec(draw_of_state_spec(s3))
        }),
        r.3 as int == direction_norm_spec(r.0 as int, r.1 as int, r.2 as int),
        1 <= r.3 <= 2_000_000,
        -(r.3 as int) <= r.0 <= r.3 as int,
        -(r.3 as int) <= r.1 <= r.3 as int,
        -(r.3 as int) <= r.2 <= r.3 as int,
{
    let u1 = rng.draw();
    let u2 = rng.draw();
    let u3 = rng.draw();
    let d1 = 2 * (u1 as i64) - (SCALE as i64) - 1;
    let d2 = 2 * (u2 as i64) - (SCALE as i64) - 1;
    let d3 = 2 * (u3 as i64) - (SCALE as i64) - 1;
    proof {
        assert(d1 != 0 && d2 != 0 && d3 != 0);
        assert((d1 as int) * (d1 as int) >= 1 && (d1 as int) * (d1 as int) <= 1_000_000_000_000)
            by (nonlinear_arith)
            requires d1 != 0 && -1_000_000 <= d1 <= 1_000_000;
        assert((d2 as int) * (d2 as int) >= 0 && (d2 as int) * (d2 as int) <= 1_000_000_000_000)
            by (nonlinear_arith)
            requires -1_000_000 <= d2 <= 1_000_000;
        assert((d3 as int) * (d3 as int) >= 0 && (d3 as int) * (d3 as int) <= 1_000_000_000_000)
            by (nonlinear_arith)
            requires -1_000_000 <= d3 <= 1_000_000;
    }
    let sq = (d1 as i128) * (d1 as i128) + (d2 as i128) * (d2 as i128) + (d3 as i128) * (d3
        as i128);
    let n = isqrt128(sq as u128);
    proof {
        let s = (d1 as int) * (d1 as int) + (d2 as int) * (d2 as int) + (d3 as int) * (d3 as int);
        lemma_sqrt_floor_bounds(s as nat);
        if n == 0 {
            assert((n as int + 1) * (n as int + 1) == 1) by (nonlinear_arith)
                requires n == 0;
            assert(false);
        }
        assert(n >= 1);
        if n > 2_000_000 {
            assert((n as int) * (n as int) > 4_000_000_000_000) by (nonlinear_arith)
                requires n as int > 2_000_000;
        }
        lemma_component_within_norm(d1 as int, s, n as int);
        lemma_component_within_norm(d2 as int, s, n as int);
        lemma_component_within_norm(d3 as int, s, n as int);
    }
    (d1, d2, d3, n)
}

/// A component whose square is at most a sum bounded by `(n + 1)^2` lies
/// within `[-n, n]`.
proof fn lemma_component_within_norm(d: int, s: int, n: int)
    requires
        n >= 0,
        d * d <= s,
        s < (n + 1) * (n + 1),
    ensures
        -n <= d <= n,
{
    if d > n {
        assert(d * d >= (n + 1) * (n + 1)) by (nonlinear_arith)
            requires d >= n + 1 && n >= 0;
    }
    if d < -n {
        assert(d * d >= (n + 1) * (n + 1)) by (nonlinear_arith)
            requires d <= -(n + 1) && n >= 0;
    }
}

/// The reciprocal exponent numerator of the size law: `POW_DENOM / |b|`
/// in fixed point, one where the exponent is not negative.
pub open spec fn inverse_exp_num_spec(exponent: int) -> u32 {
    if exponent < 0 {
        ((POW_DENOM as int) * (SCALE as int) / (-exponent)) as u32
    } else {
        1u32
    }
}

/// A velocity-offset constant as the engine uses it, capped at ten.
pub open spec fn cap_offset_spec(c: int) -> int {
    if c > OFFSET_CAP as int {
        OFFSET_CAP as int
    } else {
        c
    }
}

/// The generator state after the twelve draws of one fragment.
pub open spec fn state_after_fragment_spec(s: int) -> int {
    let s9 = state_after_z_spec(state_after_z_spec(lcg_next_spec(s)));
    lcg_next_spec(lcg_next_spec(lcg_next_spec(s9)))
}

/// The generator state at which fragment `k` starts.
pub open spec fn nth_fragment_state_spec(seed: int, k: nat) -> int
    decreases k,
{
    if k == 0 {
        seed
    } else {
        state_after_fragment_spec(nth_fragment_state_spec(seed, (k - 1) as nat))
    }
}

/// The fragment the engine emits from generator state `s` under the given
/// event parameters: the exact mirror of one loop iteration, draw by draw.
pub open spec fn fragment_from_state_spec(
    l_min: int,
    l_max: int,
    inv_num: u32,
    kind: SatKind,
    c0: int,
    c1: int,
    location: Vec3,
    s: int,
) -> Fragment {
    let s1 = lcg_next_spec(s);
    let u = draw_of_state_spec(s1);
    let z1 = z_from_sum_spec(z_draw_sum_spec(s1));
    let s5 = state_after_z_spec(s1);
    let z2 = z_from_sum_spec(z_draw_sum_spec(s5));
    let s9 = state_after_z_spec(s5);
    let s10 = lcg_next_spec(s9);
    let s11 = lcg_next_spec(s10);
    let s12 = lcg_next_spec(s11);
    let length = sample_length_spec(l_min, l_max, u, inv_num);
    let chi = chi_spec(kind, z1);
    let am = exp10_spec(chi);
    let mass = fp_div_sat_spec(area_spec(length), am);
    let dv = dv_mag_spec(c0, c1, chi, z2);
    let d1 = cube_component_spec(draw_of_state_spec(s10));
    let d2 = cube_component_spec(draw_of_state_spec(s11));
    let d3 = cube_component_spec(draw_of_state_spec(s12));
    let n = direction_norm_spec(d1, d2, d3);
    Fragment {
        characteristic_length: length as u64,
        mass: mass as u64,
        area_to_mass: am as u64,
        delta_velocity: Vec3 {
            x: scale_component_spec(d1, dv, n) as i64,
            y: scale_component_spec(d2, dv, n) as i64,
            z: scale_component_spec(d3, dv, n) as i64,
        },
        position: location,
    }
}

/// The fragment the engine emits at index `k` for a seed and the given
/// event parameters.
pub open spec fn fragment_at_spec(
    l_min: int,
    l_max: int,
    inv_num: u32,
    kind: SatKind,
    c0: int,
    c1: int,
    location: Vec3,
    seed: int,
    k: nat,
) -> Fragment {
    fragment_from_state_spec(
        l_min,
        l_max,
        inv_num,
        kind,
        c0,
        c1,
        location,
        nth_fragment_state_spec(seed, k),
    )
}

/// Runs the generation engine on one event with the given seed.
///
/// Fails with `InvalidBounds` exactly where the event's minimum
/// characteristic length exceeds its maximum, and with `InvalidCount`
/// exactly where the fragment-count law has no representable value; on
/// success the population has one row per whole fragment of the count,
/// every length lies within the event's bounds, and every fragment sits
/// at the event's location.
pub fn run_seeded<E: FragmentationEvent>(event: &E, seed: u64) -> (r: Result<
    Vec<Fragment>,
    BreakupError,
>)
    requires
        event.wf_event(),
    ensures
        r is Ok <==> (event.min_len_spec() <= event.max_len_spec() && event.count_chain(
            event.min_len_spec(),
        ) is Some),
        r is Err ==> (r->Err_0 == BreakupError::InvalidBounds <==> event.min_len_spec()
            > event.max_len_spec()),
        r is Err ==> (r->Err_0 == BreakupError::InvalidBounds || r->Err_0
            == BreakupError::InvalidCount),
        r is Ok ==> {
            let frags = r->Ok_0@;
            &&& frags.len() == event.count_chain(event.min_len_spec())->0 / (SCALE as int)
            &&& forall|k: int|
                0 <= k < frags.len() ==> {
                    &&& event.min_len_spec() <= (#[trigger] frags[k]).characteristic_length as int
                        <= event.max_len_spec()
                    &&& frags[k].position == event.location_spec()
                }
            &&& forall|k: int|
                0 <= k < frags.len() ==> #[trigger] frags[k] == fragment_at_spec(
                    event.min_len_spec(),
                    event.max_len_spec(),
                    inverse_exp_num_spec(event.exponent_spec()),
                    event.kind_spec(),
                    cap_offset_spec(event.dv_offset_spec().0),
                    cap_offset_spec(event.dv_offset_spec().1),
                    event.location_spec(),
                    seed as int,
                    k as nat,
                )
        },
{
    let l_min = event.min_characteristic_length();
    let l_max = event.max_characteristic_length();
    if l_min > l_max {
        return Err(BreakupError::InvalidBounds);
    }
    let count_fp = match event.fragment_count(l_min) {
        Ok(c) => c,
        Err(_) => {
            return Err(BreakupError::InvalidCount);
        },
    };
    let n = count_fp / SCALE;
    let exponent = event.power_law_exponent();
    let inv_num: u32 = if exponent < 0 {
        (((POW_DENOM as u64) * SCALE) / ((-(exponent as i128)) as u64)) as u32
    } else {
        1
    };
    proof {
        if exponent < 0 {
            vstd::arithmetic::div_mod::lemma_div_pos_is_pos(
                (POW_DENOM as int) * (SCALE as int),
                -(exponent as int),
            );
            vstd::arithmetic::div_mod::lemma_div_is_ordered_by_denominator(
                (POW_DENOM as int) * (SCALE as int),
                1,
                -(exponent as int),
            );
        }
    }
    let offsets = event.delta_velocity_offset();
    let c0 = if offsets.0 > OFFSET_CAP {
        OFFSET_CAP
    } else {
        offsets.0
    };
    let c1 = if offsets.1 > OFFSET_CAP {
        OFFSET_CAP
    } else {
        offsets.1
    };
    let location = event.location();
    let kind = event.kind();
    let mut rng = Rng::new(seed);
    let mut fragments: Vec<Fragment> = Vec::new();
    let mut i: u64 = 0;
    while i < n
        invariant
            i <= n,
            l_min <= l_max,
            fragments@.len() == i as int,
            l_min as int == event.min_len_spec(),
            l_max as int == event.max_len_spec(),
            location == event.location_spec(),
            kind == event.kind_spec(),
            inv_num == inverse_exp_num_spec(event.exponent_spec()),
            c0 as int == cap_offset_spec(event.dv_offset_spec().0),
            c1 as int == cap_offset_spec(event.dv_offset_spec().1),
            c0 <= OFFSET_CAP,
            c1 <= OFFSET_CAP,
            rng.state as int == nth_fragment_state_spec(seed as int, i as nat),
            forall|k: int|
                0 <= k < fragments@.len() ==> {
                    &&& l_min <= (#[trigger] fragments@[k]).characteristic_length <= l_max
                    &&& fragments@[k].position == location
                },
            forall|k: int|
                0 <= k < fragments@.len() ==> #[trigger] fragments@[k] == fragment_from_state_spec(
                    l_min as int,
                    l_max as int,
                    inv_num,
                    kind,
                    c0 as int,
                    c1 as int,
                    location,
                    nth_fragment_state_spec(seed as int, k as nat),
                ),
        decreases n - i,
    {
        let ghost s_start = rng.state as int;
        let u_size = rng.draw();
        let z_am = draw_z(&mut rng);
        let z_dv = draw_z(&mut rng);
        let length = sample_length(l_min, l_max, u_size, inv_num);
        let (area_to_mass, chi) = sample_area_to_mass(kind, z_am);
        let area = area_from_length(length);
        let mass = fp_div_sat(area, area_to_mass);
        let dv_mag = sample_dv_mag(c0, c1, chi, z_dv);
        let (d1, d2, d3, norm) = sample_direction(&mut rng);
        let delta_velocity = Vec3 {
            x: scale_component(d1, dv_mag, norm),
            y: scale_component(d2, dv_mag, norm),
            z: scale_component(d3, dv_mag, norm),
        };
        let fragment = Fragment {
            characteristic_length: length,
            mass,
            area_to_mass,
            delta_velocity,
            position: location,
        };
        proof {
            assert(fragment == fragment_from_state_spec(
                l_min as int,
                l_max as int,
                inv_num,
                kind,
                c0 as int,
                c1 as int,
                location,
                s_start,
            ));
            assert(rng.state as int == state_after_fragment_spec(s_start));
            assert(nth_fragment_state_spec(seed as int, (i + 1) as nat)
                == state_after_fragment_spec(nth_fragment_state_spec(seed as int, i as nat)));
        }
        fragments.push(fragment);
        i = i + 1;
    }
    Ok(fragments)
}

/// Runs the generation engine with the fixed default seed.
pub fn run<E: FragmentationEvent>(event: &E) -> (r: Result<Vec<Fragment>, BreakupError>)
    requires
        event.wf_event(),
    ensures
        r is Ok <==> (event.min_len_spec() <= event.max_len_spec() && event.count_chain(
            event.min_len_spec(),
        ) is Some),
        r is Ok ==> {
            let frags = r->Ok_0@;
            &&& frags.len() == event.count_chain(event.min_len_spec())->0 / (SCALE as int)
            &&& forall|k: int|
                0 <= k < frags.len() ==> {
                    &&& event.min_len_spec() <= (#[trigger] frags[k]).characteristic_length as int
                        <= event.max_len_spec()
                    &&& frags[k].position == event.location_spec()
                }
        },
{
    run_seeded(event, 0)
}

} // verus!
