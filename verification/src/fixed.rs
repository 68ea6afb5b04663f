//! Fixed-point arithmetic for the breakup model.
//!
//! A real quantity `v` is stored as the integer `v * SCALE` (micro-units).
//! Multiplication and division rescale through `u128` intermediates and
//! truncate toward zero; square roots are exact integer floors. Fractional
//! powers `x^(num / 4096)` are evaluated as a product of iterated square
//! roots, one per set bit of the exponent's fractional part, so every
//! operation has an exact integer specification.

use vstd::arithmetic::div_mod::{
    lemma_div_is_ordered, lemma_div_is_ordered_by_denominator, lemma_div_pos_is_pos,
};
use vstd::arithmetic::mul::{lemma_mul_inequality, lemma_mul_nonnegative, lemma_mul_upper_bound};
use vstd::prelude::*;

verus! {

/// Number of stored integer steps per base unit: values are in micro-units.
pub const SCALE: u64 = 1_000_000;

/// Fractional powers use exponents in units of `1 / POW_DENOM`.
pub const POW_DENOM: u32 = 4096;

/// Number of fractional exponent bits behind `POW_DENOM`.
pub const FRAC_BITS: u32 = 12;

/// The integer square root, by its recursive characterization: the floor of
/// the real square root of `x`.
pub open spec fn sqrt_floor(x: nat) -> nat
    decreases x,
{
    if x == 0 {
        0
    } else {
        let r = sqrt_floor((x - 1) as nat);
        if (r + 1) * (r + 1) <= x {
            r + 1
        } else {
            r
        }
    }
}

pub proof fn lemma_sqrt_floor_bounds(x: nat)
    ensures
        sqrt_floor(x) * sqrt_floor(x) <= x,
        x < (sqrt_floor(x) + 1) * (sqrt_floor(x) + 1),
    decreases x,
{
    if x == 0 {
        let s = sqrt_floor(x);
        assert(s == 0);
        assert(s + 1 == 1);
        assert((s + 1) * (s + 1) == 1) by (nonlinear_arith)
            requires s == 0;
        assert(x < (s + 1) * (s + 1));
    } else {
        lemma_sqrt_floor_bounds((x - 1) as nat);
        let r = sqrt_floor((x - 1) as nat);
        assert(r * r <= x - 1);
        assert(x - 1 < (r + 1) * (r + 1));
        if (r + 1) * (r + 1) <= x {
            assert(sqrt_floor(x) == r + 1);
            assert(x == (r + 1) * (r + 1));
            assert(x < (r + 1 + 1) * (r + 1 + 1)) by (nonlinear_arith)
                requires x == (r + 1) * (r + 1);
        } else {
            assert(sqrt_floor(x) == r);
        }
        assert(sqrt_floor(x) * sqrt_floor(x) <= x);
        assert(x < (sqrt_floor(x) + 1) * (sqrt_floor(x) + 1));
    }
}

pub proof fn lemma_sqrt_floor_mono(x: nat, y: nat)
    requires
        x <= y,
    ensures
        sqrt_floor(x) <= sqrt_floor(y),
    decreases y,
{
    if x < y {
        lemma_sqrt_floor_mono(x, (y - 1) as nat);
    }
}

pub proof fn lemma_sqrt_floor_unique(x: nat, r: nat)
    requires
        r * r <= x,
        x < (r + 1) * (r + 1),
    ensures
        r == sqrt_floor(x),
{
    let s = sqrt_floor(x);
    lemma_sqrt_floor_bounds(x);
    if r < s {
        lemma_mul_inequality(r as int + 1, s as int, s as int);
        lemma_mul_inequality(r as int + 1, s as int, r as int + 1);
        assert(false);
    }
    if s < r {
        lemma_mul_inequality(s as int + 1, r as int, r as int);
        lemma_mul_inequality(s as int + 1, r as int, s as int + 1);
        assert(false);
    }
}

/// Exact integer square root of a `u128`, by binary search.
pub fn isqrt128(x: u128) -> (r: u64)
    ensures
        r as nat == sqrt_floor(x as nat),
{
    let mut lo: u128 = 0;
    let mut hi: u128 = 0x1_0000_0000_0000_0000;
    proof {
        assert((0x1_0000_0000_0000_0000 as nat) * (0x1_0000_0000_0000_0000 as nat) > x as nat)
            by (nonlinear_arith)
            requires x <= u128::MAX;
    }
    while lo + 1 < hi
        invariant
            lo < hi <= 0x1_0000_0000_0000_0000,
            (lo as nat) * (lo as nat) <= x as nat,
            (hi as nat) * (hi as nat) > x as nat,
        decreases hi - lo,
    {
        let mid = lo + (hi - lo) / 2;
        proof {
            assert(mid < 0x1_0000_0000_0000_0000);
            assert((mid as nat) * (mid as nat) <= u128::MAX) by (nonlinear_arith)
                requires mid < 0x1_0000_0000_0000_0000;
        }
        if mid * mid <= x {
            lo = mid;
        } else {
            hi = mid;
        }
    }
    proof {
        lemma_sqrt_floor_unique(x as nat, lo as nat);
    }
    lo as u64
}

/// Fixed-point product, truncated toward zero.
pub open spec fn fp_mul_spec(a: int, b: int) -> int {
    a * b / (SCALE as int)
}

/// Fixed-point quotient, truncated toward zero (callers keep `b > 0`).
pub open spec fn fp_div_spec(a: int, b: int) -> int {
    a * (SCALE as int) / b
}

/// Fixed-point square root: the floor of the real square root, in scale.
pub open spec fn fp_sqrt_spec(x: int) -> int {
    sqrt_floor((x * SCALE) as nat) as int
}

/// Checked fixed-point product: `None` when the result would not fit `u64`.
pub open spec fn fp_mul_chk(a: int, b: int) -> Option<int> {
    if fp_mul_spec(a, b) > u64::MAX as int {
        None
    } else {
        Some(fp_mul_spec(a, b))
    }
}

/// Checked fixed-point quotient: `None` on a non-positive divisor or when
/// the result would not fit `u64`.
pub open spec fn fp_div_chk(a: int, b: int) -> Option<int> {
    if b <= 0 {
        None
    } else if fp_div_spec(a, b) > u64::MAX as int {
        None
    } else {
        Some(fp_div_spec(a, b))
    }
}

pub fn fp_mul(a: u64, b: u64) -> (r: Option<u64>)
    ensures
        r is Some <==> fp_mul_chk(a as int, b as int) is Some,
        r is Some ==> r->0 as int == fp_mul_chk(a as int, b as int)->0,
{
    proof {
        assert((a as nat) * (b as nat) <= u128::MAX) by (nonlinear_arith)
            requires a <= u64::MAX && b <= u64::MAX;
    }
    let p = (a as u128) * (b as u128) / (SCALE as u128);
    if p > u64::MAX as u128 {
        None
    } else {
        Some(p as u64)
    }
}

pub fn fp_div(a: u64, b: u64) -> (r: Option<u64>)
    ensures
        r is Some <==> fp_div_chk(a as int, b as int) is Some,
        r is Some ==> r->0 as int == fp_div_chk(a as int, b as int)->0,
{
    if b == 0 {
        None
    } else {
        proof {
            assert((a as nat) * (SCALE as nat) <= u128::MAX) by (nonlinear_arith)
                requires a <= u64::MAX && SCALE == 1_000_000;
        }
        let p = (a as u128) * (SCALE as u128) / (b as u128);
        if p > u64::MAX as u128 {
            None
        } else {
            Some(p as u64)
        }
    }
}

/// Saturating fixed-point product: overflow clamps to `u64::MAX`.
pub open spec fn fp_mul_sat_spec(a: int, b: int) -> int {
    match fp_mul_chk(a, b) {
        Some(v) => v,
        None => u64::MAX as int,
    }
}

/// Saturating fixed-point quotient: a zero divisor or overflow clamps to
/// `u64::MAX`.
pub open spec fn fp_div_sat_spec(a: int, b: int) -> int {
    match fp_div_chk(a, b) {
        Some(v) => v,
        None => u64::MAX as int,
    }
}

pub fn fp_mul_sat(a: u64, b: u64) -> (r: u64)
    ensures
        r as int == fp_mul_sat_spec(a as int, b as int),
{
    match fp_mul(a, b) {
        Some(v) => v,
        None => u64::MAX,
    }
}

pub fn fp_div_sat(a: u64, b: u64) -> (r: u64)
    ensures
        r as int == fp_div_sat_spec(a as int, b as int),
{
    match fp_div(a, b) {
        Some(v) => v,
        None => u64::MAX,
    }
}

pub fn fp_sqrt(x: u64) -> (r: u64)
    ensures
        r as int == fp_sqrt_spec(x as int),
{
    isqrt128((x as u128) * (SCALE as u128))
}

/// The `j`-fold iterated fixed-point square root of `x`: `x^(1 / 2^j)`.
pub open spec fn root_spec(x: int, j: nat) -> int
    decreases j,
{
    if j == 0 {
        x
    } else {
        fp_sqrt_spec(root_spec(x, (j - 1) as nat))
    }
}

/// The fractional-part product of the power chain after `j` of the
/// `FRAC_BITS` square-root levels: the partial product of `x^(1 / 2^i)`
/// over the set bits `FRAC_BITS - i` of `num`, checked against `u64`.
pub open spec fn frac_prod_spec(x: int, num: u32, j: nat) -> Option<int>
    decreases j,
{
    if j == 0 {
        Some(SCALE as int)
    } else {
        match frac_prod_spec(x, num, (j - 1) as nat) {
            None => None,
            Some(p) => {
                if (num >> (FRAC_BITS - j) as u32) & 1 == 1 {
                    fp_mul_chk(p, root_spec(x, j))
                } else {
                    Some(p)
                }
            },
        }
    }
}

/// The integer-part product of the power chain: `x^n` in fixed point,
/// checked against `u64`.
pub open spec fn int_prod_spec(x: int, n: nat) -> Option<int>
    decreases n,
{
    if n == 0 {
        Some(SCALE as int)
    } else {
        match int_prod_spec(x, (n - 1) as nat) {
            None => None,
            Some(p) => fp_mul_chk(p, x),
        }
    }
}

/// The full power chain `x^(num / POW_DENOM)` in fixed point: the integer
/// part times the fractional part, `None` wherever an intermediate value
/// would not fit `u64`.
pub open spec fn fp_pow_spec(x: int, num: u32) -> Option<int> {
    let ip = int_prod_spec(x, (num >> FRAC_BITS) as nat);
    let fp = frac_prod_spec(x, num, FRAC_BITS as nat);
    if ip is Some && fp is Some {
        fp_mul_chk(ip->0, fp->0)
    } else {
        None
    }
}

proof fn lemma_pow_none_from_frac(x: int, num: u32)
    requires
        frac_prod_spec(x, num, FRAC_BITS as nat) is None,
    ensures
        fp_pow_spec(x, num) is None,
{
}

proof fn lemma_pow_none_from_int(x: int, num: u32)
    requires
        int_prod_spec(x, (num >> FRAC_BITS) as nat) is None,
    ensures
        fp_pow_spec(x, num) is None,
{
}

proof fn lemma_frac_none_propagates(x: int, num: u32, j: nat, k: nat)
    requires
        j <= k,
        frac_prod_spec(x, num, j) is None,
    ensures
        frac_prod_spec(x, num, k) is None,
    decreases k,
{
    if j < k {
        lemma_frac_none_propagates(x, num, j, (k - 1) as nat);
    }
}

proof fn lemma_int_none_propagates(x: int, n: nat, m: nat)
    requires
        n <= m,
        int_prod_spec(x, n) is None,
    ensures
        int_prod_spec(x, m) is None,
    decreases m,
{
    if n < m {
        lemma_int_none_propagates(x, n, (m - 1) as nat);
    }
}

pub proof fn lemma_fp_sqrt_mono(x: int, y: int)
    requires
        0 <= x <= y,
    ensures
        0 <= fp_sqrt_spec(x) <= fp_sqrt_spec(y),
{
    lemma_mul_inequality(x, y, SCALE as int);
    lemma_sqrt_floor_mono((x * SCALE) as nat, (y * SCALE) as nat);
}

pub proof fn lemma_root_mono(x: int, y: int, j: nat)
    requires
        0 <= x <= y,
    ensures
        0 <= root_spec(x, j) <= root_spec(y, j),
    decreases j,
{
    if j > 0 {
        lemma_root_mono(x, y, (j - 1) as nat);
        lemma_fp_sqrt_mono(root_spec(x, (j - 1) as nat), root_spec(y, (j - 1) as nat));
    }
}

/// On non-negative operands the checked product is monotone in both
/// operands, and success for the larger pair gives success for the smaller.
pub proof fn lemma_fp_mul_chk_mono(a: int, b: int, a2: int, b2: int)
    requires
        0 <= a <= a2,
        0 <= b <= b2,
        fp_mul_chk(a2, b2) is Some,
    ensures
        fp_mul_chk(a, b) is Some,
        0 <= fp_mul_chk(a, b)->0 <= fp_mul_chk(a2, b2)->0,
{
    lemma_mul_upper_bound(a, a2, b, b2);
    lemma_mul_nonnegative(a, b);
    lemma_div_is_ordered(a * b, a2 * b2, SCALE as int);
    lemma_div_pos_is_pos(a * b, SCALE as int);
}

pub proof fn lemma_frac_mono(x: int, y: int, num: u32, j: nat)
    requires
        0 <= x <= y,
        frac_prod_spec(y, num, j) is Some,
    ensures
        frac_prod_spec(x, num, j) is Some,
        0 <= frac_prod_spec(x, num, j)->0 <= frac_prod_spec(y, num, j)->0,
    decreases j,
{
    if j > 0 {
        lemma_frac_mono(x, y, num, (j - 1) as nat);
        if (num >> (FRAC_BITS - j) as u32) & 1 == 1 {
            lemma_root_mono(x, y, j);
            lemma_fp_mul_chk_mono(
                frac_prod_spec(x, num, (j - 1) as nat)->0,
                root_spec(x, j),
                frac_prod_spec(y, num, (j - 1) as nat)->0,
                root_spec(y, j),
            );
        }
    }
}

pub proof fn lemma_int_mono(x: int, y: int, n: nat)
    requires
        0 <= x <= y,
        int_prod_spec(y, n) is Some,
    ensures
        int_prod_spec(x, n) is Some,
        0 <= int_prod_spec(x, n)->0 <= int_prod_spec(y, n)->0,
    decreases n,
{
    if n > 0 {
        lemma_int_mono(x, y, (n - 1) as nat);
        lemma_fp_mul_chk_mono(
            int_prod_spec(x, (n - 1) as nat)->0,
            x,
            int_prod_spec(y, (n - 1) as nat)->0,
            y,
        );
    }
}

/// The power chain is monotone in its base: where the chain is defined for
/// the larger base it is defined for the smaller, with an ordered value.
pub proof fn lemma_fp_pow_mono(x: int, y: int, num: u32)
    requires
        0 <= x <= y,
        fp_pow_spec(y, num) is Some,
    ensures
        fp_pow_spec(x, num) is Some,
        0 <= fp_pow_spec(x, num)->0 <= fp_pow_spec(y, num)->0,
{
    lemma_int_mono(x, y, (num >> FRAC_BITS) as nat);
    lemma_frac_mono(x, y, num, FRAC_BITS as nat);
    lemma_fp_mul_chk_mono(
        int_prod_spec(x, (num >> FRAC_BITS) as nat)->0,
        frac_prod_spec(x, num, FRAC_BITS as nat)->0,
        int_prod_spec(y, (num >> FRAC_BITS) as nat)->0,
        frac_prod_spec(y, num, FRAC_BITS as nat)->0,
    );
}

/// Fixed-point power `x^(num / POW_DENOM)`, exactly the checked chain
/// `fp_pow_spec`: iterated square roots for the fractional bits of the
/// exponent, repeated products for its integer part.
pub fn fp_pow(x: u64, num: u32) -> (r: Option<u64>)
    ensures
        r is Some <==> fp_pow_spec(x as int, num) is Some,
        r is Some ==> r->0 as int == fp_pow_spec(x as int, num)->0,
{
    let n_int = num >> FRAC_BITS;
    let mut acc: u64 = SCALE;
    let mut i: u32 = 0;
    while i < n_int
        invariant
            i <= n_int,
            n_int == num >> FRAC_BITS,
            int_prod_spec(x as int, i as nat) == Some(acc as int),
        decreases n_int - i,
    {
        acc = match fp_mul(acc, x) {
            Some(v) => v,
            None => {
                proof {
                    assert(int_prod_spec(x as int, (i + 1) as nat) is None);
                    lemma_int_none_propagates(x as int, (i + 1) as nat, n_int as nat);
                    lemma_pow_none_from_int(x as int, num);
                }
                return None;
            },
        };
        i = i + 1;
    }
    let mut p: u64 = SCALE;
    let mut y: u64 = x;
    let mut j: u32 = 0;
    while j < FRAC_BITS
        invariant
            j <= FRAC_BITS,
            int_prod_spec(x as int, n_int as nat) == Some(acc as int),
            n_int == num >> FRAC_BITS,
            y as int == root_spec(x as int, j as nat),
            frac_prod_spec(x as int, num, j as nat) == Some(p as int),
        decreases FRAC_BITS - j,
    {
        y = fp_sqrt(y);
        j = j + 1;
        if (num >> (FRAC_BITS - j)) & 1 == 1 {
            p = match fp_mul(p, y) {
                Some(v) => v,
                None => {
                    proof {
                        assert(frac_prod_spec(x as int, num, j as nat) is None);
                        lemma_frac_none_propagates(x as int, num, j as nat, FRAC_BITS as nat);
                        lemma_pow_none_from_frac(x as int, num);
                    }
                    return None;
                },
            };
        }
    }
    fp_mul(acc, p)
}

} // verus!
