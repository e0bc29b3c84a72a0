//! Saturating fixed-point arithmetic on raw `i64` bit patterns.
//!
//! A fixed-point number with scale `s` (a positive power of two) stores the
//! value `bits / s`.  The helpers here work on the raw bits and are shared by
//! every fixed-point width the crate offers: addition and subtraction are
//! scale-independent, while multiplication, division and square root take the
//! scale as an argument.  All results saturate at the `i64` range bounds,
//! division by zero yields zero and the square root of a negative value is
//! zero, so every operation is total.

use vstd::prelude::*;

verus! {

/// Saturation of a mathematical integer into the `i64` range.
pub open spec fn sat_i64(x: int) -> int {
    if x > i64::MAX as int {
        i64::MAX as int
    } else if x < i64::MIN as int {
        i64::MIN as int
    } else {
        x
    }
}

/// Absolute value of a mathematical integer.
pub open spec fn abs_int(x: int) -> int {
    if x >= 0 {
        x
    } else {
        -x
    }
}

/// Division truncated toward zero, the convention of this representation.
/// Both operands are reduced to their absolute values (where division is
/// Euclidean division on naturals) and the sign is reapplied.
pub open spec fn trunc_div(n: int, d: int) -> int {
    if (n >= 0) == (d >= 0) {
        abs_int(n) / abs_int(d)
    } else {
        -(abs_int(n) / abs_int(d))
    }
}

/// Largest natural number whose square does not exceed `n`.
pub open spec fn isqrt_spec(n: nat) -> nat
    decreases n,
{
    if n == 0 {
        0
    } else {
        let r = isqrt_spec((n - 1) as nat);
        if (r + 1) * (r + 1) <= n {
            r + 1
        } else {
            r
        }
    }
}

proof fn lemma_isqrt_bounds(n: nat)
    ensures
        isqrt_spec(n) * isqrt_spec(n) <= n,
        n < (isqrt_spec(n) + 1) * (isqrt_spec(n) + 1),
    decreases n,
{
    if n == 0 {
        assert(isqrt_spec(n) == 0);
        assert(n < (isqrt_spec(n) + 1) * (isqrt_spec(n) + 1)) by (nonlinear_arith)
            requires
                n == 0,
                isqrt_spec(n) == 0,
        ;
    } else {
        let r = isqrt_spec((n - 1) as nat);
        lemma_isqrt_bounds((n - 1) as nat);
        if (r + 1) * (r + 1) <= n {
            assert(isqrt_spec(n) == r + 1);
            assert(n < (r + 1 + 1) * (r + 1 + 1)) by (nonlinear_arith)
                requires
                    n - 1 < (r + 1) * (r + 1),
            ;
        } else {
            assert(isqrt_spec(n) == r);
        }
    }
}

proof fn lemma_isqrt_unique(n: nat, r: nat)
    requires
        r * r <= n,
        n < (r + 1) * (r + 1),
    ensures
        r == isqrt_spec(n),
{
    let s = isqrt_spec(n);
    lemma_isqrt_bounds(n);
    if r < s {
        assert((r + 1) * (r + 1) <= s * s) by (nonlinear_arith)
            requires
                r + 1 <= s,
        ;
    }
    if s < r {
        assert((s + 1) * (s + 1) <= r * r) by (nonlinear_arith)
            requires
                s + 1 <= r,
        ;
    }
}

/// The magnitude of a product of two `i64` values stays well inside `i128`.
proof fn lemma_i64_product_bounds(a: int, b: int) by (nonlinear_arith)
    requires
        -0x8000000000000000 <= a <= 0x7fffffffffffffff,
        -0x8000000000000000 <= b <= 0x7fffffffffffffff,
    ensures
        -0x40000000000000000000000000000000 <= a * b,
        a * b <= 0x40000000000000000000000000000000,
        abs_int(a * b) == abs_int(a) * abs_int(b),
        a * b < 0 <==> ((a < 0) != (b < 0)) && a != 0 && b != 0,
{
}

/// Saturating addition of raw bits.
pub fn add_sat(a: i64, b: i64) -> (r: i64)
    ensures
        r as int == sat_i64(a + b),
{
    let s: i128 = a as i128 + b as i128;
    if s > i64::MAX as i128 {
        i64::MAX
    } else if s < i64::MIN as i128 {
        i64::MIN
    } else {
        s as i64
    }
}

/// Saturating subtraction of raw bits.
pub fn sub_sat(a: i64, b: i64) -> (r: i64)
    ensures
        r as int == sat_i64(a - b),
{
    let s: i128 = a as i128 - b as i128;
    if s > i64::MAX as i128 {
        i64::MAX
    } else if s < i64::MIN as i128 {
        i64::MIN
    } else {
        s as i64
    }
}

/// Absolute value of an `i64`, widened so that `i64::MIN` needs no special
/// case.
fn abs_u128(a: i64) -> (r: u128)
    ensures
        r as int == abs_int(a as int),
{
    if a >= 0 {
        a as u128
    } else {
        (-(a as i128)) as u128
    }
}

/// Reapplies a sign to a magnitude and saturates into the `i64` range.
fn apply_sign_sat(q: u128, neg: bool) -> (r: i64)
    ensures
        r as int == sat_i64(if neg {
            -(q as int)
        } else {
            q as int
        }),
{
    if neg {
        if q >= 0x8000000000000000u128 {
            i64::MIN
        } else {
            -(q as i64)
        }
    } else {
        if q > i64::MAX as u128 {
            i64::MAX
        } else {
            q as i64
        }
    }
}

/// Fixed-point multiplication of raw bits: the double-width product of the
/// operands, scaled back down by `scale` with truncation toward zero, then
/// saturated.
pub fn mul_scaled_sat(a: i64, b: i64, scale: i64) -> (r: i64)
    requires
        1 <= scale,
    ensures
        r as int == sat_i64(trunc_div(a * b, scale as int)),
{
    proof {
        lemma_i64_product_bounds(a as int, b as int);
    }
    let na = abs_u128(a);
    let nb = abs_u128(b);
    let np: u128 = na * nb;
    let q: u128 = np / (scale as u128);
    let neg = ((a < 0) != (b < 0)) && a != 0 && b != 0;
    apply_sign_sat(q, neg)
}

/// Fixed-point division of raw bits: the dividend is widened by `scale`, the
/// quotient truncates toward zero and saturates.  Division by zero yields
/// zero.
pub fn div_scaled_sat(a: i64, b: i64, scale: i64) -> (r: i64)
    requires
        1 <= scale,
    ensures
        b == 0 ==> r == 0,
        b != 0 ==> r as int == sat_i64(trunc_div(a * scale, b as int)),
{
    if b == 0 {
        return 0;
    }
    proof {
        lemma_i64_product_bounds(a as int, scale as int);
    }
    let na = abs_u128(a);
    let np: u128 = na * (scale as u128);
    let nb = abs_u128(b);
    let q: u128 = np / nb;
    let neg = ((a < 0) != (b < 0)) && a != 0;
    apply_sign_sat(q, neg)
}

/// Binary search for the integer square root of a `u128` below `2^126`.
fn isqrt_u128(x: u128) -> (r: u128)
    requires
        x < 0x40000000000000000000000000000000,
    ensures
        r as nat == isqrt_spec(x as nat),
        r < 0x8000000000000000,
{
    let mut lo: u128 = 0;
    let mut hi: u128 = 0x8000000000000000;
    proof {
        assert((0x8000000000000000 as int) * (0x8000000000000000 as int)
            == 0x40000000000000000000000000000000) by (nonlinear_arith);
    }
    while lo + 1 < hi
        invariant
            lo < hi,
            hi <= 0x8000000000000000,
            (lo as int) * (lo as int) <= x as int,
            (x as int) < (hi as int) * (hi as int),
        decreases hi - lo,
    {
        let mid: u128 = lo + (hi - lo) / 2;
        proof {
            assert((mid as int) * (mid as int) < 0x100000000000000000000000000000000)
                by (nonlinear_arith)
                requires
                    0 <= mid < 0x10000000000000000,
            ;
        }
        let sq: u128 = mid * mid;
        if sq <= x {
            lo = mid;
        } else {
            hi = mid;
        }
    }
    proof {
        lemma_isqrt_unique(x as nat, lo as nat);
    }
    lo
}

/// Fixed-point square root of raw bits: the square root of the stored value
/// at the same scale, truncated.  A negative input yields zero.
pub fn sqrt_scaled(a: i64, scale: i64) -> (r: i64)
    requires
        1 <= scale,
    ensures
        a < 0 ==> r == 0,
        a >= 0 ==> r as int == isqrt_spec((a * scale) as nat) as int,
{
    if a < 0 {
        return 0;
    }
    proof {
        lemma_i64_product_bounds(a as int, scale as int);
        assert((a as int) * (scale as int) < 0x40000000000000000000000000000000)
            by (nonlinear_arith)
            requires
                0 <= a <= 0x7fffffffffffffff,
                1 <= scale <= 0x7fffffffffffffff,
        ;
    }
    let x: u128 = (a as u128) * (scale as u128);
    let r = isqrt_u128(x);
    proof {
        lemma_isqrt_bounds(x as nat);
        assert(isqrt_spec(x as nat) <= 0x7fffffffffffffff) by {
            if isqrt_spec(x as nat) > 0x7fffffffffffffff {
                assert((0x8000000000000000 as int) * (0x8000000000000000 as int)
                    <= isqrt_spec(x as nat) * isqrt_spec(x as nat)) by (nonlinear_arith)
                    requires
                        0x8000000000000000 <= isqrt_spec(x as nat),
                ;
                assert((0x8000000000000000 as int) * (0x8000000000000000 as int)
                    == 0x40000000000000000000000000000000) by (nonlinear_arith);
            }
        }
    }
    r as i64
}

} // verus!
