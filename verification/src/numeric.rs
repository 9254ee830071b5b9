//! Integer helpers shared by the analytics and referral modules: Rust's
//! truncating division as a spec function, and saturating `i128` arithmetic.

use vstd::prelude::*;

verus! {

/// Ten thousand basis points make one whole.
pub const BASIS_POINTS: i128 = 10_000;

/// Whether `v` is representable as an `i128`.
pub open spec fn fits_i128(v: int) -> bool {
    i128::MIN <= v <= i128::MAX
}

/// Rust's integer division, which rounds toward zero (Verus's `/` on `int`
/// is Euclidean). Division by zero is left at zero; no caller divides by it.
pub open spec fn tdiv(a: int, b: int) -> int {
    if b == 0 {
        0
    } else if a >= 0 && b > 0 {
        a / b
    } else if a < 0 && b < 0 {
        (-a) / (-b)
    } else if a < 0 {
        -((-a) / b)
    } else {
        -(a / (-b))
    }
}

/// `v` clamped into the range of `i128`.
pub open spec fn saturate_i128(v: int) -> int {
    if v > i128::MAX {
        i128::MAX as int
    } else if v < i128::MIN {
        i128::MIN as int
    } else {
        v
    }
}

/// `a + b`, saturating at the bounds of `i128`.
pub fn sat_add(a: i128, b: i128) -> (r: i128)
    ensures
        r == saturate_i128(a + b),
{
    match a.checked_add(b) {
        Some(v) => v,
        None => if b > 0 {
            i128::MAX
        } else {
            i128::MIN
        },
    }
}

/// `a - b`, saturating at the bounds of `i128`.
pub fn sat_sub(a: i128, b: i128) -> (r: i128)
    ensures
        r == saturate_i128(a - b),
{
    match a.checked_sub(b) {
        Some(v) => v,
        None => if b < 0 {
            i128::MAX
        } else {
            i128::MIN
        },
    }
}

/// `a * b`, saturating at the bounds of `i128`.
pub fn sat_mul(a: i128, b: i128) -> (r: i128)
    ensures
        r == saturate_i128(a * b),
{
    match a.checked_mul(b) {
        Some(v) => v,
        None => {
            if (a > 0) == (b > 0) {
                assert(a * b > i128::MAX) by (nonlinear_arith)
                    requires
                        a * b > i128::MAX || a * b < i128::MIN,
                        (a > 0) == (b > 0),
                ;
                i128::MAX
            } else {
                assert(a * b < i128::MIN) by (nonlinear_arith)
                    requires
                        a * b > i128::MAX || a * b < i128::MIN,
                        (a > 0) != (b > 0),
                ;
                i128::MIN
            }
        },
    }
}

/// Dividing by a positive divisor moves a value toward zero.
pub proof fn lemma_tdiv_toward_zero(a: int, b: int)
    requires
        b >= 1,
    ensures
        a >= 0 ==> 0 <= tdiv(a, b) <= a,
        a < 0 ==> a <= tdiv(a, b) <= 0,
{
    if a >= 0 {
        assert(0 <= a / b <= a) by (nonlinear_arith)
            requires
                a >= 0,
                b >= 1,
        ;
    } else {
        let na = -a;
        assert(0 <= na / b <= na) by (nonlinear_arith)
            requires
                na > 0,
                b >= 1,
        ;
    }
}

/// Dividing a non-negative value by a negative divisor lands between its
/// negation and zero.
pub proof fn lemma_tdiv_by_negative(a: int, b: int)
    requires
        a >= 0,
        b <= -1,
    ensures
        -a <= tdiv(a, b) <= 0,
{
    let nb = -b;
    assert(0 <= a / nb <= a) by (nonlinear_arith)
        requires
            a >= 0,
            nb >= 1,
    ;
}

/// Dividing an exact multiple gives back the factor.
pub proof fn lemma_tdiv_exact(c: int, d: int)
    requires
        d != 0,
    ensures
        tdiv(c * d, d) == c,
{
    if d > 0 {
        if c >= 0 {
            assert((c * d) / d == c) by (nonlinear_arith)
                requires
                    d > 0,
                    c >= 0,
            ;
        } else {
            assert(c * d < 0) by (nonlinear_arith)
                requires
                    d > 0,
                    c < 0,
            ;
            assert((-(c * d)) / d == -c) by (nonlinear_arith)
                requires
                    d > 0,
                    c < 0,
            ;
        }
    } else {
        if c > 0 {
            assert(c * d < 0) by (nonlinear_arith)
                requires
                    d < 0,
                    c > 0,
            ;
            assert((-(c * d)) / (-d) == c) by (nonlinear_arith)
                requires
                    d < 0,
                    c > 0,
            ;
        } else if c == 0 {
            assert(c * d == 0);
        } else {
            assert(c * d > 0) by (nonlinear_arith)
                requires
                    d < 0,
                    c < 0,
            ;
            assert((c * d) / (-d) == -c) by (nonlinear_arith)
                requires
                    d < 0,
                    c < 0,
            ;
        }
    }
}

} // verus!
