//! Integer helpers: Rust's division rounds toward zero, and the screen's
//! coordinates are `i32`.

use vstd::prelude::*;

verus! {

/// Division rounded toward zero, as `/` computes it on Rust's signed integers
/// (`b > 0`).
pub open spec fn div_t(a: int, b: int) -> int {
    if a >= 0 {
        a / b
    } else {
        -((-a) / b)
    }
}

/// The remainder that goes with `div_t`, as `%` computes it on Rust's signed
/// integers: it has the sign of `a`.
pub open spec fn rem_t(a: int, b: int) -> int {
    a - b * div_t(a, b)
}

/// `v` can be held in an `i32`.
pub open spec fn fits(v: int) -> bool {
    i32::MIN <= v <= i32::MAX
}

/// Division rounded toward zero never decreases as `a` grows.
pub proof fn lemma_div_t_monotone(a1: int, a2: int, b: int)
    requires
        b > 0,
        a1 <= a2,
    ensures
        div_t(a1, b) <= div_t(a2, b),
{
    if a1 >= 0 {
        assert(a1 / b <= a2 / b) by (nonlinear_arith)
            requires 0 <= a1 <= a2, b > 0;
    } else if a2 >= 0 {
        assert((-a1) / b >= 0) by (nonlinear_arith)
            requires a1 < 0, b > 0;
        assert(a2 / b >= 0) by (nonlinear_arith)
            requires a2 >= 0, b > 0;
    } else {
        assert((-a2) / b <= (-a1) / b) by (nonlinear_arith)
            requires 0 < -a2 <= -a1, b > 0;
    }
}

/// The remainder rounded toward zero is zero exactly when `b` divides `a`.
pub proof fn lemma_rem_t_zero(a: int, b: int)
    requires
        b > 0,
    ensures
        (rem_t(a, b) == 0) <==> (a % b == 0),
{
    if a < 0 {
        let q = (-a) / b;
        let r = (-a) % b;
        assert(-a == b * q + r && 0 <= r < b) by (nonlinear_arith)
            requires b > 0, q == (-a) / b, r == (-a) % b;
        assert(div_t(a, b) == -q);
        assert(a - b * (-q) == -r) by (nonlinear_arith)
            requires -a == b * q + r;
        assert(rem_t(a, b) == -r);
        if r == 0 {
            assert(a == b * (-q)) by (nonlinear_arith)
                requires -a == b * q + r, r == 0;
            assert(a % b == 0) by (nonlinear_arith)
                requires a == b * (-q), b > 0;
        } else {
            assert(a == b * (-q - 1) + (b - r)) by (nonlinear_arith)
                requires -a == b * q + r;
            assert(a % b == b - r) by (nonlinear_arith)
                requires a == b * (-q - 1) + (b - r), 0 < b - r < b, b > 0;
        }
    } else {
        assert(a == b * (a / b) + a % b) by (nonlinear_arith)
            requires b > 0;
        assert(rem_t(a, b) == a - b * (a / b));
    }
}

} // verus!
