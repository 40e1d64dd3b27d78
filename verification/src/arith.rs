//! Small arithmetic facts used by the tiling and interlacing proofs.

use vstd::prelude::*;

verus! {

/// Two multiples of `m` that are less than `m` apart are equal.
pub proof fn lemma_close_multiples_equal(a: int, b: int, m: int)
    requires
        m > 0,
        a % m == 0,
        b % m == 0,
        b <= a < b + m,
    ensures
        a == b,
{
    vstd::arithmetic::div_mod::lemma_fundamental_div_mod(a, m);
    vstd::arithmetic::div_mod::lemma_fundamental_div_mod(b, m);
    let qa = a / m;
    let qb = b / m;
    assert(a == m * qa);
    assert(b == m * qb);
    assert(qa == qb) by (nonlinear_arith)
        requires
            a == m * qa,
            b == m * qb,
            b <= a < b + m,
            m > 0,
    ;
}

/// Adding `m` to a multiple of `m` gives a multiple of `m`.
pub proof fn lemma_multiple_plus(a: int, m: int)
    requires
        m > 0,
        a % m == 0,
    ensures
        (a + m) % m == 0,
{
    vstd::arithmetic::div_mod::lemma_mod_add_multiples_vanish(a, m);
}

/// `a - a % m` is the multiple of `m` at or just below `a`.
pub proof fn lemma_round_down_multiple(a: int, m: int)
    requires
        m > 0,
        a >= 0,
    ensures
        (a - a % m) % m == 0,
        a - m < a - a % m <= a,
        0 <= a - a % m,
{
    vstd::arithmetic::div_mod::lemma_fundamental_div_mod(a, m);
    vstd::arithmetic::div_mod::lemma_mod_bound(a, m);
    vstd::arithmetic::div_mod::lemma_mod_multiples_basic(a / m, m);
    assert(a - a % m == (a / m) * m) by (nonlinear_arith)
        requires
            a == m * (a / m) + a % m,
    ;
}

/// A row-major index `y * w + x` of an in-bounds cell lies inside the
/// `w`×`h` buffer.
pub proof fn lemma_row_major_in_bounds(w: int, h: int, x: int, y: int)
    requires
        0 <= x < w,
        0 <= y < h,
    ensures
        0 <= y * w + x < w * h,
{
    assert(0 <= y * w + x < w * h) by (nonlinear_arith)
        requires
            0 <= x < w,
            0 <= y < h,
    ;
}

/// Row-major indexing is injective on cells with `x < w`.
pub proof fn lemma_row_major_injective(w: int, x1: int, y1: int, x2: int, y2: int)
    requires
        0 <= x1 < w,
        0 <= x2 < w,
        0 <= y1,
        0 <= y2,
        y1 * w + x1 == y2 * w + x2,
    ensures
        x1 == x2,
        y1 == y2,
{
    if y1 < y2 {
        assert(y1 * w + w <= y2 * w) by (nonlinear_arith)
            requires
                y1 < y2,
                w > 0,
        ;
    } else if y2 < y1 {
        assert(y2 * w + w <= y1 * w) by (nonlinear_arith)
            requires
                y2 < y1,
                w > 0,
        ;
    }
}

} // verus!
