use vstd::prelude::*;
use vstd::arithmetic::div_mod::{
    lemma_div_is_ordered, lemma_div_multiples_vanish, lemma_multiply_divide_lt,
};

verus! {

/// The rational `num / den` rounded to the nearest integer, halves rounded
/// up. For a non-negative numerator this is exactly "round half away from
/// zero", the rounding rule used throughout the pipeline.
pub open spec fn round_half_up(num: int, den: int) -> int
    recommends
        den > 0,
{
    (2 * num + den) / (2 * den)
}

/// Rounding keeps a quotient between any integer bounds that hold for the
/// exact rational: if `lo <= num / den <= hi` (as rationals), then the
/// rounded value lies in `[lo, hi]` too.
pub proof fn lemma_round_half_up_bounds(num: int, den: int, lo: int, hi: int)
    requires
        den > 0,
        lo * den <= num,
        num <= hi * den,
    ensures
        lo <= round_half_up(num, den) <= hi,
{
    assert(2 * num + den < (2 * den) * (hi + 1)) by (nonlinear_arith)
        requires
            den > 0,
            num <= hi * den,
    ;
    lemma_multiply_divide_lt(2 * num + den, 2 * den, hi + 1);
    assert((2 * den) * lo <= 2 * num + den) by (nonlinear_arith)
        requires
            den > 0,
            lo * den <= num,
    ;
    lemma_div_is_ordered((2 * den) * lo, 2 * num + den, 2 * den);
    lemma_div_multiples_vanish(lo, 2 * den);
}

/// A product of two values bounded in magnitude is bounded by the product
/// of the bounds.
pub proof fn lemma_mul_fits(a: int, b: int, bound_a: int, bound_b: int)
    requires
        -bound_a <= a <= bound_a,
        -bound_b <= b <= bound_b,
        0 <= bound_a,
        0 <= bound_b,
    ensures
        -(bound_a * bound_b) <= a * b <= bound_a * bound_b,
{
    assert(-(bound_a * bound_b) <= a * b <= bound_a * bound_b) by (nonlinear_arith)
        requires
            -bound_a <= a <= bound_a,
            -bound_b <= b <= bound_b,
            0 <= bound_a,
            0 <= bound_b,
    ;
}

/// A pixel's row-major index lies inside the grid.
pub proof fn lemma_row_major_index_bounds(w: int, h: int, x: int, y: int)
    requires
        0 <= x < w,
        0 <= y < h,
    ensures
        0 <= y * w + x < w * h,
{
    assert(0 <= y * w + x < w * h) by (nonlinear_arith)
        requires
            0 <= x < w,
            0 <= y < h,
    ;
}

/// Distinct pixel coordinates in one grid have distinct row-major indices.
pub proof fn lemma_row_major_index_injective(w: int, x1: int, y1: int, x2: int, y2: int)
    requires
        0 <= x1 < w,
        0 <= x2 < w,
        0 <= y1,
        0 <= y2,
        !(x1 == x2 && y1 == y2),
    ensures
        y1 * w + x1 != y2 * w + x2,
{
    assert(y1 * w + x1 != y2 * w + x2) by (nonlinear_arith)
        requires
            0 <= x1 < w,
            0 <= x2 < w,
            0 <= y1,
            0 <= y2,
            !(x1 == x2 && y1 == y2),
    ;
}

} // verus!
