//! Reduction of an integer into the range of a fixed-width type.
//!
//! A fixed-width integer type holds `m` consecutive values from `lo` on, and
//! its wrapping operations compute in the integers and then reduce the result
//! into that range. A running sum kept with wrapping additions and
//! subtractions is therefore always the reduction of the true sum, and is the
//! true sum itself whenever that fits.

use vstd::arithmetic::div_mod::{
    lemma_fundamental_div_mod, lemma_mod_bound, lemma_mod_multiples_vanish, lemma_small_mod,
};
use vstd::prelude::*;

verus! {

/// The integer in `[lo, lo + m)` that differs from `x` by a multiple of `m`.
pub open spec fn reduce(x: int, lo: int, m: int) -> int {
    lo + (x - lo) % m
}

/// The reduction lies in `[lo, lo + m)` and differs from `x` by `k` times
/// `m`, for the `k` returned.
pub proof fn lemma_reduce_offset(x: int, lo: int, m: int) -> (k: int)
    requires
        0 < m,
    ensures
        lo <= reduce(x, lo, m) < lo + m,
        reduce(x, lo, m) == x + k * m,
{
    lemma_fundamental_div_mod(x - lo, m);
    lemma_mod_bound(x - lo, m);
    let q = (x - lo) / m;
    assert((-q) * m == -(m * q)) by (nonlinear_arith);
    -q
}

/// An integer of `[lo, lo + m)` that differs from `x` by a multiple of `m` is
/// the reduction of `x`.
pub proof fn lemma_reduce_unique(x: int, y: int, k: int, lo: int, m: int)
    requires
        0 < m,
        lo <= y < lo + m,
        x == y + k * m,
    ensures
        reduce(x, lo, m) == y,
{
    assert(k * m == m * k) by (nonlinear_arith);
    lemma_mod_multiples_vanish(k, y - lo, m);
    lemma_small_mod((y - lo) as nat, m as nat);
}

/// An integer of `[lo, lo + m)` is its own reduction.
pub proof fn lemma_reduce_in_range(x: int, lo: int, m: int)
    requires
        0 < m,
        lo <= x < lo + m,
    ensures
        reduce(x, lo, m) == x,
{
    assert(0 * m == 0);
    lemma_reduce_unique(x, x, 0, lo, m);
}

/// Reducing before or after adding `v` gives the same integer.
pub proof fn lemma_reduce_add(x: int, v: int, lo: int, m: int)
    requires
        0 < m,
    ensures
        reduce(reduce(x, lo, m) + v, lo, m) == reduce(x + v, lo, m),
{
    let k = lemma_reduce_offset(x, lo, m);
    let j = lemma_reduce_offset(reduce(x, lo, m) + v, lo, m);
    assert((-j - k) * m == -(j * m) - k * m) by (nonlinear_arith);
    lemma_reduce_unique(x + v, reduce(reduce(x, lo, m) + v, lo, m), -j - k, lo, m);
}

} // verus!
