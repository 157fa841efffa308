//! Exact integer ceiling division.
//!
//! The scanner's time-window arithmetic rounds rational quantities up;
//! here that rounding is a single verified operation over the whole
//! signed range.

use vstd::arithmetic::div_mod::{
    lemma_div_nonincreasing, lemma_div_plus_one, lemma_fundamental_div_mod,
    lemma_fundamental_div_mod_converse_div,
};
use vstd::prelude::*;

verus! {

/// Ceiling of `a / b` for positive `b`.
pub open spec fn ceil_div(a: int, b: int) -> int
    recommends
        b > 0,
{
    (a + b - 1) / b
}

/// Computes `ceil_div` without overflow anywhere in `i64`'s range.
pub fn ceil_div_i64(a: i64, b: i64) -> (q: i64)
    requires
        0 < b,
    ensures
        q as int == ceil_div(a as int, b as int),
        a > 0 ==> 1 <= q as int <= a as int,
        a <= 0 ==> a as int <= q as int <= 0,
{
    if a > 0 {
        let q0 = ((a - 1) as u64 / (b as u64)) as i64;
        proof {
            lemma_div_plus_one((a - 1) as int, b as int);
            lemma_div_nonincreasing((a - 1) as int, b as int);
            vstd::arithmetic::div_mod::lemma_div_pos_is_pos((a - 1) as int, b as int);
        }
        q0 + 1
    } else {
        let m: i128 = -(a as i128);
        let q0: i128 = ((m as u128) / (b as u128)) as i128;
        let q: i128 = -q0;
        proof {
            let ai = a as int;
            let bi = b as int;
            let mi = m as int;
            lemma_fundamental_div_mod(mi, bi);
            assert(mi == bi * (mi / bi) + (mi % bi));
            let r = bi - 1 - (mi % bi);
            assert(0 <= r < bi);
            assert((-(mi / bi)) * bi == -(bi * (mi / bi))) by (nonlinear_arith);
            assert(ai + bi - 1 == (-(mi / bi)) * bi + r);
            lemma_fundamental_div_mod_converse_div(ai + bi - 1, bi, -(mi / bi), r);
            lemma_div_nonincreasing(mi, bi);
            vstd::arithmetic::div_mod::lemma_div_pos_is_pos(mi, bi);
            assert(0 <= mi / bi <= mi);
        }
        q as i64
    }
}

/// The larger of two values.
pub open spec fn spec_max(a: int, b: int) -> int {
    if a >= b {
        a
    } else {
        b
    }
}

/// The larger of two machine integers.
pub fn max_i64(a: i64, b: i64) -> (m: i64)
    ensures
        m as int == spec_max(a as int, b as int),
{
    if a >= b {
        a
    } else {
        b
    }
}

} // verus!
