//! Fixed-point scalars: lengths in millionths of a pixel, times in
//! millionths of a second, velocities in length units per second.

use vstd::prelude::*;
use vstd::arithmetic::div_mod::{lemma_fundamental_div_mod, lemma_fundamental_div_mod_converse_div, lemma_mod_bound};

verus! {

/// Length units in one pixel, and time units in one second.
pub const SCALE: i64 = 1_000_000;

/// Whether `v` is a scalar this library stores: any `i64` but the least one,
/// so that the negation of a stored scalar can be stored too.
pub open spec fn in_range(v: int) -> bool {
    -i64::MAX <= v <= i64::MAX
}

/// The length of `n` whole pixels.
pub open spec fn pixels(n: int) -> int {
    n * SCALE
}

/// The distance covered in time `dt` at velocity `v`, rounded down to a whole
/// length unit.
pub open spec fn travelled(v: int, dt: int) -> int {
    (v * dt) / (SCALE as int)
}

/// The point halfway between `a` and `b`, rounded down to a whole unit.
pub open spec fn midpoint(a: int, b: int) -> int {
    (a + b) / 2
}

/// Whether `v` is a scalar this library stores.
pub fn fits(v: i128) -> (ok: bool)
    ensures
        ok == in_range(v as int),
{
    -9_223_372_036_854_775_807 <= v && v <= 9_223_372_036_854_775_807
}

/// The length of `n` whole pixels.
pub fn from_pixels(n: u32) -> (v: i64)
    ensures
        v == pixels(n as int),
        in_range(v as int),
{
    (n as i64) * SCALE
}

/// Division that rounds toward negative infinity, for a positive divisor.
fn floor_div(a: i128, d: i128) -> (q: i128)
    requires
        0 < d <= 1_000_000,
        -0x4000_0000_0000_0000_0000_0000_0000_0000 <= a <= 0x4000_0000_0000_0000_0000_0000_0000_0000,
    ensures
        q == (a as int) / (d as int),
{
    if a >= 0 {
        a / d
    } else {
        let n: i128 = -a;
        let c: i128 = (n + (d - 1)) / d;
        proof {
            let r = (n + d - 1) % (d as int);
            lemma_fundamental_div_mod(n + d - 1, d as int);
            lemma_mod_bound(n + d - 1, d as int);
            assert((-c) * d == -(d * c)) by (nonlinear_arith);
            lemma_fundamental_div_mod_converse_div(a as int, d as int, -c, d - 1 - r);
        }
        -c
    }
}

/// The point halfway between `a` and `b`, rounded down to a whole unit.
pub fn halfway(a: i64, b: i64) -> (m: i64)
    ensures
        m == midpoint(a as int, b as int),
{
    let sum: i128 = (a as i128) + (b as i128);
    let q: i128 = floor_div(sum, 2);
    q as i64
}

/// The distance covered in time `dt` at velocity `v`, in a type wide enough
/// for every pair of arguments.
pub fn travel_wide(v: i64, dt: i64) -> (d: i128)
    ensures
        d == travelled(v as int, dt as int),
        -0x4000_0000_0000_0000_0000_0000_0000_0000 <= d <= 0x4000_0000_0000_0000_0000_0000_0000_0000,
{
    assert(-0x4000_0000_0000_0000_0000_0000_0000_0000 <= (v as int) * (dt as int)
        <= 0x4000_0000_0000_0000_0000_0000_0000_0000) by (nonlinear_arith)
        requires
            -0x8000_0000_0000_0000 <= (v as int) <= 0x8000_0000_0000_0000,
            -0x8000_0000_0000_0000 <= (dt as int) <= 0x8000_0000_0000_0000,
    ;
    let product: i128 = (v as i128) * (dt as i128);
    floor_div(product, SCALE as i128)
}

/// The distance covered in time `dt` at velocity `v`.
pub fn travel(v: i64, dt: i64) -> (d: i64)
    requires
        in_range(travelled(v as int, dt as int)),
    ensures
        d == travelled(v as int, dt as int),
{
    travel_wide(v, dt) as i64
}

/// In at most a second an object travels at most as far as its velocity is
/// large.
pub proof fn lemma_travel_within_a_second(v: int, dt: int, bound: int)
    requires
        -bound <= v <= bound,
        0 <= dt <= SCALE,
    ensures
        -bound <= travelled(v, dt) <= bound,
{
    assert(-bound * 1_000_000 <= v * dt <= bound * 1_000_000) by (nonlinear_arith)
        requires
            -bound <= v <= bound,
            0 <= dt <= 1_000_000,
    ;
}

} // verus!
