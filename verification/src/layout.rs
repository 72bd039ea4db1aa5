//! Proved facts about the row-major layout: positions stay inside the
//! array, no two cells share one, and taking a position apart undoes
//! putting it together.

use crate::shape::cell_count;
use crate::shape::delinearized;
use crate::shape::linear_index;
use vstd::prelude::*;

verus! {

/// A cell inside an array with dimensions `d0`, `d1`, `d2` has a position
/// below the array's cell count.
pub proof fn lemma_index_in_range(d0: int, d1: int, d2: int, x: int, y: int, z: int)
    requires
        0 <= x < d0,
        0 <= y < d1,
        0 <= z < d2,
    ensures
        0 <= x + d0 * y + d0 * d1 * z < d0 * d1 * d2,
        0 <= d0 * y <= x + d0 * y < d0 * d1,
        0 <= d0 * d1 * z,
{
    assert(0 <= d0 * y && d0 * y + d0 <= d0 * d1) by (nonlinear_arith)
        requires
            0 <= y < d1,
            0 < d0,
    ;
    assert(0 <= d0 * d1 * z && d0 * d1 * z + d0 * d1 <= d0 * d1 * d2) by (nonlinear_arith)
        requires
            0 <= z < d2,
            0 < d0,
            0 < d1,
    ;
}

/// Two cells inside an array that share a position are the same cell.
pub proof fn lemma_index_injective(
    d0: int,
    d1: int,
    d2: int,
    x: int,
    y: int,
    z: int,
    a: int,
    b: int,
    c: int,
)
    requires
        0 <= x < d0,
        0 <= y < d1,
        0 <= z < d2,
        0 <= a < d0,
        0 <= b < d1,
        0 <= c < d2,
        x + d0 * y + d0 * d1 * z == a + d0 * b + d0 * d1 * c,
    ensures
        x == a,
        y == b,
        z == c,
{
    lemma_index_in_range(d0, d1, d2, x, y, z);
    lemma_index_in_range(d0, d1, d2, a, b, c);
    let s = d0 * d1;
    let r = x + d0 * y;
    let q = a + d0 * b;
    assert(z == c) by (nonlinear_arith)
        requires
            0 <= r < s,
            0 <= q < s,
            r + s * z == q + s * c,
    ;
    assert(y == b) by (nonlinear_arith)
        requires
            0 <= x < d0,
            0 <= a < d0,
            x + d0 * y == a + d0 * b,
    ;
}

/// Taking a position apart gives back the cell it was put together from.
pub proof fn lemma_delinearize_linearized(dims: Seq<u32>, x: int, y: int, z: int)
    requires
        dims.len() == 3,
        0 <= x < dims[0],
        0 <= y < dims[1],
        0 <= z,
    ensures
        delinearized(dims, linear_index(dims, x, y, z)) == (x, y, z),
{
    let d0 = dims[0] as int;
    let d1 = dims[1] as int;
    let s = d0 * d1;
    let rest = x + d0 * y;
    assert(0 <= rest < s) by (nonlinear_arith)
        requires
            0 <= x < d0,
            0 <= y < d1,
            rest == x + d0 * y,
            s == d0 * d1,
    ;
    let index = linear_index(dims, x, y, z);
    assert(index == z * s + rest) by (nonlinear_arith)
        requires
            index == x + d0 * y + d0 * d1 * z,
            s == d0 * d1,
            rest == x + d0 * y,
    ;
    vstd::arithmetic::div_mod::lemma_fundamental_div_mod_converse(index, s, z, rest);
    assert(rest == y * d0 + x) by (nonlinear_arith)
        requires
            rest == x + d0 * y,
    ;
    vstd::arithmetic::div_mod::lemma_fundamental_div_mod_converse(rest, d0, y, x);
}

/// Putting the cell of a position back together gives the position, and
/// the cell of a position inside the array lies inside the array.
pub proof fn lemma_linearize_delinearized(dims: Seq<u32>, index: int)
    requires
        dims.len() == 3,
        0 <= index < cell_count(dims),
    ensures
        ({
            let (x, y, z) = delinearized(dims, index);
            &&& 0 <= x < dims[0]
            &&& 0 <= y < dims[1]
            &&& 0 <= z < dims[2]
            &&& linear_index(dims, x, y, z) == index
        }),
{
    let d0 = dims[0] as int;
    let d1 = dims[1] as int;
    let d2 = dims[2] as int;
    let s = d0 * d1;
    assert(d0 > 0 && d1 > 0 && d2 > 0 && s > 0) by (nonlinear_arith)
        requires
            0 <= d0,
            0 <= d1,
            0 <= d2,
            s == d0 * d1,
            0 < d0 * d1 * d2,
    ;
    let z = index / s;
    let rest = index - z * s;
    vstd::arithmetic::div_mod::lemma_fundamental_div_mod(index, s);
    vstd::arithmetic::div_mod::lemma_mod_pos_bound(index, s);
    assert(rest == index % s) by (nonlinear_arith)
        requires
            index == s * (index / s) + index % s,
            rest == index - (index / s) * s,
    ;
    vstd::arithmetic::div_mod::lemma_fundamental_div_mod(rest, d0);
    vstd::arithmetic::div_mod::lemma_mod_pos_bound(rest, d0);
    let x = rest % d0;
    let y = rest / d0;
    assert(0 <= y < d1) by (nonlinear_arith)
        requires
            rest == d0 * y + x,
            0 <= x < d0,
            0 <= rest < d0 * d1,
            d0 > 0,
    ;
    assert(0 <= z < d2) by (nonlinear_arith)
        requires
            index == z * s + rest,
            0 <= rest < s,
            0 <= index < s * d2,
            s == d0 * d1,
            d0 * d1 * d2 == s * d2,
    ;
    assert(x + d0 * y + d0 * d1 * z == index) by (nonlinear_arith)
        requires
            rest == d0 * y + x,
            index == z * s + rest,
            s == d0 * d1,
    ;
}

} // verus!
