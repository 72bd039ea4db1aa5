//! The row-major layout of a three-dimensional array, as `ndshape` keeps it.
//!
//! Everything in this file states, without proof, what the `ndshape` crate
//! does; the rest of the library is proved against these statements.

use ndshape::RuntimeShape;
use ndshape::Shape;
use vstd::prelude::*;

verus! {

#[verifier::external_type_specification]
#[verifier::external_body]
#[verifier::reject_recursive_types(C)]
pub struct ExRuntimeShape<C, const N: usize>(RuntimeShape<C, N>);

/// The dimensions that a shape was made with, x first.
pub uninterp spec fn shape_dims(shape: RuntimeShape<u32, 3>) -> Seq<u32>;

/// The number of cells of an array with dimensions `dims`.
pub open spec fn cell_count(dims: Seq<u32>) -> int {
    dims[0] * dims[1] * dims[2]
}

/// The position of cell `(x, y, z)` in an array with dimensions `dims`,
/// stored with x varying fastest and z slowest.
pub open spec fn linear_index(dims: Seq<u32>, x: int, y: int, z: int) -> int {
    x + dims[0] * y + dims[0] * dims[1] * z
}

/// `RuntimeShape::<u32, 3>::new`: the shape with the given dimensions. The
/// cell count must fit in `u32`, as the crate multiplies it out unchecked.
#[verifier::external_body]
pub(crate) fn shape_new(dims: [u32; 3]) -> (shape: RuntimeShape<u32, 3>)
    requires
        dims[0] * dims[1] <= u32::MAX,
        cell_count(dims@) <= u32::MAX,
    ensures
        shape_dims(shape) == dims@,
{
    RuntimeShape::<u32, 3>::new(dims)
}

/// `RuntimeShape`'s derived `Clone`: a shape with the same dimensions.
#[verifier::external_body]
pub(crate) fn shape_clone(shape: &RuntimeShape<u32, 3>) -> (copy: RuntimeShape<u32, 3>)
    ensures
        shape_dims(copy) == shape_dims(*shape),
{
    shape.clone()
}

/// `Shape::as_array`: the dimensions the shape was made with.
#[verifier::external_body]
pub(crate) fn shape_as_array(shape: &RuntimeShape<u32, 3>) -> (dims: [u32; 3])
    ensures
        dims@ == shape_dims(*shape),
{
    shape.as_array()
}

/// `Shape::linearize`: the position of cell `p` in row-major order. The
/// crate adds the three terms unchecked, so the sum must fit in `u32`.
#[verifier::external_body]
pub(crate) fn shape_linearize(shape: &RuntimeShape<u32, 3>, p: [u32; 3]) -> (index: u32)
    requires
        shape_dims(*shape).len() == 3,
        shape_dims(*shape)[0] * shape_dims(*shape)[1] <= u32::MAX,
        linear_index(shape_dims(*shape), p[0] as int, p[1] as int, p[2] as int) <= u32::MAX,
    ensures
        index == linear_index(shape_dims(*shape), p[0] as int, p[1] as int, p[2] as int),
{
    shape.linearize(p)
}

/// The cell at position `index` of an array with dimensions `dims`: z is
/// the quotient by the x*y stride, y the quotient of what is left by the x
/// stride, and x the remainder.
pub open spec fn delinearized(dims: Seq<u32>, index: int) -> (int, int, int) {
    let z = index / (dims[0] * dims[1]);
    let rest = index - z * (dims[0] * dims[1]);
    (rest % (dims[0] as int), rest / (dims[0] as int), z)
}

/// `Shape::delinearize`: the cell at position `index`, the inverse of
/// `linearize`. The crate divides by the x and x*y strides, which therefore
/// must not be zero.
#[verifier::external_body]
pub(crate) fn shape_delinearize(shape: &RuntimeShape<u32, 3>, index: u32) -> (p: [u32; 3])
    requires
        shape_dims(*shape).len() == 3,
        shape_dims(*shape)[0] > 0,
        shape_dims(*shape)[1] > 0,
        shape_dims(*shape)[0] * shape_dims(*shape)[1] <= u32::MAX,
    ensures
        p[0] == delinearized(shape_dims(*shape), index as int).0,
        p[1] == delinearized(shape_dims(*shape), index as int).1,
        p[2] == delinearized(shape_dims(*shape), index as int).2,
{
    shape.delinearize(index)
}

} // verus!
