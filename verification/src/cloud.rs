//! The density volume of a model: the cloud density of every cell off the
//! boundary of the stored array.

use crate::data::VoxelData;
use crate::layout::lemma_delinearize_linearized;
use crate::layout::lemma_index_in_range;
use crate::layout::lemma_linearize_delinearized;
use crate::math::UVec3;
use crate::mesh::lookup;
use crate::shape::cell_count;
use crate::shape::delinearized;
use crate::shape::linear_index;
use crate::shape::shape_as_array;
use crate::shape::shape_delinearize;
use crate::voxel::RawVoxel;
use vstd::prelude::*;

verus! {

/// Whether the cell at position `index` lies off the boundary of an array
/// with dimensions `dims`: none of its coordinates is 0 or the last one of
/// its axis.
pub open spec fn is_inner_cell(dims: Seq<u32>, index: int) -> bool {
    let (x, y, z) = delinearized(dims, index);
    &&& x != 0
    &&& y != 0
    &&& z != 0
    &&& x != dims[0] - 1
    &&& y != dims[1] - 1
    &&& z != dims[2] - 1
}

/// The density entries of the inner cells among the first `voxels.len()`
/// cells, in storage order: the palette's density for the cell's stored
/// index, or `None` where it has none.
pub open spec fn cloud_cells<T>(
    voxels: Seq<RawVoxel>,
    dims: Seq<u32>,
    density_for_voxel: Seq<Option<T>>,
) -> Seq<Option<T>>
    decreases voxels.len(),
{
    if voxels.len() == 0 {
        Seq::empty()
    } else {
        let rest = cloud_cells(voxels.drop_last(), dims, density_for_voxel);
        if is_inner_cell(dims, voxels.len() - 1) {
            rest.push(lookup(density_for_voxel, voxels.last().0))
        } else {
            rest
        }
    }
}

/// Whether some inner cell among `voxels` has a cloud density.
pub open spec fn has_cloud_cell<T>(
    voxels: Seq<RawVoxel>,
    dims: Seq<u32>,
    density_for_voxel: Seq<Option<T>>,
) -> bool {
    exists|i: int|
        0 <= i < voxels.len() && is_inner_cell(dims, i) && lookup(
            density_for_voxel,
            (#[trigger] voxels[i]).0,
        ).is_some()
}

/// The number of inner cells along an axis with `cells` cells.
pub open spec fn inner_extent(cells: u32) -> int {
    if cells >= 2 {
        cells - 2
    } else {
        0
    }
}

impl VoxelData {
    /// The size of the density volume: the stored array without its
    /// outermost layer of cells.
    pub fn inner_size(&self) -> (size: UVec3)
        requires
            self.wf(),
        ensures
            size.x == inner_extent(self.dims()[0]),
            size.y == inner_extent(self.dims()[1]),
            size.z == inner_extent(self.dims()[2]),
    {
        let dims = shape_as_array(&self.shape);
        UVec3 {
            x: if dims[0] >= 2 {
                dims[0] - 2
            } else {
                0
            },
            y: if dims[1] >= 2 {
                dims[1] - 2
            } else {
                0
            },
            z: if dims[2] >= 2 {
                dims[2] - 2
            } else {
                0
            },
        }
    }

    /// Returns the density entry of every inner cell, in storage order, and
    /// whether any of them has a density.
    pub fn cloud_voxels<T: Copy>(&self, density_for_voxel: &[Option<T>]) -> (result: (
        Vec<Option<T>>,
        bool,
    ))
        requires
            self.wf(),
        ensures
            result.0@ == cloud_cells(self.voxels@, self.dims(), density_for_voxel@),
            result.1 == has_cloud_cell(self.voxels@, self.dims(), density_for_voxel@),
            result.0@.len() == inner_extent(self.dims()[0]) * inner_extent(self.dims()[1])
                * inner_extent(self.dims()[2]),
    {
        let dims = shape_as_array(&self.shape);
        let mut densities: Vec<Option<T>> = Vec::new();
        let mut has_cloud = false;
        let mut i: usize = 0;
        while i < self.voxels.len()
            invariant
                i <= self.voxels@.len(),
                self.wf(),
                dims@ == self.dims(),
                densities@ == cloud_cells(
                    self.voxels@.take(i as int),
                    self.dims(),
                    density_for_voxel@,
                ),
                has_cloud == has_cloud_cell(
                    self.voxels@.take(i as int),
                    self.dims(),
                    density_for_voxel@,
                ),
            decreases self.voxels@.len() - i,
        {
            proof {
                assert(dims[0] > 0 && dims[1] > 0 && dims[2] > 0) by (nonlinear_arith)
                    requires
                        dims[0] * dims[1] * dims[2] > 0,
                ;
                assert(self.voxels@.take(i + 1).drop_last() == self.voxels@.take(i as int));
                assert(self.voxels@.take(i + 1).last() == self.voxels@[i as int]);
            }
            let ghost seen = self.voxels@.take(i as int);
            let ghost next = self.voxels@.take(i + 1);
            let coords = shape_delinearize(&self.shape, i as u32);
            let inner = coords[0] != 0 && coords[1] != 0 && coords[2] != 0 && coords[0] != dims[0]
                - 1 && coords[1] != dims[1] - 1 && coords[2] != dims[2] - 1;
            assert(inner == is_inner_cell(self.dims(), i as int));
            let ghost had_cloud = has_cloud;
            if inner {
                let raw = self.voxels[i];
                let entry = if (raw.0 as usize) < density_for_voxel.len() {
                    density_for_voxel[raw.0 as usize]
                } else {
                    None
                };
                if entry.is_some() {
                    has_cloud = true;
                }
                densities.push(entry);
            }
            proof {
                if has_cloud_cell(next, self.dims(), density_for_voxel@) {
                    let w = choose|w: int|
                        0 <= w < next.len() && is_inner_cell(self.dims(), w) && lookup(
                            density_for_voxel@,
                            (#[trigger] next[w]).0,
                        ).is_some();
                    if w < i {
                        assert(seen[w] == next[w]);
                    }
                }
                if had_cloud {
                    let w = choose|w: int|
                        0 <= w < seen.len() && is_inner_cell(self.dims(), w) && lookup(
                            density_for_voxel@,
                            (#[trigger] seen[w]).0,
                        ).is_some();
                    assert(next[w] == seen[w]);
                }
                if has_cloud && !had_cloud {
                    assert(lookup(density_for_voxel@, next[i as int].0).is_some());
                }
            }
            i = i + 1;
        }
        proof {
            assert(self.voxels@.take(i as int) == self.voxels@);
            lemma_cloud_cells_len(self.voxels@, self.dims(), density_for_voxel@);
            lemma_inner_count(self.dims(), self.voxels@.len());
        }
        (densities, has_cloud)
    }
}

/// Whether coordinate `c` of an axis with `d` cells is neither the first
/// nor the last.
pub open spec fn axis_inner(c: int, d: int) -> bool {
    c != 0 && c != d - 1
}

/// The number of inner coordinates below `c` on an axis with `d` cells, for
/// `c` up to `d`.
pub open spec fn inner_below(c: int, d: int) -> int {
    if c <= 1 {
        0
    } else if c == d {
        d - 2
    } else {
        c - 1
    }
}

/// The number of inner cells among the first `n` cells of an array.
pub open spec fn inner_count(dims: Seq<u32>, n: nat) -> nat
    decreases n,
{
    if n == 0 {
        0
    } else {
        inner_count(dims, (n - 1) as nat) + if is_inner_cell(dims, n - 1) {
            1nat
        } else {
            0nat
        }
    }
}

/// The number of inner cells that come before cell `(x, y, z)` in storage
/// order: the whole inner slabs below `z`, then the whole inner rows below
/// `y`, then the inner cells below `x`.
pub open spec fn inner_before(dims: Seq<u32>, x: int, y: int, z: int) -> int {
    let across = inner_extent(dims[0]);
    let slab = across * inner_extent(dims[1]);
    slab * inner_below(z, dims[2] as int) + if axis_inner(z, dims[2] as int) {
        across * inner_below(y, dims[1] as int) + if axis_inner(y, dims[1] as int) {
            inner_below(x, dims[0] as int)
        } else {
            0
        }
    } else {
        0
    }
}

/// The density volume has one entry per inner cell.
pub proof fn lemma_cloud_cells_len<T>(
    voxels: Seq<RawVoxel>,
    dims: Seq<u32>,
    density_for_voxel: Seq<Option<T>>,
)
    ensures
        cloud_cells(voxels, dims, density_for_voxel).len() == inner_count(dims, voxels.len()),
    decreases voxels.len(),
{
    if voxels.len() > 0 {
        lemma_cloud_cells_len(voxels.drop_last(), dims, density_for_voxel);
    }
}

/// The inner cells among the first `n` cells are those before the cell at
/// position `n`; all of them together fill the array's inner size.
pub proof fn lemma_inner_count(dims: Seq<u32>, n: nat)
    requires
        dims.len() == 3,
        n <= cell_count(dims),
    ensures
        n < cell_count(dims) ==> inner_count(dims, n) == inner_before(
            dims,
            delinearized(dims, n as int).0,
            delinearized(dims, n as int).1,
            delinearized(dims, n as int).2,
        ),
        n == cell_count(dims) ==> inner_count(dims, n) == inner_extent(dims[0]) * inner_extent(
            dims[1],
        ) * inner_extent(dims[2]),
    decreases n,
{
    let d0 = dims[0] as int;
    let d1 = dims[1] as int;
    let d2 = dims[2] as int;
    let across = inner_extent(dims[0]);
    let up = inner_extent(dims[1]);
    let deep = inner_extent(dims[2]);
    let slab = across * up;
    if n == 0 {
        if cell_count(dims) == 0 {
            assert(across * up * deep == 0) by (nonlinear_arith)
                requires
                    d0 * d1 * d2 == 0,
                    0 <= d0,
                    0 <= d1,
                    0 <= d2,
                    across == (if d0 >= 2 {
                        d0 - 2
                    } else {
                        0
                    }),
                    up == (if d1 >= 2 {
                        d1 - 2
                    } else {
                        0
                    }),
                    deep == (if d2 >= 2 {
                        d2 - 2
                    } else {
                        0
                    }),
            ;
        } else {
            lemma_linearize_delinearized(dims, 0);
            let (x, y, z) = delinearized(dims, 0);
            assert(x == 0 && y == 0 && z == 0) by (nonlinear_arith)
                requires
                    0 <= x,
                    0 <= y,
                    0 <= z,
                    0 <= d0,
                    0 <= d1,
                    x + d0 * y + d0 * d1 * z == 0,
                    0 < d0 * d1 * d2,
                    0 <= d2,
            ;
            assert(slab * 0 == 0);
            assert(across * 0 == 0);
        }
    } else {
        let m = (n - 1) as nat;
        lemma_inner_count(dims, m);
        lemma_linearize_delinearized(dims, m as int);
        let (x, y, z) = delinearized(dims, m as int);
        let before = inner_before(dims, x, y, z);
        let step: int = if is_inner_cell(dims, m as int) {
            1
        } else {
            0
        };
        assert(inner_count(dims, n) == before + step);
        assert(across * (inner_below(y, d1) + 1) == across * inner_below(y, d1) + across)
            by (nonlinear_arith);
        assert(slab * (inner_below(z, d2) + 1) == slab * inner_below(z, d2) + slab)
            by (nonlinear_arith);
        if x + 1 < d0 {
            assert(linear_index(dims, x + 1, y, z) == n);
            lemma_delinearize_linearized(dims, x + 1, y, z);
            lemma_index_in_range(d0, d1, d2, x + 1, y, z);
        } else if y + 1 < d1 {
            assert(d0 * (y + 1) + d0 * d1 * z == n) by (nonlinear_arith)
                requires
                    x + d0 * y + d0 * d1 * z == m,
                    n == m + 1,
                    x + 1 == d0,
            ;
            assert(linear_index(dims, 0, y + 1, z) == n);
            lemma_delinearize_linearized(dims, 0, y + 1, z);
            lemma_index_in_range(d0, d1, d2, 0, y + 1, z);
            assert(inner_below(d0, d0) == across);
        } else if z + 1 < d2 {
            assert(d0 * 0 + d0 * d1 * (z + 1) == n) by (nonlinear_arith)
                requires
                    x + d0 * y + d0 * d1 * z == m,
                    n == m + 1,
                    x + 1 == d0,
                    y + 1 == d1,
            ;
            assert(linear_index(dims, 0, 0, z + 1) == n);
            lemma_delinearize_linearized(dims, 0, 0, z + 1);
            lemma_index_in_range(d0, d1, d2, 0, 0, z + 1);
            assert(inner_below(d0, d0) == across);
            assert(inner_below(d1, d1) == up);
            assert(across * 0 == 0);
        } else {
            assert(n == cell_count(dims)) by (nonlinear_arith)
                requires
                    x + d0 * y + d0 * d1 * z == m,
                    n == m + 1,
                    x + 1 == d0,
                    y + 1 == d1,
                    z + 1 == d2,
                    cell_count(dims) == d0 * d1 * d2,
            ;
            assert(inner_below(d0, d0) == across);
            assert(inner_below(d1, d1) == up);
            assert(inner_below(d2, d2) == deep);
            assert(slab * deep == across * up * deep);
        }
    }
}

} // verus!
