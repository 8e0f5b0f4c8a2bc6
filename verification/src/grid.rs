//! Rectangular containers for the dependent samples of multi-dimensional
//! tables.
//!
//! A grid owns its samples in one flat, row-major vector together with the
//! lengths of its dimensions.  Construction checks that the vector fills the
//! dimensions exactly, and each dimension can be reversed in place, which is
//! what table construction does to mirror the reversal of a decreasing axis.

use vstd::prelude::*;

use vstd::arithmetic::div_mod::{
    lemma_fundamental_div_mod, lemma_fundamental_div_mod_converse, lemma_multiply_divide_lt,
};
use vstd::arithmetic::mul::lemma_mul_is_commutative;

verus! {

/// Two dimensional rectangular grid of samples, indexed `(row, column)`.
pub struct Grid2<Dep> {
    data: Vec<Dep>,
    rows: usize,
    cols: usize,
}

/// The flat position a reversal of one dimension of a two dimensional grid
/// reads its `k`-th output element from.
spec fn flip2_src(k: int, rows: int, cols: int, axis: int) -> int {
    let i = k / cols;
    let j = k % cols;
    if axis == 0 {
        (rows - 1 - i) * cols + j
    } else {
        i * cols + (cols - 1 - j)
    }
}

impl<Dep> Grid2<Dep> {
    /// Length of dimension 0 (rows).
    pub closed spec fn nrows(self) -> int {
        self.rows as int
    }

    /// Length of dimension 1 (columns).
    pub closed spec fn ncols(self) -> int {
        self.cols as int
    }

    /// The sample at row `i`, column `j`.
    pub closed spec fn at(self, i: int, j: int) -> Dep {
        self.data@[i * self.ncols() + j]
    }

    /// The flat data fills the dimensions exactly.
    pub closed spec fn wf(self) -> bool {
        self.data@.len() == self.nrows() * self.ncols()
    }

    /// Build a grid of the given dimensions from its row-major flat data.
    /// Returns nothing when the data does not fill the dimensions exactly.
    pub fn new(rows: usize, cols: usize, data: Vec<Dep>) -> (r: Option<Self>)
        ensures
            match r {
                Some(g) => {
                    &&& g.wf()
                    &&& g.nrows() == rows
                    &&& g.ncols() == cols
                    &&& data@.len() == rows * cols
                    &&& forall|i: int, j: int|
                        0 <= i < rows && 0 <= j < cols ==> g.at(i, j) == data@[i * cols + j]
                },
                None => data@.len() != rows * cols,
            },
    {
        let n = data.len();
        match rows.checked_mul(cols) {
            None => None,
            Some(total) => {
                if n == total {
                    Some(Self { data, rows, cols })
                } else {
                    None
                }
            },
        }
    }

    /// The length of the given dimension.
    pub fn len_of(&self, axis: usize) -> (r: usize)
        requires
            axis < 2,
        ensures
            axis == 0 ==> r == self.nrows(),
            axis == 1 ==> r == self.ncols(),
    {
        if axis == 0 {
            self.rows
        } else {
            self.cols
        }
    }
}

impl<Dep: Copy> Grid2<Dep> {
    /// Read the sample at row `i`, column `j`.
    pub fn get(&self, i: usize, j: usize) -> (r: Dep)
        requires
            self.wf(),
            i < self.nrows(),
            j < self.ncols(),
        ensures
            r == self.at(i as int, j as int),
    {
        let n = self.data.len();
        proof {
            lemma_flat_index_bound(i as int, j as int, self.nrows(), self.ncols());
        }
        self.data[i * self.cols + j]
    }

    /// Reverse the given dimension in place: after the call the sample at a
    /// position along that dimension is the sample that was at the mirrored
    /// position, and the other dimension is untouched.
    #[verifier::loop_isolation(false)]
    pub fn invert_axis(&mut self, axis: usize)
        requires
            old(self).wf(),
            axis < 2,
        ensures
            final (self).wf(),
            final (self).nrows() == old(self).nrows(),
            final (self).ncols() == old(self).ncols(),
            forall|i: int, j: int|
                0 <= i < old(self).nrows() && 0 <= j < old(self).ncols() ==> final (self).at(i, j)
                    == (if axis == 0 {
                    old(self).at(old(self).nrows() - 1 - i, j)
                } else {
                    old(self).at(i, old(self).ncols() - 1 - j)
                }),
    {
        let rows = self.rows;
        let cols = self.cols;
        let total = self.data.len();
        let mut out: Vec<Dep> = Vec::new();
        let mut k: usize = 0;
        while k < total
            invariant
                out@.len() == k,
                k <= total,
                forall|kk: int|
                    0 <= kk < k ==> out@[kk] == self.data@[flip2_src(
                        kk,
                        rows as int,
                        cols as int,
                        axis as int,
                    )],
            decreases total - k,
        {
            proof {
                assert(cols > 0 && rows > 0) by (nonlinear_arith)
                    requires
                        0 <= k < rows as int * cols as int,
                ;
                lemma_mul_is_commutative(rows as int, cols as int);
                lemma_multiply_divide_lt(k as int, cols as int, rows as int);
            }
            let i = k / cols;
            let j = k % cols;
            proof {
                lemma_flat_index_bound(rows as int - 1 - i, j as int, rows as int, cols as int);
                lemma_flat_index_bound(i as int, cols as int - 1 - j, rows as int, cols as int);
            }
            let src = if axis == 0 {
                (rows - 1 - i) * cols + j
            } else {
                i * cols + (cols - 1 - j)
            };
            out.push(self.data[src]);
            k += 1;
        }
        self.data = out;
        proof {
            assert forall|i: int, j: int|
                0 <= i < rows && 0 <= j < cols implies #[trigger] self.at(i, j) == (if axis == 0 {
                old(self).at(rows - 1 - i, j)
            } else {
                old(self).at(i, cols - 1 - j)
            }) by {
                lemma_flat_index_bound(i, j, rows as int, cols as int);
                lemma_fundamental_div_mod_converse(i * cols + j, cols as int, i, j);
            }
        }
    }
}

/// Three dimensional rectangular grid of samples, indexed by one position
/// per dimension.
pub struct Grid3<Dep> {
    data: Vec<Dep>,
    dim0: usize,
    dim1: usize,
    dim2: usize,
}

/// The flat position a reversal of one dimension of a three dimensional
/// grid reads its `k`-th output element from.
spec fn flip3_src(k: int, d0: int, d1: int, d2: int, axis: int) -> int {
    let i = k / (d1 * d2);
    let rem = k % (d1 * d2);
    let j = rem / d2;
    let l = rem % d2;
    if axis == 0 {
        ((d0 - 1 - i) * d1 + j) * d2 + l
    } else if axis == 1 {
        (i * d1 + (d1 - 1 - j)) * d2 + l
    } else {
        (i * d1 + j) * d2 + (d2 - 1 - l)
    }
}

impl<Dep> Grid3<Dep> {
    /// Length of dimension 0.
    pub closed spec fn nlen0(self) -> int {
        self.dim0 as int
    }

    /// Length of dimension 1.
    pub closed spec fn nlen1(self) -> int {
        self.dim1 as int
    }

    /// Length of dimension 2.
    pub closed spec fn nlen2(self) -> int {
        self.dim2 as int
    }

    /// The sample at position `(i, j, l)`.
    pub closed spec fn at(self, i: int, j: int, l: int) -> Dep {
        self.data@[(i * self.nlen1() + j) * self.nlen2() + l]
    }

    /// The flat data fills the dimensions exactly.
    pub closed spec fn wf(self) -> bool {
        self.data@.len() == self.nlen0() * self.nlen1() * self.nlen2()
    }

    /// Build a grid of the given dimensions from its row-major flat data
    /// (the last dimension varies fastest).  Returns nothing when the data
    /// does not fill the dimensions exactly.
    pub fn new(dim0: usize, dim1: usize, dim2: usize, data: Vec<Dep>) -> (r: Option<Self>)
        ensures
            match r {
                Some(g) => {
                    &&& g.wf()
                    &&& g.nlen0() == dim0
                    &&& g.nlen1() == dim1
                    &&& g.nlen2() == dim2
                    &&& data@.len() == dim0 * dim1 * dim2
                    &&& forall|i: int, j: int, l: int|
                        0 <= i < dim0 && 0 <= j < dim1 && 0 <= l < dim2 ==> g.at(i, j, l)
                            == data@[(i * dim1 + j) * dim2 + l]
                },
                None => data@.len() != dim0 * dim1 * dim2,
            },
    {
        let n = data.len();
        if dim0 == 0 || dim1 == 0 || dim2 == 0 {
            proof {
                assert(dim0 as int * dim1 as int * dim2 as int == 0) by (nonlinear_arith)
                    requires
                        dim0 == 0 || dim1 == 0 || dim2 == 0,
                ;
            }
            if n == 0 {
                return Some(Self { data, dim0, dim1, dim2 });
            }
            return None;
        }
        match dim0.checked_mul(dim1) {
            None => {
                proof {
                    assert(dim0 as int * dim1 as int <= dim0 as int * dim1 as int * dim2 as int)
                        by (nonlinear_arith)
                        requires
                            dim0 > 0 && dim1 > 0 && dim2 > 0,
                    ;
                }
                None
            },
            Some(front) => {
                match front.checked_mul(dim2) {
                    None => None,
                    Some(total) => {
                        if n == total {
                            Some(Self { data, dim0, dim1, dim2 })
                        } else {
                            None
                        }
                    },
                }
            },
        }
    }

    /// The length of the given dimension.
    pub fn len_of(&self, axis: usize) -> (r: usize)
        requires
            axis < 3,
        ensures
            axis == 0 ==> r == self.nlen0(),
            axis == 1 ==> r == self.nlen1(),
            axis == 2 ==> r == self.nlen2(),
    {
        if axis == 0 {
            self.dim0
        } else if axis == 1 {
            self.dim1
        } else {
            self.dim2
        }
    }
}

impl<Dep: Copy> Grid3<Dep> {
    /// Read the sample at position `(i, j, l)`.
    pub fn get(&self, i: usize, j: usize, l: usize) -> (r: Dep)
        requires
            self.wf(),
            i < self.nlen0(),
            j < self.nlen1(),
            l < self.nlen2(),
        ensures
            r == self.at(i as int, j as int, l as int),
    {
        let n = self.data.len();
        proof {
            lemma_flat3_index_bound(
                i as int,
                j as int,
                l as int,
                self.nlen0(),
                self.nlen1(),
                self.nlen2(),
            );
        }
        self.data[(i * self.dim1 + j) * self.dim2 + l]
    }

    /// Reverse the given dimension in place: after the call the sample at a
    /// position along that dimension is the sample that was at the mirrored
    /// position, and the other dimensions are untouched.
    #[verifier::loop_isolation(false)]
    pub fn invert_axis(&mut self, axis: usize)
        requires
            old(self).wf(),
            axis < 3,
        ensures
            final (self).wf(),
            final (self).nlen0() == old(self).nlen0(),
            final (self).nlen1() == old(self).nlen1(),
            final (self).nlen2() == old(self).nlen2(),
            forall|i: int, j: int, l: int|
                0 <= i < old(self).nlen0() && 0 <= j < old(self).nlen1() && 0 <= l < old(
                    self,
                ).nlen2() ==> final (self).at(i, j, l) == (if axis == 0 {
                    old(self).at(old(self).nlen0() - 1 - i, j, l)
                } else if axis == 1 {
                    old(self).at(i, old(self).nlen1() - 1 - j, l)
                } else {
                    old(self).at(i, j, old(self).nlen2() - 1 - l)
                }),
    {
        let d0 = self.dim0;
        let d1 = self.dim1;
        let d2 = self.dim2;
        let total = self.data.len();
        let mut out: Vec<Dep> = Vec::new();
        let mut k: usize = 0;
        while k < total
            invariant
                out@.len() == k,
                k <= total,
                forall|kk: int|
                    0 <= kk < k ==> out@[kk] == self.data@[flip3_src(
                        kk,
                        d0 as int,
                        d1 as int,
                        d2 as int,
                        axis as int,
                    )],
            decreases total - k,
        {
            proof {
                assert(d0 > 0 && d1 > 0 && d2 > 0 && 0 < d1 as int * d2 as int <= total as int
                    && d1 as int * d2 as int * d0 as int == total as int) by (nonlinear_arith)
                    requires
                        0 <= k < d0 as int * d1 as int * d2 as int,
                        total as int == d0 as int * d1 as int * d2 as int,
                ;
                lemma_multiply_divide_lt(k as int, d1 as int * d2 as int, d0 as int);
            }
            let plane = d1 * d2;
            let i = k / plane;
            let rem = k % plane;
            proof {
                lemma_mul_is_commutative(d1 as int, d2 as int);
                lemma_multiply_divide_lt(rem as int, d2 as int, d1 as int);
            }
            let j = rem / d2;
            let l = rem % d2;
            proof {
                lemma_flat3_index_bound(
                    d0 as int - 1 - i,
                    j as int,
                    l as int,
                    d0 as int,
                    d1 as int,
                    d2 as int,
                );
                lemma_flat3_index_bound(
                    i as int,
                    d1 as int - 1 - j,
                    l as int,
                    d0 as int,
                    d1 as int,
                    d2 as int,
                );
                lemma_flat3_index_bound(
                    i as int,
                    j as int,
                    d2 as int - 1 - l,
                    d0 as int,
                    d1 as int,
                    d2 as int,
                );
            }
            let src = if axis == 0 {
                ((d0 - 1 - i) * d1 + j) * d2 + l
            } else if axis == 1 {
                (i * d1 + (d1 - 1 - j)) * d2 + l
            } else {
                (i * d1 + j) * d2 + (d2 - 1 - l)
            };
            out.push(self.data[src]);
            k += 1;
        }
        self.data = out;
        proof {
            assert forall|i: int, j: int, l: int|
                0 <= i < d0 && 0 <= j < d1 && 0 <= l < d2 implies #[trigger] self.at(i, j, l) == (
            if axis == 0 {
                old(self).at(d0 - 1 - i, j, l)
            } else if axis == 1 {
                old(self).at(i, d1 - 1 - j, l)
            } else {
                old(self).at(i, j, d2 - 1 - l)
            }) by {
                lemma_flat3_index_bound(i, j, l, d0 as int, d1 as int, d2 as int);
                let flat = (i * d1 + j) * d2 + l;
                assert(flat == i * (d1 as int * d2 as int) + (j * d2 + l) && 0 <= j * d2 + l < d1
                    as int * d2 as int && d1 as int * d2 as int > 0) by (nonlinear_arith)
                    requires
                        0 <= i < d0,
                        0 <= j < d1,
                        0 <= l < d2,
                        flat == (i * d1 + j) * d2 + l,
                ;
                lemma_fundamental_div_mod_converse(flat, d1 as int * d2 as int, i, j * d2 + l);
                lemma_fundamental_div_mod_converse(j * d2 + l, d2 as int, j, l);
            }
        }
    }
}

/// A row-major position within three dimensions stays within the flat data,
/// with the partial sums needed for the flat index arithmetic.
proof fn lemma_flat3_index_bound(i: int, j: int, l: int, d0: int, d1: int, d2: int)
    requires
        0 <= i < d0,
        0 <= j < d1,
        0 <= l < d2,
    ensures
        0 <= (i * d1 + j) * d2 + l < d0 * d1 * d2,
        0 <= i * d1 + j < d0 * d1,
        d0 * d1 <= d0 * d1 * d2,
        0 <= i * d1,
        (i * d1 + j) * d2 <= (d0 * d1 - 1) * d2,
{
    assert(0 <= (i * d1 + j) * d2 + l < d0 * d1 * d2 && 0 <= i * d1 + j < d0 * d1 && d0 * d1 <= d0
        * d1 * d2 && 0 <= i * d1 && (i * d1 + j) * d2 <= (d0 * d1 - 1) * d2) by (nonlinear_arith)
        requires
            0 <= i < d0,
            0 <= j < d1,
            0 <= l < d2,
    ;
}

/// A row-major position within the dimensions stays within the flat data.
proof fn lemma_flat_index_bound(i: int, j: int, rows: int, cols: int)
    requires
        0 <= i < rows,
        0 <= j < cols,
    ensures
        i * cols + j < rows * cols,
        0 <= i * cols + j,
        i * cols <= (rows - 1) * cols,
{
    assert(i * cols + j < rows * cols && 0 <= i * cols + j && i * cols <= (rows - 1) * cols)
        by (nonlinear_arith)
        requires
            0 <= i < rows,
            0 <= j < cols,
    ;
}

} // verus!
