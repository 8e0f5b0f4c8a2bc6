//! Two dimensional lookup table: approximate `f(x, y)` given `x` and `y`.
//!
//! Each axis is validated and normalized independently, in ascending
//! dimension order, with the matching dimension of the sample grid reversed
//! whenever its axis is; `lookup` searches both axes, bounds both query
//! values, and blends the four corner samples bilinearly.

use vstd::prelude::*;

use crate::axis::{Axis, AxisImpl};
use crate::bound::Bound;
use crate::common::{
    check_independent_variable, check_lengths, check_lengths_spec, classify_axis, reverse_vec,
    IndependentVariableOrdering,
};
use crate::grid::Grid2;
use crate::order::{
    lemma_adjacent_implies_strict, lemma_reverse_of_decreasing, strictly_increasing, total_order,
};
use crate::search::{valid_interval, Search};
use crate::table1d::bounded_query;
use crate::Error;
use core::ops::{Add, Div, Mul, Sub};
use vstd::std_specs::cmp::PartialEqSpec;
use vstd::std_specs::cmp::PartialOrdSpec;
use vstd::std_specs::ops::{AddSpec, DivSpec, MulSpec, SubSpec};

verus! {

/// The bilinear blend, written with the specification functions of the
/// scalars' arithmetic in the same shape the executable code computes it:
/// the corner samples are weighted by complementary fractional positions
/// along each axis, the first axis collapsing first.
pub open spec fn bilerp_spec<Indep1, Indep2, Dep>(
    x_1: Indep1, x_2: Indep1,
    y_1: Indep2, y_2: Indep2,
    f_1_1: Dep, f_1_2: Dep, f_2_1: Dep, f_2_2: Dep,
    x: Indep1, y: Indep2,
) -> Dep
    where
        Indep1: Sub<Indep1, Output = Indep1> + Div<Indep1, Output = Indep1>,
        Indep2: Sub<Indep2, Output = Indep2> + Div<Indep2, Output = Indep2>,
        Dep: Mul<Indep1, Output = Dep> + Mul<Indep2, Output = Dep> + Add<Dep, Output = Dep>,
{
    let x_slope1 = (x_2.sub_spec(x)).div_spec(x_2.sub_spec(x_1));
    let x_slope2 = (x.sub_spec(x_1)).div_spec(x_2.sub_spec(x_1));
    let y_slope1 = (y_2.sub_spec(y)).div_spec(y_2.sub_spec(y_1));
    let y_slope2 = (y.sub_spec(y_1)).div_spec(y_2.sub_spec(y_1));
    let f_x_y1 = (f_1_1.mul_spec(x_slope1)).add_spec(f_2_1.mul_spec(x_slope2));
    let f_x_y2 = (f_1_2.mul_spec(x_slope1)).add_spec(f_2_2.mul_spec(x_slope2));
    (f_x_y1.mul_spec(y_slope1)).add_spec(f_x_y2.mul_spec(y_slope2))
}

/// Every arithmetic step of one bilinear blend over the given cell at the
/// bounded queries `x`, `y` is permitted by the scalar types.
pub open spec fn bilerp_ops_ok<Indep1, Indep2, Dep>(
    x_1: Indep1, x_2: Indep1,
    y_1: Indep2, y_2: Indep2,
    f_1_1: Dep, f_1_2: Dep, f_2_1: Dep, f_2_2: Dep,
    x: Indep1, y: Indep2,
) -> bool
    where
        Indep1: Sub<Indep1, Output = Indep1> + Div<Indep1, Output = Indep1>,
        Indep2: Sub<Indep2, Output = Indep2> + Div<Indep2, Output = Indep2>,
        Dep: Mul<Indep1, Output = Dep> + Mul<Indep2, Output = Dep> + Add<Dep, Output = Dep>,
{
    let dx = x_2.sub_spec(x_1);
    let x_slope1 = (x_2.sub_spec(x)).div_spec(dx);
    let x_slope2 = (x.sub_spec(x_1)).div_spec(dx);
    let dy = y_2.sub_spec(y_1);
    let y_slope1 = (y_2.sub_spec(y)).div_spec(dy);
    let y_slope2 = (y.sub_spec(y_1)).div_spec(dy);
    let f_x_y1 = (f_1_1.mul_spec(x_slope1)).add_spec(f_2_1.mul_spec(x_slope2));
    let f_x_y2 = (f_1_2.mul_spec(x_slope1)).add_spec(f_2_2.mul_spec(x_slope2));
    &&& x_2.sub_req(x)
    &&& x_2.sub_req(x_1)
    &&& (x_2.sub_spec(x)).div_req(dx)
    &&& x.sub_req(x_1)
    &&& (x.sub_spec(x_1)).div_req(dx)
    &&& y_2.sub_req(y)
    &&& y_2.sub_req(y_1)
    &&& (y_2.sub_spec(y)).div_req(dy)
    &&& y.sub_req(y_1)
    &&& (y.sub_spec(y_1)).div_req(dy)
    &&& f_1_1.mul_req(x_slope1)
    &&& f_2_1.mul_req(x_slope2)
    &&& (f_1_1.mul_spec(x_slope1)).add_req(f_2_1.mul_spec(x_slope2))
    &&& f_1_2.mul_req(x_slope1)
    &&& f_2_2.mul_req(x_slope2)
    &&& (f_1_2.mul_spec(x_slope1)).add_req(f_2_2.mul_spec(x_slope2))
    &&& f_x_y1.mul_req(y_slope1)
    &&& f_x_y2.mul_req(y_slope2)
    &&& (f_x_y1.mul_spec(y_slope1)).add_req(f_x_y2.mul_spec(y_slope2))
}

/// The scalar types' arithmetic used by the bilinear blend obeys its
/// specification functions.
pub open spec fn obeys_bilerp_arith<Indep1, Indep2, Dep>() -> bool
    where
        Indep1: Sub<Indep1, Output = Indep1> + Div<Indep1, Output = Indep1>,
        Indep2: Sub<Indep2, Output = Indep2> + Div<Indep2, Output = Indep2>,
        Dep: Mul<Indep1, Output = Dep> + Mul<Indep2, Output = Dep> + Add<Dep, Output = Dep>,
{
    &&& <Indep1 as SubSpec<Indep1>>::obeys_sub_spec()
    &&& <Indep1 as DivSpec<Indep1>>::obeys_div_spec()
    &&& <Indep2 as SubSpec<Indep2>>::obeys_sub_spec()
    &&& <Indep2 as DivSpec<Indep2>>::obeys_div_spec()
    &&& <Dep as MulSpec<Indep1>>::obeys_mul_spec()
    &&& <Dep as MulSpec<Indep2>>::obeys_mul_spec()
    &&& <Dep as AddSpec<Dep>>::obeys_add_spec()
}

/// Every operation of the bilinear blend is permitted on all values of the
/// scalar types: the precondition for scalars whose arithmetic has no
/// specification.
pub open spec fn bilerp_ops_total<Indep1, Indep2, Dep>() -> bool
    where
        Indep1: Sub<Indep1, Output = Indep1> + Div<Indep1, Output = Indep1>,
        Indep2: Sub<Indep2, Output = Indep2> + Div<Indep2, Output = Indep2>,
        Dep: Mul<Indep1, Output = Dep> + Mul<Indep2, Output = Dep> + Add<Dep, Output = Dep>,
{
    &&& forall|a: Indep1, b: Indep1| #[trigger] a.sub_req(b)
    &&& forall|a: Indep1, b: Indep1| #[trigger] a.div_req(b)
    &&& forall|a: Indep2, b: Indep2| #[trigger] a.sub_req(b)
    &&& forall|a: Indep2, b: Indep2| #[trigger] a.div_req(b)
    &&& forall|a: Dep, b: Indep1| #[trigger] a.mul_req(b)
    &&& forall|a: Dep, b: Indep2| #[trigger] a.mul_req(b)
    &&& forall|a: Dep, b: Dep| #[trigger] a.add_req(b)
}

/// The bilinear arithmetic is permitted over every cell of the table, for
/// each pair of values the bound policies can hand it.
pub open spec fn lookup2_ops_ok<Indep1, Indep2, Dep>(
    a1: Seq<Indep1>,
    a2: Seq<Indep2>,
    g: Grid2<Dep>,
    x: Indep1,
    y: Indep2,
) -> bool
    where
        Indep1: Sub<Indep1, Output = Indep1> + Div<Indep1, Output = Indep1>,
        Indep2: Sub<Indep2, Output = Indep2> + Div<Indep2, Output = Indep2>,
        Dep: Mul<Indep1, Output = Dep> + Mul<Indep2, Output = Dep> + Add<Dep, Output = Dep>,
{
    forall|lo1: int, lo2: int, xb: Indep1, yb: Indep2|
        (0 <= lo1 < a1.len() - 1 && 0 <= lo2 < a2.len() - 1
            && (xb == x || xb == a1[0] || xb == a1[a1.len() - 1])
            && (yb == y || yb == a2[0] || yb == a2[a2.len() - 1])) ==> #[trigger] bilerp_ops_ok(
            a1[lo1],
            a1[lo1 + 1],
            a2[lo2],
            a2[lo2 + 1],
            g.at(lo1, lo2),
            g.at(lo1, lo2 + 1),
            g.at(lo1 + 1, lo2),
            g.at(lo1 + 1, lo2 + 1),
            xb,
            yb,
        )
}

/// What construction decides from the two axes and the grid dimensions:
/// per axis, in ascending dimension order, classification, normalization
/// and the length checks.  On success it yields the normalized axes and
/// whether each dimension of the grid is to be reversed.
pub open spec fn construct2_plan<Indep1: PartialOrd, Indep2: PartialOrd>(
    indep1: Seq<Indep1>,
    indep2: Seq<Indep2>,
    rows: int,
    cols: int,
) -> Result<(Seq<Indep1>, Seq<Indep2>, bool, bool), Error> {
    match classify_axis(indep1) {
        Err(e) => Err(e),
        Ok(o1) => {
            let rev1 = o1 == IndependentVariableOrdering::MonotonicallyDecreasing;
            let s1 = if rev1 {
                indep1.reverse()
            } else {
                indep1
            };
            match check_lengths_spec(s1.len() as int, rows) {
                Err(e) => Err(e),
                Ok(u1) => match classify_axis(indep2) {
                    Err(e) => Err(e),
                    Ok(o2) => {
                        let rev2 = o2 == IndependentVariableOrdering::MonotonicallyDecreasing;
                        let s2 = if rev2 {
                            indep2.reverse()
                        } else {
                            indep2
                        };
                        match check_lengths_spec(s2.len() as int, cols) {
                            Err(e) => Err(e),
                            Ok(u2) => Ok((s1, s2, rev1, rev2)),
                        }
                    },
                },
            }
        },
    }
}

/// Direction of the first axis's input ordering is unobservable in the
/// construction plan: a strictly decreasing first axis yields the same
/// normalized axes and the same errors as the pre-reversed one, with only
/// the flag that mirrors the grid's first dimension flipped, so the stored
/// table data agrees once the caller's grid is mirrored in lockstep.  The
/// same argument applies to the second axis by symmetry.
pub proof fn lemma_reversed_axis1_same_plan<Indep1: PartialOrd, Indep2: PartialOrd>(
    indep1: Seq<Indep1>,
    indep2: Seq<Indep2>,
    rows: int,
    cols: int,
)
    requires
        total_order::<Indep1>(),
        crate::order::adjacent_decreasing(indep1),
        indep1.len() >= 2,
    ensures
        construct2_plan(indep1.reverse(), indep2, rows, cols) == (match construct2_plan(
            indep1,
            indep2,
            rows,
            cols,
        ) {
            Ok(plan) => Ok::<(Seq<Indep1>, Seq<Indep2>, bool, bool), Error>(
                (plan.0, plan.1, false, plan.3),
            ),
            Err(e) => Err::<(Seq<Indep1>, Seq<Indep2>, bool, bool), Error>(e),
        }),
{
    crate::common::lemma_classify_decreasing(indep1);
}

/// What a lookup returns: the bilinear blend of the four corner samples of
/// some pair of valid intervals for the raw queries, evaluated at the
/// bounded queries.
pub open spec fn lookup2_post<Indep1, Indep2, Dep, LowerBound1, UpperBound1, LowerBound2, UpperBound2>(
    a1: Seq<Indep1>,
    a2: Seq<Indep2>,
    g: Grid2<Dep>,
    x: Indep1,
    y: Indep2,
    r: Dep,
) -> bool
    where
        Indep1: PartialOrd + Copy + Sub<Indep1, Output = Indep1> + Div<Indep1, Output = Indep1>,
        Indep2: PartialOrd + Copy + Sub<Indep2, Output = Indep2> + Div<Indep2, Output = Indep2>,
        Dep: Mul<Indep1, Output = Dep> + Mul<Indep2, Output = Dep> + Add<Dep, Output = Dep>,
        LowerBound1: Bound<Indep1>,
        UpperBound1: Bound<Indep1>,
        LowerBound2: Bound<Indep2>,
        UpperBound2: Bound<Indep2>,
{
    exists|lo1: int, lo2: int|
        #![trigger valid_interval(a1, x, lo1), valid_interval(a2, y, lo2)]
        {
            &&& 0 <= lo1 < a1.len() - 1
            &&& 0 <= lo2 < a2.len() - 1
            &&& valid_interval(a1, x, lo1)
            &&& valid_interval(a2, y, lo2)
            &&& r == bilerp_spec(
                a1[lo1],
                a1[lo1 + 1],
                a2[lo2],
                a2[lo2 + 1],
                g.at(lo1, lo2),
                g.at(lo1, lo2 + 1),
                g.at(lo1 + 1, lo2),
                g.at(lo1 + 1, lo2 + 1),
                bounded_query::<Indep1, LowerBound1, UpperBound1>(a1, x),
                bounded_query::<Indep2, LowerBound2, UpperBound2>(a2, y),
            )
        }
}

/// Two dimensional lookup table: approximate `f(x, y)` given `x` and `y`.
///
/// Both axes are held in canonically increasing order; an axis supplied
/// decreasing is reversed at construction together with the matching
/// dimension of the sample grid.  As in the one dimensional table, `lookup`
/// takes the table exclusively because a search strategy may cache an index.
pub struct LookupTable2D<Axis1, Axis2, Dep> where Axis1: AxisImpl, Axis2: AxisImpl {
    indep1: Vec<<Axis1 as AxisImpl>::Indep>,
    search1: <Axis1 as AxisImpl>::Search,
    indep2: Vec<<Axis2 as AxisImpl>::Indep>,
    search2: <Axis2 as AxisImpl>::Search,
    dep: Grid2<Dep>,
}

impl<
    Indep1,
    Search1,
    LowerBound1,
    UpperBound1,
    Indep2,
    Search2,
    LowerBound2,
    UpperBound2,
    Dep,
> LookupTable2D<
    Axis<Indep1, Search1, LowerBound1, UpperBound1>,
    Axis<Indep2, Search2, LowerBound2, UpperBound2>,
    Dep,
> where Indep1: PartialOrd + Copy, Indep2: PartialOrd + Copy {
    /// The first axis's values, in the order the table holds them.
    pub closed spec fn axis1_view(self) -> Seq<Indep1> {
        self.indep1@
    }

    /// The second axis's values, in the order the table holds them.
    pub closed spec fn axis2_view(self) -> Seq<Indep2> {
        self.indep2@
    }

    /// The sample grid, aligned with the two axis views.
    pub closed spec fn grid_view(self) -> Grid2<Dep> {
        self.dep
    }

    /// A constructed table holds a sample grid matching both axis lengths,
    /// at least one full interval per axis, and (whenever a scalar's
    /// comparisons form a total order) strictly increasing axes.
    pub open spec fn wf(self) -> bool {
        &&& self.axis1_view().len() >= 2
        &&& self.axis2_view().len() >= 2
        &&& self.grid_view().wf()
        &&& self.grid_view().nrows() == self.axis1_view().len()
        &&& self.grid_view().ncols() == self.axis2_view().len()
        &&& total_order::<Indep1>() ==> strictly_increasing(self.axis1_view())
        &&& total_order::<Indep2>() ==> strictly_increasing(self.axis2_view())
    }

    /// Construct a new lookup table from the two axes, a search method per
    /// axis, and the grid of dependent values, whose dimension 0 runs along
    /// the first axis.
    ///
    /// Axes are validated and normalized in ascending dimension order,
    /// reversing the matching grid dimension in lockstep; the first failing
    /// check aborts construction with its error.
    pub fn new(
        indep1: Vec<Indep1>,
        search1: Search1,
        indep2: Vec<Indep2>,
        search2: Search2,
        dep: Grid2<Dep>,
    ) -> (r: Result<Self, Error>) where Dep: Copy
        requires
            dep.wf(),
        ensures
            r is Ok ==> r->Ok_0.wf(),
            Indep1::obeys_eq_spec() && Indep1::obeys_partial_cmp_spec()
                && Indep2::obeys_eq_spec() && Indep2::obeys_partial_cmp_spec() ==> match
                construct2_plan(indep1@, indep2@, dep.nrows(), dep.ncols()) {
                Err(e) => r == Result::<Self, Error>::Err(e),
                Ok(plan) => r is Ok && {
                    let t = r->Ok_0;
                    &&& t.axis1_view() == plan.0
                    &&& t.axis2_view() == plan.1
                    &&& forall|i: int, j: int|
                        0 <= i < dep.nrows() && 0 <= j < dep.ncols() ==> t.grid_view().at(i, j)
                            == dep.at(
                            if plan.2 {
                                dep.nrows() - 1 - i
                            } else {
                                i
                            },
                            if plan.3 {
                                dep.ncols() - 1 - j
                            } else {
                                j
                            },
                        )
                },
            },
    {
        let mut indep1 = indep1;
        let mut indep2 = indep2;
        let mut dep = dep;
        let ghost orig1 = indep1@;
        let ghost orig2 = indep2@;
        let ordering1 = match check_independent_variable(&indep1) {
            Err(e) => {
                return Err(e);
            },
            Ok(o) => o,
        };
        match ordering1 {
            IndependentVariableOrdering::MonotonicallyIncreasing => {
            },
            IndependentVariableOrdering::MonotonicallyDecreasing => {
                reverse_vec(&mut indep1);
                dep.invert_axis(0);
            },
        }
        match check_lengths(indep1.len(), dep.len_of(0)) {
            Err(e) => {
                return Err(e);
            },
            Ok(unit) => {
            },
        }
        let ordering2 = match check_independent_variable(&indep2) {
            Err(e) => {
                return Err(e);
            },
            Ok(o) => o,
        };
        match ordering2 {
            IndependentVariableOrdering::MonotonicallyIncreasing => {
            },
            IndependentVariableOrdering::MonotonicallyDecreasing => {
                reverse_vec(&mut indep2);
                dep.invert_axis(1);
            },
        }
        match check_lengths(indep2.len(), dep.len_of(1)) {
            Err(e) => {
                return Err(e);
            },
            Ok(unit) => {
            },
        }
        let table = Self { indep1, search1, indep2, search2, dep };
        proof {
            if total_order::<Indep1>() {
                if ordering1 != IndependentVariableOrdering::MonotonicallyIncreasing {
                    lemma_reverse_of_decreasing(orig1);
                }
                lemma_adjacent_implies_strict(table.axis1_view());
            }
            if total_order::<Indep2>() {
                if ordering2 != IndependentVariableOrdering::MonotonicallyIncreasing {
                    lemma_reverse_of_decreasing(orig2);
                }
                lemma_adjacent_implies_strict(table.axis2_view());
            }
        }
        Ok(table)
    }
}

impl<
    Indep1,
    Search1,
    LowerBound1,
    UpperBound1,
    Indep2,
    Search2,
    LowerBound2,
    UpperBound2,
    Dep,
> LookupTable2D<
    Axis<Indep1, Search1, LowerBound1, UpperBound1>,
    Axis<Indep2, Search2, LowerBound2, UpperBound2>,
    Dep,
> where
    Search1: crate::search::Search<Indep1>,
    Search2: crate::search::Search<Indep2>,
    Dep: Copy + Sub<Dep, Output = Dep> + Div<Indep1, Output = Dep> + Mul<Indep1, Output = Dep>
        + Mul<Indep2, Output = Dep> + Add<Dep, Output = Dep>,
    Indep1: Copy + Sub<Indep1, Output = Indep1> + PartialOrd + Div<Indep1, Output = Indep1>,
    Indep2: Copy + Sub<Indep2, Output = Indep2> + PartialOrd + Div<Indep2, Output = Indep2>,
    LowerBound1: Bound<Indep1>,
    UpperBound1: Bound<Indep1>,
    LowerBound2: Bound<Indep2>,
    UpperBound2: Bound<Indep2>,
 {
    /// Approximate `f(x, y)`: search both axes for the bounding intervals,
    /// bound both queries by their axis's policies, and blend the four
    /// corner samples bilinearly, the first axis collapsing first.
    ///
    /// Lookups never fail for a constructed table; the preconditions only
    /// ask that the scalar arithmetic itself is permitted.  Only the search
    /// strategies' advisory state may move.
    pub fn lookup(&mut self, x: Indep1, y: Indep2) -> (r: Dep)
        requires
            old(self).wf(),
            obeys_bilerp_arith::<Indep1, Indep2, Dep>() ==> lookup2_ops_ok(
                old(self).axis1_view(),
                old(self).axis2_view(),
                old(self).grid_view(),
                x,
                y,
            ),
            !obeys_bilerp_arith::<Indep1, Indep2, Dep>() ==> bilerp_ops_total::<
                Indep1,
                Indep2,
                Dep,
            >(),
        ensures
            final (self).axis1_view() == old(self).axis1_view(),
            final (self).axis2_view() == old(self).axis2_view(),
            final (self).grid_view() == old(self).grid_view(),
            final (self).wf(),
            total_order::<Indep1>() && total_order::<Indep2>() && obeys_bilerp_arith::<
                Indep1,
                Indep2,
                Dep,
            >() ==> lookup2_post::<
                Indep1,
                Indep2,
                Dep,
                LowerBound1,
                UpperBound1,
                LowerBound2,
                UpperBound2,
            >(old(self).axis1_view(), old(self).axis2_view(), old(self).grid_view(), x, y, r),
    {
        let ghost a1 = self.indep1@;
        let ghost a2 = self.indep2@;
        let ghost g = self.dep;
        let (idx_x_1, idx_x_2) = self.search1.search(x, &self.indep1);
        let (idx_y_1, idx_y_2) = self.search2.search(y, &self.indep2);

        let x_1: Indep1 = self.indep1[idx_x_1];
        let x_2: Indep1 = self.indep1[idx_x_2];

        let y_1: Indep2 = self.indep2[idx_y_1];
        let y_2: Indep2 = self.indep2[idx_y_2];

        let f_1_1: Dep = self.dep.get(idx_x_1, idx_y_1);
        let f_1_2: Dep = self.dep.get(idx_x_1, idx_y_2);
        let f_2_1: Dep = self.dep.get(idx_x_2, idx_y_1);
        let f_2_2: Dep = self.dep.get(idx_x_2, idx_y_2);

        // bound both queries according to the axis each interpolates on;
        // indexing is safe as each axis has at least two values
        let x_b = LowerBound1::lower_bound(x, self.indep1[0]);
        let x_b = UpperBound1::upper_bound(x_b, self.indep1[self.indep1.len() - 1]);

        let y_b = LowerBound2::lower_bound(y, self.indep2[0]);
        let y_b = UpperBound2::upper_bound(y_b, self.indep2[self.indep2.len() - 1]);

        proof {
            if obeys_bilerp_arith::<Indep1, Indep2, Dep>() {
                assert(bilerp_ops_ok(
                    a1[idx_x_1 as int],
                    a1[idx_x_1 as int + 1],
                    a2[idx_y_1 as int],
                    a2[idx_y_1 as int + 1],
                    g.at(idx_x_1 as int, idx_y_1 as int),
                    g.at(idx_x_1 as int, idx_y_1 as int + 1),
                    g.at(idx_x_1 as int + 1, idx_y_1 as int),
                    g.at(idx_x_1 as int + 1, idx_y_1 as int + 1),
                    x_b,
                    y_b,
                ));
            }
        }
        let x_slope1 = (x_2 - x_b) / (x_2 - x_1);
        let x_slope2 = (x_b - x_1) / (x_2 - x_1);
        let y_slope1 = (y_2 - y_b) / (y_2 - y_1);
        let y_slope2 = (y_b - y_1) / (y_2 - y_1);

        let f_x_y1 = f_1_1 * x_slope1 + f_2_1 * x_slope2;
        let f_x_y2 = f_1_2 * x_slope1 + f_2_2 * x_slope2;

        let r = f_x_y1 * y_slope1 + f_x_y2 * y_slope2;
        proof {
            if total_order::<Indep1>() && total_order::<Indep2>() && obeys_bilerp_arith::<
                Indep1,
                Indep2,
                Dep,
            >() {
                assert(valid_interval(a1, x, idx_x_1 as int));
                assert(valid_interval(a2, y, idx_y_1 as int));
                assert(x_b == bounded_query::<Indep1, LowerBound1, UpperBound1>(a1, x));
                assert(y_b == bounded_query::<Indep2, LowerBound2, UpperBound2>(a2, y));
                assert(r == bilerp_spec(
                    a1[idx_x_1 as int],
                    a1[idx_x_1 as int + 1],
                    a2[idx_y_1 as int],
                    a2[idx_y_1 as int + 1],
                    g.at(idx_x_1 as int, idx_y_1 as int),
                    g.at(idx_x_1 as int, idx_y_1 as int + 1),
                    g.at(idx_x_1 as int + 1, idx_y_1 as int),
                    g.at(idx_x_1 as int + 1, idx_y_1 as int + 1),
                    bounded_query::<Indep1, LowerBound1, UpperBound1>(a1, x),
                    bounded_query::<Indep2, LowerBound2, UpperBound2>(a2, y),
                ));
            }
        }
        r
    }
}

} // verus!
