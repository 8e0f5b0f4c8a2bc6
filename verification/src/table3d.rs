//! Three dimensional lookup table: approximate `f(x, y, z)` given `x`, `y`
//! and `z`.
//!
//! Each axis is validated and normalized independently, in ascending
//! dimension order, with the matching dimension of the sample grid reversed
//! whenever its axis is; `lookup` searches the three axes, bounds the three
//! query values, and blends the eight corner samples trilinearly.

use vstd::prelude::*;

use crate::axis::{Axis, AxisImpl};
use crate::bound::Bound;
use crate::common::{
    check_independent_variable, check_lengths, check_lengths_spec, classify_axis, reverse_vec,
    IndependentVariableOrdering,
};
use crate::grid::Grid3;
use crate::order::{
    lemma_adjacent_implies_strict, lemma_reverse_of_decreasing, strictly_increasing, total_order,
};
use crate::search::{valid_interval, Search};
use crate::table1d::bounded_query;
use crate::Error;
use core::ops::{Add, Div, Mul, Sub};
use vstd::std_specs::cmp::PartialEqSpec;
use vstd::std_specs::cmp::PartialOrdSpec;
use vstd::std_specs::ops::{AddSpec, DivSpec, MulSpec, SubSpec};

verus! {

/// The trilinear blend, written with the specification functions of the
/// scalars' arithmetic in the same shape the executable code computes it:
/// the eight corner samples are weighted by complementary fractional
/// positions along each axis, the first axis collapsing first, then the
/// second, then the third.
pub open spec fn trilerp_spec<Indep1, Indep2, Indep3, Dep>(
    x_1: Indep1,
    x_2: Indep1,
    y_1: Indep2,
    y_2: Indep2,
    z_1: Indep3,
    z_2: Indep3,
    f_1_1_1: Dep,
    f_1_1_2: Dep,
    f_1_2_1: Dep,
    f_1_2_2: Dep,
    f_2_1_1: Dep,
    f_2_1_2: Dep,
    f_2_2_1: Dep,
    f_2_2_2: Dep,
    x: Indep1,
    y: Indep2,
    z: Indep3,
) -> Dep
    where
        Indep1: Sub<Indep1, Output = Indep1> + Div<Indep1, Output = Indep1>,
        Indep2: Sub<Indep2, Output = Indep2> + Div<Indep2, Output = Indep2>,
        Indep3: Sub<Indep3, Output = Indep3> + Div<Indep3, Output = Indep3>,
        Dep: Mul<Indep1, Output = Dep> + Mul<Indep2, Output = Dep> + Mul<Indep3, Output = Dep>
            + Add<Dep, Output = Dep>,
{
    let x_slope1 = (x_2.sub_spec(x)).div_spec(x_2.sub_spec(x_1));
    let x_slope2 = (x.sub_spec(x_1)).div_spec(x_2.sub_spec(x_1));
    let y_slope1 = (y_2.sub_spec(y)).div_spec(y_2.sub_spec(y_1));
    let y_slope2 = (y.sub_spec(y_1)).div_spec(y_2.sub_spec(y_1));
    let z_slope1 = (z_2.sub_spec(z)).div_spec(z_2.sub_spec(z_1));
    let z_slope2 = (z.sub_spec(z_1)).div_spec(z_2.sub_spec(z_1));
    let f_1_1 = (f_1_1_1.mul_spec(x_slope1)).add_spec(f_2_1_1.mul_spec(x_slope2));
    let f_1_2 = (f_1_1_2.mul_spec(x_slope1)).add_spec(f_2_1_2.mul_spec(x_slope2));
    let f_2_1 = (f_1_2_1.mul_spec(x_slope1)).add_spec(f_2_2_1.mul_spec(x_slope2));
    let f_2_2 = (f_1_2_2.mul_spec(x_slope1)).add_spec(f_2_2_2.mul_spec(x_slope2));
    let f_1 = (f_1_1.mul_spec(y_slope1)).add_spec(f_2_1.mul_spec(y_slope2));
    let f_2 = (f_1_2.mul_spec(y_slope1)).add_spec(f_2_2.mul_spec(y_slope2));
    (f_1.mul_spec(z_slope1)).add_spec(f_2.mul_spec(z_slope2))
}

/// Every arithmetic step of one trilinear blend over the given cell at the
/// bounded queries `x`, `y`, `z` is permitted by the scalar types.
pub open spec fn trilerp_ops_ok<Indep1, Indep2, Indep3, Dep>(
    x_1: Indep1,
    x_2: Indep1,
    y_1: Indep2,
    y_2: Indep2,
    z_1: Indep3,
    z_2: Indep3,
    f_1_1_1: Dep,
    f_1_1_2: Dep,
    f_1_2_1: Dep,
    f_1_2_2: Dep,
    f_2_1_1: Dep,
    f_2_1_2: Dep,
    f_2_2_1: Dep,
    f_2_2_2: Dep,
    x: Indep1,
    y: Indep2,
    z: Indep3,
) -> bool
    where
        Indep1: Sub<Indep1, Output = Indep1> + Div<Indep1, Output = Indep1>,
        Indep2: Sub<Indep2, Output = Indep2> + Div<Indep2, Output = Indep2>,
        Indep3: Sub<Indep3, Output = Indep3> + Div<Indep3, Output = Indep3>,
        Dep: Mul<Indep1, Output = Dep> + Mul<Indep2, Output = Dep> + Mul<Indep3, Output = Dep>
            + Add<Dep, Output = Dep>,
{
    let dx = x_2.sub_spec(x_1);
    let x_slope1 = (x_2.sub_spec(x)).div_spec(dx);
    let x_slope2 = (x.sub_spec(x_1)).div_spec(dx);
    let dy = y_2.sub_spec(y_1);
    let y_slope1 = (y_2.sub_spec(y)).div_spec(dy);
    let y_slope2 = (y.sub_spec(y_1)).div_spec(dy);
    let dz = z_2.sub_spec(z_1);
    let z_slope1 = (z_2.sub_spec(z)).div_spec(dz);
    let z_slope2 = (z.sub_spec(z_1)).div_spec(dz);
    let f_1_1 = (f_1_1_1.mul_spec(x_slope1)).add_spec(f_2_1_1.mul_spec(x_slope2));
    let f_1_2 = (f_1_1_2.mul_spec(x_slope1)).add_spec(f_2_1_2.mul_spec(x_slope2));
    let f_2_1 = (f_1_2_1.mul_spec(x_slope1)).add_spec(f_2_2_1.mul_spec(x_slope2));
    let f_2_2 = (f_1_2_2.mul_spec(x_slope1)).add_spec(f_2_2_2.mul_spec(x_slope2));
    let f_1 = (f_1_1.mul_spec(y_slope1)).add_spec(f_2_1.mul_spec(y_slope2));
    let f_2 = (f_1_2.mul_spec(y_slope1)).add_spec(f_2_2.mul_spec(y_slope2));
    &&& x_2.sub_req(x)
    &&& x_2.sub_req(x_1)
    &&& (x_2.sub_spec(x)).div_req(dx)
    &&& x.sub_req(x_1)
    &&& (x.sub_spec(x_1)).div_req(dx)
    &&& y_2.sub_req(y)
    &&& y_2.sub_req(y_1)
    &&& (y_2.sub_spec(y)).div_req(dy)
    &&& y.sub_req(y_1)
    &&& (y.sub_spec(y_1)).div_req(dy)
    &&& z_2.sub_req(z)
    &&& z_2.sub_req(z_1)
    &&& (z_2.sub_spec(z)).div_req(dz)
    &&& z.sub_req(z_1)
    &&& (z.sub_spec(z_1)).div_req(dz)
    &&& f_1_1_1.mul_req(x_slope1)
    &&& f_2_1_1.mul_req(x_slope2)
    &&& (f_1_1_1.mul_spec(x_slope1)).add_req(f_2_1_1.mul_spec(x_slope2))
    &&& f_1_1_2.mul_req(x_slope1)
    &&& f_2_1_2.mul_req(x_slope2)
    &&& (f_1_1_2.mul_spec(x_slope1)).add_req(f_2_1_2.mul_spec(x_slope2))
    &&& f_1_2_1.mul_req(x_slope1)
    &&& f_2_2_1.mul_req(x_slope2)
    &&& (f_1_2_1.mul_spec(x_slope1)).add_req(f_2_2_1.mul_spec(x_slope2))
    &&& f_1_2_2.mul_req(x_slope1)
    &&& f_2_2_2.mul_req(x_slope2)
    &&& (f_1_2_2.mul_spec(x_slope1)).add_req(f_2_2_2.mul_spec(x_slope2))
    &&& f_1_1.mul_req(y_slope1)
    &&& f_2_1.mul_req(y_slope2)
    &&& (f_1_1.mul_spec(y_slope1)).add_req(f_2_1.mul_spec(y_slope2))
    &&& f_1_2.mul_req(y_slope1)
    &&& f_2_2.mul_req(y_slope2)
    &&& (f_1_2.mul_spec(y_slope1)).add_req(f_2_2.mul_spec(y_slope2))
    &&& f_1.mul_req(z_slope1)
    &&& f_2.mul_req(z_slope2)
    &&& (f_1.mul_spec(z_slope1)).add_req(f_2.mul_spec(z_slope2))
}

/// The scalar types' arithmetic used by the trilinear blend obeys its
/// specification functions.
pub open spec fn obeys_trilerp_arith<Indep1, Indep2, Indep3, Dep>() -> bool
    where
        Indep1: Sub<Indep1, Output = Indep1> + Div<Indep1, Output = Indep1>,
        Indep2: Sub<Indep2, Output = Indep2> + Div<Indep2, Output = Indep2>,
        Indep3: Sub<Indep3, Output = Indep3> + Div<Indep3, Output = Indep3>,
        Dep: Mul<Indep1, Output = Dep> + Mul<Indep2, Output = Dep> + Mul<Indep3, Output = Dep>
            + Add<Dep, Output = Dep>,
{
    &&& <Indep1 as SubSpec<Indep1>>::obeys_sub_spec()
    &&& <Indep1 as DivSpec<Indep1>>::obeys_div_spec()
    &&& <Indep2 as SubSpec<Indep2>>::obeys_sub_spec()
    &&& <Indep2 as DivSpec<Indep2>>::obeys_div_spec()
    &&& <Indep3 as SubSpec<Indep3>>::obeys_sub_spec()
    &&& <Indep3 as DivSpec<Indep3>>::obeys_div_spec()
    &&& <Dep as MulSpec<Indep1>>::obeys_mul_spec()
    &&& <Dep as MulSpec<Indep2>>::obeys_mul_spec()
    &&& <Dep as MulSpec<Indep3>>::obeys_mul_spec()
    &&& <Dep as AddSpec<Dep>>::obeys_add_spec()
}

/// Every operation of the trilinear blend is permitted on all values of the
/// scalar types: the precondition for scalars whose arithmetic has no
/// specification.
pub open spec fn trilerp_ops_total<Indep1, Indep2, Indep3, Dep>() -> bool
    where
        Indep1: Sub<Indep1, Output = Indep1> + Div<Indep1, Output = Indep1>,
        Indep2: Sub<Indep2, Output = Indep2> + Div<Indep2, Output = Indep2>,
        Indep3: Sub<Indep3, Output = Indep3> + Div<Indep3, Output = Indep3>,
        Dep: Mul<Indep1, Output = Dep> + Mul<Indep2, Output = Dep> + Mul<Indep3, Output = Dep>
            + Add<Dep, Output = Dep>,
{
    &&& forall|a: Indep1, b: Indep1| #[trigger] a.sub_req(b)
    &&& forall|a: Indep1, b: Indep1| #[trigger] a.div_req(b)
    &&& forall|a: Indep2, b: Indep2| #[trigger] a.sub_req(b)
    &&& forall|a: Indep2, b: Indep2| #[trigger] a.div_req(b)
    &&& forall|a: Indep3, b: Indep3| #[trigger] a.sub_req(b)
    &&& forall|a: Indep3, b: Indep3| #[trigger] a.div_req(b)
    &&& forall|a: Dep, b: Indep1| #[trigger] a.mul_req(b)
    &&& forall|a: Dep, b: Indep2| #[trigger] a.mul_req(b)
    &&& forall|a: Dep, b: Indep3| #[trigger] a.mul_req(b)
    &&& forall|a: Dep, b: Dep| #[trigger] a.add_req(b)
}

/// The trilinear arithmetic is permitted over every cell of the table, for
/// each triple of values the bound policies can hand it.
pub open spec fn lookup3_ops_ok<Indep1, Indep2, Indep3, Dep>(
    a1: Seq<Indep1>,
    a2: Seq<Indep2>,
    a3: Seq<Indep3>,
    g: Grid3<Dep>,
    x: Indep1,
    y: Indep2,
    z: Indep3,
) -> bool
    where
        Indep1: Sub<Indep1, Output = Indep1> + Div<Indep1, Output = Indep1>,
        Indep2: Sub<Indep2, Output = Indep2> + Div<Indep2, Output = Indep2>,
        Indep3: Sub<Indep3, Output = Indep3> + Div<Indep3, Output = Indep3>,
        Dep: Mul<Indep1, Output = Dep> + Mul<Indep2, Output = Dep> + Mul<Indep3, Output = Dep>
            + Add<Dep, Output = Dep>,
{
    forall|lo1: int, lo2: int, lo3: int, xb: Indep1, yb: Indep2, zb: Indep3|
        (0 <= lo1 < a1.len() - 1 && 0 <= lo2 < a2.len() - 1 && 0 <= lo3 < a3.len() - 1
            && (xb == x || xb == a1[0] || xb == a1[a1.len() - 1])
            && (yb == y || yb == a2[0] || yb == a2[a2.len() - 1])
            && (zb == z || zb == a3[0] || zb == a3[a3.len() - 1])) ==> #[trigger] trilerp_ops_ok(
            a1[lo1],
            a1[lo1 + 1],
            a2[lo2],
            a2[lo2 + 1],
            a3[lo3],
            a3[lo3 + 1],
            g.at(lo1, lo2, lo3),
            g.at(lo1, lo2, lo3 + 1),
            g.at(lo1, lo2 + 1, lo3),
            g.at(lo1, lo2 + 1, lo3 + 1),
            g.at(lo1 + 1, lo2, lo3),
            g.at(lo1 + 1, lo2, lo3 + 1),
            g.at(lo1 + 1, lo2 + 1, lo3),
            g.at(lo1 + 1, lo2 + 1, lo3 + 1),
            xb,
            yb,
            zb,
        )
}

/// What construction decides from the three axes and the grid dimensions:
/// per axis, in ascending dimension order, classification, normalization
/// and the length checks.  On success it yields the normalized axes and
/// whether each dimension of the grid is to be reversed.
pub open spec fn construct3_plan<Indep1: PartialOrd, Indep2: PartialOrd, Indep3: PartialOrd>(
    indep1: Seq<Indep1>,
    indep2: Seq<Indep2>,
    indep3: Seq<Indep3>,
    len0: int,
    len1: int,
    len2: int,
) -> Result<(Seq<Indep1>, Seq<Indep2>, Seq<Indep3>, bool, bool, bool), Error> {
    match classify_axis(indep1) {
        Err(e) => Err(e),
        Ok(o1) => {
            let rev1 = o1 == IndependentVariableOrdering::MonotonicallyDecreasing;
            let s1 = if rev1 {
                indep1.reverse()
            } else {
                indep1
            };
            match check_lengths_spec(s1.len() as int, len0) {
                Err(e) => Err(e),
                Ok(u1) => match classify_axis(indep2) {
                    Err(e) => Err(e),
                    Ok(o2) => {
                        let rev2 = o2 == IndependentVariableOrdering::MonotonicallyDecreasing;
                        let s2 = if rev2 {
                            indep2.reverse()
                        } else {
                            indep2
                        };
                        match check_lengths_spec(s2.len() as int, len1) {
                            Err(e) => Err(e),
                            Ok(u2) => match classify_axis(indep3) {
                                Err(e) => Err(e),
                                Ok(o3) => {
                                    let rev3 = o3
                                        == IndependentVariableOrdering::MonotonicallyDecreasing;
                                    let s3 = if rev3 {
                                        indep3.reverse()
                                    } else {
                                        indep3
                                    };
                                    match check_lengths_spec(s3.len() as int, len2) {
                                        Err(e) => Err(e),
                                        Ok(u3) => Ok((s1, s2, s3, rev1, rev2, rev3)),
                                    }
                                },
                            },
                        }
                    },
                },
            }
        },
    }
}

/// Direction of the first axis's input ordering is unobservable in the
/// construction plan: a strictly decreasing first axis yields the same
/// normalized axes and the same errors as the pre-reversed one, with only
/// the flag that mirrors the grid's first dimension flipped.  The same
/// argument applies to the other two axes by symmetry.
pub proof fn lemma_reversed_axis1_same_plan3<
    Indep1: PartialOrd,
    Indep2: PartialOrd,
    Indep3: PartialOrd,
>(
    indep1: Seq<Indep1>,
    indep2: Seq<Indep2>,
    indep3: Seq<Indep3>,
    len0: int,
    len1: int,
    len2: int,
)
    requires
        total_order::<Indep1>(),
        crate::order::adjacent_decreasing(indep1),
        indep1.len() >= 2,
    ensures
        construct3_plan(indep1.reverse(), indep2, indep3, len0, len1, len2) == (match
            construct3_plan(indep1, indep2, indep3, len0, len1, len2) {
            Ok(plan) => Ok::<(Seq<Indep1>, Seq<Indep2>, Seq<Indep3>, bool, bool, bool), Error>(
                (plan.0, plan.1, plan.2, false, plan.4, plan.5),
            ),
            Err(e) => Err::<(Seq<Indep1>, Seq<Indep2>, Seq<Indep3>, bool, bool, bool), Error>(e),
        }),
{
    crate::common::lemma_classify_decreasing(indep1);
}

/// What a lookup returns: the trilinear blend of the eight corner samples of
/// some triple of valid intervals for the raw queries, evaluated at the
/// bounded queries.
pub open spec fn lookup3_post<
    Indep1,
    Indep2,
    Indep3,
    Dep,
    LowerBound1,
    UpperBound1,
    LowerBound2,
    UpperBound2,
    LowerBound3,
    UpperBound3,
>(
    a1: Seq<Indep1>,
    a2: Seq<Indep2>,
    a3: Seq<Indep3>,
    g: Grid3<Dep>,
    x: Indep1,
    y: Indep2,
    z: Indep3,
    r: Dep,
) -> bool
    where
        Indep1: PartialOrd + Copy + Sub<Indep1, Output = Indep1> + Div<Indep1, Output = Indep1>,
        Indep2: PartialOrd + Copy + Sub<Indep2, Output = Indep2> + Div<Indep2, Output = Indep2>,
        Indep3: PartialOrd + Copy + Sub<Indep3, Output = Indep3> + Div<Indep3, Output = Indep3>,
        Dep: Mul<Indep1, Output = Dep> + Mul<Indep2, Output = Dep> + Mul<Indep3, Output = Dep>
            + Add<Dep, Output = Dep>,
        LowerBound1: Bound<Indep1>,
        UpperBound1: Bound<Indep1>,
        LowerBound2: Bound<Indep2>,
        UpperBound2: Bound<Indep2>,
        LowerBound3: Bound<Indep3>,
        UpperBound3: Bound<Indep3>,
{
    exists|lo1: int, lo2: int, lo3: int|
        #![trigger valid_interval(a1, x, lo1), valid_interval(a2, y, lo2), valid_interval(a3, z, lo3)]
        {
            &&& 0 <= lo1 < a1.len() - 1
            &&& 0 <= lo2 < a2.len() - 1
            &&& 0 <= lo3 < a3.len() - 1
            &&& valid_interval(a1, x, lo1)
            &&& valid_interval(a2, y, lo2)
            &&& valid_interval(a3, z, lo3)
            &&& r == trilerp_spec(
                a1[lo1],
                a1[lo1 + 1],
                a2[lo2],
                a2[lo2 + 1],
                a3[lo3],
                a3[lo3 + 1],
                g.at(lo1, lo2, lo3),
                g.at(lo1, lo2, lo3 + 1),
                g.at(lo1, lo2 + 1, lo3),
                g.at(lo1, lo2 + 1, lo3 + 1),
                g.at(lo1 + 1, lo2, lo3),
                g.at(lo1 + 1, lo2, lo3 + 1),
                g.at(lo1 + 1, lo2 + 1, lo3),
                g.at(lo1 + 1, lo2 + 1, lo3 + 1),
                bounded_query::<Indep1, LowerBound1, UpperBound1>(a1, x),
                bounded_query::<Indep2, LowerBound2, UpperBound2>(a2, y),
                bounded_query::<Indep3, LowerBound3, UpperBound3>(a3, z),
            )
        }
}

/// Three dimensional lookup table: approximate `f(x, y, z)` given `x`, `y`
/// and `z`.
///
/// The axes are held in canonically increasing order; an axis supplied
/// decreasing is reversed at construction together with the matching
/// dimension of the sample grid.  As in the one dimensional table, `lookup`
/// takes the table exclusively because a search strategy may cache an index.
pub struct LookupTable3D<Axis1, Axis2, Axis3, Dep> where
    Axis1: AxisImpl,
    Axis2: AxisImpl,
    Axis3: AxisImpl,
 {
    indep1: Vec<<Axis1 as AxisImpl>::Indep>,
    search1: <Axis1 as AxisImpl>::Search,
    indep2: Vec<<Axis2 as AxisImpl>::Indep>,
    search2: <Axis2 as AxisImpl>::Search,
    indep3: Vec<<Axis3 as AxisImpl>::Indep>,
    search3: <Axis3 as AxisImpl>::Search,
    dep: Grid3<Dep>,
}

impl<
    Indep1,
    Search1,
    LowerBound1,
    UpperBound1,
    Indep2,
    Search2,
    LowerBound2,
    UpperBound2,
    Indep3,
    Search3,
    LowerBound3,
    UpperBound3,
    Dep,
> LookupTable3D<
    Axis<Indep1, Search1, LowerBound1, UpperBound1>,
    Axis<Indep2, Search2, LowerBound2, UpperBound2>,
    Axis<Indep3, Search3, LowerBound3, UpperBound3>,
    Dep,
> where Indep1: PartialOrd + Copy, Indep2: PartialOrd + Copy, Indep3: PartialOrd + Copy {
    /// The first axis's values, in the order the table holds them.
    pub closed spec fn axis1_view(self) -> Seq<Indep1> {
        self.indep1@
    }

    /// The second axis's values, in the order the table holds them.
    pub closed spec fn axis2_view(self) -> Seq<Indep2> {
        self.indep2@
    }

    /// The third axis's values, in the order the table holds them.
    pub closed spec fn axis3_view(self) -> Seq<Indep3> {
        self.indep3@
    }

    /// The sample grid, aligned with the three axis views.
    pub closed spec fn grid_view(self) -> Grid3<Dep> {
        self.dep
    }

    /// A constructed table holds a sample grid matching the three axis
    /// lengths, at least one full interval per axis, and (whenever a
    /// scalar's comparisons form a total order) strictly increasing axes.
    pub open spec fn wf(self) -> bool {
        &&& self.axis1_view().len() >= 2
        &&& self.axis2_view().len() >= 2
        &&& self.axis3_view().len() >= 2
        &&& self.grid_view().wf()
        &&& self.grid_view().nlen0() == self.axis1_view().len()
        &&& self.grid_view().nlen1() == self.axis2_view().len()
        &&& self.grid_view().nlen2() == self.axis3_view().len()
        &&& total_order::<Indep1>() ==> strictly_increasing(self.axis1_view())
        &&& total_order::<Indep2>() ==> strictly_increasing(self.axis2_view())
        &&& total_order::<Indep3>() ==> strictly_increasing(self.axis3_view())
    }

    /// Construct a new lookup table from the three axes, a search method per
    /// axis, and the grid of dependent values, whose dimension 0 runs along
    /// the first axis.
    ///
    /// Axes are validated and normalized in ascending dimension order,
    /// reversing the matching grid dimension in lockstep; the first failing
    /// check aborts construction with its error.
    pub fn new(
        indep1: Vec<Indep1>,
        search1: Search1,
        indep2: Vec<Indep2>,
        search2: Search2,
        indep3: Vec<Indep3>,
        search3: Search3,
        dep: Grid3<Dep>,
    ) -> (r: Result<Self, Error>) where Dep: Copy
        requires
            dep.wf(),
        ensures
            r is Ok ==> r->Ok_0.wf(),
            Indep1::obeys_eq_spec() && Indep1::obeys_partial_cmp_spec()
                && Indep2::obeys_eq_spec() && Indep2::obeys_partial_cmp_spec()
                && Indep3::obeys_eq_spec() && Indep3::obeys_partial_cmp_spec() ==> match
                construct3_plan(
                indep1@,
                indep2@,
                indep3@,
                dep.nlen0(),
                dep.nlen1(),
                dep.nlen2(),
            ) {
                Err(e) => r == Result::<Self, Error>::Err(e),
                Ok(plan) => r is Ok && {
                    let t = r->Ok_0;
                    &&& t.axis1_view() == plan.0
                    &&& t.axis2_view() == plan.1
                    &&& t.axis3_view() == plan.2
                    &&& forall|i: int, j: int, l: int|
                        0 <= i < dep.nlen0() && 0 <= j < dep.nlen1() && 0 <= l < dep.nlen2()
                            ==> t.grid_view().at(i, j, l) == dep.at(
                            if plan.3 {
                                dep.nlen0() - 1 - i
                            } else {
                                i
                            },
                            if plan.4 {
                                dep.nlen1() - 1 - j
                            } else {
                                j
                            },
                            if plan.5 {
                                dep.nlen2() - 1 - l
                            } else {
                                l
                            },
                        )
                },
            },
    {
        let mut indep1 = indep1;
        let mut indep2 = indep2;
        let mut indep3 = indep3;
        let mut dep = dep;
        let ghost orig1 = indep1@;
        let ghost orig2 = indep2@;
        let ghost orig3 = indep3@;
        let ordering1 = match check_independent_variable(&indep1) {
            Err(e) => {
                return Err(e);
            },
            Ok(o) => o,
        };
        match ordering1 {
            IndependentVariableOrdering::MonotonicallyIncreasing => {
            },
            IndependentVariableOrdering::MonotonicallyDecreasing => {
                reverse_vec(&mut indep1);
                dep.invert_axis(0);
            },
        }
        match check_lengths(indep1.len(), dep.len_of(0)) {
            Err(e) => {
                return Err(e);
            },
            Ok(unit) => {
            },
        }
        let ordering2 = match check_independent_variable(&indep2) {
            Err(e) => {
                return Err(e);
            },
            Ok(o) => o,
        };
        match ordering2 {
            IndependentVariableOrdering::MonotonicallyIncreasing => {
            },
            IndependentVariableOrdering::MonotonicallyDecreasing => {
                reverse_vec(&mut indep2);
                dep.invert_axis(1);
            },
        }
        match check_lengths(indep2.len(), dep.len_of(1)) {
            Err(e) => {
                return Err(e);
            },
            Ok(unit) => {
            },
        }
        let ordering3 = match check_independent_variable(&indep3) {
            Err(e) => {
                return Err(e);
            },
            Ok(o) => o,
        };
        match ordering3 {
            IndependentVariableOrdering::MonotonicallyIncreasing => {
            },
            IndependentVariableOrdering::MonotonicallyDecreasing => {
                reverse_vec(&mut indep3);
                dep.invert_axis(2);
            },
        }
        match check_lengths(indep3.len(), dep.len_of(2)) {
            Err(e) => {
                return Err(e);
            },
            Ok(unit) => {
            },
        }
        let table = Self { indep1, search1, indep2, search2, indep3, search3, dep };
        proof {
            if total_order::<Indep1>() {
                if ordering1 != IndependentVariableOrdering::MonotonicallyIncreasing {
                    lemma_reverse_of_decreasing(orig1);
                }
                lemma_adjacent_implies_strict(table.axis1_view());
            }
            if total_order::<Indep2>() {
                if ordering2 != IndependentVariableOrdering::MonotonicallyIncreasing {
                    lemma_reverse_of_decreasing(orig2);
                }
                lemma_adjacent_implies_strict(table.axis2_view());
            }
            if total_order::<Indep3>() {
                if ordering3 != IndependentVariableOrdering::MonotonicallyIncreasing {
                    lemma_reverse_of_decreasing(orig3);
                }
                lemma_adjacent_implies_strict(table.axis3_view());
            }
        }
        Ok(table)
    }
}

impl<
    Indep1,
    Search1,
    LowerBound1,
    UpperBound1,
    Indep2,
    Search2,
    LowerBound2,
    UpperBound2,
    Indep3,
    Search3,
    LowerBound3,
    UpperBound3,
    Dep,
> LookupTable3D<
    Axis<Indep1, Search1, LowerBound1, UpperBound1>,
    Axis<Indep2, Search2, LowerBound2, UpperBound2>,
    Axis<Indep3, Search3, LowerBound3, UpperBound3>,
    Dep,
> where
    Search1: crate::search::Search<Indep1>,
    Search2: crate::search::Search<Indep2>,
    Search3: crate::search::Search<Indep3>,
    Dep: Copy + Sub<Dep, Output = Dep> + Div<Indep1, Output = Dep> + Mul<Indep1, Output = Dep>
        + Mul<Indep2, Output = Dep> + Mul<Indep3, Output = Dep> + Add<Dep, Output = Dep>,
    Indep1: Copy + Sub<Indep1, Output = Indep1> + PartialOrd + Div<Indep1, Output = Indep1>,
    Indep2: Copy + Sub<Indep2, Output = Indep2> + PartialOrd + Div<Indep2, Output = Indep2>,
    Indep3: Copy + Sub<Indep3, Output = Indep3> + PartialOrd + Div<Indep3, Output = Indep3>,
    LowerBound1: Bound<Indep1>,
    UpperBound1: Bound<Indep1>,
    LowerBound2: Bound<Indep2>,
    UpperBound2: Bound<Indep2>,
    LowerBound3: Bound<Indep3>,
    UpperBound3: Bound<Indep3>,
 {
    /// Approximate `f(x, y, z)`: search the three axes for the bounding
    /// intervals, bound the three queries by their axis's policies, and
    /// blend the eight corner samples trilinearly, the first axis collapsing
    /// first, then the second, then the third.
    ///
    /// Lookups never fail for a constructed table; the preconditions only
    /// ask that the scalar arithmetic itself is permitted.  Only the search
    /// strategies' advisory state may move.
    pub fn lookup(&mut self, x: Indep1, y: Indep2, z: Indep3) -> (r: Dep)
        requires
            old(self).wf(),
            obeys_trilerp_arith::<Indep1, Indep2, Indep3, Dep>() ==> lookup3_ops_ok(
                old(self).axis1_view(),
                old(self).axis2_view(),
                old(self).axis3_view(),
                old(self).grid_view(),
                x,
                y,
                z,
            ),
            !obeys_trilerp_arith::<Indep1, Indep2, Indep3, Dep>() ==> trilerp_ops_total::<
                Indep1,
                Indep2,
                Indep3,
                Dep,
            >(),
        ensures
            final (self).axis1_view() == old(self).axis1_view(),
            final (self).axis2_view() == old(self).axis2_view(),
            final (self).axis3_view() == old(self).axis3_view(),
            final (self).grid_view() == old(self).grid_view(),
            final (self).wf(),
            total_order::<Indep1>() && total_order::<Indep2>() && total_order::<Indep3>()
                && obeys_trilerp_arith::<Indep1, Indep2, Indep3, Dep>() ==> lookup3_post::<
                Indep1,
                Indep2,
                Indep3,
                Dep,
                LowerBound1,
                UpperBound1,
                LowerBound2,
                UpperBound2,
                LowerBound3,
                UpperBound3,
            >(
                old(self).axis1_view(),
                old(self).axis2_view(),
                old(self).axis3_view(),
                old(self).grid_view(),
                x,
                y,
                z,
                r,
            ),
    {
        let ghost a1 = self.indep1@;
        let ghost a2 = self.indep2@;
        let ghost a3 = self.indep3@;
        let ghost g = self.dep;
        let (idx_x_1, idx_x_2) = self.search1.search(x, &self.indep1);
        let (idx_y_1, idx_y_2) = self.search2.search(y, &self.indep2);
        let (idx_z_1, idx_z_2) = self.search3.search(z, &self.indep3);

        let x_1: Indep1 = self.indep1[idx_x_1];
        let x_2: Indep1 = self.indep1[idx_x_2];

        let y_1: Indep2 = self.indep2[idx_y_1];
        let y_2: Indep2 = self.indep2[idx_y_2];

        let z_1: Indep3 = self.indep3[idx_z_1];
        let z_2: Indep3 = self.indep3[idx_z_2];

        // function evaluations at the bounding indices
        let f_1_1_1: Dep = self.dep.get(idx_x_1, idx_y_1, idx_z_1);
        let f_1_1_2: Dep = self.dep.get(idx_x_1, idx_y_1, idx_z_2);
        let f_1_2_1: Dep = self.dep.get(idx_x_1, idx_y_2, idx_z_1);
        let f_1_2_2: Dep = self.dep.get(idx_x_1, idx_y_2, idx_z_2);
        let f_2_1_1: Dep = self.dep.get(idx_x_2, idx_y_1, idx_z_1);
        let f_2_1_2: Dep = self.dep.get(idx_x_2, idx_y_1, idx_z_2);
        let f_2_2_1: Dep = self.dep.get(idx_x_2, idx_y_2, idx_z_1);
        let f_2_2_2: Dep = self.dep.get(idx_x_2, idx_y_2, idx_z_2);

        // bound the queries according to the axis each interpolates on;
        // indexing is safe as each axis has at least two values
        let x_b = LowerBound1::lower_bound(x, self.indep1[0]);
        let x_b = UpperBound1::upper_bound(x_b, self.indep1[self.indep1.len() - 1]);

        let y_b = LowerBound2::lower_bound(y, self.indep2[0]);
        let y_b = UpperBound2::upper_bound(y_b, self.indep2[self.indep2.len() - 1]);

        let z_b = LowerBound3::lower_bound(z, self.indep3[0]);
        let z_b = UpperBound3::upper_bound(z_b, self.indep3[self.indep3.len() - 1]);

        proof {
            if obeys_trilerp_arith::<Indep1, Indep2, Indep3, Dep>() {
                assert(trilerp_ops_ok(
                    a1[idx_x_1 as int],
                    a1[idx_x_1 as int + 1],
                    a2[idx_y_1 as int],
                    a2[idx_y_1 as int + 1],
                    a3[idx_z_1 as int],
                    a3[idx_z_1 as int + 1],
                    g.at(idx_x_1 as int, idx_y_1 as int, idx_z_1 as int),
                    g.at(idx_x_1 as int, idx_y_1 as int, idx_z_1 as int + 1),
                    g.at(idx_x_1 as int, idx_y_1 as int + 1, idx_z_1 as int),
                    g.at(idx_x_1 as int, idx_y_1 as int + 1, idx_z_1 as int + 1),
                    g.at(idx_x_1 as int + 1, idx_y_1 as int, idx_z_1 as int),
                    g.at(idx_x_1 as int + 1, idx_y_1 as int, idx_z_1 as int + 1),
                    g.at(idx_x_1 as int + 1, idx_y_1 as int + 1, idx_z_1 as int),
                    g.at(idx_x_1 as int + 1, idx_y_1 as int + 1, idx_z_1 as int + 1),
                    x_b,
                    y_b,
                    z_b,
                ));
            }
        }
        let x_slope1 = (x_2 - x_b) / (x_2 - x_1);
        let x_slope2 = (x_b - x_1) / (x_2 - x_1);
        let y_slope1 = (y_2 - y_b) / (y_2 - y_1);
        let y_slope2 = (y_b - y_1) / (y_2 - y_1);
        let z_slope1 = (z_2 - z_b) / (z_2 - z_1);
        let z_slope2 = (z_b - z_1) / (z_2 - z_1);

        let f_1_1 = f_1_1_1 * x_slope1 + f_2_1_1 * x_slope2;
        let f_1_2 = f_1_1_2 * x_slope1 + f_2_1_2 * x_slope2;
        let f_2_1 = f_1_2_1 * x_slope1 + f_2_2_1 * x_slope2;
        let f_2_2 = f_1_2_2 * x_slope1 + f_2_2_2 * x_slope2;

        let f_1 = f_1_1 * y_slope1 + f_2_1 * y_slope2;
        let f_2 = f_1_2 * y_slope1 + f_2_2 * y_slope2;

        let r = f_1 * z_slope1 + f_2 * z_slope2;
        proof {
            if total_order::<Indep1>() && total_order::<Indep2>() && total_order::<Indep3>()
                && obeys_trilerp_arith::<Indep1, Indep2, Indep3, Dep>() {
                assert(valid_interval(a1, x, idx_x_1 as int));
                assert(valid_interval(a2, y, idx_y_1 as int));
                assert(valid_interval(a3, z, idx_z_1 as int));
                assert(x_b == bounded_query::<Indep1, LowerBound1, UpperBound1>(a1, x));
                assert(y_b == bounded_query::<Indep2, LowerBound2, UpperBound2>(a2, y));
                assert(z_b == bounded_query::<Indep3, LowerBound3, UpperBound3>(a3, z));
                assert(r == trilerp_spec(
                    a1[idx_x_1 as int],
                    a1[idx_x_1 as int + 1],
                    a2[idx_y_1 as int],
                    a2[idx_y_1 as int + 1],
                    a3[idx_z_1 as int],
                    a3[idx_z_1 as int + 1],
                    g.at(idx_x_1 as int, idx_y_1 as int, idx_z_1 as int),
                    g.at(idx_x_1 as int, idx_y_1 as int, idx_z_1 as int + 1),
                    g.at(idx_x_1 as int, idx_y_1 as int + 1, idx_z_1 as int),
                    g.at(idx_x_1 as int, idx_y_1 as int + 1, idx_z_1 as int + 1),
                    g.at(idx_x_1 as int + 1, idx_y_1 as int, idx_z_1 as int),
                    g.at(idx_x_1 as int + 1, idx_y_1 as int, idx_z_1 as int + 1),
                    g.at(idx_x_1 as int + 1, idx_y_1 as int + 1, idx_z_1 as int),
                    g.at(idx_x_1 as int + 1, idx_y_1 as int + 1, idx_z_1 as int + 1),
                    bounded_query::<Indep1, LowerBound1, UpperBound1>(a1, x),
                    bounded_query::<Indep2, LowerBound2, UpperBound2>(a2, y),
                    bounded_query::<Indep3, LowerBound3, UpperBound3>(a3, z),
                ));
            }
        }
        r
    }
}

} // verus!
