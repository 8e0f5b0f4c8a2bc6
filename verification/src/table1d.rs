//! One dimensional lookup table: approximate `f(x)` given `x`.
//!
//! Construction validates and, when needed, reverses the axis together with
//! the dependent data; `lookup` finds the bounding grid interval, applies the
//! axis's bound policies to the query, and interpolates linearly between the
//! two stored samples.

use vstd::prelude::*;

use crate::axis::{Axis, AxisImpl};
use crate::bound::Bound;
use crate::common::{
    check_independent_variable, check_lengths, check_lengths_spec, classify_axis,
    lemma_classify_decreasing, reverse_vec, IndependentVariableOrdering,
};
use crate::bound::Clamp;
use crate::order::{
    adjacent_decreasing, adjacent_increasing, lemma_adjacent_implies_strict, lemma_asym,
    lemma_flip, lemma_ord_refl, lemma_reverse_of_decreasing, ord_gt, ord_le, ord_lt,
    strictly_increasing, total_order,
};
use crate::search::{valid_interval, Search};
use crate::Error;
use core::ops::{Add, Div, Mul, Sub};
use vstd::std_specs::cmp::PartialEqSpec;
use vstd::std_specs::cmp::PartialOrdSpec;
use vstd::std_specs::ops::{AddSpec, DivSpec, MulSpec, SubSpec};

verus! {

/// The linear interpolation step, written with the specification functions of
/// the scalar's arithmetic in the same shape the executable code computes it:
/// `(y_h - y_l) / (x_h - x_l) * (x - x_l) + y_l`.
pub open spec fn lerp_spec<Indep, Dep>(x_l: Indep, x_h: Indep, y_l: Dep, y_h: Dep, x: Indep) -> Dep
    where
        Indep: Sub<Indep, Output = Indep>,
        Dep: Sub<Dep, Output = Dep> + Div<Indep, Output = Dep> + Mul<Indep, Output = Dep> + Add<
            Dep,
            Output = Dep,
        >,
{
    let slope = (y_h.sub_spec(y_l)).div_spec(x_h.sub_spec(x_l));
    (slope.mul_spec(x.sub_spec(x_l))).add_spec(y_l)
}

/// Every arithmetic step of one interpolation over the cell
/// `(x_l, x_h) x (y_l, y_h)` at the bounded query `x` is permitted by the
/// scalar types (for the integer types: free of overflow, with a nonzero
/// divisor).
pub open spec fn lerp_ops_ok<Indep, Dep>(x_l: Indep, x_h: Indep, y_l: Dep, y_h: Dep, x: Indep) -> bool
    where
        Indep: Sub<Indep, Output = Indep>,
        Dep: Sub<Dep, Output = Dep> + Div<Indep, Output = Dep> + Mul<Indep, Output = Dep> + Add<
            Dep,
            Output = Dep,
        >,
{
    let dy = y_h.sub_spec(y_l);
    let dx = x_h.sub_spec(x_l);
    let slope = dy.div_spec(dx);
    let off = x.sub_spec(x_l);
    &&& y_h.sub_req(y_l)
    &&& x_h.sub_req(x_l)
    &&& dy.div_req(dx)
    &&& x.sub_req(x_l)
    &&& slope.mul_req(off)
    &&& (slope.mul_spec(off)).add_req(y_l)
}

/// The scalar types' arithmetic obeys its specification functions, so the
/// executable operations compute exactly those functions.  The integer types
/// obey; for floating point `vstd` leaves the operations unspecified.
pub open spec fn obeys_lerp_arith<Indep, Dep>() -> bool
    where
        Indep: Sub<Indep, Output = Indep>,
        Dep: Sub<Dep, Output = Dep> + Div<Indep, Output = Dep> + Mul<Indep, Output = Dep> + Add<
            Dep,
            Output = Dep,
        >,
{
    &&& <Indep as SubSpec<Indep>>::obeys_sub_spec()
    &&& <Dep as SubSpec<Dep>>::obeys_sub_spec()
    &&& <Dep as DivSpec<Indep>>::obeys_div_spec()
    &&& <Dep as MulSpec<Indep>>::obeys_mul_spec()
    &&& <Dep as AddSpec<Dep>>::obeys_add_spec()
}

/// Every interpolation operation of the scalar types is permitted on all
/// values.  This is the precondition for scalars whose arithmetic has no
/// specification: nothing is then known of intermediate values, so the
/// operations must be total (floating-point arithmetic is).
pub open spec fn lerp_ops_total<Indep, Dep>() -> bool
    where
        Indep: Sub<Indep, Output = Indep>,
        Dep: Sub<Dep, Output = Dep> + Div<Indep, Output = Dep> + Mul<Indep, Output = Dep> + Add<
            Dep,
            Output = Dep,
        >,
{
    &&& forall|a: Indep, b: Indep| #[trigger] a.sub_req(b)
    &&& forall|a: Dep, b: Dep| #[trigger] a.sub_req(b)
    &&& forall|a: Dep, b: Indep| #[trigger] a.div_req(b)
    &&& forall|a: Dep, b: Indep| #[trigger] a.mul_req(b)
    &&& forall|a: Dep, b: Dep| #[trigger] a.add_req(b)
}

/// The interpolation arithmetic is permitted over every cell of the table
/// and for each value the bound policies can hand it: the query itself or
/// one of the two axis ends.
pub open spec fn lookup1_ops_ok<Indep, Dep>(axis: Seq<Indep>, dep: Seq<Dep>, x: Indep) -> bool
    where
        Indep: Sub<Indep, Output = Indep>,
        Dep: Sub<Dep, Output = Dep> + Div<Indep, Output = Dep> + Mul<Indep, Output = Dep> + Add<
            Dep,
            Output = Dep,
        >,
{
    forall|lo: int|
        0 <= lo < axis.len() - 1 ==> {
            &&& #[trigger] lerp_ops_ok(axis[lo], axis[lo + 1], dep[lo], dep[lo + 1], x)
            &&& lerp_ops_ok(axis[lo], axis[lo + 1], dep[lo], dep[lo + 1], axis[0])
            &&& lerp_ops_ok(axis[lo], axis[lo + 1], dep[lo], dep[lo + 1], axis[axis.len() - 1])
        }
}

/// What construction computes from the supplied axis and dependent data:
/// classification of the axis, reversal of both when the axis decreases, and
/// the length checks, in that order.
pub open spec fn construct1<Indep: PartialOrd, Dep>(indep: Seq<Indep>, dep: Seq<Dep>) -> Result<
    (Seq<Indep>, Seq<Dep>),
    Error,
> {
    match classify_axis(indep) {
        Err(e) => Err(e),
        Ok(ordering) => {
            let (si, sd) = if ordering == IndependentVariableOrdering::MonotonicallyDecreasing {
                (indep.reverse(), dep.reverse())
            } else {
                (indep, dep)
            };
            match check_lengths_spec(si.len() as int, sd.len() as int) {
                Err(e) => Err(e),
                Ok(unit) => Ok((si, sd)),
            }
        },
    }
}

/// The query value after the two bound policies of the axis are applied, the
/// lower end first.
pub open spec fn bounded_query<Indep, LowerBound, UpperBound>(axis: Seq<Indep>, x: Indep) -> Indep
    where
        Indep: PartialOrd + Copy,
        LowerBound: Bound<Indep>,
        UpperBound: Bound<Indep>,
{
    UpperBound::upper_bound_spec(LowerBound::lower_bound_spec(x, axis[0]), axis[axis.len() - 1])
}

/// What a lookup returns: the linear interpolation step evaluated at the
/// bounded query, over some valid interval of the axis for the raw query.
pub open spec fn lookup1_post<Indep, Dep, LowerBound, UpperBound>(
    axis: Seq<Indep>,
    dep: Seq<Dep>,
    x: Indep,
    r: Dep,
) -> bool
    where
        Indep: PartialOrd + Copy + Sub<Indep, Output = Indep>,
        Dep: Sub<Dep, Output = Dep> + Div<Indep, Output = Dep> + Mul<Indep, Output = Dep> + Add<
            Dep,
            Output = Dep,
        >,
        LowerBound: Bound<Indep>,
        UpperBound: Bound<Indep>,
{
    exists|lo: int|
        {
            &&& 0 <= lo < axis.len() - 1
            &&& #[trigger] valid_interval(axis, x, lo)
            &&& r == lerp_spec(
                axis[lo],
                axis[lo + 1],
                dep[lo],
                dep[lo + 1],
                bounded_query::<Indep, LowerBound, UpperBound>(axis, x),
            )
        }
}

/// Direction of the input ordering is unobservable after construction:
/// constructing from a strictly decreasing axis stores exactly the same
/// table data as constructing from the pre-reversed axis with the dependent
/// values reversed in lockstep, so every later lookup agrees as well.
pub proof fn lemma_reversed_axis_constructs_same_table<Indep: PartialOrd, Dep>(
    indep: Seq<Indep>,
    dep: Seq<Dep>,
)
    requires
        total_order::<Indep>(),
        adjacent_decreasing(indep),
        indep.len() >= 2,
    ensures
        construct1(indep, dep) == construct1(indep.reverse(), dep.reverse()),
{
    lemma_classify_decreasing(indep);
}

/// Clamp idempotence at the upper end: with clamping policies, a lookup
/// beyond the axis end reports exactly what a lookup at the axis end
/// reports, whichever valid intervals the two searches chose.
pub proof fn lemma_clamped_lookup_saturates<Indep, Dep>(
    axis: Seq<Indep>,
    dep: Seq<Dep>,
    x: Indep,
    r_beyond: Dep,
    r_at_max: Dep,
)
    where
        Indep: PartialOrd + Copy + Sub<Indep, Output = Indep>,
        Dep: Sub<Dep, Output = Dep> + Div<Indep, Output = Dep> + Mul<Indep, Output = Dep> + Add<
            Dep,
            Output = Dep,
        >,
    requires
        total_order::<Indep>(),
        axis.len() >= 2,
        strictly_increasing(axis),
        ord_gt(x, axis[axis.len() - 1]),
        lookup1_post::<Indep, Dep, Clamp, Clamp>(axis, dep, x, r_beyond),
        lookup1_post::<Indep, Dep, Clamp, Clamp>(axis, dep, axis[axis.len() - 1], r_at_max),
    ensures
        r_beyond == r_at_max,
{
    let n = axis.len() as int;
    let top = axis[n - 1];
    lemma_flip(x, top);
    assert(ord_lt(top, x));
    lemma_ord_refl(top);
    assert(ord_lt(axis[0], top) || n == 2 && 0 == n - 1) by {
        if n - 1 > 0 {
            assert(ord_lt(axis[0], axis[n - 1]));
        }
    }
    // both queries are clamped to the axis end
    assert(bounded_query::<Indep, Clamp, Clamp>(axis, x) == top) by {
        if ord_lt(x, axis[0]) {
            crate::order::lemma_lt_le_trans(top, x, axis[0]);
            lemma_asym(axis[0], top);
        }
    }
    assert(bounded_query::<Indep, Clamp, Clamp>(axis, top) == top) by {
        if ord_lt(top, axis[0]) {
            lemma_asym(axis[0], top);
        }
    }
    // a query beyond the axis pins the last interval
    let lo1 = choose|lo: int|
        {
            &&& 0 <= lo < axis.len() - 1
            &&& #[trigger] valid_interval(axis, x, lo)
            &&& r_beyond == lerp_spec(
                axis[lo],
                axis[lo + 1],
                dep[lo],
                dep[lo + 1],
                bounded_query::<Indep, Clamp, Clamp>(axis, x),
            )
        };
    assert(lo1 == n - 2);
    // and so does a query at the axis end, since every earlier axis value
    // sits strictly below it
    let lo2 = choose|lo: int|
        {
            &&& 0 <= lo < axis.len() - 1
            &&& #[trigger] valid_interval(axis, top, lo)
            &&& r_at_max == lerp_spec(
                axis[lo],
                axis[lo + 1],
                dep[lo],
                dep[lo + 1],
                bounded_query::<Indep, Clamp, Clamp>(axis, top),
            )
        };
    assert(ord_le(top, axis[lo2 + 1]));
    if lo2 + 1 != n - 1 {
        assert(ord_lt(axis[lo2 + 1], axis[n - 1]));
        lemma_asym(top, axis[lo2 + 1]);
    }
    assert(lo2 == n - 2);
    assert(r_beyond == r_at_max);
}
/// decreasing is reversed at construction together with the dependent data.
/// `lookup` takes the table exclusively because a search strategy may carry
/// a cached index: one table value serves one logical stream of queries, and
/// concurrent lookups need a table (or at least a strategy instance) each.
pub struct LookupTable1D<A: AxisImpl, Dep> {
    indep: Vec<<A as AxisImpl>::Indep>,
    dep: Vec<Dep>,
    search: <A as AxisImpl>::Search,
}

impl<Indep, Search, LowerBound, UpperBound, Dep> LookupTable1D<
    Axis<Indep, Search, LowerBound, UpperBound>,
    Dep,
> where Indep: PartialOrd + Copy {
    /// The axis values, in the order the table holds them.
    pub closed spec fn axis_view(self) -> Seq<Indep> {
        self.indep@
    }

    /// The dependent samples, aligned with [`Self::axis_view`].
    pub closed spec fn dep_view(self) -> Seq<Dep> {
        self.dep@
    }

    /// The search strategy instance the table holds.
    pub closed spec fn search_state(self) -> Search {
        self.search
    }

    /// A constructed table holds one dependent sample per axis value, at
    /// least one full interval, and (whenever the scalar's comparisons form
    /// a total order) a strictly increasing axis.
    pub open spec fn wf(self) -> bool {
        &&& self.axis_view().len() >= 2
        &&& self.dep_view().len() == self.axis_view().len()
        &&& total_order::<Indep>() ==> strictly_increasing(self.axis_view())
    }

    /// Construct a new lookup table from the axis values `indep`, a search
    /// method for the axis, and the dependent values `dep`.
    ///
    /// The axis is validated (no duplicates, strictly monotonic) and
    /// normalized to increasing order, reversing `dep` in lockstep, and the
    /// lengths are checked; the first failing check aborts construction with
    /// its error and no table is returned.
    pub fn new(indep: Vec<Indep>, search: Search, dep: Vec<Dep>) -> (r: Result<Self, Error>)
        ensures
            r is Ok ==> r->Ok_0.wf() && r->Ok_0.search_state() == search,
            Indep::obeys_eq_spec() && Indep::obeys_partial_cmp_spec() ==> match construct1(
                indep@,
                dep@,
            ) {
                Ok(p) => r is Ok && r->Ok_0.axis_view() == p.0 && r->Ok_0.dep_view() == p.1,
                Err(e) => r == Result::<Self, Error>::Err(e),
            },
    {
        let mut indep = indep;
        let mut dep = dep;
        let ghost orig_indep = indep@;
        let ghost orig_dep = dep@;
        let ordering = match check_independent_variable(&indep) {
            Err(e) => {
                return Err(e);
            },
            Ok(o) => o,
        };
        match ordering {
            IndependentVariableOrdering::MonotonicallyIncreasing => {
            },
            IndependentVariableOrdering::MonotonicallyDecreasing => {
                reverse_vec(&mut indep);
                reverse_vec(&mut dep);
            },
        }
        match check_lengths(indep.len(), dep.len()) {
            Err(e) => {
                return Err(e);
            },
            Ok(unit) => {
            },
        }
        let table = Self { indep, dep, search };
        proof {
            if total_order::<Indep>() {
                if ordering == IndependentVariableOrdering::MonotonicallyIncreasing {
                    assert(adjacent_increasing(table.axis_view()));
                } else {
                    lemma_reverse_of_decreasing(orig_indep);
                    assert(adjacent_increasing(table.axis_view()));
                }
                lemma_adjacent_implies_strict(table.axis_view());
            }
        }
        Ok(table)
    }
}

impl<Indep, Search, LowerBound, UpperBound, Dep> LookupTable1D<
    Axis<Indep, Search, LowerBound, UpperBound>,
    Dep,
> where
    Search: crate::search::Search<Indep>,
    Dep: Copy + Sub<Dep, Output = Dep> + Div<Indep, Output = Dep> + Mul<Indep, Output = Dep> + Add<
        Dep,
        Output = Dep,
    >,
    Indep: Copy + Sub<Indep, Output = Indep> + PartialOrd,
    LowerBound: Bound<Indep>,
    UpperBound: Bound<Indep>,
 {
    /// Approximate `f(x)`: search the axis for the interval bounding `x`,
    /// bound `x` by the axis's two policies, and interpolate linearly on the
    /// interval's two samples.
    ///
    /// Lookups never fail for a constructed table; the preconditions only
    /// ask that the scalar arithmetic itself is permitted (trivially so for
    /// floating point, absence of overflow for the integer types).  The
    /// axis and the samples are unchanged; only the search strategy's
    /// advisory state may move.
    pub fn lookup(&mut self, x: Indep) -> (r: Dep)
        requires
            old(self).wf(),
            obeys_lerp_arith::<Indep, Dep>() ==> lookup1_ops_ok(
                old(self).axis_view(),
                old(self).dep_view(),
                x,
            ),
            !obeys_lerp_arith::<Indep, Dep>() ==> lerp_ops_total::<Indep, Dep>(),
        ensures
            final (self).axis_view() == old(self).axis_view(),
            final (self).dep_view() == old(self).dep_view(),
            final (self).wf(),
            total_order::<Indep>() && obeys_lerp_arith::<Indep, Dep>()
                ==> lookup1_post::<Indep, Dep, LowerBound, UpperBound>(
                old(self).axis_view(),
                old(self).dep_view(),
                x,
                r,
            ),
    {
        let ghost axis = self.indep@;
        let ghost samples = self.dep@;
        let (idx_l, idx_h) = self.search.search(x, &self.indep);

        let x_l: Indep = self.indep[idx_l];
        let x_h: Indep = self.indep[idx_h];

        let y_l: Dep = self.dep[idx_l];
        let y_h: Dep = self.dep[idx_h];

        // bound x according to the axis we are interpolating on; indexing is
        // safe as the axis has at least two values
        let x_b = LowerBound::lower_bound(x, self.indep[0]);
        let x_b = UpperBound::upper_bound(x_b, self.indep[self.indep.len() - 1]);

        proof {
            if obeys_lerp_arith::<Indep, Dep>() {
                assert(lerp_ops_ok(
                    axis[idx_l as int],
                    axis[idx_l as int + 1],
                    samples[idx_l as int],
                    samples[idx_l as int + 1],
                    x,
                ));
            }
        }
        let slope = (y_h - y_l) / (x_h - x_l);
        let r = slope * (x_b - x_l) + y_l;
        proof {
            if total_order::<Indep>() && obeys_lerp_arith::<Indep, Dep>() {
                assert(x_b == bounded_query::<Indep, LowerBound, UpperBound>(axis, x));
                assert(valid_interval(axis, x, idx_l as int));
                assert(r == lerp_spec(
                    axis[idx_l as int],
                    axis[idx_l as int + 1],
                    samples[idx_l as int],
                    samples[idx_l as int + 1],
                    bounded_query::<Indep, LowerBound, UpperBound>(axis, x),
                ));
            }
        }
        r
    }
}

} // verus!
