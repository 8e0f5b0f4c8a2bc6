//! Policies for query values that fall beyond an axis end.
//!
//! A bound policy maps the raw query value to the value actually used by the
//! interpolation arithmetic.  It is applied independently at each end of each
//! axis, so one axis may clamp at one end and extrapolate at the other.

use vstd::prelude::*;

use crate::order::{ord_gt, ord_lt};
use vstd::std_specs::cmp::PartialOrdSpec;

verus! {

/// Defines how to treat a lookup of an independent variable beyond the upper
/// or lower end of its axis.
///
/// Whatever the policy and the scalar, the value handed to the interpolation
/// arithmetic is either the query itself or the axis end it was checked
/// against; when the scalar's comparisons obey their specification the result
/// is exactly the policy's specification function.
pub trait Bound<Indep: PartialOrd + Copy> {
    /// What the policy does at the upper end, as a specification.
    spec fn upper_bound_spec(indep: Indep, upper_bound: Indep) -> Indep;

    /// What the policy does at the lower end, as a specification.
    spec fn lower_bound_spec(indep: Indep, lower_bound: Indep) -> Indep;

    /// Behavior at the upper bound.
    fn upper_bound(indep: Indep, upper_bound: Indep) -> (r: Indep)
        ensures
            r == indep || r == upper_bound,
            Indep::obeys_partial_cmp_spec() ==> r == Self::upper_bound_spec(indep, upper_bound),
    ;

    /// Behavior at the lower bound.
    fn lower_bound(indep: Indep, lower_bound: Indep) -> (r: Indep)
        ensures
            r == indep || r == lower_bound,
            Indep::obeys_partial_cmp_spec() ==> r == Self::lower_bound_spec(indep, lower_bound),
    ;
}

/// Interpolate out of bounds using the first / last two grid points: the
/// query value passes through unchanged, so the linear formula naturally
/// extrapolates along the edge interval's slope.
pub struct Interp;

/// Clamp lookups to the value of the independent variable at the bounds:
/// queries beyond an axis end saturate to that end, in-range values pass
/// through unchanged.
///
/// A value that compares neither above the upper end nor below the lower end
/// (for floating point, a NaN query) passes through unchanged and propagates
/// through the interpolation arithmetic.
pub struct Clamp;

impl<Indep: PartialOrd + Copy> Bound<Indep> for Clamp {
    open spec fn upper_bound_spec(indep: Indep, upper_bound: Indep) -> Indep {
        if ord_gt(indep, upper_bound) {
            upper_bound
        } else {
            indep
        }
    }

    open spec fn lower_bound_spec(indep: Indep, lower_bound: Indep) -> Indep {
        if ord_lt(indep, lower_bound) {
            lower_bound
        } else {
            indep
        }
    }

    fn upper_bound(indep: Indep, upper_bound: Indep) -> (r: Indep) {
        if indep > upper_bound {
            upper_bound
        } else {
            indep
        }
    }

    fn lower_bound(indep: Indep, lower_bound: Indep) -> (r: Indep) {
        if indep < lower_bound {
            lower_bound
        } else {
            indep
        }
    }
}

impl<Indep: PartialOrd + Copy> Bound<Indep> for Interp {
    open spec fn upper_bound_spec(indep: Indep, upper_bound: Indep) -> Indep {
        indep
    }

    open spec fn lower_bound_spec(indep: Indep, lower_bound: Indep) -> Indep {
        indep
    }

    fn upper_bound(indep: Indep, _upper_bound: Indep) -> (r: Indep) {
        indep
    }

    fn lower_bound(indep: Indep, _lower_bound: Indep) -> (r: Indep) {
        indep
    }
}

} // verus!
