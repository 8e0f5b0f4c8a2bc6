//! Compile-time description of one table dimension.
//!
//! An axis combines the scalar type of the independent variable, the search
//! strategy used to locate the bounding grid interval, and the bound policy
//! applied at each end.  The combination is carried purely at the type level.

use vstd::prelude::*;

use core::marker::PhantomData;

verus! {

/// Defines an axis of an independent variable, the behavior at the upper and
/// lower bounds, and how to search the axis.
///
/// * `Indep` - type of the independent variable
/// * `Search` - search method implementing the [`Search`](crate::Search) trait
/// * `LowerBound` - bounding behavior at the lower end of the axis,
///   implementing the [`Bound`](crate::Bound) trait
/// * `UpperBound` - bounding behavior at the upper end of the axis,
///   implementing the [`Bound`](crate::Bound) trait
pub struct Axis<Indep, Search, LowerBound, UpperBound> {
    _indep: PhantomData<Indep>,
    _search: PhantomData<Search>,
    _lower_bound: PhantomData<LowerBound>,
    _upper_bound: PhantomData<UpperBound>,
}

/// Projects the four type-level choices out of an [`Axis`].
pub trait AxisImpl {
    type Indep;

    type Search;

    type LowerBound;

    type UpperBound;
}

impl<Indep, Search, LowerBound, UpperBound> AxisImpl for Axis<
    Indep,
    Search,
    LowerBound,
    UpperBound,
> {
    type Indep = Indep;

    type Search = Search;

    type LowerBound = LowerBound;

    type UpperBound = UpperBound;
}

} // verus!
