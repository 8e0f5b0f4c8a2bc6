//! Multilinear lookup tables: approximate a function of one, two or three
//! continuous inputs by sampling it on a rectilinear grid and interpolating
//! between the stored samples at query time.
//!
//! A table owns one strictly monotonic axis of independent values per
//! dimension, a search strategy per axis that locates the grid interval
//! bounding a query, a bound policy per axis end that decides what happens
//! beyond the grid ([`Clamp`] saturates, [`Interp`] extrapolates linearly),
//! and the dependent samples.  Axes supplied in decreasing order are
//! reversed at construction, together with the paired dependent data, so a
//! caller never observes the direction of the input ordering.
//!
//! All contracts over the scalar types are stated through the comparison and
//! arithmetic specification functions of `vstd`; they bind whenever the
//! scalar's operations obey those specifications (as the integer types do).
//! Floating-point scalars execute the same code paths but `vstd` leaves
//! their operations unspecified, so for them the contracts are silent.
#![allow(unused_imports)]

use vstd::prelude::*;

pub mod axis;
pub mod bound;
pub mod common;
pub mod exact;
pub mod grid;
pub mod order;
pub mod search;
pub mod table1d;
pub mod table2d;
pub mod table3d;

pub use axis::{Axis, AxisImpl};
pub use bound::{Bound, Clamp, Interp};
pub use grid::{Grid2, Grid3};
pub use common::{
    check_independent_variable, check_lengths, check_repeat_entries, IndependentVariableOrdering,
};
pub use search::{
    inbounds_pair_from_higher, inbounds_pair_from_lower, Binary, CachedLinearCell, Linear,
    RuntimeSearch, Search,
};
pub use table1d::LookupTable1D;
pub use table2d::LookupTable2D;
pub use table3d::LookupTable3D;

verus! {

/// Possible errors occurring at table construction.
#[derive(Debug, Clone, Copy, PartialEq, Eq, Structural)]
pub enum Error {
    /// The provided data on at least one axis was not strictly monotonically
    /// increasing or strictly monotonically decreasing.
    NonMonotonicSorting,
    /// An entry in an independent variable axis was present more than once.
    /// This implies the data is not strictly monotonic.
    DuplicateEntry,
    /// The length of an independent variable axis did not match the
    /// corresponding dependent variable length.
    IndependentDependentLength,
    /// The independent variable provided had a length less than two.
    IndependentVariableTooShort,
}

} // verus!
