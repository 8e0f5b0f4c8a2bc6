//! Validation of independent-variable axes and of axis/dependent lengths.
//!
//! Both checks run once, at table construction, in ascending dimension order
//! for multi-dimensional tables, so the first offending axis decides which
//! error a construction reports.

use vstd::prelude::*;

use crate::order::{
    adjacent_decreasing, adjacent_increasing, lemma_adjacent_implies_strict, lemma_asym,
    lemma_reverse_of_decreasing, ord_lt, total_order,
};
use crate::Error;
use core::cmp::Ordering;
use vstd::std_specs::cmp::PartialEqSpec;
use vstd::std_specs::cmp::PartialOrdSpec;

verus! {

/// The direction a validated axis was supplied in.
#[derive(Debug, Clone, Copy, PartialEq, Eq, Structural)]
pub enum IndependentVariableOrdering {
    MonotonicallyIncreasing,
    MonotonicallyDecreasing,
}

/// Some value of the sequence appears at two different positions, judged by
/// the equality specification of the scalar.
pub open spec fn has_duplicate<T: PartialEq>(s: Seq<T>) -> bool {
    exists|i: int, j: int| 0 <= i < j < s.len() && s[i].eq_spec(&s[j])
}

/// How an axis is classified: duplicates are reported first, then the two
/// monotonic directions are tried in turn, and an axis that is neither is
/// rejected.
pub open spec fn classify_axis<T: PartialOrd>(s: Seq<T>) -> Result<
    IndependentVariableOrdering,
    Error,
> {
    if has_duplicate(s) {
        Err(Error::DuplicateEntry)
    } else if adjacent_increasing(s) {
        Ok(IndependentVariableOrdering::MonotonicallyIncreasing)
    } else if adjacent_decreasing(s) {
        Ok(IndependentVariableOrdering::MonotonicallyDecreasing)
    } else {
        Err(Error::NonMonotonicSorting)
    }
}

/// What [`check_lengths`] decides: a length mismatch is reported before a
/// too-short axis.
pub open spec fn check_lengths_spec(indep_length: int, dep_axis_length: int) -> Result<
    (),
    Error,
> {
    if indep_length != dep_axis_length {
        Err(Error::IndependentDependentLength)
    } else if indep_length < 2 {
        Err(Error::IndependentVariableTooShort)
    } else {
        Ok(())
    }
}

/// Reject an axis in which some entry appears more than once.
///
/// When the scalar's `==` obeys its specification the result is exactly
/// whether the axis holds a duplicate pair.  A scalar value that does not
/// even equal itself (for floating point, NaN) is not reported here; the
/// monotonicity check that follows rejects such an axis instead.
#[verifier::loop_isolation(false)]
pub fn check_repeat_entries<Indep: PartialEq + Copy>(indep: &Vec<Indep>) -> (r: Result<(), Error>)
    ensures
        Indep::obeys_eq_spec() ==> r == (if has_duplicate(indep@) {
            Result::<(), Error>::Err(Error::DuplicateEntry)
        } else {
            Result::<(), Error>::Ok(())
        }),
{
    let ghost s = indep@;
    let n = indep.len();
    let mut i: usize = 0;
    while i < n
        invariant
            i <= n,
            Indep::obeys_eq_spec() ==> forall|a: int, b: int|
                0 <= a < i && a < b < n ==> !s[a].eq_spec(&s[b]),
        decreases n - i,
    {
        let mut j: usize = i + 1;
        while j < n
            invariant
                i < j <= n,
                Indep::obeys_eq_spec() ==> forall|b: int| i < b < j ==> !s[i as int].eq_spec(&s[b]),
            decreases n - j,
        {
            if indep[i] == indep[j] {
                proof {
                    if Indep::obeys_eq_spec() {
                        assert(has_duplicate(s));
                    }
                }
                return Err(Error::DuplicateEntry);
            }
            j += 1;
        }
        i += 1;
    }
    Ok(())
}

/// Whether every adjacent pair of the axis increases strictly, judged by the
/// executable comparison.
#[verifier::loop_isolation(false)]
fn sorted_increasing<Indep: PartialOrd + Copy>(indep: &Vec<Indep>) -> (r: bool)
    ensures
        Indep::obeys_partial_cmp_spec() ==> r == adjacent_increasing(indep@),
{
    let ghost s = indep@;
    let n = indep.len();
    let mut i: usize = 0;
    while i + 1 < n
        invariant
            i == 0 || i < n,
            Indep::obeys_partial_cmp_spec() ==> forall|j: int|
                0 <= j < i ==> #[trigger] ord_lt(s[j], s[j + 1]),
        decreases n - i,
    {
        if !(indep[i] < indep[i + 1]) {
            proof {
                if Indep::obeys_partial_cmp_spec() {
                    assert(!ord_lt(s[i as int], s[i as int + 1]));
                }
            }
            return false;
        }
        i += 1;
    }
    true
}

/// Whether every adjacent pair of the axis decreases strictly, judged by the
/// executable comparison.
#[verifier::loop_isolation(false)]
fn sorted_decreasing<Indep: PartialOrd + Copy>(indep: &Vec<Indep>) -> (r: bool)
    ensures
        Indep::obeys_partial_cmp_spec() ==> r == adjacent_decreasing(indep@),
{
    let ghost s = indep@;
    let n = indep.len();
    let mut i: usize = 0;
    while i + 1 < n
        invariant
            i == 0 || i < n,
            Indep::obeys_partial_cmp_spec() ==> forall|j: int|
                0 <= j < i ==> #[trigger] ord_lt(s[j + 1], s[j]),
        decreases n - i,
    {
        if !(indep[i + 1] < indep[i]) {
            proof {
                if Indep::obeys_partial_cmp_spec() {
                    assert(!ord_lt(s[i as int + 1], s[i as int]));
                }
            }
            return false;
        }
        i += 1;
    }
    true
}

/// Ensure all the expected properties of an independent variable axis are
/// upheld: no duplicate entries, and strictly monotonically increasing or
/// decreasing values.
///
/// When the scalar's comparisons obey their specifications the result is
/// exactly [`classify_axis`] of the axis.  An axis holding a value that
/// compares with nothing (for floating point, NaN) fails as non-monotonic.
pub fn check_independent_variable<Indep: PartialOrd + Copy>(indep: &Vec<Indep>) -> (r: Result<
    IndependentVariableOrdering,
    Error,
>)
    ensures
        Indep::obeys_eq_spec() && Indep::obeys_partial_cmp_spec() ==> r == classify_axis(indep@),
{
    match check_repeat_entries(indep) {
        Err(e) => {
            return Err(e);
        },
        Ok(u) => {
        },
    }
    if sorted_increasing(indep) {
        return Ok(IndependentVariableOrdering::MonotonicallyIncreasing);
    }
    if sorted_decreasing(indep) {
        return Ok(IndependentVariableOrdering::MonotonicallyDecreasing);
    }
    Err(Error::NonMonotonicSorting)
}

/// A strictly decreasing axis classifies as monotonically decreasing, and
/// its reverse as monotonically increasing: the two classifications a
/// normalizing construction pairs up when it reverses an axis.
pub proof fn lemma_classify_decreasing<T: PartialOrd>(s: Seq<T>)
    requires
        total_order::<T>(),
        adjacent_decreasing(s),
        s.len() >= 2,
    ensures
        classify_axis(s) == Ok::<IndependentVariableOrdering, Error>(
            IndependentVariableOrdering::MonotonicallyDecreasing,
        ),
        classify_axis(s.reverse()) == Ok::<IndependentVariableOrdering, Error>(
            IndependentVariableOrdering::MonotonicallyIncreasing,
        ),
{
    let n = s.len() as int;
    let rev = s.reverse();
    lemma_reverse_of_decreasing(s);
    lemma_adjacent_implies_strict(rev);
    // a strictly decreasing axis has no duplicate pair
    assert(!has_duplicate(s)) by {
        if exists|i: int, j: int| 0 <= i < j < s.len() && s[i].eq_spec(&s[j]) {
            let (i, j) = choose|i: int, j: int| 0 <= i < j < s.len() && s[i].eq_spec(&s[j]);
            assert(rev[n - 1 - j] == s[j]);
            assert(rev[n - 1 - i] == s[i]);
            assert(ord_lt(rev[n - 1 - j], rev[n - 1 - i]));
            assert(s[i].partial_cmp_spec(&s[j]) == Some(Ordering::Equal));
        }
    }
    // nor is it adjacently increasing anywhere
    assert(!adjacent_increasing(s)) by {
        assert(ord_lt(s[0int + 1], s[0]));
        if adjacent_increasing(s) {
            assert(ord_lt(s[0], s[0int + 1]));
            lemma_asym(s[0int + 1], s[0]);
        }
    }
    // the reversed axis has no duplicate pair either
    assert(!has_duplicate(rev)) by {
        if exists|i: int, j: int| 0 <= i < j < rev.len() && rev[i].eq_spec(&rev[j]) {
            let (i, j) = choose|i: int, j: int| 0 <= i < j < rev.len() && rev[i].eq_spec(&rev[j]);
            assert(ord_lt(rev[i], rev[j]));
        }
    }
}

/// Ensure an axis and the matching dimension of the dependent data have the
/// same length, and that the axis offers at least one full interpolation
/// interval.
pub fn check_lengths(indep_length: usize, dep_axis_length: usize) -> (r: Result<(), Error>)
    ensures
        r == check_lengths_spec(indep_length as int, dep_axis_length as int),
{
    if indep_length != dep_axis_length {
        return Err(Error::IndependentDependentLength);
    }
    if indep_length < 2 || dep_axis_length < 2 {
        return Err(Error::IndependentVariableTooShort);
    }
    Ok(())
}

/// Reverse a vector in place.
#[verifier::loop_isolation(false)]
pub(crate) fn reverse_vec<T>(v: &mut Vec<T>)
    ensures
        final (v)@ == old(v)@.reverse(),
{
    let ghost orig = v@;
    let ghost n = orig.len() as int;
    let mut rev: Vec<T> = Vec::new();
    while v.len() > 0
        invariant
            rev@.len() + v@.len() == n,
            v@ == orig.take(v@.len() as int),
            forall|i: int| 0 <= i < rev@.len() ==> rev@[i] == orig[n - 1 - i],
        decreases v.len(),
    {
        let last = v.pop().unwrap();
        proof {
            assert(orig.take(v@.len() as int + 1).drop_last() =~= orig.take(v@.len() as int));
            assert(orig.take(v@.len() as int + 1).last() == orig[v@.len() as int]);
        }
        rev.push(last);
    }
    proof {
        assert(rev@ =~= orig.reverse());
    }
    *v = rev;
}

} // verus!
