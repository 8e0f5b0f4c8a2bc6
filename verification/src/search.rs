//! Strategies for locating the grid interval that bounds a query value.
//!
//! Every strategy returns a pair of adjacent, in-range indices.  When the
//! scalar's comparisons obey their specification and the axis is strictly
//! increasing, the pair is a valid interpolation interval for the query
//! ([`valid_interval`]): the axis values at the pair bound every in-range
//! query, a query below the axis gets the first interval, and a query above
//! it gets the last, so in- and out-of-range decisions are deferred to the
//! bound policy and the search itself never fails.

use vstd::prelude::*;

use crate::order::{
    lemma_asym, lemma_flip, lemma_le_lt_trans, lemma_lt_le_trans, lemma_ord_refl, ord_ge, ord_gt,
    ord_le, ord_lt, strictly_increasing, total_order,
};
use core::cmp::Ordering;
use vstd::std_specs::cmp::PartialOrdSpec;

verus! {

/// The indices `(lo, lo + 1)` describe a usable interpolation interval of the
/// axis `s` for the query `x`: a query below the axis start gets the first
/// interval, one above the axis end gets the last, and an in-range query is
/// bounded by the axis values at the pair.
pub open spec fn valid_interval<Indep: PartialOrd>(s: Seq<Indep>, x: Indep, lo: int) -> bool {
    &&& ord_lt(x, s[0]) ==> lo == 0
    &&& ord_lt(s[s.len() - 1], x) ==> lo == s.len() - 2
    &&& ord_le(s[0], x) ==> ord_le(s[lo], x)
    &&& ord_le(x, s[s.len() - 1]) ==> ord_le(x, s[lo + 1])
}

/// Find the two bounding indices in a vector for interpolation.
///
/// A strategy may carry mutable state (a cached index); such state is
/// advisory only.  Whatever the state and the scalar, the returned indices
/// are adjacent and in range; when the scalar's comparisons obey their
/// specification and the axis is strictly increasing, they are a valid
/// interpolation interval for the query.
pub trait Search<Indep: PartialOrd + Copy> {
    /// Search through a list of values; return the lower and upper indices
    /// that bound the given value.
    fn search(&mut self, value: Indep, indep_values: &Vec<Indep>) -> (r: (usize, usize))
        requires
            indep_values@.len() >= 2,
        ensures
            r.0 + 1 == r.1,
            (r.1 as int) < indep_values@.len(),
            total_order::<Indep>() && strictly_increasing(indep_values@) ==> valid_interval(
                indep_values@,
                value,
                r.0 as int,
            ),
    ;
}

/// Cap a candidate lower index so that the pair it starts stays in range.
pub fn inbounds_pair_from_lower(low_idx: usize, indep_length: usize) -> (r: (usize, usize))
    requires
        indep_length >= 2,
    ensures
        r.0 == if low_idx <= indep_length - 2 {
            low_idx as int
        } else {
            indep_length - 2
        },
        r.0 + 1 == r.1,
        (r.1 as int) < indep_length,
{
    // cap the low index at two below the length; one below would put the
    // high index out of bounds
    let low_idx = if low_idx <= indep_length - 2 {
        low_idx
    } else {
        indep_length - 2
    };
    let high_idx = low_idx + 1;
    (low_idx, high_idx)
}

/// Cap a candidate upper index on both sides so that the pair it ends stays
/// in range.
pub fn inbounds_pair_from_higher(high_idx: usize, length: usize) -> (r: (usize, usize))
    requires
        length >= 2,
    ensures
        r.1 == if high_idx <= 1 {
            1int
        } else if high_idx <= length - 1 {
            high_idx as int
        } else {
            length - 1
        },
        r.0 + 1 == r.1,
        (r.1 as int) < length,
{
    // raise the high index to 1 so the low index stays in bounds at zero
    let high_idx = if high_idx >= 1 {
        high_idx
    } else {
        1
    };
    // and cap it at the last position of the axis
    let high_idx = if high_idx <= length - 1 {
        high_idx
    } else {
        length - 1
    };
    let low_idx = high_idx - 1;
    (low_idx, high_idx)
}

/// Linear search to find the bounding indices.  Typically faster for small
/// (fewer than about 20) values in the table.
#[derive(Default)]
pub struct Linear;

impl Linear {
    /// Construct a new linear search method.
    pub fn new() -> (r: Self) {
        Linear
    }
}

/// Binary search to find bounding indices.  Useful for large datasets.
///
/// When the query ties with a grid point, that point becomes the lower bound
/// of the returned interval, never the upper bound.
#[derive(Default)]
pub struct Binary;

impl Binary {
    /// Construct a new binary search method.
    pub fn new() -> (r: Self) {
        Binary
    }
}

/// Store the last returned lower index and search linearly outward from it.
/// Effective for query streams whose values change slowly.
///
/// The cache is an exclusively owned field, so a table using this strategy
/// hands out its results through `&mut self`: a single cell must serve a
/// single logical stream of queries.  The cached index is advisory: it never
/// changes which value a lookup reports, only which adjacent index pair is
/// momentarily chosen.  A cached index beyond the axis is capped before the
/// scan starts.
#[derive(Default)]
pub struct CachedLinearCell {
    last_lower_idx: usize,
}

impl CachedLinearCell {
    /// The index the next search starts its scan from.
    pub closed spec fn last_index(self) -> nat {
        self.last_lower_idx as nat
    }

    /// Construct a new cached search method that starts its first scan at
    /// the given index.
    pub fn new(last_index: usize) -> (r: Self)
        ensures
            r.last_index() == last_index,
    {
        Self { last_lower_idx: last_index }
    }
}

/// Determine the search method dynamically at runtime.
pub enum RuntimeSearch {
    Linear(Linear),
    Binary(Binary),
    CachedLinearCell(CachedLinearCell),
}

impl<Indep: PartialOrd + Copy> Search<Indep> for Linear {
    #[verifier::loop_isolation(false)]
    fn search(&mut self, value: Indep, indep_values: &Vec<Indep>) -> (r: (usize, usize)) {
        let ghost s = indep_values@;
        let length = indep_values.len();
        let mut i: usize = 0;
        while i < length
            invariant
                i <= length,
                total_order::<Indep>() ==> forall|j: int|
                    0 <= j < i ==> !ord_gt(s[j], value),
            decreases length - i,
        {
            if indep_values[i] > value {
                let pair = inbounds_pair_from_higher(i, length);
                proof {
                    if total_order::<Indep>() && strictly_increasing(s) {
                        lemma_linear_found(s, value, i as int);
                    }
                }
                return pair;
            }
            i += 1;
        }
        // the query is at or above the last axis value; use the last interval
        let high_idx = length - 1;
        let low_idx = high_idx - 1;
        proof {
            if total_order::<Indep>() && strictly_increasing(s) {
                lemma_none_greater(s, value);
            }
        }
        (low_idx, high_idx)
    }
}

/// A scan that found the first axis value above the query yields a valid
/// interval once its index is capped into range.
proof fn lemma_linear_found<Indep: PartialOrd>(s: Seq<Indep>, x: Indep, found: int)
    requires
        total_order::<Indep>(),
        strictly_increasing(s),
        s.len() >= 2,
        0 <= found < s.len(),
        ord_gt(s[found], x),
        forall|j: int| 0 <= j < found ==> !ord_gt(s[j], x),
    ensures
        valid_interval(s, x, if found <= 1 { 0int } else { found - 1 }),
{
    let n = s.len() as int;
    let lo: int = if found <= 1 { 0int } else { found - 1 };
    lemma_flip(x, s[found]);
    assert(ord_lt(x, s[found]));
    // the query sits strictly below the found value, hence below the axis end
    if found < n - 1 {
        assert(ord_lt(s[found], s[n - 1]));
        lemma_lt_le_trans(x, s[found], s[n - 1]);
    }
    assert(ord_lt(x, s[n - 1]));
    lemma_asym(x, s[n - 1]);
    if found == 0 {
        // the query is below the whole axis: the first interval serves it
        lemma_flip(s[0], x);
        assert(ord_lt(s[0], s[1]));
        lemma_lt_le_trans(x, s[0], s[1]);
    } else {
        lemma_flip(s[lo], x);
        assert(ord_le(s[lo], x));
        if ord_lt(x, s[0]) && lo != 0 {
            lemma_le_lt_trans(s[lo], x, s[0]);
            assert(ord_lt(s[0], s[lo]));
            lemma_asym(s[0], s[lo]);
        }
        assert(ord_le(x, s[lo + 1]));
    }
}

/// A scan that found no axis value above the query ends at the last interval.
proof fn lemma_none_greater<Indep: PartialOrd>(s: Seq<Indep>, x: Indep)
    requires
        total_order::<Indep>(),
        strictly_increasing(s),
        s.len() >= 2,
        forall|j: int| 0 <= j < s.len() ==> !ord_gt(s[j], x),
    ensures
        valid_interval(s, x, s.len() - 2),
{
    let n = s.len() as int;
    lemma_flip(s[0], x);
    lemma_flip(s[n - 2], x);
    lemma_flip(s[n - 1], x);
    lemma_asym(s[0], x);
}

impl<Indep: PartialOrd + Copy> Search<Indep> for Binary {
    #[verifier::loop_isolation(false)]
    fn search(&mut self, value: Indep, indep_values: &Vec<Indep>) -> (r: (usize, usize)) {
        let ghost s = indep_values@;
        let length = indep_values.len();
        let mut low: usize = 0;
        let mut high: usize = length - 1;
        while high - low > 1
            invariant
                low < high < length,
                total_order::<Indep>() && strictly_increasing(s) ==> {
                    &&& low == 0 || ord_le(s[low as int], value)
                    &&& high == length - 1 || ord_lt(value, s[high as int])
                },
            decreases high - low,
        {
            let mid = low + (high - low) / 2;
            if indep_values[mid] <= value {
                low = mid;
            } else {
                proof {
                    if total_order::<Indep>() {
                        // not below-or-tied flips to the query lying strictly
                        // below the midpoint
                        lemma_flip(s[mid as int], value);
                        lemma_flip(value, s[mid as int]);
                        assert(ord_lt(value, s[mid as int]));
                    }
                }
                high = mid;
            }
        }
        proof {
            if total_order::<Indep>() && strictly_increasing(s) {
                lemma_binary_post(s, value, low as int, high as int);
            }
        }
        (low, high)
    }
}

/// The window a binary search narrows to a single interval is valid.
proof fn lemma_binary_post<Indep: PartialOrd>(s: Seq<Indep>, x: Indep, low: int, high: int)
    requires
        total_order::<Indep>(),
        strictly_increasing(s),
        s.len() >= 2,
        0 <= low,
        high == low + 1,
        high < s.len(),
        low == 0 || ord_le(s[low], x),
        high == s.len() - 1 || ord_lt(x, s[high]),
    ensures
        valid_interval(s, x, low),
{
    let n = s.len() as int;
    if ord_lt(x, s[0]) && low != 0 {
        lemma_le_lt_trans(s[low], x, s[0]);
        assert(ord_lt(s[0], s[low]));
        lemma_asym(s[0], s[low]);
    }
    if ord_lt(s[n - 1], x) && low != n - 2 {
        assert(ord_lt(s[high], s[n - 1]));
        lemma_lt_le_trans(x, s[high], s[n - 1]);
        lemma_asym(x, s[n - 1]);
    }
}

impl<Indep: PartialOrd + Copy> Search<Indep> for CachedLinearCell {
    #[verifier::loop_isolation(false)]
    fn search(&mut self, value: Indep, indep_values: &Vec<Indep>) -> (r: (usize, usize)) {
        let ghost s = indep_values@;
        let length = indep_values.len();
        // cap a stale cached index into the valid range of lower indices
        let last_lower = if self.last_lower_idx <= length - 2 {
            self.last_lower_idx
        } else {
            length - 2
        };
        if indep_values[last_lower] >= value {
            // the cached position is at or above the query: scan downward
            // for the nearest axis value below it
            let mut idx = last_lower;
            while idx > 0
                invariant
                    idx <= last_lower,
                    total_order::<Indep>() ==> forall|j: int|
                        idx <= j < last_lower ==> !ord_lt(s[j], value),
                decreases idx,
            {
                idx -= 1;
                if indep_values[idx] < value {
                    let pair = inbounds_pair_from_lower(idx, length);
                    proof {
                        if total_order::<Indep>() && strictly_increasing(s) {
                            lemma_cached_down_found(s, value, last_lower as int, idx as int);
                        }
                    }
                    self.last_lower_idx = pair.0;
                    return pair;
                }
            }
            // every axis value below the cached position is at or above the
            // query: use the first interval
            proof {
                if total_order::<Indep>() && strictly_increasing(s) {
                    lemma_cached_down_none(s, value, last_lower as int);
                }
            }
            self.last_lower_idx = 0;
            (0, 1)
        } else {
            // the cached position is below the query: scan upward for the
            // first axis value above it
            let mut idx = last_lower;
            while idx < length
                invariant
                    last_lower <= idx <= length,
                    total_order::<Indep>() ==> forall|j: int|
                        last_lower <= j < idx ==> !ord_gt(s[j], value),
                decreases length - idx,
            {
                if indep_values[idx] > value {
                    let pair = inbounds_pair_from_higher(idx, length);
                    proof {
                        if total_order::<Indep>() && strictly_increasing(s) {
                            lemma_cached_up_found(s, value, last_lower as int, idx as int);
                        }
                    }
                    self.last_lower_idx = pair.0;
                    return pair;
                }
                idx += 1;
            }
            // no axis value above the query: use the last interval
            proof {
                if total_order::<Indep>() && strictly_increasing(s) {
                    lemma_cached_up_none(s, value, last_lower as int);
                }
            }
            self.last_lower_idx = length - 2;
            (length - 2, length - 1)
        }
    }
}

/// A downward scan from the cached position that found an axis value below
/// the query yields a valid interval.
proof fn lemma_cached_down_found<Indep: PartialOrd>(
    s: Seq<Indep>,
    x: Indep,
    cached: int,
    found: int,
)
    requires
        total_order::<Indep>(),
        strictly_increasing(s),
        s.len() >= 2,
        0 <= found < cached <= s.len() - 2,
        ord_ge(s[cached], x),
        ord_lt(s[found], x),
        forall|j: int| found < j < cached ==> !ord_lt(s[j], x),
    ensures
        valid_interval(s, x, found),
{
    let n = s.len() as int;
    // the value right above the found position is at or above the query
    assert(ord_le(x, s[found + 1])) by {
        if found + 1 == cached {
            lemma_flip(x, s[cached]);
        } else {
            lemma_flip(s[found + 1], x);
            lemma_flip(x, s[found + 1]);
        }
    }
    assert(!ord_lt(x, s[0])) by {
        if ord_lt(x, s[0]) {
            lemma_lt_le_trans(s[found], x, s[0]);
            if found != 0 {
                assert(ord_lt(s[0], s[found]));
            }
            lemma_ord_refl(s[0]);
            lemma_asym(s[0], s[found]);
        }
    }
    assert(!ord_lt(s[n - 1], x)) by {
        if ord_lt(s[n - 1], x) {
            lemma_lt_le_trans(s[n - 1], x, s[found + 1]);
            assert(ord_lt(s[found + 1], s[n - 1]) || found + 1 == n - 1);
            lemma_ord_refl(s[found + 1]);
            lemma_asym(s[found + 1], s[n - 1]);
        }
    }
}

/// A downward scan that found nothing below the query ends at the first
/// interval.
proof fn lemma_cached_down_none<Indep: PartialOrd>(s: Seq<Indep>, x: Indep, cached: int)
    requires
        total_order::<Indep>(),
        strictly_increasing(s),
        s.len() >= 2,
        0 <= cached <= s.len() - 2,
        ord_ge(s[cached], x),
        forall|j: int| 0 <= j < cached ==> !ord_lt(s[j], x),
    ensures
        valid_interval(s, x, 0),
{
    let n = s.len() as int;
    lemma_flip(x, s[cached]);
    assert(ord_le(x, s[cached]));
    // the query is at or below the cached position, so not above the axis end
    assert(!ord_lt(s[n - 1], x) || 0 == n - 2) by {
        if ord_lt(s[n - 1], x) && n > 2 {
            lemma_lt_le_trans(s[n - 1], x, s[cached]);
            assert(ord_lt(s[cached], s[n - 1]) || cached == n - 1);
            lemma_ord_refl(s[cached]);
            lemma_asym(s[cached], s[n - 1]);
        }
    }
    assert(ord_le(x, s[0int + 1])) by {
        if cached == 0 {
            assert(ord_lt(s[0], s[1]));
            lemma_le_lt_trans(x, s[0], s[1]);
        } else if cached >= 2 {
            lemma_flip(s[1], x);
            lemma_flip(x, s[1]);
        }
    }
}

/// An upward scan from the cached position that found an axis value above
/// the query yields a valid interval once its index is capped into range.
proof fn lemma_cached_up_found<Indep: PartialOrd>(
    s: Seq<Indep>,
    x: Indep,
    cached: int,
    found: int,
)
    requires
        total_order::<Indep>(),
        strictly_increasing(s),
        s.len() >= 2,
        0 <= cached <= s.len() - 2,
        cached <= found < s.len(),
        !ord_ge(s[cached], x),
        ord_gt(s[found], x),
        forall|j: int| cached <= j < found ==> !ord_gt(s[j], x),
    ensures
        valid_interval(s, x, if found <= 1 { 0int } else { found - 1 }),
{
    let n = s.len() as int;
    assert(ord_lt(s[cached], x));
    assert(found > cached);
    let lo: int = if found <= 1 { 0int } else { found - 1 };
    assert(lo >= cached) by {
        if found <= 1 {
            assert(cached == 0);
        }
    }
    lemma_flip(x, s[found]);
    assert(ord_lt(x, s[found]));
    assert(ord_le(s[lo], x)) by {
        if lo > cached {
            lemma_flip(s[lo], x);
        }
    }
    assert(!ord_lt(x, s[0])) by {
        if ord_lt(x, s[0]) {
            lemma_le_lt_trans(s[lo], x, s[0]);
            if lo != 0 {
                assert(ord_lt(s[0], s[lo]));
            }
            lemma_ord_refl(s[0]);
            lemma_asym(s[0], s[lo]);
        }
    }
    assert(!ord_lt(s[n - 1], x)) by {
        if ord_lt(s[n - 1], x) {
            if found < n - 1 {
                assert(ord_lt(s[found], s[n - 1]));
                lemma_lt_le_trans(x, s[found], s[n - 1]);
            }
            assert(ord_lt(x, s[n - 1]));
            lemma_asym(x, s[n - 1]);
        }
    }
    assert(ord_le(x, s[lo + 1]));
}

/// An upward scan that found nothing above the query ends at the last
/// interval.
proof fn lemma_cached_up_none<Indep: PartialOrd>(s: Seq<Indep>, x: Indep, cached: int)
    requires
        total_order::<Indep>(),
        strictly_increasing(s),
        s.len() >= 2,
        0 <= cached <= s.len() - 2,
        forall|j: int| cached <= j < s.len() ==> !ord_gt(s[j], x),
    ensures
        valid_interval(s, x, s.len() - 2),
{
    let n = s.len() as int;
    lemma_flip(s[n - 2], x);
    lemma_flip(s[n - 1], x);
    assert(ord_le(s[n - 2], x));
    assert(!ord_lt(x, s[0])) by {
        if ord_lt(x, s[0]) {
            lemma_le_lt_trans(s[n - 2], x, s[0]);
            if n - 2 != 0 {
                assert(ord_lt(s[0], s[n - 2]));
            }
            lemma_ord_refl(s[0]);
            lemma_asym(s[0], s[n - 2]);
        }
    }
}

impl<Indep: PartialOrd + Copy> Search<Indep> for RuntimeSearch {
    fn search(&mut self, value: Indep, indep_values: &Vec<Indep>) -> (r: (usize, usize)) {
        match self {
            RuntimeSearch::Linear(l) => l.search(value, indep_values),
            RuntimeSearch::Binary(b) => b.search(value, indep_values),
            RuntimeSearch::CachedLinearCell(c) => c.search(value, indep_values),
        }
    }
}

} // verus!
