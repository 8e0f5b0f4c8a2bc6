//! Spec-level vocabulary for comparisons of the independent-variable scalar.
//!
//! Everything the engine states about ordering goes through
//! `partial_cmp_spec`, the specification that `vstd` attaches to
//! `PartialOrd`.  [`total_order`] collects the facts the contracts are
//! conditioned on: the executable comparisons agree with `partial_cmp_spec`,
//! and that specification behaves as a total order.  The integer types obey
//! all of it; for floating point `vstd` leaves the comparisons unspecified,
//! so `total_order` does not hold and the conditional contracts are silent.

use vstd::prelude::*;

use core::cmp::Ordering;
use vstd::std_specs::cmp::PartialEqSpec;
use vstd::std_specs::cmp::PartialOrdSpec;

verus! {

/// `a` is strictly below `b` according to the comparison specification.
pub open spec fn ord_lt<T: PartialOrd>(a: T, b: T) -> bool {
    a.partial_cmp_spec(&b) == Some(Ordering::Less)
}

/// `a` is strictly above `b` according to the comparison specification.
pub open spec fn ord_gt<T: PartialOrd>(a: T, b: T) -> bool {
    a.partial_cmp_spec(&b) == Some(Ordering::Greater)
}

/// `a` is below or tied with `b` according to the comparison specification.
pub open spec fn ord_le<T: PartialOrd>(a: T, b: T) -> bool {
    a.partial_cmp_spec(&b) matches Some(Ordering::Less | Ordering::Equal)
}

/// `a` is above or tied with `b` according to the comparison specification.
pub open spec fn ord_ge<T: PartialOrd>(a: T, b: T) -> bool {
    a.partial_cmp_spec(&b) matches Some(Ordering::Greater | Ordering::Equal)
}

/// The scalar's comparisons are trustworthy and form a total order:
/// the executable `==` and `partial_cmp` agree with their specification
/// functions, every pair of values is comparable, equality agrees with a
/// comparison outcome of `Equal`, comparing in the opposite direction flips
/// the outcome, and chains of comparisons compose transitively.
pub open spec fn total_order<T: PartialOrd>() -> bool {
    &&& T::obeys_eq_spec()
    &&& T::obeys_partial_cmp_spec()
    &&& forall|x: T, y: T| #![trigger x.partial_cmp_spec(&y)] x.partial_cmp_spec(&y) is Some
    &&& forall|x: T, y: T|
        #![trigger x.eq_spec(&y)]
        x.eq_spec(&y) <==> x.partial_cmp_spec(&y) == Some(Ordering::Equal)
    &&& forall|x: T, y: T|
        #![trigger x.partial_cmp_spec(&y)]
        (x.partial_cmp_spec(&y) == Some(Ordering::Less) <==> y.partial_cmp_spec(&x) == Some(
            Ordering::Greater,
        )) && (x.partial_cmp_spec(&y) == Some(Ordering::Equal) <==> y.partial_cmp_spec(&x)
            == Some(Ordering::Equal))
    &&& forall|x: T, y: T, z: T|
        #![trigger x.partial_cmp_spec(&y), y.partial_cmp_spec(&z)]
        (ord_le(x, y) && ord_le(y, z) ==> ord_le(x, z)) && (ord_lt(x, y) && ord_le(y, z)
            ==> ord_lt(x, z)) && (ord_le(x, y) && ord_lt(y, z) ==> ord_lt(x, z))
}

/// Under a total order every value ties with itself.
pub proof fn lemma_ord_refl<T: PartialOrd>(a: T)
    requires
        total_order::<T>(),
    ensures
        a.partial_cmp_spec(&a) == Some(Ordering::Equal),
        ord_le(a, a),
{
    if a.partial_cmp_spec(&a) == Some(Ordering::Less) {
        assert(a.partial_cmp_spec(&a) == Some(Ordering::Greater));
    }
    if a.partial_cmp_spec(&a) == Some(Ordering::Greater) {
        assert(a.partial_cmp_spec(&a) == Some(Ordering::Less));
    }
}

/// A chain below-or-tied then strictly-below stays strictly below.
pub proof fn lemma_le_lt_trans<T: PartialOrd>(a: T, b: T, c: T)
    requires
        total_order::<T>(),
        ord_le(a, b),
        ord_lt(b, c),
    ensures
        ord_lt(a, c),
{
}

/// A chain strictly-below then below-or-tied stays strictly below.
pub proof fn lemma_lt_le_trans<T: PartialOrd>(a: T, b: T, c: T)
    requires
        total_order::<T>(),
        ord_lt(a, b),
        ord_le(b, c),
    ensures
        ord_lt(a, c),
{
}

/// Under a total order a comparison read one way fixes the other way.
pub proof fn lemma_flip<T: PartialOrd>(a: T, b: T)
    requires
        total_order::<T>(),
    ensures
        ord_lt(a, b) <==> ord_gt(b, a),
        ord_le(a, b) <==> ord_ge(b, a),
        !ord_gt(a, b) <==> ord_le(a, b),
        !ord_lt(a, b) <==> ord_ge(a, b),
{
}

/// Under a total order two values are never on strictly opposite sides of
/// each other: below-or-tied one way refutes strictly-below the other way.
pub proof fn lemma_asym<T: PartialOrd>(a: T, b: T)
    requires
        total_order::<T>(),
        ord_le(a, b),
    ensures
        !ord_lt(b, a),
{
}

/// Every adjacent pair of the sequence is strictly increasing.
pub open spec fn adjacent_increasing<T: PartialOrd>(s: Seq<T>) -> bool {
    forall|i: int| 0 <= i < s.len() - 1 ==> #[trigger] ord_lt(s[i], s[i + 1])
}

/// Every adjacent pair of the sequence is strictly decreasing.
pub open spec fn adjacent_decreasing<T: PartialOrd>(s: Seq<T>) -> bool {
    forall|i: int| 0 <= i < s.len() - 1 ==> #[trigger] ord_lt(s[i + 1], s[i])
}

/// Every pair of positions of the sequence is strictly increasing.
pub open spec fn strictly_increasing<T: PartialOrd>(s: Seq<T>) -> bool {
    forall|i: int, j: int| 0 <= i < j < s.len() ==> #[trigger] ord_lt(s[i], s[j])
}

/// Positions `i < j` of an adjacently increasing sequence compare strictly.
pub proof fn lemma_adjacent_gap<T: PartialOrd>(s: Seq<T>, i: int, j: int)
    requires
        total_order::<T>(),
        adjacent_increasing(s),
        0 <= i < j < s.len(),
    ensures
        ord_lt(s[i], s[j]),
    decreases j - i,
{
    if j == i + 1 {
        assert(ord_lt(s[i], s[i + 1]));
    } else {
        lemma_adjacent_gap(s, i, j - 1);
        assert(ord_lt(s[j - 1], s[(j - 1) + 1]));
    }
}

/// Under a total order, adjacent strict increase gives strict increase
/// between every pair of positions.
pub proof fn lemma_adjacent_implies_strict<T: PartialOrd>(s: Seq<T>)
    requires
        total_order::<T>(),
        adjacent_increasing(s),
    ensures
        strictly_increasing(s),
{
    assert forall|i: int, j: int| 0 <= i < j < s.len() implies #[trigger] ord_lt(s[i], s[j]) by {
        lemma_adjacent_gap(s, i, j);
    }
}

/// The reverse of an adjacently decreasing sequence is adjacently increasing.
pub proof fn lemma_reverse_of_decreasing<T: PartialOrd>(s: Seq<T>)
    requires
        adjacent_decreasing(s),
    ensures
        adjacent_increasing(s.reverse()),
{
    assert forall|i: int| 0 <= i < s.reverse().len() - 1 implies #[trigger] ord_lt(
        s.reverse()[i],
        s.reverse()[i + 1],
    ) by {
        let n = s.len() as int;
        assert(s.reverse()[i] == s[n - 1 - i]);
        assert(s.reverse()[i + 1] == s[n - 2 - i]);
        assert(ord_lt(s[(n - 2 - i) + 1], s[n - 2 - i]));
    }
}

} // verus!
