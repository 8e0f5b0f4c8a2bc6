//! Exact-arithmetic model of the interpolation step.
//!
//! The executable engine is generic over its scalars, so the properties
//! that depend on arithmetic identities (rather than on ordering alone)
//! cannot be stated of every scalar: integer division truncates and
//! floating point rounds.  This module states those properties of the
//! interpolation formula itself, over ghost rational numbers, in the same
//! operation order the engine computes: exactness at the grid points, the
//! collinearity that makes extrapolation linear, and the agreement of every
//! valid bounding interval, which is why the choice of search strategy is
//! unobservable in reported values.

use vstd::prelude::*;

verus! {

/// A ghost rational number `num / den`.
pub struct Rat {
    pub num: int,
    pub den: int,
}

/// A rational is well formed when its denominator is positive.
pub open spec fn rat_wf(a: Rat) -> bool {
    a.den > 0
}

/// Equality of the represented values, by cross multiplication.
pub open spec fn rat_eq(a: Rat, b: Rat) -> bool {
    a.num * b.den == b.num * a.den
}

/// `a <= b` on the represented values, by cross multiplication.
pub open spec fn rat_le(a: Rat, b: Rat) -> bool {
    a.num * b.den <= b.num * a.den
}

/// `a < b` on the represented values, by cross multiplication.
pub open spec fn rat_lt(a: Rat, b: Rat) -> bool {
    a.num * b.den < b.num * a.den
}

/// Rational addition.
pub open spec fn rat_add(a: Rat, b: Rat) -> Rat {
    Rat { num: a.num * b.den + b.num * a.den, den: a.den * b.den }
}

/// Rational subtraction.
pub open spec fn rat_sub(a: Rat, b: Rat) -> Rat {
    Rat { num: a.num * b.den - b.num * a.den, den: a.den * b.den }
}

/// Rational multiplication.
pub open spec fn rat_mul(a: Rat, b: Rat) -> Rat {
    Rat { num: a.num * b.num, den: a.den * b.den }
}

/// Rational division; meaningful when the divisor is positive.
pub open spec fn rat_div(a: Rat, b: Rat) -> Rat {
    Rat { num: a.num * b.den, den: a.den * b.num }
}

/// The linear interpolation step over rationals, in the operation order the
/// engine computes it: `(y_h - y_l) / (x_h - x_l) * (x - x_l) + y_l`.
pub open spec fn rat_lerp(x_l: Rat, x_h: Rat, y_l: Rat, y_h: Rat, x: Rat) -> Rat {
    rat_add(rat_mul(rat_div(rat_sub(y_h, y_l), rat_sub(x_h, x_l)), rat_sub(x, x_l)), y_l)
}

/// Rational equality is symmetric.
pub proof fn lemma_rat_eq_sym(a: Rat, b: Rat)
    requires
        rat_eq(a, b),
    ensures
        rat_eq(b, a),
{
}

/// Rational equality is transitive on well-formed values.
pub proof fn lemma_rat_eq_trans(a: Rat, b: Rat, c: Rat)
    requires
        rat_wf(a),
        rat_wf(b),
        rat_wf(c),
        rat_eq(a, b),
        rat_eq(b, c),
    ensures
        rat_eq(a, c),
{
    assert(a.num * c.den == c.num * a.den) by (nonlinear_arith)
        requires
            b.den > 0,
            a.num * b.den == b.num * a.den,
            b.num * c.den == c.num * b.den,
    ;
}

/// Mutually below-or-tied rationals are equal.
pub proof fn lemma_rat_le_antisym(a: Rat, b: Rat)
    requires
        rat_le(a, b),
        rat_le(b, a),
    ensures
        rat_eq(a, b),
{
}

/// A strict step below a below-or-tied step stays strict.
pub proof fn lemma_rat_lt_le_trans(a: Rat, b: Rat, c: Rat)
    requires
        rat_wf(a),
        rat_wf(b),
        rat_wf(c),
        rat_lt(a, b),
        rat_le(b, c),
    ensures
        rat_lt(a, c),
{
    assert(a.num * c.den < c.num * a.den) by (nonlinear_arith)
        requires
            a.den > 0,
            b.den > 0,
            c.den > 0,
            a.num * b.den < b.num * a.den,
            b.num * c.den <= c.num * b.den,
    ;
}

/// The interpolation step of a nondegenerate interval is well formed.
pub proof fn lemma_lerp_wf(x_l: Rat, x_h: Rat, y_l: Rat, y_h: Rat, x: Rat)
    requires
        rat_wf(x_l),
        rat_wf(x_h),
        rat_wf(y_l),
        rat_wf(y_h),
        rat_wf(x),
        rat_lt(x_l, x_h),
    ensures
        rat_wf(rat_lerp(x_l, x_h, y_l, y_h, x)),
{
    let r = rat_lerp(x_l, x_h, y_l, y_h, x);
    let bd = y_h.den * y_l.den;
    let cn = x_h.num * x_l.den - x_l.num * x_h.den;
    let fd = x.den * x_l.den;
    assert(r.den == ((bd * cn) * fd) * y_l.den);
    assert(((bd * cn) * fd) * y_l.den > 0) by (nonlinear_arith)
        requires
            bd == y_h.den * y_l.den,
            fd == x.den * x_l.den,
            y_h.den > 0,
            y_l.den > 0,
            x.den > 0,
            x_l.den > 0,
            cn > 0,
    ;
}

/// Exactness at the lower grid point: evaluating the interpolation step at
/// (a value equal to) the lower end of its interval yields exactly the
/// sample stored there.
pub proof fn lemma_lerp_exact_at_lower(x_l: Rat, x_h: Rat, y_l: Rat, y_h: Rat, x: Rat)
    requires
        rat_wf(x_l),
        rat_wf(x_h),
        rat_wf(y_l),
        rat_wf(y_h),
        rat_wf(x),
        rat_lt(x_l, x_h),
        rat_eq(x, x_l),
    ensures
        rat_eq(rat_lerp(x_l, x_h, y_l, y_h, x), y_l),
{
    let r = rat_lerp(x_l, x_h, y_l, y_h, x);
    let an = y_h.num * y_l.den - y_l.num * y_h.den;
    let bd = y_h.den * y_l.den;
    let cn = x_h.num * x_l.den - x_l.num * x_h.den;
    let dd = x_h.den * x_l.den;
    let en = x.num * x_l.den - x_l.num * x.den;
    let fd = x.den * x_l.den;
    assert(en == 0);
    assert(r.num == ((an * dd) * en) * y_l.den + y_l.num * ((bd * cn) * fd));
    assert(r.den == ((bd * cn) * fd) * y_l.den);
    assert(r.num * y_l.den == y_l.num * r.den) by (nonlinear_arith)
        requires
            en == 0,
            r.num == ((an * dd) * en) * y_l.den + y_l.num * ((bd * cn) * fd),
            r.den == ((bd * cn) * fd) * y_l.den,
    ;
}

/// Exactness at the upper grid point: evaluating the interpolation step at
/// (a value equal to) the upper end of its interval yields exactly the
/// sample stored there.
pub proof fn lemma_lerp_exact_at_upper(x_l: Rat, x_h: Rat, y_l: Rat, y_h: Rat, x: Rat)
    requires
        rat_wf(x_l),
        rat_wf(x_h),
        rat_wf(y_l),
        rat_wf(y_h),
        rat_wf(x),
        rat_lt(x_l, x_h),
        rat_eq(x, x_h),
    ensures
        rat_eq(rat_lerp(x_l, x_h, y_l, y_h, x), y_h),
{
    let r = rat_lerp(x_l, x_h, y_l, y_h, x);
    let an = y_h.num * y_l.den - y_l.num * y_h.den;
    let bd = y_h.den * y_l.den;
    let cn = x_h.num * x_l.den - x_l.num * x_h.den;
    let dd = x_h.den * x_l.den;
    let en = x.num * x_l.den - x_l.num * x.den;
    let fd = x.den * x_l.den;
    let w = dd * en;
    assert(r.num == ((an * dd) * en) * y_l.den + y_l.num * ((bd * cn) * fd));
    assert(r.den == ((bd * cn) * fd) * y_l.den);
    // with x equal to the interval's upper end, the fractional offset
    // equals the interval width
    assert(dd * en == (x.num * x_h.den) * (x_l.den * x_l.den) - (x_l.num * x.den) * (x_h.den
        * x_l.den)) by (nonlinear_arith)
        requires
            dd == x_h.den * x_l.den,
            en == x.num * x_l.den - x_l.num * x.den,
    ;
    assert(cn * fd == (x_h.num * x_l.den) * (x.den * x_l.den) - (x_l.num * x_h.den) * (x.den
        * x_l.den)) by (nonlinear_arith)
        requires
            cn == x_h.num * x_l.den - x_l.num * x_h.den,
            fd == x.den * x_l.den,
    ;
    assert((x_h.num * x_l.den) * (x.den * x_l.den) == (x_h.num * x.den) * (x_l.den * x_l.den))
        by (nonlinear_arith);
    assert((x_l.num * x_h.den) * (x.den * x_l.den) == (x_l.num * x.den) * (x_h.den * x_l.den))
        by (nonlinear_arith);
    assert(dd * en == cn * fd);
    // factor the width out of the numerator and the denominator
    assert(((an * dd) * en) * y_l.den == w * (an * y_l.den)) by (nonlinear_arith)
        requires
            w == dd * en,
    ;
    assert(y_l.num * ((bd * cn) * fd) == (cn * fd) * (y_l.num * bd)) by (nonlinear_arith);
    assert(r.num == w * (an * y_l.den) + w * (y_l.num * bd));
    assert(r.num == w * (an * y_l.den + y_l.num * bd)) by (nonlinear_arith)
        requires
            r.num == w * (an * y_l.den) + w * (y_l.num * bd),
    ;
    // the factored numerator collapses to the upper sample
    assert(an * y_l.den + y_l.num * bd == y_h.num * (y_l.den * y_l.den)) by (nonlinear_arith)
        requires
            an == y_h.num * y_l.den - y_l.num * y_h.den,
            bd == y_h.den * y_l.den,
    ;
    assert(r.num == w * (y_h.num * (y_l.den * y_l.den)));
    assert(((bd * cn) * fd) * y_l.den == (cn * fd) * (bd * y_l.den)) by (nonlinear_arith);
    assert(r.den == w * (bd * y_l.den));
    assert((w * (y_h.num * (y_l.den * y_l.den))) * y_h.den == y_h.num * (w * (bd * y_l.den)))
        by (nonlinear_arith)
        requires
            bd == y_h.den * y_l.den,
    ;
}

/// Extrapolation linearity: for every query, in range or beyond either end,
/// the reported value lies on the line through the interval's two grid
/// points, with the interval's slope:
/// `(r - y_l) * (x_h - x_l) == (y_h - y_l) * (x - x_l)`.
pub proof fn lemma_lerp_collinear(x_l: Rat, x_h: Rat, y_l: Rat, y_h: Rat, x: Rat)
    requires
        rat_wf(x_l),
        rat_wf(x_h),
        rat_wf(y_l),
        rat_wf(y_h),
        rat_wf(x),
        rat_lt(x_l, x_h),
    ensures
        rat_eq(
            rat_mul(rat_sub(rat_lerp(x_l, x_h, y_l, y_h, x), y_l), rat_sub(x_h, x_l)),
            rat_mul(rat_sub(y_h, y_l), rat_sub(x, x_l)),
        ),
{
    let r = rat_lerp(x_l, x_h, y_l, y_h, x);
    let an = y_h.num * y_l.den - y_l.num * y_h.den;
    let bd = y_h.den * y_l.den;
    let cn = x_h.num * x_l.den - x_l.num * x_h.den;
    let dd = x_h.den * x_l.den;
    let en = x.num * x_l.den - x_l.num * x.den;
    let fd = x.den * x_l.den;
    assert(r.num == ((an * dd) * en) * y_l.den + y_l.num * ((bd * cn) * fd));
    assert(r.den == ((bd * cn) * fd) * y_l.den);
    let lhs = rat_mul(rat_sub(r, y_l), rat_sub(x_h, x_l));
    let rhs = rat_mul(rat_sub(y_h, y_l), rat_sub(x, x_l));
    assert(lhs.num == (r.num * y_l.den - y_l.num * r.den) * cn);
    assert(lhs.den == (r.den * y_l.den) * dd);
    assert(rhs.num == an * en);
    assert(rhs.den == bd * fd);
    // subtracting the lower sample cancels it, leaving the scaled slope term
    let q = y_l.den * y_l.den;
    assert(r.num * y_l.den - y_l.num * r.den == ((an * dd) * en) * q) by (nonlinear_arith)
        requires
            q == y_l.den * y_l.den,
            r.num == ((an * dd) * en) * y_l.den + y_l.num * ((bd * cn) * fd),
            r.den == ((bd * cn) * fd) * y_l.den,
    ;
    assert(lhs.num == (((an * dd) * en) * q) * cn);
    // both sides are the same product of factors, rearranged
    let u = (bd * cn) * fd;
    let s = an * en;
    let v = dd * cn;
    assert(lhs.den == (u * y_l.den * y_l.den) * dd) by (nonlinear_arith)
        requires
            lhs.den == (r.den * y_l.den) * dd,
            r.den == u * y_l.den,
    ;
    assert(lhs.num == ((s * v) * q)) by (nonlinear_arith)
        requires
            lhs.num == (((an * dd) * en) * q) * cn,
            s == an * en,
            v == dd * cn,
    ;
    assert((u * y_l.den * y_l.den) * dd == (v * (bd * fd)) * q) by (nonlinear_arith)
        requires
            u == (bd * cn) * fd,
            q == y_l.den * y_l.den,
            v == dd * cn,
    ;
    assert(((s * v) * q) * (bd * fd) == s * ((v * (bd * fd)) * q)) by (nonlinear_arith);
}

/// Search-strategy equivalence: for an in-range query, every bounding
/// interval of a strictly increasing axis yields the same interpolated
/// value.  Two bounding intervals differ only when the query ties with a
/// shared grid point, and then each interval reports exactly that grid
/// point's sample.
pub proof fn lemma_bounding_intervals_agree(
    axis: Seq<Rat>,
    dep: Seq<Rat>,
    x: Rat,
    lo1: int,
    lo2: int,
)
    requires
        dep.len() == axis.len(),
        forall|i: int| 0 <= i < axis.len() ==> rat_wf(#[trigger] axis[i]),
        forall|i: int| 0 <= i < dep.len() ==> rat_wf(#[trigger] dep[i]),
        rat_wf(x),
        forall|i: int, j: int| 0 <= i < j < axis.len() ==> rat_lt(#[trigger] axis[i], #[trigger] axis[j]),
        0 <= lo1 < axis.len() - 1,
        0 <= lo2 < axis.len() - 1,
        rat_le(axis[lo1], x) && rat_le(x, axis[lo1 + 1]),
        rat_le(axis[lo2], x) && rat_le(x, axis[lo2 + 1]),
    ensures
        rat_eq(
            rat_lerp(axis[lo1], axis[lo1 + 1], dep[lo1], dep[lo1 + 1], x),
            rat_lerp(axis[lo2], axis[lo2 + 1], dep[lo2], dep[lo2 + 1], x),
        ),
    decreases (if lo1 <= lo2 {
        0int
    } else {
        1int
    }),
{
    let r1 = rat_lerp(axis[lo1], axis[lo1 + 1], dep[lo1], dep[lo1 + 1], x);
    let r2 = rat_lerp(axis[lo2], axis[lo2 + 1], dep[lo2], dep[lo2 + 1], x);
    if lo1 == lo2 {
        assert(rat_eq(r1, r1));
    } else if lo1 > lo2 {
        lemma_bounding_intervals_agree(axis, dep, x, lo2, lo1);
        lemma_rat_eq_sym(r2, r1);
    } else {
        // the query sits at or above the upper end of the first interval and
        // at or below the lower end of the second: the intervals must be
        // adjacent and the query ties with their shared grid point
        assert(lo1 + 1 <= lo2);
        if lo1 + 1 < lo2 {
            assert(rat_lt(axis[lo1 + 1], axis[lo2]));
            lemma_rat_lt_le_trans(axis[lo1 + 1], axis[lo2], x);
            // now the query is both at or below and strictly above the
            // upper end of the first interval, which is impossible
            assert(rat_le(x, axis[lo1 + 1]) && rat_lt(axis[lo1 + 1], x));
        }
        assert(lo2 == lo1 + 1);
        // the query equals the shared grid point
        lemma_rat_le_antisym(x, axis[lo1 + 1]);
        assert(rat_eq(x, axis[lo2]));
        assert(rat_lt(axis[lo1], axis[lo1 + 1]));
        assert(rat_lt(axis[lo2], axis[lo2 + 1]));
        lemma_lerp_exact_at_upper(axis[lo1], axis[lo1 + 1], dep[lo1], dep[lo1 + 1], x);
        lemma_lerp_exact_at_lower(axis[lo2], axis[lo2 + 1], dep[lo2], dep[lo2 + 1], x);
        lemma_lerp_wf(axis[lo1], axis[lo1 + 1], dep[lo1], dep[lo1 + 1], x);
        lemma_lerp_wf(axis[lo2], axis[lo2 + 1], dep[lo2], dep[lo2 + 1], x);
        lemma_rat_eq_sym(r2, dep[lo2]);
        lemma_rat_eq_trans(r1, dep[lo1 + 1], r2);
    }
}

} // verus!
