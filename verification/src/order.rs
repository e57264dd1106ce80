//! The order and the scale on which a distribution reads its values.

use vstd::prelude::*;

verus! {

/// The order in which a distribution reads the values of `V`.
///
/// The order is total: any two values compare, and two values that lie at or
/// below one another are one value.
pub trait Ordered<V> {
    /// `a` lies at or below `b`.
    spec fn le(a: V, b: V) -> bool;

    /// Any two values compare.
    proof fn le_total(a: V, b: V)
        ensures
            Self::le(a, b) || Self::le(b, a),
    ;

    /// Values that lie at or below one another are equal.
    proof fn le_antisymmetric(a: V, b: V)
        requires
            Self::le(a, b),
            Self::le(b, a),
        ensures
            a == b,
    ;

    /// What lies at or below a value lies at or below all that the value
    /// lies at or below.
    proof fn le_transitive(a: V, b: V, c: V)
        requires
            Self::le(a, b),
            Self::le(b, c),
        ensures
            Self::le(a, c),
    ;
}

/// `a` lies strictly below `b` in the order of `D`.
pub open spec fn lt<V, D: Ordered<V> + ?Sized>(a: V, b: V) -> bool {
    D::le(a, b) && a != b
}

/// `x` lies between `lo` and `hi`, both included, in the order of `D`.
pub open spec fn between<V, D: Ordered<V> + ?Sized>(lo: V, x: V, hi: V) -> bool {
    D::le(lo, x) && D::le(x, hi)
}

/// Every value lies at or below itself.
pub proof fn lemma_le_reflexive<V, D: Ordered<V> + ?Sized>(a: V)
    ensures
        D::le(a, a),
{
    D::le_total(a, a);
}

/// `a` lies strictly below `b` exactly where `b` does not lie at or below `a`.
pub proof fn lemma_lt_is_not_ge<V, D: Ordered<V> + ?Sized>(a: V, b: V)
    ensures
        lt::<V, D>(a, b) <==> !D::le(b, a),
{
    D::le_total(a, b);
    if D::le(a, b) && D::le(b, a) {
        D::le_antisymmetric(a, b);
    }
    if a == b {
        lemma_le_reflexive::<V, D>(a);
    }
}

/// The scale on which a distribution measures probability and density: an
/// order with a zero and a one in it.
pub trait Scale<K>: Ordered<K> {
    /// The measure of what cannot happen.
    spec fn zero() -> K;

    /// The measure of what is certain.
    spec fn one() -> K;

    /// Zero lies strictly below one.
    proof fn zero_below_one()
        ensures
            Self::le(Self::zero(), Self::one()),
            Self::zero() != Self::one(),
    ;
}

/// `p` is a probability on the scale of `D`: it lies between zero and one.
pub open spec fn is_probability<K, D: Scale<K> + ?Sized>(p: K) -> bool {
    D::le(D::zero(), p) && D::le(p, D::one())
}

} // verus!
