//! The bounds of a distribution's domain.

use crate::domain::{is_outcome, Domain};
use crate::order::{between, lt, Ordered};
use vstd::prelude::*;

verus! {

/// The lower bound of a distribution's domain: the greatest value that lies
/// at or below every outcome. It is an outcome itself where the domain
/// includes its bound.
pub trait Min<T>: Domain<T> + Ordered<T> {
    /// The lower bound of the domain.
    spec fn minimum(&self) -> T;

    /// No outcome lies below the minimum.
    proof fn minimum_bounds_domain(&self, x: T)
        requires
            is_outcome(self, x),
        ensures
            Self::le(self.minimum(), x),
    ;

    /// The minimum is the greatest of the values that no outcome lies below.
    proof fn minimum_is_greatest(&self, b: T)
        requires
            forall|x: T| #[trigger] self.in_domain(x) && self.well_formed(x) ==> Self::le(b, x),
        ensures
            Self::le(b, self.minimum()),
    ;

    /// Returns the minimum of the domain.
    fn min(&self) -> (r: T)
        ensures
            r == self.minimum(),
    ;
}

/// The upper bound of a distribution's domain: the least value that lies at
/// or above every outcome. It is an outcome itself where the domain includes
/// its bound.
pub trait Max<T>: Domain<T> + Ordered<T> {
    /// The upper bound of the domain.
    spec fn maximum(&self) -> T;

    /// No outcome lies above the maximum.
    proof fn maximum_bounds_domain(&self, x: T)
        requires
            is_outcome(self, x),
        ensures
            Self::le(x, self.maximum()),
    ;

    /// The maximum is the least of the values that no outcome lies above.
    proof fn maximum_is_least(&self, b: T)
        requires
            forall|x: T| #[trigger] self.in_domain(x) && self.well_formed(x) ==> Self::le(x, b),
        ensures
            Self::le(self.maximum(), b),
    ;

    /// Returns the maximum of the domain.
    fn max(&self) -> (r: T)
        ensures
            r == self.maximum(),
    ;
}

/// `x` lies strictly outside the bounds of `d`: below its minimum or above
/// its maximum.
pub open spec fn outside_bounds<T, D: Min<T> + Max<T> + ?Sized>(d: &D, x: T) -> bool {
    lt::<T, D>(x, d.minimum()) || lt::<T, D>(d.maximum(), x)
}

/// The minimum of a distribution lies at or below its maximum.
pub proof fn lemma_minimum_le_maximum<T, D: Min<T> + Max<T> + ?Sized>(d: &D)
    ensures
        D::le(d.minimum(), d.maximum()),
{
    let x = d.domain_inhabited();
    d.minimum_bounds_domain(x);
    d.maximum_bounds_domain(x);
    D::le_transitive(d.minimum(), x, d.maximum());
}

/// Every outcome lies between the minimum and the maximum.
pub proof fn lemma_outcome_within_bounds<T, D: Min<T> + Max<T> + ?Sized>(d: &D, x: T)
    requires
        is_outcome(d, x),
    ensures
        between::<T, D>(d.minimum(), x, d.maximum()),
{
    d.minimum_bounds_domain(x);
    d.maximum_bounds_domain(x);
}

/// The bounds of a distribution are fixed by its domain: a value that bounds
/// the domain from below as the minimum does is the minimum, and a value that
/// bounds it from above as the maximum does is the maximum.
pub proof fn lemma_bounds_unique<T, D: Min<T> + Max<T> + ?Sized>(d: &D, lo: T, hi: T)
    requires
        forall|x: T| #[trigger] d.in_domain(x) && d.well_formed(x) ==> D::le(lo, x) && D::le(x, hi),
        forall|b: T|
            (forall|x: T| #[trigger] d.in_domain(x) && d.well_formed(x) ==> D::le(b, x))
                ==> #[trigger] D::le(b, lo),
        forall|b: T|
            (forall|x: T| #[trigger] d.in_domain(x) && d.well_formed(x) ==> D::le(x, b))
                ==> #[trigger] D::le(hi, b),
    ensures
        lo == d.minimum(),
        hi == d.maximum(),
{
    assert forall|x: T| #[trigger] d.in_domain(x) && d.well_formed(x) implies D::le(
        d.minimum(),
        x,
    ) && D::le(x, d.maximum()) by {
        d.minimum_bounds_domain(x);
        d.maximum_bounds_domain(x);
    }
    d.minimum_is_greatest(lo);
    d.maximum_is_least(hi);
    assert(D::le(d.minimum(), lo));
    assert(D::le(hi, d.maximum()));
    D::le_antisymmetric(lo, d.minimum());
    D::le_antisymmetric(hi, d.maximum());
}

/// A value strictly outside the bounds is no outcome.
pub proof fn lemma_outside_bounds_not_in_domain<T, D: Min<T> + Max<T> + ?Sized>(d: &D, x: T)
    requires
        d.well_formed(x),
        outside_bounds(d, x),
    ensures
        !d.in_domain(x),
{
    if d.in_domain(x) {
        d.minimum_bounds_domain(x);
        d.maximum_bounds_domain(x);
        if D::le(x, d.minimum()) {
            D::le_antisymmetric(x, d.minimum());
        }
        if D::le(d.maximum(), x) {
            D::le_antisymmetric(x, d.maximum());
        }
    }
}

} // verus!
