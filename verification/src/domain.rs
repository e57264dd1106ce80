//! The arguments that a distribution accepts.

use crate::error::StatsError;
use vstd::prelude::*;

verus! {

/// The domain that a distribution declares over the values of `T`.
pub trait Domain<T> {
    /// `x` has the structure that the distribution expects of an argument,
    /// such as the dimension of a vector.
    spec fn well_formed(&self, x: T) -> bool;

    /// `x` lies in the declared domain: it is a value that a draw may take,
    /// and outside of it no density or mass is found.
    spec fn in_domain(&self, x: T) -> bool;

    /// What the distribution computes has a numeric value at `x`.
    spec fn defined(&self, x: T) -> bool;

    /// The domain is not empty: the result is a value in it.
    proof fn domain_inhabited(&self) -> (x: T)
        ensures
            self.well_formed(x),
            self.in_domain(x),
    ;

    /// Outside the domain nothing is left undefined.
    proof fn defined_outside_domain(&self, x: T)
        requires
            self.well_formed(x),
            !self.in_domain(x),
        ensures
            self.defined(x),
    ;
}

/// `x` is a value that a draw from `d` may take.
pub open spec fn is_outcome<T, D: Domain<T> + ?Sized>(d: &D, x: T) -> bool {
    d.well_formed(x) && d.in_domain(x)
}

/// `d` answers an unchecked query at `x`.
pub open spec fn accepts<T, D: Domain<T> + ?Sized>(d: &D, x: T) -> bool {
    d.well_formed(x) && d.defined(x)
}

/// The failure with which a checked query of `d` at `x` ends, if it fails.
///
/// The structure of the argument is looked at first, then its place in the
/// domain, then whether the result has a value.
pub open spec fn verdict<T, D: Domain<T> + ?Sized>(d: &D, x: T) -> Option<StatsError> {
    if !d.well_formed(x) {
        Some(StatsError::InvalidStructure)
    } else if !d.in_domain(x) {
        Some(StatsError::OutOfDomain)
    } else if !d.defined(x) {
        Some(StatsError::Undefined)
    } else {
        None
    }
}

/// A checked query succeeds only where the unchecked one is answered.
pub proof fn lemma_no_verdict_accepts<T, D: Domain<T> + ?Sized>(d: &D, x: T)
    ensures
        verdict(d, x) is None <==> is_outcome(d, x) && d.defined(x),
        verdict(d, x) is None ==> accepts(d, x),
{
}

} // verus!
