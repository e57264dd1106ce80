//! What follows from the laws of the capabilities.

use crate::distribution::{
    checked_density, checked_ln_density, checked_ln_mass, checked_mass, has_quantile,
    is_checked_quantile, is_quantile, quantile_verdict, Continuous, Cumulative, Discrete,
    Univariate,
};
use crate::domain::{accepts, is_outcome, Domain};
use crate::error::StatsError;
use crate::order::{is_probability, lemma_le_reflexive, lemma_lt_is_not_ge, lt};
use crate::statistics::{lemma_outside_bounds_not_in_domain, outside_bounds, Max, Min};
use vstd::prelude::*;

verus! {

/// Strictly outside the bounds of a continuous distribution, a well-formed
/// argument is accepted, the density is zero, and the checked queries report
/// that the argument lies outside the domain.
pub proof fn lemma_density_outside_bounds<T, K, D: Continuous<T, K> + Min<T> + Max<T> + ?Sized>(
    d: &D,
    x: T,
)
    requires
        d.well_formed(x),
        outside_bounds(d, x),
    ensures
        accepts(d, x),
        d.density(x) == D::zero(),
        checked_density(d, x) == Err::<K, StatsError>(StatsError::OutOfDomain),
        checked_ln_density(d, x) == Err::<K, StatsError>(StatsError::OutOfDomain),
{
    lemma_outside_bounds_not_in_domain(d, x);
    d.defined_outside_domain(x);
    d.density_vanishes_outside_domain(x);
}

/// Strictly outside the bounds of a discrete distribution, a well-formed
/// argument is accepted, the mass is zero, and the checked queries report
/// that the argument lies outside the domain.
pub proof fn lemma_mass_outside_bounds<T, K, D: Discrete<T, K> + Min<T> + Max<T> + ?Sized>(
    d: &D,
    x: T,
)
    requires
        d.well_formed(x),
        outside_bounds(d, x),
    ensures
        accepts(d, x),
        d.mass(x) == D::zero(),
        checked_mass(d, x) == Err::<K, StatsError>(StatsError::OutOfDomain),
        checked_ln_mass(d, x) == Err::<K, StatsError>(StatsError::OutOfDomain),
{
    lemma_outside_bounds_not_in_domain(d, x);
    d.defined_outside_domain(x);
    d.mass_vanishes_outside_domain(x);
}

/// The logarithm of the density is a function of the density: where two
/// densities are equal, so are their logarithms, and the other way round.
pub proof fn lemma_ln_density_of_equal_densities<T, K, D: Continuous<T, K> + ?Sized>(
    d: &D,
    x: T,
    y: T,
)
    requires
        accepts(d, x),
        accepts(d, y),
    ensures
        d.density(x) == d.density(y) <==> d.ln_density(x) == d.ln_density(y),
{
    d.ln_density_keeps_order(x, y);
    d.ln_density_keeps_order(y, x);
    lemma_le_reflexive::<K, D>(d.density(x));
    lemma_le_reflexive::<K, D>(d.ln_density(x));
    if D::le(d.density(x), d.density(y)) && D::le(d.density(y), d.density(x)) {
        D::le_antisymmetric(d.density(x), d.density(y));
    }
    if D::le(d.ln_density(x), d.ln_density(y)) && D::le(d.ln_density(y), d.ln_density(x)) {
        D::le_antisymmetric(d.ln_density(x), d.ln_density(y));
    }
}

/// The logarithm of the density is zero exactly where the density is one.
pub proof fn lemma_ln_density_of_one<T, K, D: Continuous<T, K> + ?Sized>(d: &D, x: T)
    requires
        accepts(d, x),
    ensures
        d.density(x) == D::one() <==> d.ln_density(x) == D::zero(),
{
    d.ln_density_about_one(x);
    lemma_le_reflexive::<K, D>(D::one());
    lemma_le_reflexive::<K, D>(D::zero());
    if D::le(d.density(x), D::one()) && D::le(D::one(), d.density(x)) {
        D::le_antisymmetric(d.density(x), D::one());
    }
    if D::le(d.ln_density(x), D::zero()) && D::le(D::zero(), d.ln_density(x)) {
        D::le_antisymmetric(d.ln_density(x), D::zero());
    }
}

/// The logarithm of the mass is a function of the mass: where two masses are
/// equal, so are their logarithms, and the other way round.
pub proof fn lemma_ln_mass_of_equal_masses<T, K, D: Discrete<T, K> + ?Sized>(d: &D, x: T, y: T)
    requires
        accepts(d, x),
        accepts(d, y),
    ensures
        d.mass(x) == d.mass(y) <==> d.ln_mass(x) == d.ln_mass(y),
{
    d.ln_mass_keeps_order(x, y);
    d.ln_mass_keeps_order(y, x);
    lemma_le_reflexive::<K, D>(d.mass(x));
    lemma_le_reflexive::<K, D>(d.ln_mass(x));
    if D::le(d.mass(x), d.mass(y)) && D::le(d.mass(y), d.mass(x)) {
        D::le_antisymmetric(d.mass(x), d.mass(y));
    }
    if D::le(d.ln_mass(x), d.ln_mass(y)) && D::le(d.ln_mass(y), d.ln_mass(x)) {
        D::le_antisymmetric(d.ln_mass(x), d.ln_mass(y));
    }
}

/// The logarithm of the mass is zero exactly where the mass is one, and
/// nowhere above zero.
pub proof fn lemma_ln_mass_of_one<T, K, D: Discrete<T, K> + ?Sized>(d: &D, x: T)
    requires
        accepts(d, x),
    ensures
        d.mass(x) == D::one() <==> d.ln_mass(x) == D::zero(),
        D::le(d.ln_mass(x), D::zero()),
{
    d.ln_mass_about_one(x);
    d.mass_is_probability(x);
    lemma_le_reflexive::<K, D>(D::one());
    lemma_le_reflexive::<K, D>(D::zero());
    if D::le(d.mass(x), D::one()) && D::le(D::one(), d.mass(x)) {
        D::le_antisymmetric(d.mass(x), D::one());
    }
    if D::le(d.ln_mass(x), D::zero()) && D::le(D::zero(), d.ln_mass(x)) {
        D::le_antisymmetric(d.ln_mass(x), D::zero());
    }
}

/// At and below the minimum the cumulative distribution function is zero.
pub proof fn lemma_cumulative_below_minimum<T, K, D: Univariate<T, K> + ?Sized>(d: &D, x: K)
    requires
        D::le(x, D::point(d.minimum())),
    ensures
        d.cumulative(x) == D::zero(),
{
    d.cumulative_at_bounds();
    d.cumulative_monotone(x, D::point(d.minimum()));
    d.cumulative_is_probability(x);
    D::le_antisymmetric(d.cumulative(x), D::zero());
}

/// At and above the maximum the cumulative distribution function is one.
pub proof fn lemma_cumulative_above_maximum<T, K, D: Univariate<T, K> + ?Sized>(d: &D, x: K)
    requires
        D::le(D::point(d.maximum()), x),
    ensures
        d.cumulative(x) == D::one(),
{
    d.cumulative_at_bounds();
    d.cumulative_monotone(D::point(d.maximum()), x);
    d.cumulative_is_probability(x);
    D::le_antisymmetric(d.cumulative(x), D::one());
}

/// A distribution has at most one quantile at a probability.
pub proof fn lemma_quantile_unique<K, D: Cumulative<K> + Domain<K> + ?Sized>(
    d: &D,
    p: K,
    x: K,
    y: K,
)
    requires
        is_quantile(d, p, x),
        is_quantile(d, p, y),
    ensures
        x == y,
{
    D::le_antisymmetric(x, y);
}

/// The quantile does not decrease with the probability.
pub proof fn lemma_quantile_monotone<K, D: Cumulative<K> + Domain<K> + ?Sized>(
    d: &D,
    p: K,
    q: K,
    x: K,
    y: K,
)
    requires
        D::le(p, q),
        is_quantile(d, p, x),
        is_quantile(d, q, y),
    ensures
        D::le(x, y),
{
    D::le_transitive(p, q, d.cumulative(y));
}

/// The cumulative distribution function of `d` grows strictly towards the
/// outcome `x`: it is smaller at every outcome below `x`.
pub open spec fn strictly_increasing_at<K, D: Cumulative<K> + Domain<K> + ?Sized>(
    d: &D,
    x: K,
) -> bool {
    forall|y: K|
        is_outcome(d, y) && lt::<K, D>(y, x) ==> lt::<K, D>(
            #[trigger] d.cumulative(y),
            d.cumulative(x),
        )
}

/// The cumulative distribution function of `d` grows strictly from outcome
/// to outcome.
pub open spec fn strictly_increasing<K, D: Cumulative<K> + Domain<K> + ?Sized>(d: &D) -> bool {
    forall|x: K| is_outcome(d, x) ==> #[trigger] strictly_increasing_at(d, x)
}

/// Where the cumulative distribution function grows strictly towards an
/// outcome, the outcome is the quantile at its own cumulative probability.
pub proof fn lemma_quantile_of_cumulative<K, D: Cumulative<K> + Domain<K> + ?Sized>(d: &D, x: K)
    requires
        is_outcome(d, x),
        strictly_increasing_at(d, x),
    ensures
        is_quantile(d, d.cumulative(x), x),
        has_quantile(d, d.cumulative(x)),
        quantile_verdict(d, d.cumulative(x)) is None,
{
    let p = d.cumulative(x);
    lemma_le_reflexive::<K, D>(p);
    assert forall|y: K| is_outcome(d, y) && D::le(p, #[trigger] d.cumulative(y)) implies D::le(
        x,
        y,
    ) by {
        lemma_lt_is_not_ge::<K, D>(y, x);
        if lt::<K, D>(y, x) {
            lemma_lt_is_not_ge::<K, D>(d.cumulative(y), p);
        }
    }
    d.cumulative_is_probability(x);
}

/// Where the cumulative distribution function grows strictly towards an
/// outcome, the quantile at the cumulative probability of the outcome is the
/// outcome.
pub proof fn lemma_quantile_inverts_cumulative<K, D: Cumulative<K> + Domain<K> + ?Sized>(
    d: &D,
    x: K,
    q: K,
)
    requires
        is_outcome(d, x),
        strictly_increasing_at(d, x),
        is_quantile(d, d.cumulative(x), q),
    ensures
        q == x,
{
    lemma_quantile_of_cumulative(d, x);
    lemma_quantile_unique(d, d.cumulative(x), q, x);
}

/// Where the cumulative distribution function grows strictly and takes the
/// value `p` at some outcome, it takes the value `p` at the quantile of `p`.
pub proof fn lemma_cumulative_inverts_quantile<K, D: Cumulative<K> + Domain<K> + ?Sized>(
    d: &D,
    p: K,
    q: K,
)
    requires
        strictly_increasing(d),
        exists|x: K| is_outcome(d, x) && #[trigger] d.cumulative(x) == p,
        is_quantile(d, p, q),
    ensures
        d.cumulative(q) == p,
{
    let x = choose|x: K| is_outcome(d, x) && #[trigger] d.cumulative(x) == p;
    assert(strictly_increasing_at(d, x));
    lemma_quantile_inverts_cumulative(d, x, q);
}

/// Where the minimum of a distribution is an outcome, it is the quantile at
/// the probability zero.
pub proof fn lemma_quantile_at_zero<K, D: Cumulative<K> + Min<K> + ?Sized>(d: &D)
    requires
        is_outcome(d, d.minimum()),
    ensures
        is_quantile(d, D::zero(), d.minimum()),
        has_quantile(d, D::zero()),
{
    d.cumulative_is_probability(d.minimum());
    assert forall|y: K| is_outcome(d, y) && D::le(D::zero(), #[trigger] d.cumulative(y)) implies D::le(
        d.minimum(),
        y,
    ) by {
        d.minimum_bounds_domain(y);
    }
}

/// The quantile lies within the bounds of the distribution.
pub proof fn lemma_quantile_within_bounds<K, D: Cumulative<K> + Min<K> + Max<K> + ?Sized>(
    d: &D,
    p: K,
    q: K,
)
    requires
        is_quantile(d, p, q),
    ensures
        D::le(d.minimum(), q),
        D::le(q, d.maximum()),
{
    d.minimum_bounds_domain(q);
    d.maximum_bounds_domain(q);
}

/// Where the unchecked query for the density is answered at an outcome, the
/// checked query returns the same value; and where the checked query
/// returns a value, the unchecked query is answered with it.
pub proof fn lemma_checked_density_agrees<T, K, D: Continuous<T, K> + ?Sized>(d: &D, x: T)
    ensures
        accepts(d, x) && d.in_domain(x) ==> checked_density(d, x) == Ok::<K, StatsError>(
            d.density(x),
        ) && checked_ln_density(d, x) == Ok::<K, StatsError>(d.ln_density(x)),
        checked_density(d, x) is Ok ==> accepts(d, x) && checked_density(d, x) == Ok::<
            K,
            StatsError,
        >(d.density(x)),
        checked_ln_density(d, x) is Ok ==> accepts(d, x) && checked_ln_density(d, x) == Ok::<
            K,
            StatsError,
        >(d.ln_density(x)),
        checked_density(d, x) is Ok <==> checked_ln_density(d, x) is Ok,
{
}

/// Where the unchecked query for the mass is answered at an outcome, the
/// checked query returns the same value; and where the checked query
/// returns a value, the unchecked query is answered with it.
pub proof fn lemma_checked_mass_agrees<T, K, D: Discrete<T, K> + ?Sized>(d: &D, x: T)
    ensures
        accepts(d, x) && d.in_domain(x) ==> checked_mass(d, x) == Ok::<K, StatsError>(d.mass(x))
            && checked_ln_mass(d, x) == Ok::<K, StatsError>(d.ln_mass(x)),
        checked_mass(d, x) is Ok ==> accepts(d, x) && checked_mass(d, x) == Ok::<K, StatsError>(
            d.mass(x),
        ),
        checked_ln_mass(d, x) is Ok ==> accepts(d, x) && checked_ln_mass(d, x) == Ok::<
            K,
            StatsError,
        >(d.ln_mass(x)),
        checked_mass(d, x) is Ok <==> checked_ln_mass(d, x) is Ok,
{
}

/// Where the unchecked query for the quantile is answered, the checked query
/// returns the same value.
pub proof fn lemma_checked_quantile_agrees<K, D: Cumulative<K> + Domain<K> + ?Sized>(
    d: &D,
    p: K,
    q: K,
    r: Result<K, StatsError>,
)
    requires
        is_probability::<K, D>(p),
        has_quantile(d, p),
        is_quantile(d, p, q),
        is_checked_quantile(d, p, r),
    ensures
        r == Ok::<K, StatsError>(q),
{
    if let Ok(x) = r {
        lemma_quantile_unique(d, p, x, q);
    }
}

/// Where the checked query for the quantile returns a value, the unchecked
/// query is answered, and with that value.
pub proof fn lemma_checked_quantile_is_quantile<K, D: Cumulative<K> + Domain<K> + ?Sized>(
    d: &D,
    p: K,
    q: K,
    r: Result<K, StatsError>,
)
    requires
        is_checked_quantile(d, p, r),
        r is Ok,
        is_probability::<K, D>(p) && has_quantile(d, p) ==> is_quantile(d, p, q),
    ensures
        is_probability::<K, D>(p),
        has_quantile(d, p),
        r == Ok::<K, StatsError>(q),
{
    lemma_checked_quantile_agrees(d, p, q, r);
}

/// The checked query for the quantile fails exactly where the argument is
/// no probability, or is a probability at which there is no quantile.
pub proof fn lemma_checked_quantile_fails<K, D: Cumulative<K> + Domain<K> + ?Sized>(
    d: &D,
    p: K,
    r: Result<K, StatsError>,
)
    requires
        is_checked_quantile(d, p, r),
    ensures
        r == Err::<K, StatsError>(StatsError::OutOfDomain) <==> !is_probability::<K, D>(p),
        r == Err::<K, StatsError>(StatsError::Undefined) <==> is_probability::<K, D>(p)
            && !has_quantile(d, p),
        r is Ok <==> is_probability::<K, D>(p) && has_quantile(d, p),
        r != Err::<K, StatsError>(StatsError::InvalidStructure),
{
}

} // verus!
