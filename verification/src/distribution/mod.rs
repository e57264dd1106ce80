//! Interfaces for interacting with statistical distributions.

use crate::domain::{accepts, is_outcome, verdict, Domain};
use crate::error::StatsError;
use crate::order::{is_probability, lt, Scale};
use crate::random::RandomSource;
use crate::statistics::{Max, Min};
use rand::XorShiftRng;
use vstd::prelude::*;

pub mod laws;
pub mod standard_uniform;

pub use self::standard_uniform::StandardUniform;

verus! {

/// The `Distribution` trait is the interface for drawing a sample from a
/// distribution.
pub trait Distribution<T>: Domain<T> {
    /// Draws a random sample using the supplied source of randomness.
    ///
    /// Whatever the source yields, the sample is an outcome of the
    /// distribution. How far the source is moved on is left to the
    /// distribution.
    fn sample<R: RandomSource>(&self, r: &mut R) -> (x: T)
        ensures
            is_outcome(self, x),
    ;
}

/// The `WeakRngDistribution` trait is the interface for drawing a sample
/// with a default random number generator, that of `rand::weak_rng`.
pub trait WeakRngDistribution<T>: Distribution<T> {
    /// Draws a random sample using a default random number generator, which
    /// lives for the length of the call.
    fn weak_sample(&self) -> (x: T)
        ensures
            is_outcome(self, x),
    {
        let mut r = rand::weak_rng();
        self.sample::<XorShiftRng>(&mut r)
    }
}

/// The cumulative distribution function of a distribution, as a function
/// on the scale `K`.
pub trait Cumulative<K>: Scale<K> {
    /// The probability that a draw lies at or below `x`.
    spec fn cumulative(&self, x: K) -> K;

    /// The cumulative distribution function does not decrease.
    proof fn cumulative_monotone(&self, a: K, b: K)
        requires
            Self::le(a, b),
        ensures
            Self::le(self.cumulative(a), self.cumulative(b)),
    ;

    /// The cumulative distribution function is a probability everywhere.
    proof fn cumulative_is_probability(&self, x: K)
        ensures
            is_probability::<K, Self>(self.cumulative(x)),
    ;
}

/// The `Univariate` trait is the interface of univariate distributions:
/// distributions of one scalar, with bounds of type `T` and a cumulative
/// distribution function over `K`.
///
/// The cumulative distribution function has no checked form: whether the
/// distribution accepts an argument is for the caller to know.
pub trait Univariate<T, K>: Distribution<K> + Min<T> + Max<T> + Cumulative<K> {
    /// The place of a bound among the arguments of the cumulative
    /// distribution function.
    spec fn point(t: T) -> K;

    /// The bounds keep their order among the arguments of the cumulative
    /// distribution function.
    proof fn point_keeps_order(a: T, b: T)
        requires
            Self::le(a, b),
        ensures
            Self::le(Self::point(a), Self::point(b)),
    ;

    /// The cumulative distribution function is zero at the minimum and one
    /// at the maximum.
    proof fn cumulative_at_bounds(&self)
        ensures
            self.cumulative(Self::point(self.minimum())) == Self::zero(),
            self.cumulative(Self::point(self.maximum())) == Self::one(),
    ;

    /// Returns the cumulative distribution function calculated at `x`.
    fn cdf(&self, x: K) -> (r: K)
        requires
            accepts(self, x),
        ensures
            r == self.cumulative(x),
    ;
}

/// `x` is the quantile of `d` at the probability `p`: the least outcome at
/// which the cumulative distribution function has reached `p`.
pub open spec fn is_quantile<K, D: Cumulative<K> + Domain<K> + ?Sized>(d: &D, p: K, x: K) -> bool {
    &&& is_outcome(d, x)
    &&& D::le(p, d.cumulative(x))
    &&& forall|y: K| is_outcome(d, y) && D::le(p, #[trigger] d.cumulative(y)) ==> D::le(x, y)
}

/// `d` has a quantile at the probability `p`.
pub open spec fn has_quantile<K, D: Cumulative<K> + Domain<K> + ?Sized>(d: &D, p: K) -> bool {
    exists|x: K| is_quantile(d, p, x)
}

/// The failure with which a checked query for the quantile of `d` at `p`
/// ends, if it fails.
pub open spec fn quantile_verdict<K, D: Cumulative<K> + Domain<K> + ?Sized>(
    d: &D,
    p: K,
) -> Option<StatsError> {
    if !is_probability::<K, D>(p) {
        Some(StatsError::OutOfDomain)
    } else if !has_quantile(d, p) {
        Some(StatsError::Undefined)
    } else {
        None
    }
}

/// `r` is what a checked query for the quantile of `d` at `p` returns: the
/// quantile where there is one, and else the reason for which there is none.
pub open spec fn is_checked_quantile<K, D: Cumulative<K> + Domain<K> + ?Sized>(
    d: &D,
    p: K,
    r: Result<K, StatsError>,
) -> bool {
    match r {
        Ok(q) => quantile_verdict(d, p) is None && is_quantile(d, p, q),
        Err(e) => quantile_verdict(d, p) == Some(e),
    }
}

/// The `InverseCDF` trait is the interface of distributions that compute the
/// inverse of their cumulative distribution function, the quantile function.
///
/// Its method is unchecked: it is called with a probability at which the
/// distribution has a quantile.
pub trait InverseCDF<T>: Cumulative<T> + Domain<T> {
    /// Strictly between zero and one every probability has a quantile.
    proof fn quantile_exists(&self, p: T)
        requires
            lt::<T, Self>(Self::zero(), p),
            lt::<T, Self>(p, Self::one()),
        ensures
            has_quantile(self, p),
    ;

    /// Returns the inverse cumulative distribution function calculated at
    /// the probability `x`.
    fn inverse_cdf(&self, x: T) -> (r: T)
        requires
            is_probability::<T, Self>(x),
            has_quantile(self, x),
        ensures
            is_quantile(self, x, r),
    ;
}

/// The `CheckedInverseCDF` trait is the interface of distributions that
/// compute the inverse of their cumulative distribution function and report
/// an argument that has no quantile as a failure.
pub trait CheckedInverseCDF<T>: InverseCDF<T> {
    /// Returns the inverse cumulative distribution function calculated at
    /// `x`, or the reason for which there is none.
    fn checked_inverse_cdf(&self, x: T) -> (r: Result<T, StatsError>)
        ensures
            is_checked_quantile(self, x, r),
    ;
}

/// The `Continuous` trait is the interface of continuous distributions.
///
/// Its methods are unchecked: they are called where the distribution
/// accepts the argument.
pub trait Continuous<T, K>: Domain<T> + Scale<K> {
    /// The probability density at `x`.
    spec fn density(&self, x: T) -> K;

    /// The natural logarithm of the probability density at `x`. It is
    /// stated apart from the density, so that a distribution may compute it
    /// where the density itself is too small to be told from zero.
    spec fn ln_density(&self, x: T) -> K;

    /// The density is not negative.
    proof fn density_nonnegative(&self, x: T)
        requires
            accepts(self, x),
        ensures
            Self::le(Self::zero(), self.density(x)),
    ;

    /// Outside the domain the density is zero.
    proof fn density_vanishes_outside_domain(&self, x: T)
        requires
            self.well_formed(x),
            !self.in_domain(x),
        ensures
            self.density(x) == Self::zero(),
    ;

    /// The logarithm keeps the order of the densities: of two densities the
    /// smaller has the smaller logarithm, and the other way round.
    proof fn ln_density_keeps_order(&self, x: T, y: T)
        requires
            accepts(self, x),
            accepts(self, y),
        ensures
            Self::le(self.density(x), self.density(y)) <==> Self::le(
                self.ln_density(x),
                self.ln_density(y),
            ),
    ;

    /// The logarithm is at most zero exactly where the density is at most
    /// one, and at least zero exactly where the density is at least one.
    proof fn ln_density_about_one(&self, x: T)
        requires
            accepts(self, x),
        ensures
            Self::le(self.density(x), Self::one()) <==> Self::le(self.ln_density(x), Self::zero()),
            Self::le(Self::one(), self.density(x)) <==> Self::le(Self::zero(), self.ln_density(x)),
    ;

    /// Returns the probability density function calculated at `x`.
    fn pdf(&self, x: T) -> (r: K)
        requires
            accepts(self, x),
        ensures
            r == self.density(x),
    ;

    /// Returns the log of the probability density function calculated at
    /// `x`.
    fn ln_pdf(&self, x: T) -> (r: K)
        requires
            accepts(self, x),
        ensures
            r == self.ln_density(x),
    ;
}

/// What a checked query for the density of `d` at `x` returns.
pub open spec fn checked_density<T, K, D: Continuous<T, K> + ?Sized>(d: &D, x: T) -> Result<
    K,
    StatsError,
> {
    match verdict(d, x) {
        Some(e) => Err(e),
        None => Ok(d.density(x)),
    }
}

/// What a checked query for the logarithm of the density of `d` at `x`
/// returns.
pub open spec fn checked_ln_density<T, K, D: Continuous<T, K> + ?Sized>(d: &D, x: T) -> Result<
    K,
    StatsError,
> {
    match verdict(d, x) {
        Some(e) => Err(e),
        None => Ok(d.ln_density(x)),
    }
}

/// The `CheckedContinuous` trait is the interface of continuous
/// distributions that report an argument they do not accept as a failure.
pub trait CheckedContinuous<T, K>: Continuous<T, K> {
    /// Returns the probability density function calculated at `x`, or the
    /// reason for which `x` is turned down.
    fn checked_pdf(&self, x: T) -> (r: Result<K, StatsError>)
        ensures
            r == checked_density(self, x),
    ;

    /// Returns the log of the probability density function calculated at
    /// `x`, or the reason for which `x` is turned down.
    fn checked_ln_pdf(&self, x: T) -> (r: Result<K, StatsError>)
        ensures
            r == checked_ln_density(self, x),
    ;
}

/// The `Discrete` trait is the interface of discrete distributions.
///
/// Its methods are unchecked: they are called where the distribution
/// accepts the argument.
pub trait Discrete<T, K>: Domain<T> + Scale<K> {
    /// The probability mass at `x`.
    spec fn mass(&self, x: T) -> K;

    /// The natural logarithm of the probability mass at `x`. It is stated
    /// apart from the mass, so that a distribution may compute it where the
    /// mass itself is too small to be told from zero.
    spec fn ln_mass(&self, x: T) -> K;

    /// The mass is a probability.
    proof fn mass_is_probability(&self, x: T)
        requires
            accepts(self, x),
        ensures
            is_probability::<K, Self>(self.mass(x)),
    ;

    /// Outside the domain the mass is zero.
    proof fn mass_vanishes_outside_domain(&self, x: T)
        requires
            self.well_formed(x),
            !self.in_domain(x),
        ensures
            self.mass(x) == Self::zero(),
    ;

    /// The logarithm keeps the order of the masses: of two masses the
    /// smaller has the smaller logarithm, and the other way round.
    proof fn ln_mass_keeps_order(&self, x: T, y: T)
        requires
            accepts(self, x),
            accepts(self, y),
        ensures
            Self::le(self.mass(x), self.mass(y)) <==> Self::le(self.ln_mass(x), self.ln_mass(y)),
    ;

    /// The logarithm is at most zero exactly where the mass is at most one,
    /// and at least zero exactly where the mass is at least one.
    proof fn ln_mass_about_one(&self, x: T)
        requires
            accepts(self, x),
        ensures
            Self::le(self.mass(x), Self::one()) <==> Self::le(self.ln_mass(x), Self::zero()),
            Self::le(Self::one(), self.mass(x)) <==> Self::le(Self::zero(), self.ln_mass(x)),
    ;

    /// Returns the probability mass function calculated at `x`.
    fn pmf(&self, x: T) -> (r: K)
        requires
            accepts(self, x),
        ensures
            r == self.mass(x),
    ;

    /// Returns the log of the probability mass function calculated at `x`.
    fn ln_pmf(&self, x: T) -> (r: K)
        requires
            accepts(self, x),
        ensures
            r == self.ln_mass(x),
    ;
}

/// What a checked query for the mass of `d` at `x` returns.
pub open spec fn checked_mass<T, K, D: Discrete<T, K> + ?Sized>(d: &D, x: T) -> Result<
    K,
    StatsError,
> {
    match verdict(d, x) {
        Some(e) => Err(e),
        None => Ok(d.mass(x)),
    }
}

/// What a checked query for the logarithm of the mass of `d` at `x` returns.
pub open spec fn checked_ln_mass<T, K, D: Discrete<T, K> + ?Sized>(d: &D, x: T) -> Result<
    K,
    StatsError,
> {
    match verdict(d, x) {
        Some(e) => Err(e),
        None => Ok(d.ln_mass(x)),
    }
}

/// The `CheckedDiscrete` trait is the interface of discrete distributions
/// that report an argument they do not accept as a failure.
pub trait CheckedDiscrete<T, K>: Discrete<T, K> {
    /// Returns the probability mass function calculated at `x`, or the
    /// reason for which `x` is turned down.
    fn checked_pmf(&self, x: T) -> (r: Result<K, StatsError>)
        ensures
            r == checked_mass(self, x),
    ;

    /// Returns the log of the probability mass function calculated at `x`,
    /// or the reason for which `x` is turned down.
    fn checked_ln_pmf(&self, x: T) -> (r: Result<K, StatsError>)
        ensures
            r == checked_ln_mass(self, x),
    ;
}

} // verus!
