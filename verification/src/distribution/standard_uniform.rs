//! The uniform distribution on the unit interval, over fixed-point numbers.
//!
//! It offers every capability of a continuous univariate distribution, and
//! so shows that the laws of the capabilities can be met together.

use crate::distribution::{
    has_quantile, is_quantile, quantile_verdict, CheckedContinuous, CheckedInverseCDF, Continuous,
    Cumulative, Distribution, InverseCDF, Univariate, WeakRngDistribution,
};
use crate::domain::Domain;
use crate::error::StatsError;
use crate::order::{Ordered, Scale};
use crate::random::RandomSource;
use crate::statistics::{Max, Min};
use vstd::prelude::*;

verus! {

/// The number one. A number of the scale is an `i64` that counts units of
/// 2<sup>-32</sup>.
pub const ONE: i64 = 4294967296;

/// The logarithm of zero: the least number of the scale stands for minus
/// infinity.
pub const NEG_INFINITY: i64 = -9223372036854775808;

/// The uniform distribution on the interval from zero to one, both
/// included.
///
/// Every number is a well-formed argument, and nothing is undefined at any.
/// The logarithm of the density is not computed from the density: it is zero
/// on the interval and minus infinity outside of it.
#[derive(Clone, Copy, Debug)]
pub struct StandardUniform;

impl Ordered<i64> for StandardUniform {
    open spec fn le(a: i64, b: i64) -> bool {
        a <= b
    }

    proof fn le_total(a: i64, b: i64) {
    }

    proof fn le_antisymmetric(a: i64, b: i64) {
    }

    proof fn le_transitive(a: i64, b: i64, c: i64) {
    }
}

impl Scale<i64> for StandardUniform {
    open spec fn zero() -> i64 {
        0
    }

    open spec fn one() -> i64 {
        ONE
    }

    proof fn zero_below_one() {
    }
}

impl Domain<i64> for StandardUniform {
    open spec fn well_formed(&self, x: i64) -> bool {
        true
    }

    open spec fn in_domain(&self, x: i64) -> bool {
        0 <= x <= ONE
    }

    open spec fn defined(&self, x: i64) -> bool {
        true
    }

    proof fn domain_inhabited(&self) -> (x: i64) {
        0
    }

    proof fn defined_outside_domain(&self, x: i64) {
    }
}

impl Min<i64> for StandardUniform {
    open spec fn minimum(&self) -> i64 {
        0
    }

    proof fn minimum_bounds_domain(&self, x: i64) {
    }

    proof fn minimum_is_greatest(&self, b: i64) {
        assert(self.in_domain(0) && self.well_formed(0));
    }

    /// Returns zero.
    fn min(&self) -> (r: i64) {
        0
    }
}

impl Max<i64> for StandardUniform {
    open spec fn maximum(&self) -> i64 {
        ONE
    }

    proof fn maximum_bounds_domain(&self, x: i64) {
    }

    proof fn maximum_is_least(&self, b: i64) {
        assert(self.in_domain(ONE) && self.well_formed(ONE));
    }

    /// Returns one.
    fn max(&self) -> (r: i64) {
        ONE
    }
}

impl StandardUniform {
    /// Returns the outcome that 32 random bits stand for: the number below
    /// one of which they are the fraction.
    pub fn outcome_of(bits: u32) -> (x: i64)
        ensures
            x == bits,
            0 <= x < ONE,
    {
        bits as i64
    }
}

impl Distribution<i64> for StandardUniform {
    /// Draws 32 bits from the source, once, and returns the outcome that
    /// they stand for: the result is the bits of that one draw, and the
    /// source is left as that draw leaves it.
    fn sample<R: RandomSource>(&self, r: &mut R) -> (x: i64)
        ensures
            0 <= x < ONE,
            old(r).may_yield(x as u32, final(r)),
    {
        let bits: u32 = r.next_u32();
        StandardUniform::outcome_of(bits)
    }
}

impl WeakRngDistribution<i64> for StandardUniform {}

impl Cumulative<i64> for StandardUniform {
    open spec fn cumulative(&self, x: i64) -> i64 {
        if x < 0 {
            0
        } else if x > ONE {
            ONE
        } else {
            x
        }
    }

    proof fn cumulative_monotone(&self, a: i64, b: i64) {
    }

    proof fn cumulative_is_probability(&self, x: i64) {
    }
}

impl Univariate<i64, i64> for StandardUniform {
    open spec fn point(t: i64) -> i64 {
        t
    }

    proof fn point_keeps_order(a: i64, b: i64) {
    }

    proof fn cumulative_at_bounds(&self) {
    }

    /// Returns `x` between the bounds, zero below them and one above them.
    fn cdf(&self, x: i64) -> (r: i64) {
        if x < 0 {
            0
        } else if x > ONE {
            ONE
        } else {
            x
        }
    }
}

/// Every probability is its own quantile.
pub proof fn lemma_quantile_is_probability(p: i64)
    requires
        0 <= p <= ONE,
    ensures
        is_quantile(&StandardUniform, p, p),
        has_quantile(&StandardUniform, p),
        quantile_verdict(&StandardUniform, p) is None,
{
    assert(is_quantile(&StandardUniform, p, p));
}

impl InverseCDF<i64> for StandardUniform {
    proof fn quantile_exists(&self, p: i64) {
        lemma_quantile_is_probability(p);
    }

    /// Returns the probability `x` itself.
    fn inverse_cdf(&self, x: i64) -> (r: i64)
        ensures
            r == x,
    {
        proof {
            lemma_quantile_is_probability(x);
        }
        x
    }
}

impl CheckedInverseCDF<i64> for StandardUniform {
    /// Returns `x` itself where it is a probability, and else the failure
    /// that it lies outside the domain.
    fn checked_inverse_cdf(&self, x: i64) -> (r: Result<i64, StatsError>)
        ensures
            r == if 0 <= x <= ONE {
                Ok::<i64, StatsError>(x)
            } else {
                Err::<i64, StatsError>(StatsError::OutOfDomain)
            },
    {
        if x < 0 || x > ONE {
            Err(StatsError::OutOfDomain)
        } else {
            proof {
                lemma_quantile_is_probability(x);
            }
            Ok(x)
        }
    }
}

impl Continuous<i64, i64> for StandardUniform {
    open spec fn density(&self, x: i64) -> i64 {
        if 0 <= x <= ONE {
            ONE
        } else {
            0
        }
    }

    open spec fn ln_density(&self, x: i64) -> i64 {
        if 0 <= x <= ONE {
            0
        } else {
            NEG_INFINITY
        }
    }

    proof fn density_nonnegative(&self, x: i64) {
    }

    proof fn density_vanishes_outside_domain(&self, x: i64) {
    }

    proof fn ln_density_keeps_order(&self, x: i64, y: i64) {
    }

    proof fn ln_density_about_one(&self, x: i64) {
    }

    /// Returns one between the bounds and zero outside of them.
    fn pdf(&self, x: i64) -> (r: i64) {
        if 0 <= x && x <= ONE {
            ONE
        } else {
            0
        }
    }

    /// Returns zero between the bounds and minus infinity outside of them.
    fn ln_pdf(&self, x: i64) -> (r: i64) {
        if 0 <= x && x <= ONE {
            0
        } else {
            NEG_INFINITY
        }
    }
}

impl CheckedContinuous<i64, i64> for StandardUniform {
    /// Returns one between the bounds, and outside of them the failure that
    /// `x` lies outside the domain.
    fn checked_pdf(&self, x: i64) -> (r: Result<i64, StatsError>) {
        if 0 <= x && x <= ONE {
            Ok(ONE)
        } else {
            Err(StatsError::OutOfDomain)
        }
    }

    /// Returns zero between the bounds, and outside of them the failure that
    /// `x` lies outside the domain.
    fn checked_ln_pdf(&self, x: i64) -> (r: Result<i64, StatsError>) {
        if 0 <= x && x <= ONE {
            Ok(0)
        } else {
            Err(StatsError::OutOfDomain)
        }
    }
}

} // verus!
