use statrs::distribution::{
    CheckedContinuous, CheckedInverseCDF, Continuous, Cumulative, Distribution, InverseCDF,
    Univariate, WeakRngDistribution,
};
use statrs::domain::Domain;
use statrs::order::{Ordered, Scale};
use statrs::random::RandomSource;
use statrs::statistics::{Max, Min};
use statrs::StatsError;

/// The continuous uniform distribution on `[min, max]`, over floating-point
/// numbers. The logarithm of its density is computed from the width of the
/// interval, not from the density.
///
/// It is ordinary code that nothing has proved: the model that the traits
/// ask for is computed in floating point, and the laws are empty functions.
struct Uniform {
    min: f64,
    max: f64,
}

impl Uniform {
    fn new(min: f64, max: f64) -> Option<Uniform> {
        if min.is_finite() && max.is_finite() && min < max {
            Some(Uniform { min, max })
        } else {
            None
        }
    }
}

impl Ordered<f64> for Uniform {
    fn le(a: f64, b: f64) -> bool {
        a <= b
    }

    fn le_total(_a: f64, _b: f64) {}

    fn le_antisymmetric(_a: f64, _b: f64) {}

    fn le_transitive(_a: f64, _b: f64, _c: f64) {}
}

impl Scale<f64> for Uniform {
    fn zero() -> f64 {
        0.0
    }

    fn one() -> f64 {
        1.0
    }

    fn zero_below_one() {}
}

impl Domain<f64> for Uniform {
    fn well_formed(&self, x: f64) -> bool {
        !x.is_nan()
    }

    fn in_domain(&self, x: f64) -> bool {
        self.min <= x && x <= self.max
    }

    fn defined(&self, _x: f64) -> bool {
        true
    }

    fn domain_inhabited(&self) -> f64 {
        self.min
    }

    fn defined_outside_domain(&self, _x: f64) {}
}

impl Min<f64> for Uniform {
    fn minimum(&self) -> f64 {
        self.min
    }

    fn minimum_bounds_domain(&self, _x: f64) {}

    fn minimum_is_greatest(&self, _b: f64) {}

    fn min(&self) -> f64 {
        self.min
    }
}

impl Max<f64> for Uniform {
    fn maximum(&self) -> f64 {
        self.max
    }

    fn maximum_bounds_domain(&self, _x: f64) {}

    fn maximum_is_least(&self, _b: f64) {}

    fn max(&self) -> f64 {
        self.max
    }
}

impl Distribution<f64> for Uniform {
    fn sample<R: RandomSource>(&self, r: &mut R) -> f64 {
        let fraction = f64::from(r.next_u32()) / 4294967296.0;
        self.min + fraction * (self.max - self.min)
    }
}

impl WeakRngDistribution<f64> for Uniform {}

impl Cumulative<f64> for Uniform {
    fn cumulative(&self, x: f64) -> f64 {
        if x <= self.min {
            0.0
        } else if x >= self.max {
            1.0
        } else {
            (x - self.min) / (self.max - self.min)
        }
    }

    fn cumulative_monotone(&self, _a: f64, _b: f64) {}

    fn cumulative_is_probability(&self, _x: f64) {}
}

impl Univariate<f64, f64> for Uniform {
    fn point(t: f64) -> f64 {
        t
    }

    fn point_keeps_order(_a: f64, _b: f64) {}

    fn cumulative_at_bounds(&self) {}

    fn cdf(&self, x: f64) -> f64 {
        self.cumulative(x)
    }
}

impl InverseCDF<f64> for Uniform {
    fn quantile_exists(&self, _p: f64) {}

    fn inverse_cdf(&self, x: f64) -> f64 {
        assert!((0.0..=1.0).contains(&x), "x must be a probability");
        self.min + x * (self.max - self.min)
    }
}

impl CheckedInverseCDF<f64> for Uniform {
    fn checked_inverse_cdf(&self, x: f64) -> Result<f64, StatsError> {
        if (0.0..=1.0).contains(&x) {
            Ok(self.inverse_cdf(x))
        } else {
            Err(StatsError::OutOfDomain)
        }
    }
}

impl Continuous<f64, f64> for Uniform {
    fn density(&self, x: f64) -> f64 {
        if self.in_domain(x) {
            1.0 / (self.max - self.min)
        } else {
            0.0
        }
    }

    fn ln_density(&self, x: f64) -> f64 {
        if self.in_domain(x) {
            -(self.max - self.min).ln()
        } else {
            f64::NEG_INFINITY
        }
    }

    fn density_nonnegative(&self, _x: f64) {}

    fn density_vanishes_outside_domain(&self, _x: f64) {}

    fn ln_density_keeps_order(&self, _x: f64, _y: f64) {}

    fn ln_density_about_one(&self, _x: f64) {}

    fn pdf(&self, x: f64) -> f64 {
        assert!(self.well_formed(x), "x must be a number");
        self.density(x)
    }

    fn ln_pdf(&self, x: f64) -> f64 {
        assert!(self.well_formed(x), "x must be a number");
        self.ln_density(x)
    }
}

impl CheckedContinuous<f64, f64> for Uniform {
    fn checked_pdf(&self, x: f64) -> Result<f64, StatsError> {
        if !self.well_formed(x) {
            Err(StatsError::InvalidStructure)
        } else if !self.in_domain(x) {
            Err(StatsError::OutOfDomain)
        } else {
            Ok(self.pdf(x))
        }
    }

    fn checked_ln_pdf(&self, x: f64) -> Result<f64, StatsError> {
        if !self.well_formed(x) {
            Err(StatsError::InvalidStructure)
        } else if !self.in_domain(x) {
            Err(StatsError::OutOfDomain)
        } else {
            Ok(self.ln_pdf(x))
        }
    }
}

fn points() -> Vec<f64> {
    vec![-10.0, -1.0, -0.5, 0.0, 0.125, 0.25, 0.5, 0.75, 1.0, 1.5, 2.0, 10.0]
}

#[test]
fn uniform_wants_its_minimum_below_its_maximum() {
    assert!(Uniform::new(0.0, 1.0).is_some());
    assert!(Uniform::new(1.0, 0.0).is_none());
    assert!(Uniform::new(1.0, 1.0).is_none());
    assert!(Uniform::new(f64::NAN, 1.0).is_none());
}

#[test]
fn uniform_density_at_one_half() {
    let n = Uniform::new(0.0, 1.0).unwrap();
    assert_eq!(1.0, n.pdf(0.5));
    assert_eq!(0.0, n.ln_pdf(0.5));
    assert_eq!(0.5, n.cdf(0.5));
}

#[test]
fn uniform_density_outside_the_bounds() {
    let n = Uniform::new(0.0, 1.0).unwrap();
    for x in [-10.0, -1.0, -0.5, 1.5, 2.0, 10.0] {
        assert!(x < n.min() || x > n.max());
        assert_eq!(n.pdf(x), 0.0);
        assert_eq!(n.checked_pdf(x), Err(StatsError::OutOfDomain));
        assert_eq!(n.checked_ln_pdf(x), Err(StatsError::OutOfDomain));
    }
}

#[test]
fn uniform_logarithm_of_the_density() {
    for (min, max) in [(0.0, 1.0), (0.0, 4.0), (-2.5, 0.5), (1.0, 1.25)] {
        let n = Uniform::new(min, max).unwrap();
        for x in points() {
            if n.in_domain(x) {
                let expected = n.pdf(x).ln();
                let error = (n.ln_pdf(x) - expected).abs();
                assert!(error <= 1e-12 * expected.abs().max(1.0));
            }
        }
    }
}

#[test]
fn uniform_cumulative_function_does_not_decrease() {
    let n = Uniform::new(-0.5, 1.5).unwrap();
    for a in points() {
        for b in points() {
            if a <= b {
                assert!(n.cdf(a) <= n.cdf(b));
            }
        }
        assert!(0.0 <= n.cdf(a) && n.cdf(a) <= 1.0);
    }
}

#[test]
fn uniform_cumulative_function_at_the_bounds() {
    for (min, max) in [(0.0, 1.0), (0.0, 4.0), (-2.5, 0.5)] {
        let n = Uniform::new(min, max).unwrap();
        assert_eq!(n.cdf(n.min()), 0.0);
        assert_eq!(n.cdf(n.max()), 1.0);
        assert!(n.min() <= n.max());
    }
}

#[test]
fn uniform_quantile_round_trip() {
    let n = Uniform::new(-2.5, 0.5).unwrap();
    for p in [0.001, 0.125, 0.25, 0.5, 0.75, 0.999] {
        let back = n.cdf(n.inverse_cdf(p));
        assert!((back - p).abs() <= 1e-12);
    }
    for x in [-2.5, -2.0, -1.0, 0.0, 0.25, 0.5] {
        let back = n.inverse_cdf(n.cdf(x));
        assert!((back - x).abs() <= 1e-12);
    }
}

#[test]
fn uniform_checked_and_unchecked_forms_agree() {
    let n = Uniform::new(0.0, 4.0).unwrap();
    for x in [0.0, 0.125, 0.25, 0.5, 0.75, 1.0, 1.5, 2.0, 4.0] {
        assert_eq!(n.checked_pdf(x), Ok(n.pdf(x)));
        assert_eq!(n.checked_ln_pdf(x), Ok(n.ln_pdf(x)));
    }
    for p in [0.0, 0.125, 0.5, 1.0] {
        assert_eq!(n.checked_inverse_cdf(p), Ok(n.inverse_cdf(p)));
    }
}

#[test]
fn uniform_checked_forms_turn_down_what_is_no_number() {
    let n = Uniform::new(0.0, 1.0).unwrap();
    assert_eq!(n.checked_pdf(f64::NAN), Err(StatsError::InvalidStructure));
    assert_eq!(n.checked_ln_pdf(f64::NAN), Err(StatsError::InvalidStructure));
    assert_eq!(n.checked_inverse_cdf(f64::NAN), Err(StatsError::OutOfDomain));
    assert_eq!(n.checked_inverse_cdf(1.5), Err(StatsError::OutOfDomain));
    assert_eq!(n.checked_inverse_cdf(-1.0), Err(StatsError::OutOfDomain));
}

#[test]
fn uniform_samples_lie_within_the_bounds() {
    let n = Uniform::new(-2.5, 0.5).unwrap();
    let mut source = rand::weak_rng();
    for _ in 0..1000 {
        let x = n.sample(&mut source);
        assert!(n.min() <= x && x <= n.max());
        let y = n.weak_sample();
        assert!(n.min() <= y && y <= n.max());
    }
}
