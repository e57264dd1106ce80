//! Capabilities of statistical probability distributions.
//!
//! A distribution is described by the capabilities it offers: drawing a
//! sample, naming the bounds of its domain, evaluating its density or mass,
//! its cumulative distribution function and the inverse of it. Each
//! capability is a trait. Its methods carry the contract that every
//! distribution has to meet, stated over a mathematical model that the
//! distribution supplies, and the laws of that model are proof obligations of
//! the trait.

pub mod distribution;
pub mod domain;
pub mod error;
pub mod order;
pub mod random;
pub mod statistics;

pub use crate::error::StatsError;
