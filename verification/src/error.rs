//! The failure that the checked operations of a distribution report.

use vstd::prelude::*;

verus! {

/// Why a checked query was turned down.
///
/// A failure is no value of the distribution: a point of zero density is
/// answered with zero, not with one of these.
#[derive(Clone, Copy, Debug, PartialEq, Eq, Structural)]
pub enum StatsError {
    /// The argument has the structure that the distribution expects, and lies
    /// outside the domain that the distribution declares.
    OutOfDomain,
    /// The argument has not the structure that the distribution expects, such
    /// as a vector of the wrong dimension.
    InvalidStructure,
    /// The argument lies in the domain, and the result has no numeric value
    /// there, such as zero raised to a negative power.
    Undefined,
}

/// The words in which a failure is reported.
pub open spec fn description_of(e: StatsError) -> Seq<char> {
    match e {
        StatsError::OutOfDomain => "argument lies outside the declared domain"@,
        StatsError::InvalidStructure => "argument has an invalid structure"@,
        StatsError::Undefined => "result is numerically undefined"@,
    }
}

impl StatsError {
    /// Describes the failure in words.
    pub fn description(&self) -> (s: &'static str)
        ensures
            s@ == description_of(*self),
    {
        match self {
            StatsError::OutOfDomain => "argument lies outside the declared domain",
            StatsError::InvalidStructure => "argument has an invalid structure",
            StatsError::Undefined => "result is numerically undefined",
        }
    }
}

/// No two failures are described by the same words.
pub proof fn lemma_descriptions_differ(a: StatsError, b: StatsError)
    requires
        a != b,
    ensures
        description_of(a) != description_of(b),
{
    reveal_strlit("argument lies outside the declared domain");
    reveal_strlit("argument has an invalid structure");
    reveal_strlit("result is numerically undefined");
    assert(description_of(StatsError::OutOfDomain).len() == 41);
    assert(description_of(StatsError::InvalidStructure).len() == 33);
    assert(description_of(StatsError::Undefined).len() == 31);
}

} // verus!
