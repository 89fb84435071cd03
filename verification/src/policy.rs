//! The statistical policy of a threshold: which test to run, how much
//! history to use, and how confident a boundary has to be.

use vstd::prelude::*;

verus! {

/// Boundary probabilities and critical values are fixed-point numbers with
/// this many parts to the unit.
pub const PARTS_PER_UNIT: u32 = 1_000_000;

/// The statistical test that turns a boundary probability into a limit.
#[derive(Debug, Clone, Copy, PartialEq, Eq, Hash, Structural)]
pub enum StatisticKind {
    /// Population z-test: the standard deviation of the history is taken
    /// as known.
    Z,
    /// Student's t-test: accounts for the uncertainty of a small history.
    T,
}

/// The side of the baseline on which a limit lies.
#[derive(Debug, Clone, Copy, PartialEq, Eq, Hash, Structural)]
pub enum BoundarySide {
    Lower,
    Upper,
}

/// A one-sided confidence level strictly between zero and one, in parts per
/// million.
#[derive(Debug, Clone, Copy, PartialEq, Eq, Hash)]
pub struct Boundary {
    parts: u32,
}

impl Boundary {
    #[verifier::type_invariant]
    spec fn in_open_unit_interval(self) -> bool {
        0 < self.parts < PARTS_PER_UNIT
    }

    /// The probability in parts per million.
    pub closed spec fn parts(self) -> nat {
        self.parts as nat
    }

    /// A probability is a boundary when it lies strictly between zero and
    /// one.
    pub open spec fn valid_parts(parts: u32) -> bool {
        0 < parts < PARTS_PER_UNIT
    }

    /// Accepts `parts` millionths as a boundary, unless they are zero or
    /// reach the unit.
    pub fn new(parts: u32) -> (boundary: Option<Boundary>)
        ensures
            boundary is Some <==> Self::valid_parts(parts),
            boundary matches Some(b) ==> b.parts() == parts,
    {
        if 0 < parts && parts < PARTS_PER_UNIT {
            Some(Boundary { parts })
        } else {
            None
        }
    }

    /// The probability in parts per million.
    pub fn parts_per_million(&self) -> (parts: u32)
        ensures
            parts == self.parts(),
            Self::valid_parts(parts),
    {
        proof {
            use_type_invariant(self);
        }
        self.parts
    }
}

/// The configuration of regression detection for one scope.
///
/// Both boundaries may be absent at once: such a policy is recorded but
/// checks nothing.
#[derive(Debug, Clone, Copy, PartialEq, Eq)]
pub struct StatisticPolicy {
    /// The statistical test.
    pub test: StatisticKind,
    /// The fewest historical samples with which a verdict is given.
    pub min_sample_size: u32,
    /// The most historical samples used, counted from the most recent;
    /// `None` for no cap.
    pub max_sample_size: Option<u32>,
    /// The age in seconds beyond which a historical sample is left out;
    /// `None` for no cut.
    pub window: Option<u32>,
    /// The confidence level of the lower limit; `None` switches it off.
    pub lower_boundary: Option<Boundary>,
    /// The confidence level of the upper limit; `None` switches it off.
    pub upper_boundary: Option<Boundary>,
}

impl StatisticPolicy {
    /// The boundary configured for `side`.
    pub open spec fn boundary_spec(self, side: BoundarySide) -> Option<Boundary> {
        match side {
            BoundarySide::Lower => self.lower_boundary,
            BoundarySide::Upper => self.upper_boundary,
        }
    }

    /// The boundary configured for `side`.
    pub fn boundary(&self, side: BoundarySide) -> (boundary: Option<Boundary>)
        ensures
            boundary == self.boundary_spec(side),
    {
        match side {
            BoundarySide::Lower => self.lower_boundary,
            BoundarySide::Upper => self.upper_boundary,
        }
    }
}

} // verus!
