//! The statistic that a user asks for, checked and turned into a policy.

use vstd::prelude::*;
use vstd::std_specs::convert::FromSpecImpl;
use crate::cli::CliStatisticCreate;
use crate::cli::CliStatisticKind;
use crate::policy::Boundary;
use crate::policy::BoundarySide;
use crate::policy::StatisticKind;
use crate::policy::StatisticPolicy;

verus! {

/// A boundary that is no probability strictly between zero and one.
#[derive(Debug, Clone, Copy, PartialEq, Eq)]
pub struct BoundaryError {
    /// The side of the boundary.
    pub side: BoundarySide,
    /// What was given, in parts per million.
    pub parts: u32,
}

/// A statistic as a user describes it: a test, the sizes of the history
/// and the boundaries, each of which may be left open.
#[derive(Debug, Clone, Copy, PartialEq, Eq)]
pub struct Statistic {
    pub test: StatisticKind,
    pub min_sample_size: Option<u32>,
    pub max_sample_size: Option<u32>,
    pub window: Option<u32>,
    pub lower_boundary: Option<Boundary>,
    pub upper_boundary: Option<Boundary>,
}

/// The test that a name on the command line stands for.
pub open spec fn test_of(kind: CliStatisticKind) -> StatisticKind {
    match kind {
        CliStatisticKind::Z => StatisticKind::Z,
        CliStatisticKind::T => StatisticKind::T,
    }
}

/// The policy that a statistic stands for. A statistic without a minimum
/// sample size asks for no minimum.
pub open spec fn policy_of(statistic: Statistic) -> StatisticPolicy {
    StatisticPolicy {
        test: statistic.test,
        min_sample_size: match statistic.min_sample_size {
            Some(n) => n,
            None => 0,
        },
        max_sample_size: statistic.max_sample_size,
        window: statistic.window,
        lower_boundary: statistic.lower_boundary,
        upper_boundary: statistic.upper_boundary,
    }
}

impl From<CliStatisticKind> for StatisticKind {
    fn from(kind: CliStatisticKind) -> (test: StatisticKind) {
        match kind {
            CliStatisticKind::Z => StatisticKind::Z,
            CliStatisticKind::T => StatisticKind::T,
        }
    }
}

impl FromSpecImpl<CliStatisticKind> for StatisticKind {
    open spec fn obeys_from_spec() -> bool {
        true
    }

    open spec fn from_spec(kind: CliStatisticKind) -> StatisticKind {
        test_of(kind)
    }
}

/// The boundary that the given parts stand for, where they are a
/// probability.
pub open spec fn boundary_matches(boundary: Option<Boundary>, parts: Option<u32>) -> bool {
    match parts {
        None => boundary is None,
        Some(p) => boundary matches Some(b) && b.parts() == p,
    }
}

/// The first boundary of the arguments that is no probability: the lower
/// one first.
pub open spec fn first_invalid_boundary(create: CliStatisticCreate) -> Option<BoundaryError> {
    if create.lower_boundary is Some && !Boundary::valid_parts(create.lower_boundary->0) {
        Some(BoundaryError { side: BoundarySide::Lower, parts: create.lower_boundary->0 })
    } else if create.upper_boundary is Some && !Boundary::valid_parts(create.upper_boundary->0) {
        Some(BoundaryError { side: BoundarySide::Upper, parts: create.upper_boundary->0 })
    } else {
        None
    }
}

/// Checks one boundary of the arguments.
fn check_boundary(side: BoundarySide, parts: Option<u32>) -> (checked: Result<
    Option<Boundary>,
    BoundaryError,
>)
    ensures
        match checked {
            Ok(boundary) => boundary_matches(boundary, parts) && (parts matches Some(p)
                ==> Boundary::valid_parts(p)),
            Err(error) => parts matches Some(p) && !Boundary::valid_parts(p) && error == (
            BoundaryError { side, parts: p }),
        },
{
    match parts {
        None => Ok(None),
        Some(p) => match Boundary::new(p) {
            Some(boundary) => Ok(Some(boundary)),
            None => Err(BoundaryError { side, parts: p }),
        },
    }
}

impl Statistic {
    /// Takes over the arguments of the command line. Each boundary has to
    /// be a probability strictly between zero and one; the first that is
    /// not comes back as the error.
    pub fn try_from(create: CliStatisticCreate) -> (statistic: Result<Statistic, BoundaryError>)
        ensures
            match statistic {
                Ok(s) => {
                    &&& first_invalid_boundary(create) is None
                    &&& s.test == test_of(create.test)
                    &&& s.min_sample_size == create.min_sample_size
                    &&& s.max_sample_size == create.max_sample_size
                    &&& s.window == create.window
                    &&& boundary_matches(s.lower_boundary, create.lower_boundary)
                    &&& boundary_matches(s.upper_boundary, create.upper_boundary)
                },
                Err(error) => first_invalid_boundary(create) == Some(error),
            },
    {
        let lower = match check_boundary(BoundarySide::Lower, create.lower_boundary) {
            Ok(boundary) => boundary,
            Err(error) => {
                return Err(error);
            },
        };
        let upper = match check_boundary(BoundarySide::Upper, create.upper_boundary) {
            Ok(boundary) => boundary,
            Err(error) => {
                return Err(error);
            },
        };
        Ok(
            Statistic {
                test: StatisticKind::from(create.test),
                min_sample_size: create.min_sample_size,
                max_sample_size: create.max_sample_size,
                window: create.window,
                lower_boundary: lower,
                upper_boundary: upper,
            },
        )
    }
}

impl From<Statistic> for StatisticPolicy {
    fn from(statistic: Statistic) -> (policy: StatisticPolicy) {
        StatisticPolicy {
            test: statistic.test,
            min_sample_size: match statistic.min_sample_size {
                Some(n) => n,
                None => 0,
            },
            max_sample_size: statistic.max_sample_size,
            window: statistic.window,
            lower_boundary: statistic.lower_boundary,
            upper_boundary: statistic.upper_boundary,
        }
    }
}

impl FromSpecImpl<Statistic> for StatisticPolicy {
    open spec fn obeys_from_spec() -> bool {
        true
    }

    open spec fn from_spec(statistic: Statistic) -> StatisticPolicy {
        policy_of(statistic)
    }
}

} // verus!
