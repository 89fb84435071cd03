//! The alert decision: which limits a new sample breaks.

use vstd::prelude::*;
use crate::boundary::Limits;
use crate::policy::BoundarySide;

verus! {

/// A sample beyond the limit on one side.
#[derive(Debug, Clone, Copy, PartialEq, Eq)]
pub struct Violation {
    /// The side of the limit.
    pub side: BoundarySide,
    /// The limit that was broken.
    pub limit: i128,
    /// The value that broke it.
    pub value: i64,
}

/// A value breaks a lower limit when it is below it, and an upper limit
/// when it is above it. A value on the limit breaks nothing.
pub open spec fn violates(side: BoundarySide, value: int, limit: int) -> bool {
    match side {
        BoundarySide::Lower => value < limit,
        BoundarySide::Upper => value > limit,
    }
}

/// The violation on one side: one where the side has a limit and the value
/// breaks it, none otherwise.
pub open spec fn side_violations(side: BoundarySide, value: i64, limit: Option<i128>) -> Seq<
    Violation,
> {
    if limit is Some && violates(side, value as int, limit->0 as int) {
        seq![Violation { side, limit: limit->0, value }]
    } else {
        Seq::empty()
    }
}

/// The violations of a value against both limits, the lower side first.
/// Each side is judged by itself.
pub open spec fn violations_of(value: i64, limits: Limits) -> Seq<Violation> {
    side_violations(BoundarySide::Lower, value, limits.lower) + side_violations(
        BoundarySide::Upper,
        value,
        limits.upper,
    )
}

/// Compares a value with the limits and lists the violations: none, one,
/// or one for each side.
pub fn decide(value: i64, limits: &Limits) -> (violations: Vec<Violation>)
    ensures
        violations@ == violations_of(value, *limits),
{
    let mut violations: Vec<Violation> = Vec::new();
    if let Some(lower) = limits.lower {
        if (value as i128) < lower {
            violations.push(Violation { side: BoundarySide::Lower, limit: lower, value });
        }
    }
    assert(violations@ =~= side_violations(BoundarySide::Lower, value, limits.lower));
    if let Some(upper) = limits.upper {
        if (value as i128) > upper {
            violations.push(Violation { side: BoundarySide::Upper, limit: upper, value });
        }
    }
    assert(violations@ =~= violations_of(value, *limits));
    violations
}

} // verus!
