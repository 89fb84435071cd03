//! Metric samples and the scope they belong to.

use vstd::prelude::*;

verus! {

/// The largest magnitude of a sample value that the statistics accept.
pub const VALUE_LIMIT: i64 = 0x100_0000_0000;

/// The largest number of historical samples that the statistics accept.
pub const HISTORY_LIMIT: usize = 0x10_0000;

/// The context of regression detection: one metric kind measured on one
/// testbed for one branch of one project, each by its UUID.
#[derive(Debug, Clone, Copy, PartialEq, Eq, Hash, Structural)]
pub struct Scope {
    pub project: u128,
    pub branch: u128,
    pub testbed: u128,
    pub metric_kind: u128,
}

/// One observation of a metric.
///
/// The value counts units of the metric's resolution, which the caller
/// chooses; the time is in seconds.
#[derive(Debug, Clone, Copy, PartialEq, Eq, Hash, Structural)]
pub struct MetricSample {
    /// The UUID of the sample.
    pub id: u128,
    pub created: i64,
    pub value: i64,
}

impl MetricSample {
    /// The value is small enough for the statistics.
    pub open spec fn in_range(self) -> bool {
        -VALUE_LIMIT <= self.value <= VALUE_LIMIT
    }

    /// Tells whether the value is small enough for the statistics.
    pub fn is_in_range(&self) -> (ok: bool)
        ensures
            ok == self.in_range(),
    {
        -VALUE_LIMIT <= self.value && self.value <= VALUE_LIMIT
    }
}

/// Every sample of the history is in range, and there are not too many.
pub open spec fn history_in_range(history: Seq<MetricSample>) -> bool {
    &&& history.len() <= HISTORY_LIMIT
    &&& forall|i: int| 0 <= i < history.len() ==> (#[trigger] history[i]).in_range()
}

/// Tells whether the statistics accept the history.
pub fn check_history(history: &Vec<MetricSample>) -> (ok: bool)
    ensures
        ok == history_in_range(history@),
{
    if history.len() > HISTORY_LIMIT {
        return false;
    }
    let mut i: usize = 0;
    while i < history.len()
        invariant
            i <= history.len(),
            forall|j: int| 0 <= j < i ==> (#[trigger] history@[j]).in_range(),
        decreases history.len() - i,
    {
        if !history[i].is_in_range() {
            return false;
        }
        i += 1;
    }
    true
}

} // verus!
