//! What the command line hands over: flags and arguments as plain values.

use vstd::prelude::*;

verus! {

/// Flags that hold for every subcommand. There are none so far.
#[derive(Debug, Clone, Copy, PartialEq, Eq, Structural)]
pub struct CliWide {}

/// How to reach the backend.
#[derive(Debug, Clone, PartialEq, Eq)]
pub struct CliBackend {
    /// Backend host URL.
    pub host: Option<String>,
    /// User API token.
    pub token: Option<String>,
    /// How often a request is tried.
    pub attempts: Option<usize>,
    /// The seconds to wait between two tries.
    pub retry_after: Option<u64>,
}

/// Whether to run locally only, or how to reach the backend.
#[derive(Debug, Clone, PartialEq, Eq)]
pub struct CliLocality {
    /// Run local only.
    pub local: bool,
    pub backend: CliBackend,
}

impl CliLocality {
    /// Running locally and naming a backend host or token contradict each
    /// other.
    pub open spec fn conflicting(self) -> bool {
        self.local && (self.backend.host is Some || self.backend.token is Some)
    }

    /// Tells whether the flags contradict each other.
    pub fn is_conflicting(&self) -> (conflict: bool)
        ensures
            conflict == self.conflicting(),
    {
        self.local && (self.backend.host.is_some() || self.backend.token.is_some())
    }
}

/// The orders in which benchmarks are listed.
#[derive(Debug, Clone, Copy, PartialEq, Eq, Structural)]
pub enum CliBenchmarksSort {
    /// Name of the benchmark.
    Name,
}

/// The statistical tests by their names on the command line.
#[derive(Debug, Clone, Copy, PartialEq, Eq, Structural)]
pub enum CliStatisticKind {
    Z,
    T,
}

/// The arguments that create a statistic. Boundaries are probabilities in
/// parts per million.
#[derive(Debug, Clone, Copy, PartialEq, Eq)]
pub struct CliStatisticCreate {
    pub test: CliStatisticKind,
    pub min_sample_size: Option<u32>,
    pub max_sample_size: Option<u32>,
    pub window: Option<u32>,
    pub lower_boundary: Option<u32>,
    pub upper_boundary: Option<u32>,
}

/// The direction of a listing.
#[derive(Debug, Clone, Copy, PartialEq, Eq, Structural)]
pub enum Direction {
    Asc,
    Desc,
}

/// The orders in which the thresholds of a project are listed.
#[derive(Debug, Clone, Copy, PartialEq, Eq, Structural)]
pub enum ProjThresholdsSort {
    /// By the time of creation.
    Created,
}

impl Default for ProjThresholdsSort {
    fn default() -> (sort: ProjThresholdsSort)
        ensures
            sort == ProjThresholdsSort::Created,
    {
        ProjThresholdsSort::Created
    }
}

impl ProjThresholdsSort {
    /// A listing runs from the newest to the oldest unless it is asked to
    /// ascend.
    pub open spec fn ascends(self, direction: Option<Direction>) -> bool {
        direction == Some(Direction::Asc)
    }

    /// Tells whether a listing in this order ascends.
    pub fn ascending(&self, direction: Option<Direction>) -> (ascending: bool)
        ensures
            ascending == self.ascends(direction),
    {
        match self {
            ProjThresholdsSort::Created => match direction {
                Some(Direction::Asc) => true,
                Some(Direction::Desc) | None => false,
            },
        }
    }
}

} // verus!
