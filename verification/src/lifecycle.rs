//! The life of a threshold: the versions of the policy of one scope.
//!
//! A policy is never changed in place. Each update adds a version and
//! supersedes the one before, which stays on record for the alerts that
//! were raised under it.

use vstd::prelude::*;
use crate::policy::StatisticPolicy;

verus! {

/// Where a scope stands.
#[derive(Debug, Clone, Copy, PartialEq, Eq, Hash, Structural)]
pub enum ThresholdStatus {
    /// No threshold was ever created.
    Unconfigured,
    /// The latest version of the policy is in force.
    Active,
    /// The threshold was deleted; its versions stay on record.
    Removed,
}

/// A swap of the policy found another version in force than it expected.
#[derive(Debug, Clone, Copy, PartialEq, Eq)]
pub struct PolicyConflict {
    /// The version that the caller took to be in force.
    pub expected: Option<u64>,
    /// The version that is in force; `None` where none is.
    pub actual: Option<u64>,
}

/// A policy with the number of its version.
#[derive(Debug, Clone, Copy, PartialEq, Eq)]
pub struct ActivePolicy {
    pub version: u64,
    pub policy: StatisticPolicy,
}

/// The record of a threshold: the versions of its policy, oldest first and
/// numbered from one, and whether it was deleted.
pub struct ThresholdRecord {
    pub versions: Seq<StatisticPolicy>,
    pub removed: bool,
}

impl ThresholdRecord {
    /// The status that the record stands for.
    pub open spec fn status(self) -> ThresholdStatus {
        if self.removed {
            ThresholdStatus::Removed
        } else if self.versions.len() == 0 {
            ThresholdStatus::Unconfigured
        } else {
            ThresholdStatus::Active
        }
    }

    /// The number of the version in force: that of the latest, unless the
    /// threshold is unconfigured or removed.
    pub open spec fn active_version(self) -> Option<u64> {
        if self.status() == ThresholdStatus::Active {
            Some(self.versions.len() as u64)
        } else {
            None
        }
    }

    /// The policy in force with its version.
    pub open spec fn active(self) -> Option<ActivePolicy> {
        if self.status() == ThresholdStatus::Active {
            Some(ActivePolicy { version: self.versions.len() as u64, policy: self.versions.last() })
        } else {
            None
        }
    }

    /// The policy of a version, whether in force or superseded.
    pub open spec fn version(self, version: u64) -> Option<StatisticPolicy> {
        if 1 <= version <= self.versions.len() {
            Some(self.versions[version - 1])
        } else {
            None
        }
    }

    /// Only a threshold that was created can have been removed. Every
    /// threshold starts out so and stays so.
    pub open spec fn consistent(self) -> bool {
        self.removed ==> self.versions.len() > 0
    }

    /// A swap goes through when the threshold was not removed and the
    /// caller knows the version in force, or knows that there is none yet.
    pub open spec fn accepts_swap(self, expected: Option<u64>) -> bool {
        !self.removed && expected == self.active_version()
    }

    /// The record after a swap that went through.
    pub open spec fn swapped(self, policy: StatisticPolicy) -> ThresholdRecord {
        ThresholdRecord { versions: self.versions.push(policy), removed: false }
    }
}

/// The threshold of one scope.
#[derive(Debug, Clone)]
pub struct Threshold {
    versions: Vec<StatisticPolicy>,
    removed: bool,
}

impl View for Threshold {
    type V = ThresholdRecord;

    closed spec fn view(&self) -> ThresholdRecord {
        ThresholdRecord { versions: self.versions@, removed: self.removed }
    }
}

impl Threshold {
    /// The threshold of a scope for which none was configured.
    pub fn new() -> (threshold: Threshold)
        ensures
            threshold@.versions.len() == 0,
            !threshold@.removed,
            threshold@.status() == ThresholdStatus::Unconfigured,
            threshold@.consistent(),
    {
        Threshold { versions: Vec::new(), removed: false }
    }

    /// Where the scope stands.
    pub fn status(&self) -> (status: ThresholdStatus)
        ensures
            status == self@.status(),
    {
        if self.removed {
            ThresholdStatus::Removed
        } else if self.versions.len() == 0 {
            ThresholdStatus::Unconfigured
        } else {
            ThresholdStatus::Active
        }
    }

    /// The policy in force and its version, for a new sample to be judged
    /// by; `None` where the scope is unconfigured or its threshold removed.
    pub fn get_active_policy(&self) -> (active: Option<ActivePolicy>)
        ensures
            active == self@.active(),
    {
        let n: usize = self.versions.len();
        if self.removed || n == 0 {
            None
        } else {
            Some(ActivePolicy { version: n as u64, policy: self.versions[n - 1] })
        }
    }

    /// The policy of a version, in force or superseded; `None` for a
    /// version that never was.
    pub fn policy_version(&self, version: u64) -> (policy: Option<StatisticPolicy>)
        ensures
            policy == self@.version(version),
    {
        if 1 <= version && version <= self.versions.len() as u64 {
            Some(self.versions[(version - 1) as usize])
        } else {
            None
        }
    }

    /// Puts a new version of the policy in force, if the version that the
    /// caller expects is the one in force: `None` for the first policy of
    /// an unconfigured scope. The versions before stay as they are. On a
    /// conflict nothing changes, and the caller has to look again.
    pub fn swap_active_policy(&mut self, expected_version: Option<u64>, policy: StatisticPolicy) -> (
    result: Result<u64, PolicyConflict>)
        ensures
            old(self)@.accepts_swap(expected_version) ==> {
                &&& final(self)@ == old(self)@.swapped(policy)
                &&& result == Ok::<u64, PolicyConflict>((old(self)@.versions.len() + 1) as u64)
            },
            !old(self)@.accepts_swap(expected_version) ==> {
                &&& final(self)@ == old(self)@
                &&& result == Err::<u64, PolicyConflict>(
                    PolicyConflict {
                        expected: expected_version,
                        actual: old(self)@.active_version(),
                    },
                )
            },
            old(self)@.consistent() ==> final(self)@.consistent(),
    {
        let n: usize = self.versions.len();
        let actual: Option<u64> = if self.removed || n == 0 {
            None
        } else {
            Some(n as u64)
        };
        let agreed: bool = match (expected_version, actual) {
            (None, None) => true,
            (Some(e), Some(a)) => e == a,
            _ => false,
        };
        if self.removed || !agreed {
            Err(PolicyConflict { expected: expected_version, actual })
        } else {
            self.versions.push(policy);
            Ok(self.versions.len() as u64)
        }
    }

    /// Deletes the threshold if it is active. Its versions stay on record.
    /// Tells whether it was active.
    pub fn remove(&mut self) -> (removed: bool)
        ensures
            removed == (old(self)@.status() == ThresholdStatus::Active),
            final(self)@.versions == old(self)@.versions,
            final(self)@.removed == (old(self)@.removed || removed),
            old(self)@.consistent() ==> final(self)@.consistent(),
    {
        if !self.removed && self.versions.len() > 0 {
            self.removed = true;
            true
        } else {
            false
        }
    }
}

/// An update supersedes and does not rewrite: after a swap the new policy
/// is the one in force, under the next version number, and every version
/// before stands as it stood.
pub proof fn lemma_swap_supersedes(record: ThresholdRecord, policy: StatisticPolicy)
    requires
        !record.removed,
        record.versions.len() < u64::MAX,
    ensures
        record.swapped(policy).status() == ThresholdStatus::Active,
        record.swapped(policy).active() == Some(
            ActivePolicy { version: (record.versions.len() + 1) as u64, policy },
        ),
        forall|version: u64|
            1 <= version <= record.versions.len() ==> #[trigger] record.swapped(policy).version(
                version,
            ) == record.version(version),
        record.swapped(policy).consistent(),
{
}

/// A scope has one policy in force or none: the version in force is the
/// latest, and there is one exactly while the threshold is active.
pub proof fn lemma_one_version_in_force(record: ThresholdRecord)
    requires
        record.versions.len() <= u64::MAX,
    ensures
        record.active() is Some <==> record.status() == ThresholdStatus::Active,
        record.active() matches Some(active) ==> {
            &&& active.version == record.versions.len()
            &&& record.version(active.version) == Some(active.policy)
            &&& record.active_version() == Some(active.version)
        },
        record.active() is None ==> record.active_version() is None,
{
}

} // verus!
