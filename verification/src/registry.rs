//! The thresholds of all scopes and the alerts raised under them.
//!
//! The registry answers which policy is in force for a scope, takes the
//! updates of policies, and judges new samples: it builds the baseline by
//! the policy in force, compares the sample with the limits, and puts the
//! violations on record.

use vstd::prelude::*;
use crate::alert::Violation;
use crate::alerts::with_violations;
use crate::alerts::Alert;
use crate::alerts::AlertLog;
use crate::boundary::CriticalValues;
use crate::engine::conclude;
use crate::engine::conclusion;
use crate::engine::evaluation;
use crate::engine::prepare;
use crate::engine::prepared;
use crate::engine::Evaluation;
use crate::engine::EvaluationResult;
use crate::engine::Preparation;
use crate::lifecycle::ActivePolicy;
use crate::lifecycle::PolicyConflict;
use crate::lifecycle::Threshold;
use crate::lifecycle::ThresholdRecord;
use crate::policy::StatisticPolicy;
use crate::sample::check_history;
use crate::sample::history_in_range;
use crate::sample::MetricSample;
use crate::sample::Scope;

verus! {

/// The threshold of a scope.
#[derive(Debug, Clone)]
pub struct ScopeThreshold {
    pub scope: Scope,
    pub threshold: Threshold,
}

/// The thresholds by scope and the alerts.
#[derive(Debug, Clone)]
pub struct Registry {
    entries: Vec<ScopeThreshold>,
    alerts: AlertLog,
}

/// What a registry holds: the record of each scope that ever had a
/// threshold, and the alerts in the order in which they were raised.
pub struct RegistryState {
    pub thresholds: Map<Scope, ThresholdRecord>,
    pub alerts: Seq<Alert>,
}

/// A preparation with the version of the policy that it was made by.
#[derive(Debug, Clone, Copy, PartialEq, Eq)]
pub struct ScopedPreparation {
    pub preparation: Preparation,
    /// The version of the policy in force; zero where none is.
    pub version: u64,
}

/// The index of the first entry at or after `from` that belongs to the
/// scope; the number of entries where there is none.
pub open spec fn find_scope(entries: Seq<ScopeThreshold>, scope: Scope, from: int) -> int
    decreases entries.len() - from,
{
    if from < 0 || from >= entries.len() {
        entries.len() as int
    } else if entries[from].scope == scope {
        from
    } else {
        find_scope(entries, scope, from + 1)
    }
}

/// The records of the entries by scope.
pub open spec fn records(entries: Seq<ScopeThreshold>) -> Map<Scope, ThresholdRecord> {
    Map::new(
        |scope: Scope| find_scope(entries, scope, 0) < entries.len(),
        |scope: Scope| entries[find_scope(entries, scope, 0)].threshold@,
    )
}

/// The record of a scope without a threshold.
pub open spec fn unconfigured() -> ThresholdRecord {
    ThresholdRecord { versions: Seq::empty(), removed: false }
}

impl RegistryState {
    /// The record of a scope: that of its threshold, or the record of an
    /// unconfigured scope.
    pub open spec fn record(self, scope: Scope) -> ThresholdRecord {
        if self.thresholds.dom().contains(scope) {
            self.thresholds[scope]
        } else {
            unconfigured()
        }
    }

    /// The policy in force for a scope.
    pub open spec fn active(self, scope: Scope) -> Option<ActivePolicy> {
        self.record(scope).active()
    }

    /// The policy in force for a scope, without its version.
    pub open spec fn policy(self, scope: Scope) -> Option<StatisticPolicy> {
        match self.active(scope) {
            Some(active) => Some(active.policy),
            None => None,
        }
    }

    /// The version of the policy in force for a scope; zero where none is.
    pub open spec fn version(self, scope: Scope) -> u64 {
        match self.active(scope) {
            Some(active) => active.version,
            None => 0,
        }
    }

    /// The alerts after an evaluation: its violations are put on record
    /// under the version of the policy.
    pub open spec fn alerts_after(self, sample: u128, version: u64, result: Evaluation) -> Seq<
        Alert,
    > {
        match result {
            Evaluation::Checked(violations) => with_violations(
                self.alerts,
                sample,
                version,
                violations,
            ),
            _ => self.alerts,
        }
    }
}

impl View for Registry {
    type V = RegistryState;

    closed spec fn view(&self) -> RegistryState {
        RegistryState { thresholds: records(self.entries@), alerts: self.alerts@ }
    }
}

/// The search for a scope finds an entry of the scope, and none before it.
proof fn lemma_find_scope(entries: Seq<ScopeThreshold>, scope: Scope, from: int)
    requires
        0 <= from <= entries.len(),
    ensures
        from <= find_scope(entries, scope, from) <= entries.len(),
        find_scope(entries, scope, from) < entries.len() ==> entries[find_scope(
            entries,
            scope,
            from,
        )].scope == scope,
        forall|i: int|
            from <= i < find_scope(entries, scope, from) ==> (#[trigger] entries[i]).scope != scope,
    decreases entries.len() - from,
{
    if from < entries.len() && entries[from].scope != scope {
        lemma_find_scope(entries, scope, from + 1);
    }
}

/// The search depends on the scopes of the entries alone.
proof fn lemma_find_scope_same(
    before: Seq<ScopeThreshold>,
    after: Seq<ScopeThreshold>,
    scope: Scope,
    from: int,
)
    requires
        0 <= from <= before.len(),
        before.len() == after.len(),
        forall|i: int| 0 <= i < before.len() ==> (#[trigger] before[i]).scope == after[i].scope,
    ensures
        find_scope(after, scope, from) == find_scope(before, scope, from),
    decreases before.len() - from,
{
    if from < before.len() {
        assert(before[from].scope == after[from].scope);
        if before[from].scope != scope {
            lemma_find_scope_same(before, after, scope, from + 1);
        }
    }
}

/// The search after an entry was added at the end.
proof fn lemma_find_scope_push(
    entries: Seq<ScopeThreshold>,
    entry: ScopeThreshold,
    scope: Scope,
    from: int,
)
    requires
        0 <= from <= entries.len(),
    ensures
        find_scope(entries.push(entry), scope, from) == if find_scope(entries, scope, from)
            < entries.len() {
            find_scope(entries, scope, from)
        } else if entry.scope == scope {
            entries.len() as int
        } else {
            (entries.len() + 1) as int
        },
    decreases entries.len() - from,
{
    let longer = entries.push(entry);
    if from < entries.len() {
        assert(longer[from] == entries[from]);
        if entries[from].scope != scope {
            lemma_find_scope_push(entries, entry, scope, from + 1);
        }
    } else {
        assert(longer[from] == entry);
        if entry.scope != scope {
            assert(find_scope(longer, scope, from + 1) == longer.len());
        }
    }
}

impl Registry {
    /// A registry without thresholds and without alerts.
    pub fn new() -> (registry: Registry)
        ensures
            registry@.thresholds == Map::<Scope, ThresholdRecord>::empty(),
            registry@.alerts.len() == 0,
    {
        let registry = Registry { entries: Vec::new(), alerts: AlertLog::new() };
        assert(registry@.thresholds =~= Map::<Scope, ThresholdRecord>::empty());
        registry
    }

    /// Finds the entry of a scope.
    fn position(&self, scope: Scope) -> (index: usize)
        ensures
            index == find_scope(self.entries@, scope, 0),
            index <= self.entries.len(),
            index < self.entries.len() ==> self.entries[index as int].scope == scope,
            index < self.entries.len() <==> self@.thresholds.dom().contains(scope),
            index < self.entries.len() ==> self@.record(scope) == self.entries[index as int].threshold@,
            index == self.entries.len() ==> self@.record(scope) == unconfigured(),
    {
        let mut index: usize = 0;
        while index < self.entries.len() && !same_scope(&self.entries[index].scope, &scope)
            invariant
                index <= self.entries.len(),
                find_scope(self.entries@, scope, 0) == find_scope(self.entries@, scope, index as int),
            decreases self.entries.len() - index,
        {
            index += 1;
        }
        proof {
            lemma_find_scope(self.entries@, scope, 0);
        }
        index
    }

    /// The policy in force for a scope and its version, for a new sample
    /// to be judged by.
    pub fn get_active_policy(&self, scope: Scope) -> (active: Option<ActivePolicy>)
        ensures
            active == self@.active(scope),
    {
        let index: usize = self.position(scope);
        if index < self.entries.len() {
            self.entries[index].threshold.get_active_policy()
        } else {
            None
        }
    }

    /// The alerts on record.
    pub fn alerts(&self) -> (alerts: &AlertLog)
        ensures
            alerts@ == self@.alerts,
    {
        &self.alerts
    }

    /// Puts a new version of the policy of a scope in force, if the version
    /// that the caller expects is the one in force: `None` for the first
    /// policy of an unconfigured scope. On a conflict nothing changes. The
    /// other scopes and the alerts stay as they are.
    pub fn swap_active_policy(
        &mut self,
        scope: Scope,
        expected_version: Option<u64>,
        policy: StatisticPolicy,
    ) -> (result: Result<u64, PolicyConflict>)
        ensures
            final(self)@.alerts == old(self)@.alerts,
            old(self)@.record(scope).accepts_swap(expected_version) ==> {
                &&& final(self)@.thresholds == old(self)@.thresholds.insert(
                    scope,
                    old(self)@.record(scope).swapped(policy),
                )
                &&& result == Ok::<u64, PolicyConflict>(
                    (old(self)@.record(scope).versions.len() + 1) as u64,
                )
            },
            !old(self)@.record(scope).accepts_swap(expected_version) ==> {
                &&& final(self)@.thresholds == old(self)@.thresholds
                &&& result == Err::<u64, PolicyConflict>(
                    PolicyConflict {
                        expected: expected_version,
                        actual: old(self)@.record(scope).active_version(),
                    },
                )
            },
    {
        let index: usize = self.position(scope);
        let ghost before = self.entries@;
        if index < self.entries.len() {
            let entry = &mut self.entries[index];
            let result = entry.threshold.swap_active_policy(expected_version, policy);
            proof {
                let after = self.entries@;
                assert forall|s: Scope| find_scope(after, s, 0) == find_scope(before, s, 0) by {
                    lemma_find_scope_same(before, after, s, 0);
                }
                if before[index as int].threshold@.accepts_swap(expected_version) {
                    assert(records(after) =~= records(before).insert(
                        scope,
                        before[index as int].threshold@.swapped(policy),
                    )) by {
                        assert forall|s: Scope| s != scope && records(before).dom().contains(
                            s,
                        ) implies records(after)[s] == records(before)[s] by {
                            lemma_find_scope(before, s, 0);
                        }
                    }
                } else {
                    assert(records(after) =~= records(before)) by {
                        assert forall|s: Scope| records(before).dom().contains(s) implies records(
                            after,
                        )[s] == records(before)[s] by {
                            lemma_find_scope(before, s, 0);
                        }
                    }
                }
            }
            result
        } else {
            let mut threshold = Threshold::new();
            let ghost fresh = threshold@;
            assert(fresh.versions =~= Seq::<StatisticPolicy>::empty());
            assert(fresh == unconfigured());
            let result = threshold.swap_active_policy(expected_version, policy);
            if result.is_ok() {
                let ghost entry = ScopeThreshold { scope, threshold };
                self.entries.push(ScopeThreshold { scope, threshold });
                proof {
                    let after = self.entries@;
                    assert(after == before.push(entry));
                    assert forall|s: Scope|
                        find_scope(after, s, 0) == if find_scope(before, s, 0) < before.len() {
                            find_scope(before, s, 0)
                        } else if s == scope {
                            before.len() as int
                        } else {
                            (before.len() + 1) as int
                        } by {
                        lemma_find_scope_push(before, entry, s, 0);
                    }
                    assert(threshold@ == unconfigured().swapped(policy));
                    assert(after[before.len() as int] == entry);
                    assert forall|s: Scope| s != scope && records(before).dom().contains(
                        s,
                    ) implies records(after)[s] == records(before)[s] by {
                        lemma_find_scope(before, s, 0);
                        assert(after[find_scope(before, s, 0)] == before[find_scope(before, s, 0)]);
                    }
                    assert(records(after) =~= records(before).insert(
                        scope,
                        unconfigured().swapped(policy),
                    ));
                }
            }
            result
        }
    }

    /// Deletes the threshold of a scope if it is active. Its versions stay
    /// on record. Tells whether it was active.
    pub fn remove(&mut self, scope: Scope) -> (removed: bool)
        ensures
            final(self)@.alerts == old(self)@.alerts,
            removed == (old(self)@.record(scope).status() == crate::lifecycle::ThresholdStatus::Active),
            removed ==> final(self)@.thresholds == old(self)@.thresholds.insert(
                scope,
                ThresholdRecord { removed: true, ..old(self)@.record(scope) },
            ),
            !removed ==> final(self)@.thresholds == old(self)@.thresholds,
    {
        let index: usize = self.position(scope);
        let ghost before = self.entries@;
        if index < self.entries.len() {
            let entry = &mut self.entries[index];
            let removed = entry.threshold.remove();
            proof {
                let after = self.entries@;
                assert forall|s: Scope| find_scope(after, s, 0) == find_scope(before, s, 0) by {
                    lemma_find_scope_same(before, after, s, 0);
                }
                let old_record = before[index as int].threshold@;
                let new_record = after[index as int].threshold@;
                if removed {
                    assert(new_record == ThresholdRecord { removed: true, ..old_record });
                    assert(records(after) =~= records(before).insert(scope, new_record)) by {
                        assert forall|s: Scope| s != scope && records(before).dom().contains(
                            s,
                        ) implies records(after)[s] == records(before)[s] by {
                            lemma_find_scope(before, s, 0);
                        }
                    }
                } else {
                    assert(new_record == old_record);
                    assert(records(after) =~= records(before)) by {
                        assert forall|s: Scope| records(before).dom().contains(s) implies records(
                            after,
                        )[s] == records(before)[s] by {
                            lemma_find_scope(before, s, 0);
                        }
                    }
                }
            }
            removed
        } else {
            false
        }
    }

    /// Builds the baseline of a scope by its policy in force, and keeps
    /// the version of that policy with it.
    pub fn prepare(&self, scope: Scope, history: &Vec<MetricSample>, now: i64) -> (scoped:
        ScopedPreparation)
        requires
            history_in_range(history@),
        ensures
            prepared(scoped.preparation, self@.policy(scope), history@, now),
            scoped.version == self@.version(scope),
    {
        match self.get_active_policy(scope) {
            Some(active) => ScopedPreparation {
                preparation: prepare(Some(active.policy), history, now),
                version: active.version,
            },
            None => ScopedPreparation { preparation: prepare(None, history, now), version: 0 },
        }
    }

    /// Judges a sample by a preparation and the critical values, and puts
    /// the violations on record. A violation that is on record already
    /// raises no second alert.
    pub fn conclude(
        &mut self,
        scoped: &ScopedPreparation,
        critical: &CriticalValues,
        sample: &MetricSample,
    ) -> (result: EvaluationResult)
        ensures
            result@ == conclusion(scoped.preparation, *critical, *sample),
            final(self)@.thresholds == old(self)@.thresholds,
            final(self)@.alerts == old(self)@.alerts_after(sample.id, scoped.version, result@),
    {
        let result = conclude(&scoped.preparation, critical, sample);
        match &result {
            EvaluationResult::Checked(violations) => {
                let _ = self.alerts.record(sample.id, scoped.version, violations);
            },
            _ => {},
        }
        result
    }

    /// Evaluates a sample against the policy in force for its scope, with
    /// the critical values of that policy given beforehand, and puts the
    /// violations on record.
    pub fn evaluate(
        &mut self,
        scope: Scope,
        sample: &MetricSample,
        history: &Vec<MetricSample>,
        now: i64,
        critical: &CriticalValues,
    ) -> (result: EvaluationResult)
        requires
            history_in_range(history@),
        ensures
            result@ == evaluation(old(self)@.policy(scope), history@, *sample, now, *critical),
            final(self)@.thresholds == old(self)@.thresholds,
            final(self)@.alerts == old(self)@.alerts_after(
                sample.id,
                old(self)@.version(scope),
                result@,
            ),
    {
        let scoped = self.prepare(scope, history, now);
        self.conclude(&scoped, critical, sample)
    }
}

impl Registry {
    /// Evaluates as `evaluate` does, for any history: where the history is
    /// out of the range of the statistics, the result is `None` and nothing
    /// is put on record.
    pub fn try_evaluate(
        &mut self,
        scope: Scope,
        sample: &MetricSample,
        history: &Vec<MetricSample>,
        now: i64,
        critical: &CriticalValues,
    ) -> (result: Option<EvaluationResult>)
        ensures
            result is Some <==> history_in_range(history@),
            final(self)@.thresholds == old(self)@.thresholds,
            match result {
                Some(r) => {
                    &&& r@ == evaluation(old(self)@.policy(scope), history@, *sample, now, *critical)
                    &&& final(self)@.alerts == old(self)@.alerts_after(
                        sample.id,
                        old(self)@.version(scope),
                        r@,
                    )
                },
                None => final(self)@.alerts == old(self)@.alerts,
            },
    {
        if check_history(history) {
            Some(self.evaluate(scope, sample, history, now, critical))
        } else {
            None
        }
    }
}

/// Tells whether two scopes are the same.
fn same_scope(left: &Scope, right: &Scope) -> (same: bool)
    ensures
        same == (*left == *right),
{
    left.project == right.project && left.branch == right.branch && left.testbed == right.testbed
        && left.metric_kind == right.metric_kind
}

} // verus!
