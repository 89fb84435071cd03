//! The record of alerts. Each violation of a sample under a version of a
//! policy is recorded once, however often the sample is evaluated.

use vstd::prelude::*;
use crate::alert::Violation;
use crate::policy::BoundarySide;

verus! {

/// A recorded violation.
#[derive(Debug, Clone, Copy, PartialEq, Eq)]
pub struct Alert {
    /// The number of the alert: its place in the record.
    pub id: u64,
    /// The sample that broke the limit.
    pub sample: u128,
    /// The version of the policy that the sample was judged by.
    pub version: u64,
    /// The side of the limit.
    pub side: BoundarySide,
    /// The limit that was broken.
    pub limit: i128,
    /// The value that broke it.
    pub value: i64,
    /// Whether somebody has taken note of the alert.
    pub acknowledged: bool,
}

/// The alert is about this sample, version and side.
pub open spec fn concerns(alert: Alert, sample: u128, version: u64, side: BoundarySide) -> bool {
    alert.sample == sample && alert.version == version && alert.side == side
}

/// The record holds an alert about this sample, version and side.
pub open spec fn has_alert(alerts: Seq<Alert>, sample: u128, version: u64, side: BoundarySide)
    -> bool {
    exists|i: int| 0 <= i < alerts.len() && concerns(#[trigger] alerts[i], sample, version, side)
}

/// The alert that records a violation at the end of a record of `at`
/// alerts.
pub open spec fn alert_for(at: nat, sample: u128, version: u64, violation: Violation) -> Alert {
    Alert {
        id: at as u64,
        sample,
        version,
        side: violation.side,
        limit: violation.limit,
        value: violation.value,
        acknowledged: false,
    }
}

/// The record after one violation was reported: it grows by an alert
/// unless it holds one about the same sample, version and side.
pub open spec fn with_violation(
    alerts: Seq<Alert>,
    sample: u128,
    version: u64,
    violation: Violation,
) -> Seq<Alert> {
    if has_alert(alerts, sample, version, violation.side) {
        alerts
    } else {
        alerts.push(alert_for(alerts.len(), sample, version, violation))
    }
}

/// The record after the violations of a sample were reported, in their
/// order.
pub open spec fn with_violations(
    alerts: Seq<Alert>,
    sample: u128,
    version: u64,
    violations: Seq<Violation>,
) -> Seq<Alert>
    decreases violations.len(),
{
    if violations.len() == 0 {
        alerts
    } else {
        with_violation(
            with_violations(alerts, sample, version, violations.drop_last()),
            sample,
            version,
            violations.last(),
        )
    }
}

/// No two alerts are about the same sample, version and side.
pub open spec fn without_duplicates(alerts: Seq<Alert>) -> bool {
    forall|i: int, j: int|
        0 <= i < j < alerts.len() ==> !concerns(
            #[trigger] alerts[i],
            (#[trigger] alerts[j]).sample,
            alerts[j].version,
            alerts[j].side,
        )
}

/// The record of alerts of a scope.
#[derive(Debug, Clone)]
pub struct AlertLog {
    alerts: Vec<Alert>,
}

impl View for AlertLog {
    type V = Seq<Alert>;

    closed spec fn view(&self) -> Seq<Alert> {
        self.alerts@
    }
}

impl AlertLog {
    /// A record without alerts.
    pub fn new() -> (log: AlertLog)
        ensures
            log@.len() == 0,
    {
        AlertLog { alerts: Vec::new() }
    }

    /// The number of alerts.
    pub fn len(&self) -> (len: usize)
        ensures
            len == self@.len(),
    {
        self.alerts.len()
    }

    /// The alert with the given number.
    pub fn get(&self, index: usize) -> (alert: Option<Alert>)
        ensures
            alert == if index < self@.len() {
                Some(self@[index as int])
            } else {
                None
            },
    {
        if index < self.alerts.len() {
            Some(self.alerts[index])
        } else {
            None
        }
    }

    /// Tells whether an alert about this sample, version and side is on
    /// record.
    pub fn contains(&self, sample: u128, version: u64, side: BoundarySide) -> (found: bool)
        ensures
            found == has_alert(self@, sample, version, side),
    {
        let mut i: usize = 0;
        while i < self.alerts.len()
            invariant
                i <= self.alerts.len(),
                forall|j: int| 0 <= j < i ==> !concerns(#[trigger] self.alerts@[j], sample, version, side),
            decreases self.alerts.len() - i,
        {
            let alert: Alert = self.alerts[i];
            if alert.sample == sample && alert.version == version && alert.side == side {
                return true;
            }
            i += 1;
        }
        false
    }

    /// Records the violations of a sample under a version of the policy.
    /// A violation that is on record already adds nothing. Returns how
    /// many alerts were added.
    pub fn record(&mut self, sample: u128, version: u64, violations: &Vec<Violation>) -> (added:
        usize)
        ensures
            final(self)@ == with_violations(old(self)@, sample, version, violations@),
            added == final(self)@.len() - old(self)@.len(),
    {
        let before: usize = self.alerts.len();
        let mut k: usize = 0;
        while k < violations.len()
            invariant
                k <= violations.len(),
                self@ == with_violations(old(self)@, sample, version, violations@.take(k as int)),
                before == old(self)@.len(),
                self@.len() >= before,
            decreases violations.len() - k,
        {
            let violation: Violation = violations[k];
            proof {
                assert(violations@.take(k + 1).drop_last() =~= violations@.take(k as int));
            }
            if !self.contains(sample, version, violation.side) {
                let id: u64 = self.alerts.len() as u64;
                self.alerts.push(
                    Alert {
                        id,
                        sample,
                        version,
                        side: violation.side,
                        limit: violation.limit,
                        value: violation.value,
                        acknowledged: false,
                    },
                );
            }
            k += 1;
        }
        assert(violations@.take(violations.len() as int) =~= violations@);
        self.alerts.len() - before
    }
}

/// Reporting violations only adds to the record.
pub proof fn lemma_record_extends(
    alerts: Seq<Alert>,
    sample: u128,
    version: u64,
    violations: Seq<Violation>,
)
    ensures
        alerts.len() <= with_violations(alerts, sample, version, violations).len(),
        forall|i: int|
            0 <= i < alerts.len() ==> #[trigger] with_violations(
                alerts,
                sample,
                version,
                violations,
            )[i] == alerts[i],
    decreases violations.len(),
{
    if violations.len() > 0 {
        lemma_record_extends(alerts, sample, version, violations.drop_last());
    }
}

/// Once violations were reported, each of them is on record.
pub proof fn lemma_record_covers(
    alerts: Seq<Alert>,
    sample: u128,
    version: u64,
    violations: Seq<Violation>,
    k: int,
)
    requires
        0 <= k < violations.len(),
    ensures
        has_alert(
            with_violations(alerts, sample, version, violations),
            sample,
            version,
            violations[k].side,
        ),
    decreases violations.len(),
{
    let front = with_violations(alerts, sample, version, violations.drop_last());
    let all = with_violations(alerts, sample, version, violations);
    if k == violations.len() - 1 {
        if !has_alert(front, sample, version, violations.last().side) {
            assert(concerns(all[front.len() as int], sample, version, violations[k].side));
        }
    } else {
        lemma_record_covers(alerts, sample, version, violations.drop_last(), k);
        let i = choose|i: int|
            0 <= i < front.len() && concerns(#[trigger] front[i], sample, version, violations[k].side);
        assert(concerns(all[i], sample, version, violations[k].side));
    }
}

/// Reporting violations that are all on record changes nothing.
pub proof fn lemma_record_known(
    alerts: Seq<Alert>,
    sample: u128,
    version: u64,
    violations: Seq<Violation>,
)
    requires
        forall|k: int|
            0 <= k < violations.len() ==> has_alert(
                alerts,
                sample,
                version,
                (#[trigger] violations[k]).side,
            ),
    ensures
        with_violations(alerts, sample, version, violations) == alerts,
    decreases violations.len(),
{
    if violations.len() > 0 {
        let front = violations.drop_last();
        assert forall|k: int| 0 <= k < front.len() implies has_alert(
            alerts,
            sample,
            version,
            (#[trigger] front[k]).side,
        ) by {
            assert(front[k] == violations[k]);
        }
        lemma_record_known(alerts, sample, version, front);
        assert(has_alert(alerts, sample, version, violations[violations.len() - 1].side));
    }
}

/// Evaluating a sample again raises no second alert: reporting the same
/// violations of the same sample under the same version twice leaves the
/// record as the first report left it.
pub proof fn lemma_record_idempotent(
    alerts: Seq<Alert>,
    sample: u128,
    version: u64,
    violations: Seq<Violation>,
)
    ensures
        with_violations(
            with_violations(alerts, sample, version, violations),
            sample,
            version,
            violations,
        ) == with_violations(alerts, sample, version, violations),
{
    let once = with_violations(alerts, sample, version, violations);
    assert forall|k: int| 0 <= k < violations.len() implies has_alert(
        once,
        sample,
        version,
        (#[trigger] violations[k]).side,
    ) by {
        lemma_record_covers(alerts, sample, version, violations, k);
    }
    lemma_record_known(once, sample, version, violations);
}

/// A record without duplicates stays without duplicates.
pub proof fn lemma_record_without_duplicates(
    alerts: Seq<Alert>,
    sample: u128,
    version: u64,
    violations: Seq<Violation>,
)
    requires
        without_duplicates(alerts),
    ensures
        without_duplicates(with_violations(alerts, sample, version, violations)),
    decreases violations.len(),
{
    if violations.len() > 0 {
        lemma_record_without_duplicates(alerts, sample, version, violations.drop_last());
        let front = with_violations(alerts, sample, version, violations.drop_last());
        let all = with_violations(alerts, sample, version, violations);
        if !has_alert(front, sample, version, violations.last().side) {
            assert forall|i: int, j: int| 0 <= i < j < all.len() implies !concerns(
                #[trigger] all[i],
                (#[trigger] all[j]).sample,
                all[j].version,
                all[j].side,
            ) by {
                if j == front.len() {
                    assert(all[i] == front[i]);
                } else {
                    assert(all[i] == front[i] && all[j] == front[j]);
                }
            }
        }
    }
}

} // verus!
