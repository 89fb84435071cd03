use bencher_threshold::alert::Violation;
use bencher_threshold::alerts::Alert;
use bencher_threshold::alerts::AlertLog;
use bencher_threshold::lifecycle::ActivePolicy;
use bencher_threshold::lifecycle::PolicyConflict;
use bencher_threshold::lifecycle::Threshold;
use bencher_threshold::lifecycle::ThresholdStatus;
use bencher_threshold::policy::Boundary;
use bencher_threshold::policy::BoundarySide;
use bencher_threshold::policy::StatisticKind;
use bencher_threshold::policy::StatisticPolicy;

fn policy(min_sample_size: u32) -> StatisticPolicy {
    StatisticPolicy {
        test: StatisticKind::T,
        min_sample_size,
        max_sample_size: Some(64),
        window: None,
        lower_boundary: None,
        upper_boundary: Boundary::new(990_000),
    }
}

#[test]
fn threshold_goes_through_its_versions() {
    let mut threshold = Threshold::new();
    assert_eq!(threshold.status(), ThresholdStatus::Unconfigured);
    assert_eq!(threshold.get_active_policy(), None);

    assert_eq!(threshold.swap_active_policy(None, policy(5)), Ok(1));
    assert_eq!(threshold.status(), ThresholdStatus::Active);
    assert_eq!(
        threshold.get_active_policy(),
        Some(ActivePolicy {
            version: 1,
            policy: policy(5)
        })
    );

    assert_eq!(threshold.swap_active_policy(Some(1), policy(7)), Ok(2));
    assert_eq!(
        threshold.get_active_policy(),
        Some(ActivePolicy {
            version: 2,
            policy: policy(7)
        })
    );
    // The superseded version stays on record.
    assert_eq!(threshold.policy_version(1), Some(policy(5)));
    assert_eq!(threshold.policy_version(2), Some(policy(7)));
    assert_eq!(threshold.policy_version(0), None);
    assert_eq!(threshold.policy_version(3), None);
}

#[test]
fn swap_with_stale_version_conflicts() {
    let mut threshold = Threshold::new();
    assert_eq!(
        threshold.swap_active_policy(Some(1), policy(5)),
        Err(PolicyConflict {
            expected: Some(1),
            actual: None
        })
    );
    assert_eq!(threshold.status(), ThresholdStatus::Unconfigured);
    assert_eq!(threshold.swap_active_policy(None, policy(5)), Ok(1));
    assert_eq!(threshold.swap_active_policy(Some(1), policy(6)), Ok(2));
    // The loser of a race still expects the first version.
    assert_eq!(
        threshold.swap_active_policy(Some(1), policy(7)),
        Err(PolicyConflict {
            expected: Some(1),
            actual: Some(2)
        })
    );
    assert_eq!(
        threshold.swap_active_policy(None, policy(7)),
        Err(PolicyConflict {
            expected: None,
            actual: Some(2)
        })
    );
    assert_eq!(
        threshold.get_active_policy(),
        Some(ActivePolicy {
            version: 2,
            policy: policy(6)
        })
    );
}

#[test]
fn removed_threshold_keeps_its_versions() {
    let mut threshold = Threshold::new();
    assert!(!threshold.remove());
    assert_eq!(threshold.status(), ThresholdStatus::Unconfigured);
    assert_eq!(threshold.swap_active_policy(None, policy(5)), Ok(1));
    assert!(threshold.remove());
    assert_eq!(threshold.status(), ThresholdStatus::Removed);
    assert_eq!(threshold.get_active_policy(), None);
    assert_eq!(threshold.policy_version(1), Some(policy(5)));
    assert!(!threshold.remove());
    assert_eq!(
        threshold.swap_active_policy(None, policy(6)),
        Err(PolicyConflict {
            expected: None,
            actual: None
        })
    );
    assert_eq!(
        threshold.swap_active_policy(Some(1), policy(6)),
        Err(PolicyConflict {
            expected: Some(1),
            actual: None
        })
    );
    assert_eq!(threshold.status(), ThresholdStatus::Removed);
}

fn upper(limit: i128, value: i64) -> Violation {
    Violation {
        side: BoundarySide::Upper,
        limit,
        value,
    }
}

fn lower(limit: i128, value: i64) -> Violation {
    Violation {
        side: BoundarySide::Lower,
        limit,
        value,
    }
}

#[test]
fn alerts_are_recorded_once() {
    let mut log = AlertLog::new();
    assert_eq!(log.len(), 0);
    let violations = vec![lower(1_150, 1_000), upper(850, 1_000)];
    assert_eq!(log.record(7, 1, &violations), 2);
    assert_eq!(log.len(), 2);
    assert_eq!(
        log.get(0),
        Some(Alert {
            id: 0,
            sample: 7,
            version: 1,
            side: BoundarySide::Lower,
            limit: 1_150,
            value: 1_000,
            acknowledged: false,
        })
    );
    assert_eq!(
        log.get(1),
        Some(Alert {
            id: 1,
            sample: 7,
            version: 1,
            side: BoundarySide::Upper,
            limit: 850,
            value: 1_000,
            acknowledged: false,
        })
    );
    assert_eq!(log.get(2), None);
    // Evaluating the sample again adds nothing.
    assert_eq!(log.record(7, 1, &violations), 0);
    assert_eq!(log.len(), 2);
    assert!(log.contains(7, 1, BoundarySide::Lower));
    assert!(log.contains(7, 1, BoundarySide::Upper));
    assert!(!log.contains(7, 2, BoundarySide::Upper));
    assert!(!log.contains(8, 1, BoundarySide::Upper));
}

#[test]
fn alerts_of_other_samples_and_versions_are_new() {
    let mut log = AlertLog::new();
    assert_eq!(log.record(7, 1, &vec![upper(10, 11)]), 1);
    assert_eq!(log.record(8, 1, &vec![upper(10, 12)]), 1);
    assert_eq!(log.record(7, 2, &vec![upper(9, 11)]), 1);
    assert_eq!(log.record(7, 1, &vec![lower(12, 11)]), 1);
    assert_eq!(log.record(7, 1, &vec![]), 0);
    assert_eq!(log.record(7, 1, &vec![upper(10, 11), upper(10, 11)]), 0);
    assert_eq!(log.len(), 4);
    assert_eq!(log.get(3).map(|a| a.id), Some(3));
}
