use bencher_threshold::alerts::Alert;
use bencher_threshold::boundary::CriticalValues;
use bencher_threshold::engine::try_evaluate;
use bencher_threshold::engine::try_prepare;
use bencher_threshold::engine::EvaluationResult;
use bencher_threshold::engine::Preparation;
use bencher_threshold::lifecycle::ActivePolicy;
use bencher_threshold::lifecycle::PolicyConflict;
use bencher_threshold::policy::Boundary;
use bencher_threshold::policy::BoundarySide;
use bencher_threshold::policy::StatisticKind;
use bencher_threshold::policy::StatisticPolicy;
use bencher_threshold::registry::Registry;
use bencher_threshold::sample::MetricSample;
use bencher_threshold::sample::Scope;
use bencher_threshold::sample::VALUE_LIMIT;

const Z_95: i64 = 1_644_854;

fn scope(metric_kind: u128) -> Scope {
    Scope {
        project: 1,
        branch: 2,
        testbed: 3,
        metric_kind,
    }
}

fn policy(min_sample_size: u32) -> StatisticPolicy {
    StatisticPolicy {
        test: StatisticKind::Z,
        min_sample_size,
        max_sample_size: None,
        window: None,
        lower_boundary: Boundary::new(950_000),
        upper_boundary: Boundary::new(950_000),
    }
}

fn history() -> Vec<MetricSample> {
    [10_000, 11_000, 9_000, 10_000, 10_000]
        .iter()
        .enumerate()
        .map(|(i, v)| MetricSample {
            id: i as u128,
            created: 100 - i as i64,
            value: *v,
        })
        .collect()
}

fn both() -> CriticalValues {
    CriticalValues {
        lower: Some(Z_95),
        upper: Some(Z_95),
    }
}

fn sample(id: u128, value: i64) -> MetricSample {
    MetricSample {
        id,
        created: 200,
        value,
    }
}

#[test]
fn scope_without_threshold_is_not_checked() {
    let mut registry = Registry::new();
    assert_eq!(registry.get_active_policy(scope(1)), None);
    let result = registry.evaluate(scope(1), &sample(50, 20_000), &history(), 200, &both());
    assert_eq!(result, EvaluationResult::NoThreshold);
    assert_eq!(registry.alerts().len(), 0);
    let prepared = registry.prepare(scope(1), &history(), 200);
    assert_eq!(prepared.preparation, Preparation::NoThreshold);
    assert_eq!(prepared.version, 0);
}

#[test]
fn thresholds_are_kept_by_scope() {
    let mut registry = Registry::new();
    assert_eq!(registry.swap_active_policy(scope(1), None, policy(5)), Ok(1));
    assert_eq!(registry.swap_active_policy(scope(2), None, policy(3)), Ok(1));
    assert_eq!(
        registry.swap_active_policy(scope(1), Some(1), policy(6)),
        Ok(2)
    );
    assert_eq!(
        registry.get_active_policy(scope(1)),
        Some(ActivePolicy {
            version: 2,
            policy: policy(6)
        })
    );
    assert_eq!(
        registry.get_active_policy(scope(2)),
        Some(ActivePolicy {
            version: 1,
            policy: policy(3)
        })
    );
    assert_eq!(registry.get_active_policy(scope(3)), None);
    assert_eq!(
        registry.swap_active_policy(scope(2), Some(2), policy(4)),
        Err(PolicyConflict {
            expected: Some(2),
            actual: Some(1)
        })
    );
    assert_eq!(
        registry.swap_active_policy(scope(3), Some(1), policy(4)),
        Err(PolicyConflict {
            expected: Some(1),
            actual: None
        })
    );
    assert_eq!(registry.get_active_policy(scope(3)), None);
}

#[test]
fn removed_threshold_checks_nothing() {
    let mut registry = Registry::new();
    assert!(!registry.remove(scope(1)));
    assert_eq!(registry.swap_active_policy(scope(1), None, policy(5)), Ok(1));
    assert_eq!(registry.swap_active_policy(scope(2), None, policy(5)), Ok(1));
    assert!(registry.remove(scope(1)));
    assert!(!registry.remove(scope(1)));
    assert_eq!(registry.get_active_policy(scope(1)), None);
    assert!(registry.get_active_policy(scope(2)).is_some());
    assert_eq!(
        registry.evaluate(scope(1), &sample(50, 20_000), &history(), 200, &both()),
        EvaluationResult::NoThreshold
    );
    assert_eq!(
        registry.swap_active_policy(scope(1), None, policy(5)),
        Err(PolicyConflict {
            expected: None,
            actual: None
        })
    );
}

#[test]
fn violations_are_put_on_record_once() {
    let mut registry = Registry::new();
    assert_eq!(registry.swap_active_policy(scope(1), None, policy(5)), Ok(1));
    // mean 10000, deviation 707, limits 10000 -+ 1162
    let first = registry.evaluate(scope(1), &sample(50, 20_000), &history(), 200, &both());
    assert_eq!(first.violation_count(), 1);
    assert_eq!(registry.alerts().len(), 1);
    assert_eq!(
        registry.alerts().get(0),
        Some(Alert {
            id: 0,
            sample: 50,
            version: 1,
            side: BoundarySide::Upper,
            limit: 11_162,
            value: 20_000,
            acknowledged: false,
        })
    );
    // The same sample again: the same result and no second alert.
    let again = registry.evaluate(scope(1), &sample(50, 20_000), &history(), 200, &both());
    assert_eq!(again, first);
    assert_eq!(registry.alerts().len(), 1);
    // Another sample below the lower limit.
    let low = registry.evaluate(scope(1), &sample(51, 8_000), &history(), 200, &both());
    assert_eq!(low.violation_count(), 1);
    assert_eq!(registry.alerts().len(), 2);
    assert_eq!(
        registry.alerts().get(1).map(|a| (a.side, a.limit)),
        Some((BoundarySide::Lower, 8_838))
    );
    // A sample inside the limits is checked and raises nothing.
    let fine = registry.evaluate(scope(1), &sample(52, 10_500), &history(), 200, &both());
    assert_eq!(fine, EvaluationResult::Checked(vec![]));
    assert_eq!(registry.alerts().len(), 2);
}

#[test]
fn alerts_refer_to_the_version_in_force() {
    let mut registry = Registry::new();
    assert_eq!(registry.swap_active_policy(scope(1), None, policy(5)), Ok(1));
    registry.evaluate(scope(1), &sample(50, 20_000), &history(), 200, &both());
    assert_eq!(
        registry.swap_active_policy(scope(1), Some(1), policy(2)),
        Ok(2)
    );
    let scoped = registry.prepare(scope(1), &history(), 200);
    assert_eq!(scoped.version, 2);
    let result = registry.conclude(&scoped, &both(), &sample(50, 20_000));
    assert_eq!(result.violation_count(), 1);
    assert_eq!(registry.alerts().len(), 2);
    assert_eq!(registry.alerts().get(0).map(|a| a.version), Some(1));
    assert_eq!(registry.alerts().get(1).map(|a| a.version), Some(2));
}

#[test]
fn too_little_history_raises_nothing() {
    let mut registry = Registry::new();
    assert_eq!(registry.swap_active_policy(scope(1), None, policy(6)), Ok(1));
    assert_eq!(
        registry.evaluate(scope(1), &sample(50, 20_000), &history(), 200, &both()),
        EvaluationResult::InsufficientData
    );
    assert_eq!(registry.alerts().len(), 0);
}

#[test]
fn history_out_of_range_is_not_judged() {
    let mut wide = history();
    wide.push(MetricSample {
        id: 9,
        created: 0,
        value: -VALUE_LIMIT - 1,
    });
    assert_eq!(try_prepare(Some(policy(5)), &wide, 200), None);
    assert_eq!(
        try_evaluate(Some(policy(5)), &wide, &sample(50, 1), 200, &both()),
        None
    );
    assert!(try_prepare(Some(policy(5)), &history(), 200).is_some());
    assert_eq!(
        try_evaluate(None, &history(), &sample(50, 1), 200, &both()),
        Some(EvaluationResult::NoThreshold)
    );
    let mut registry = Registry::new();
    assert_eq!(registry.swap_active_policy(scope(1), None, policy(5)), Ok(1));
    assert_eq!(
        registry.try_evaluate(scope(1), &sample(50, 20_000), &wide, 200, &both()),
        None
    );
    assert_eq!(registry.alerts().len(), 0);
    assert!(registry
        .try_evaluate(scope(1), &sample(50, 20_000), &history(), 200, &both())
        .is_some());
    assert_eq!(registry.alerts().len(), 1);
}
