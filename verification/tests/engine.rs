use bencher_threshold::alert::decide;
use bencher_threshold::alert::Violation;
use bencher_threshold::baseline::build_baseline;
use bencher_threshold::baseline::select;
use bencher_threshold::baseline::summarize;
use bencher_threshold::baseline::Baseline;
use bencher_threshold::baseline::BaselineOutcome;
use bencher_threshold::baseline::STD_DEV_LIMIT;
use bencher_threshold::boundary::limit;
use bencher_threshold::boundary::limits;
use bencher_threshold::boundary::prediction_factor_of;
use bencher_threshold::boundary::CriticalValues;
use bencher_threshold::boundary::Limits;
use bencher_threshold::engine::conclude;
use bencher_threshold::engine::evaluate;
use bencher_threshold::engine::evaluate_with;
use bencher_threshold::engine::QuantileRequest;
use bencher_threshold::engine::prepare;
use bencher_threshold::engine::quantile_request;
use bencher_threshold::engine::EvaluationResult;
use bencher_threshold::engine::Preparation;
use bencher_threshold::numeric::div_floor;
use bencher_threshold::numeric::isqrt;
use bencher_threshold::policy::Boundary;
use bencher_threshold::policy::BoundarySide;
use bencher_threshold::policy::StatisticKind;
use bencher_threshold::policy::StatisticPolicy;
use bencher_threshold::sample::check_history;
use bencher_threshold::sample::MetricSample;
use bencher_threshold::sample::HISTORY_LIMIT;
use bencher_threshold::sample::VALUE_LIMIT;

const UNIT: i64 = 1_000_000;
/// The 95th percentile of the standard normal distribution, in millionths.
const Z_95: i64 = 1_644_854;
/// The 95th percentile of Student's t with four degrees of freedom.
const T_95_DF4: i64 = 2_131_847;

fn history_of(values: &[i64]) -> Vec<MetricSample> {
    let n = values.len() as i64;
    values
        .iter()
        .enumerate()
        .map(|(i, v)| MetricSample {
            id: i as u128 + 1,
            created: 1_000 + (n - i as i64) * 60,
            value: *v * UNIT,
        })
        .collect()
}

fn z_policy() -> StatisticPolicy {
    StatisticPolicy {
        test: StatisticKind::Z,
        min_sample_size: 5,
        max_sample_size: None,
        window: None,
        lower_boundary: None,
        upper_boundary: Boundary::new(950_000),
    }
}

fn upper_only(critical: i64) -> CriticalValues {
    CriticalValues {
        lower: None,
        upper: Some(critical),
    }
}

fn sample(value: i64) -> MetricSample {
    MetricSample {
        id: 100,
        created: 2_000,
        value,
    }
}

#[test]
fn upper_violation_under_z_test() {
    let history = history_of(&[10, 11, 9, 10, 10]);
    let result = evaluate(
        Some(z_policy()),
        &history,
        &sample(12 * UNIT),
        2_000,
        &upper_only(Z_95),
    );
    assert_eq!(
        result,
        EvaluationResult::Checked(vec![Violation {
            side: BoundarySide::Upper,
            limit: 11_163_086,
            value: 12 * UNIT,
        }])
    );
    assert!(result.is_checked());
    assert_eq!(result.violation_count(), 1);
}

#[test]
fn no_violation_inside_the_limit() {
    let history = history_of(&[10, 11, 9, 10, 10]);
    let result = evaluate(
        Some(z_policy()),
        &history,
        &sample(10_500_000),
        2_000,
        &upper_only(Z_95),
    );
    assert_eq!(result, EvaluationResult::Checked(vec![]));
    assert!(result.is_checked());
    assert_ne!(result, EvaluationResult::InsufficientData);
    assert_eq!(result.violation_count(), 0);
}

#[test]
fn no_threshold_without_policy() {
    let history = history_of(&[10, 11, 9, 10, 10]);
    let result = evaluate(None, &history, &sample(12 * UNIT), 2_000, &upper_only(Z_95));
    assert_eq!(result, EvaluationResult::NoThreshold);
    assert!(!result.is_checked());
    assert_eq!(prepare(None, &history, 2_000), Preparation::NoThreshold);
}

#[test]
fn baseline_statistics_of_the_scenario() {
    let history = history_of(&[10, 11, 9, 10, 10]);
    let baseline = summarize(&history);
    assert_eq!(baseline.count(), 5);
    assert_eq!(baseline.mean(), 10 * UNIT);
    assert_eq!(baseline.std_dev(), 707_106);
    assert_eq!(Some(baseline), Baseline::new(5, 10 * UNIT, 707_106));
}

#[test]
fn statistics_round_down() {
    let values = [1, 2, 3, 4, 100];
    let history: Vec<MetricSample> = values
        .iter()
        .map(|v| MetricSample {
            id: 0,
            created: 0,
            value: *v,
        })
        .collect();
    let baseline = summarize(&history);
    assert_eq!(baseline.count(), 5);
    assert_eq!(baseline.mean(), 22);
    assert_eq!(baseline.std_dev(), 43);

    let negative: Vec<MetricSample> = [-1i64, -2]
        .iter()
        .map(|v| MetricSample {
            id: 0,
            created: 0,
            value: *v,
        })
        .collect();
    assert_eq!(summarize(&negative).mean(), -2);
}

#[test]
fn single_sample_has_no_deviation() {
    let history = history_of(&[7]);
    let baseline = summarize(&history);
    assert_eq!(baseline.count(), 1);
    assert_eq!(baseline.mean(), 7 * UNIT);
    assert_eq!(baseline.std_dev(), 0);
}

#[test]
fn statistics_at_the_limits_of_the_range() {
    let mut history = Vec::new();
    for i in 0..1000 {
        history.push(MetricSample {
            id: i,
            created: 0,
            value: if i % 2 == 0 { VALUE_LIMIT } else { -VALUE_LIMIT },
        });
    }
    assert!(check_history(&history));
    let baseline = summarize(&history);
    assert_eq!(baseline.mean(), 0);
    assert!(baseline.std_dev() >= VALUE_LIMIT as u64);
    assert!(baseline.std_dev() <= STD_DEV_LIMIT);
}

#[test]
fn limit_without_deviation_is_the_mean() {
    for test in [StatisticKind::Z, StatisticKind::T] {
        for critical in [-3 * UNIT, 0, Z_95, i64::MAX, i64::MIN] {
            let baseline = Baseline::new(8, 42, 0).unwrap();
            assert_eq!(limit(&baseline, test, BoundarySide::Lower, critical), 42);
            assert_eq!(limit(&baseline, test, BoundarySide::Upper, critical), 42);
        }
    }
}

#[test]
fn verdict_without_deviation() {
    let history = history_of(&[10, 10, 10, 10, 10]);
    let policy = StatisticPolicy {
        lower_boundary: Boundary::new(950_000),
        ..z_policy()
    };
    let critical = CriticalValues {
        lower: Some(Z_95),
        upper: Some(Z_95),
    };
    let at_mean = evaluate(Some(policy), &history, &sample(10 * UNIT), 2_000, &critical);
    assert_eq!(at_mean, EvaluationResult::Checked(vec![]));
    let above = evaluate(
        Some(policy),
        &history,
        &sample(10 * UNIT + 1),
        2_000,
        &critical,
    );
    assert_eq!(
        above,
        EvaluationResult::Checked(vec![Violation {
            side: BoundarySide::Upper,
            limit: 10_000_000,
            value: 10_000_001,
        }])
    );
    let below = evaluate(
        Some(policy),
        &history,
        &sample(10 * UNIT - 1),
        2_000,
        &critical,
    );
    assert_eq!(
        below,
        EvaluationResult::Checked(vec![Violation {
            side: BoundarySide::Lower,
            limit: 10_000_000,
            value: 9_999_999,
        }])
    );
}

#[test]
fn minimum_sample_size_decides() {
    let policy = z_policy();
    let four = history_of(&[10, 11, 9, 10]);
    assert_eq!(
        evaluate(Some(policy), &four, &sample(12 * UNIT), 2_000, &upper_only(Z_95)),
        EvaluationResult::InsufficientData
    );
    assert_eq!(
        build_baseline(&four, &policy, 2_000),
        BaselineOutcome::InsufficientData
    );
    assert_eq!(
        prepare(Some(policy), &four, 2_000),
        Preparation::InsufficientData
    );
    let five = history_of(&[10, 11, 9, 10, 10]);
    assert!(
        evaluate(Some(policy), &five, &sample(12 * UNIT), 2_000, &upper_only(Z_95)).is_checked()
    );
}

#[test]
fn empty_history_is_insufficient_even_without_minimum() {
    let policy = StatisticPolicy {
        min_sample_size: 0,
        ..z_policy()
    };
    let history: Vec<MetricSample> = Vec::new();
    assert_eq!(
        evaluate(Some(policy), &history, &sample(1), 0, &upper_only(Z_95)),
        EvaluationResult::InsufficientData
    );
    let one = history_of(&[3]);
    assert!(evaluate(Some(policy), &one, &sample(1), 0, &upper_only(Z_95)).is_checked());
}

#[test]
fn cap_keeps_the_most_recent() {
    let mut history = Vec::new();
    for i in 0..100i64 {
        history.push(MetricSample {
            id: i as u128,
            created: 10_000 - i,
            value: i,
        });
    }
    let policy = StatisticPolicy {
        max_sample_size: Some(10),
        ..z_policy()
    };
    let kept = select(&history, &policy, 10_000);
    assert_eq!(kept.len(), 10);
    assert_eq!(kept, history[..10].to_vec());
    match build_baseline(&history, &policy, 10_000) {
        BaselineOutcome::Ready(baseline) => {
            assert_eq!(baseline.count(), 10);
            assert_eq!(baseline.mean(), 4);
        }
        BaselineOutcome::InsufficientData => panic!("ten samples are enough"),
    }
}

#[test]
fn window_comes_before_the_cap() {
    let mut history = Vec::new();
    for i in 0..100i64 {
        history.push(MetricSample {
            id: i as u128,
            created: 10_000 - i * 10,
            value: i,
        });
    }
    // Only the samples of the last 35 seconds count: four of them.
    let policy = StatisticPolicy {
        min_sample_size: 1,
        max_sample_size: Some(10),
        window: Some(35),
        ..z_policy()
    };
    let kept = select(&history, &policy, 10_000);
    assert_eq!(kept, history[..4].to_vec());
    // The edge of the window belongs to it.
    let edge = StatisticPolicy {
        window: Some(30),
        ..policy
    };
    assert_eq!(select(&history, &edge, 10_000), history[..4].to_vec());
    let short = StatisticPolicy {
        window: Some(29),
        ..policy
    };
    assert_eq!(select(&history, &short, 10_000), history[..3].to_vec());
    // With the minimum at five, four samples inside the window are too few,
    // however many older ones there are.
    let strict = StatisticPolicy {
        min_sample_size: 5,
        ..policy
    };
    assert_eq!(
        build_baseline(&history, &strict, 10_000),
        BaselineOutcome::InsufficientData
    );
}

#[test]
fn cap_of_zero_selects_nothing() {
    let history = history_of(&[10, 11, 9, 10, 10]);
    let policy = StatisticPolicy {
        min_sample_size: 0,
        max_sample_size: Some(0),
        ..z_policy()
    };
    assert!(select(&history, &policy, 2_000).is_empty());
    assert_eq!(
        build_baseline(&history, &policy, 2_000),
        BaselineOutcome::InsufficientData
    );
}

#[test]
fn t_test_widens_the_limit() {
    let history = history_of(&[10, 11, 9, 10, 10]);
    let baseline = summarize(&history);
    assert_eq!(
        limit(&baseline, StatisticKind::T, BoundarySide::Upper, T_95_DF4),
        11_651_319
    );
    assert_eq!(
        limit(&baseline, StatisticKind::T, BoundarySide::Lower, T_95_DF4),
        10_000_000 - 1_651_319
    );
    assert_eq!(
        limit(&baseline, StatisticKind::Z, BoundarySide::Lower, Z_95),
        10_000_000 - 1_163_086
    );
}

#[test]
fn prediction_factor_narrows_with_count() {
    assert_eq!(prediction_factor_of(StatisticKind::Z, 1), 1_000_000);
    assert_eq!(prediction_factor_of(StatisticKind::Z, 77), 1_000_000);
    assert_eq!(prediction_factor_of(StatisticKind::T, 1), 1_414_213);
    assert_eq!(prediction_factor_of(StatisticKind::T, 2), 1_224_744);
    assert_eq!(prediction_factor_of(StatisticKind::T, 5), 1_095_445);
    assert_eq!(prediction_factor_of(StatisticKind::T, 100), 1_004_987);
    assert_eq!(prediction_factor_of(StatisticKind::T, 499_999), 1_000_001);
    assert_eq!(prediction_factor_of(StatisticKind::T, 500_000), 1_000_000);
    let mut last = prediction_factor_of(StatisticKind::T, 1);
    for count in 2..2_000 {
        let factor = prediction_factor_of(StatisticKind::T, count);
        assert!(factor <= last);
        assert!(factor >= 1_000_000);
        last = factor;
    }
    let deviation = Baseline::new(3, 0, 1_000).unwrap();
    let more = Baseline::new(30, 0, 1_000).unwrap();
    let few = limit(&deviation, StatisticKind::T, BoundarySide::Upper, 2_000_000);
    let many = limit(&more, StatisticKind::T, BoundarySide::Upper, 2_000_000);
    let z = limit(&more, StatisticKind::Z, BoundarySide::Upper, 2_000_000);
    assert_eq!(z, 2_000);
    assert!(few >= many && many >= z);
}

#[test]
fn negative_critical_value_crosses_the_mean() {
    let baseline = Baseline::new(5, 1_000, 100).unwrap();
    assert_eq!(
        limit(&baseline, StatisticKind::Z, BoundarySide::Upper, -1_500_000),
        850
    );
    assert_eq!(
        limit(&baseline, StatisticKind::Z, BoundarySide::Lower, -1_500_000),
        1_150
    );
    // Both sides fire for a sample between such limits.
    let bounds = Limits {
        lower: Some(1_150),
        upper: Some(850),
    };
    let violations = decide(1_000, &bounds);
    assert_eq!(
        violations,
        vec![
            Violation {
                side: BoundarySide::Lower,
                limit: 1_150,
                value: 1_000
            },
            Violation {
                side: BoundarySide::Upper,
                limit: 850,
                value: 1_000
            },
        ]
    );
}

#[test]
fn a_value_on_the_limit_breaks_nothing() {
    let bounds = Limits {
        lower: Some(10),
        upper: Some(20),
    };
    assert!(decide(10, &bounds).is_empty());
    assert!(decide(20, &bounds).is_empty());
    assert_eq!(decide(9, &bounds).len(), 1);
    assert_eq!(decide(21, &bounds).len(), 1);
    let none = Limits {
        lower: None,
        upper: None,
    };
    assert!(decide(i64::MIN, &none).is_empty());
    assert!(decide(i64::MAX, &none).is_empty());
}

#[test]
fn a_side_needs_boundary_and_critical_value() {
    let baseline = Baseline::new(5, 1_000, 100).unwrap();
    let policy = z_policy();
    let both = CriticalValues {
        lower: Some(Z_95),
        upper: Some(Z_95),
    };
    // The lower side is switched off in the policy.
    assert_eq!(
        limits(&baseline, &policy, &both),
        Limits {
            lower: None,
            upper: Some(1_164),
        }
    );
    // No quantile for the upper side.
    let missing = CriticalValues {
        lower: Some(Z_95),
        upper: None,
    };
    assert_eq!(
        limits(&baseline, &policy, &missing),
        Limits {
            lower: None,
            upper: None,
        }
    );
    let disabled = StatisticPolicy {
        upper_boundary: None,
        ..policy
    };
    let history = history_of(&[10, 11, 9, 10, 10]);
    assert_eq!(
        evaluate(Some(disabled), &history, &sample(i64::MAX), 2_000, &both),
        EvaluationResult::Checked(vec![])
    );
}

#[test]
fn two_steps_give_the_same_result() {
    let history = history_of(&[10, 11, 9, 10, 10]);
    let policy = StatisticPolicy {
        test: StatisticKind::T,
        ..z_policy()
    };
    let preparation = prepare(Some(policy), &history, 2_000);
    let request = quantile_request(&preparation).unwrap();
    assert_eq!(request.test, StatisticKind::T);
    assert_eq!(request.count, 5);
    assert_eq!(request.lower, None);
    assert_eq!(request.upper.map(|b| b.parts_per_million()), Some(950_000));
    let critical = upper_only(T_95_DF4);
    let stepwise = conclude(&preparation, &critical, &sample(12 * UNIT));
    let direct = evaluate(Some(policy), &history, &sample(12 * UNIT), 2_000, &critical);
    assert_eq!(stepwise, direct);
    assert_eq!(
        direct,
        EvaluationResult::Checked(vec![Violation {
            side: BoundarySide::Upper,
            limit: 11_651_319,
            value: 12 * UNIT,
        }])
    );
    assert_eq!(quantile_request(&Preparation::NoThreshold), None);
    assert_eq!(quantile_request(&Preparation::InsufficientData), None);
}

#[test]
fn evaluation_is_repeatable() {
    let history = history_of(&[10, 11, 9, 10, 10]);
    let first = evaluate(
        Some(z_policy()),
        &history,
        &sample(12 * UNIT),
        2_000,
        &upper_only(Z_95),
    );
    let second = evaluate(
        Some(z_policy()),
        &history,
        &sample(12 * UNIT),
        2_000,
        &upper_only(Z_95),
    );
    assert_eq!(first, second);
}

#[test]
fn boundaries_are_proper_probabilities() {
    assert!(Boundary::new(0).is_none());
    assert!(Boundary::new(1_000_000).is_none());
    assert!(Boundary::new(u32::MAX).is_none());
    assert_eq!(Boundary::new(1).unwrap().parts_per_million(), 1);
    assert_eq!(Boundary::new(999_999).unwrap().parts_per_million(), 999_999);
}

#[test]
fn baselines_are_validated() {
    assert!(Baseline::new(0, 0, 0).is_none());
    assert!(Baseline::new(1, 0, STD_DEV_LIMIT + 1).is_none());
    let baseline = Baseline::new(1, i64::MIN, STD_DEV_LIMIT).unwrap();
    assert_eq!(baseline.count(), 1);
    assert_eq!(baseline.mean(), i64::MIN);
    assert_eq!(baseline.std_dev(), STD_DEV_LIMIT);
    // The widest limit there is does not overflow.
    let bound = limit(&baseline, StatisticKind::T, BoundarySide::Lower, i64::MIN);
    assert!(bound > i64::MIN as i128);
}

#[test]
fn history_range_is_checked() {
    let mut history = history_of(&[1, 2, 3]);
    assert!(check_history(&history));
    history.push(MetricSample {
        id: 9,
        created: 0,
        value: VALUE_LIMIT + 1,
    });
    assert!(!check_history(&history));
    assert!(!history[3].is_in_range());
    assert!(history[0].is_in_range());
    let long = vec![
        MetricSample {
            id: 0,
            created: 0,
            value: 0
        };
        HISTORY_LIMIT + 1
    ];
    assert!(!check_history(&long));
}

#[test]
fn integer_square_roots() {
    assert_eq!(isqrt(0), 0);
    assert_eq!(isqrt(1), 1);
    assert_eq!(isqrt(3), 1);
    assert_eq!(isqrt(4), 2);
    assert_eq!(isqrt(24), 4);
    assert_eq!(isqrt(25), 5);
    assert_eq!(isqrt(500_000_000_000), 707_106);
    assert_eq!(isqrt(u128::MAX), u64::MAX as u128);
}

#[test]
fn floor_division() {
    assert_eq!(div_floor(7, 2), 3);
    assert_eq!(div_floor(-7, 2), -4);
    assert_eq!(div_floor(-8, 2), -4);
    assert_eq!(div_floor(0, 5), 0);
    assert_eq!(div_floor(-1, 1_000), -1);
}

#[test]
fn quantiles_are_asked_for_once_the_baseline_stands() {
    let history = history_of(&[10, 11, 9, 10, 10]);
    let policy = StatisticPolicy {
        test: StatisticKind::T,
        ..z_policy()
    };
    let result = evaluate_with(
        Some(policy),
        &history,
        &sample(12 * UNIT),
        2_000,
        |request: QuantileRequest| {
            assert_eq!(request.test, StatisticKind::T);
            assert_eq!(request.count, 5);
            assert!(request.lower.is_none());
            assert!(request.upper.is_some());
            upper_only(T_95_DF4)
        },
    );
    assert_eq!(
        result,
        EvaluationResult::Checked(vec![Violation {
            side: BoundarySide::Upper,
            limit: 11_651_319,
            value: 12 * UNIT,
        }])
    );
    // Where no check runs, nobody is asked.
    let unasked = |_: QuantileRequest| -> CriticalValues { panic!("no quantiles are wanted") };
    assert_eq!(
        evaluate_with(None, &history, &sample(12 * UNIT), 2_000, unasked),
        EvaluationResult::NoThreshold
    );
    let short = history_of(&[10, 11]);
    assert_eq!(
        evaluate_with(Some(policy), &short, &sample(12 * UNIT), 2_000, unasked),
        EvaluationResult::InsufficientData
    );
}
