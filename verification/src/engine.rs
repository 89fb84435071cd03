//! Evaluation of a new sample against the active policy of its scope.
//!
//! The critical values of the policy come from outside: they are quantiles
//! of the normal and of Student's t distribution. For the t-test they
//! depend on the baseline, so an evaluation has two steps: `prepare` builds
//! the baseline and says which quantiles are wanted, and `conclude` judges
//! the sample once they are at hand. `evaluate` does both for a caller who
//! has the critical values beforehand.

use vstd::prelude::*;
use crate::alert::decide;
use crate::alert::side_violations;
use crate::alerts::lemma_record_idempotent;
use crate::alerts::with_violations;
use crate::alerts::Alert;
use crate::baseline::eligible;
use crate::baseline::lemma_min_sample_size_decides;
use crate::baseline::BaselineStats;
use crate::boundary::lemma_distance_bound;
use crate::boundary::lemma_limit_without_deviation;
use crate::policy::BoundarySide;
use crate::alert::violations_of;
use crate::alert::Violation;
use crate::baseline::build_baseline;
use crate::baseline::selected;
use crate::baseline::statistics;
use crate::baseline::sufficient;
use crate::baseline::Baseline;
use crate::baseline::BaselineOutcome;
use crate::boundary::limits;
use crate::boundary::limits_of;
use crate::boundary::CriticalValues;
use crate::policy::Boundary;
use crate::policy::StatisticKind;
use crate::policy::StatisticPolicy;
use crate::sample::check_history;
use crate::sample::history_in_range;
use crate::sample::MetricSample;

verus! {

/// How an evaluation ended.
#[derive(Debug, Clone, PartialEq, Eq)]
pub enum EvaluationResult {
    /// The scope has no active policy.
    NoThreshold,
    /// The history holds too few samples for a verdict.
    InsufficientData,
    /// The check ran; these are the violations, possibly none.
    Checked(Vec<Violation>),
}

/// An evaluation result with its violations as a sequence.
pub enum Evaluation {
    NoThreshold,
    InsufficientData,
    Checked(Seq<Violation>),
}

impl View for EvaluationResult {
    type V = Evaluation;

    open spec fn view(&self) -> Evaluation {
        match self {
            EvaluationResult::NoThreshold => Evaluation::NoThreshold,
            EvaluationResult::InsufficientData => Evaluation::InsufficientData,
            EvaluationResult::Checked(violations) => Evaluation::Checked(violations@),
        }
    }
}

impl EvaluationResult {
    /// Tells whether the check ran.
    pub fn is_checked(&self) -> (ran: bool)
        ensures
            ran == (self@ is Checked),
    {
        match self {
            EvaluationResult::Checked(_) => true,
            _ => false,
        }
    }

    /// The number of violations; zero where the check did not run.
    pub fn violation_count(&self) -> (count: usize)
        ensures
            count == match self@ {
                Evaluation::Checked(violations) => violations.len(),
                _ => 0,
            },
    {
        match self {
            EvaluationResult::Checked(violations) => violations.len(),
            _ => 0,
        }
    }
}

/// The quantiles that an evaluation wants from the distributions: for each
/// side with a boundary, the quantile of that probability under the test,
/// with `count - 1` degrees of freedom for the t-test.
#[derive(Debug, Clone, Copy, PartialEq, Eq)]
pub struct QuantileRequest {
    pub test: StatisticKind,
    pub count: u32,
    pub lower: Option<Boundary>,
    pub upper: Option<Boundary>,
}

/// The first step of an evaluation.
#[derive(Debug, Clone, Copy, PartialEq, Eq)]
pub enum Preparation {
    /// The scope has no active policy.
    NoThreshold,
    /// The history holds too few samples for a verdict.
    InsufficientData,
    /// The baseline stands and the sample can be judged by the policy.
    Ready { baseline: Baseline, policy: StatisticPolicy },
}

/// The preparation that a policy and a history call for.
pub open spec fn prepared(
    preparation: Preparation,
    policy: Option<StatisticPolicy>,
    history: Seq<MetricSample>,
    now: i64,
) -> bool {
    match policy {
        None => preparation is NoThreshold,
        Some(p) => {
            let samples = selected(history, p, now);
            if sufficient(samples, p) {
                &&& preparation matches Preparation::Ready { baseline, policy: kept }
                &&& kept == p
                &&& baseline@ == statistics(samples)
            } else {
                preparation is InsufficientData
            }
        },
    }
}

/// The result that the inputs of an evaluation call for.
pub open spec fn evaluation(
    policy: Option<StatisticPolicy>,
    history: Seq<MetricSample>,
    sample: MetricSample,
    now: i64,
    critical: CriticalValues,
) -> Evaluation {
    match policy {
        None => Evaluation::NoThreshold,
        Some(p) => {
            let samples = selected(history, p, now);
            if sufficient(samples, p) {
                Evaluation::Checked(
                    violations_of(sample.value, limits_of(p, statistics(samples), critical)),
                )
            } else {
                Evaluation::InsufficientData
            }
        },
    }
}

/// The result that a preparation and the critical values call for.
pub open spec fn conclusion(preparation: Preparation, critical: CriticalValues, sample: MetricSample)
    -> Evaluation {
    match preparation {
        Preparation::NoThreshold => Evaluation::NoThreshold,
        Preparation::InsufficientData => Evaluation::InsufficientData,
        Preparation::Ready { baseline, policy } => Evaluation::Checked(
            violations_of(sample.value, limits_of(policy, baseline@, critical)),
        ),
    }
}

/// Builds the baseline for the active policy of a scope, if it has one,
/// from the history of the scope, which leaves out the sample to be judged.
pub fn prepare(policy: Option<StatisticPolicy>, history: &Vec<MetricSample>, now: i64) -> (preparation:
    Preparation)
    requires
        history_in_range(history@),
    ensures
        prepared(preparation, policy, history@, now),
{
    match policy {
        None => Preparation::NoThreshold,
        Some(p) => match build_baseline(history, &p, now) {
            BaselineOutcome::InsufficientData => Preparation::InsufficientData,
            BaselineOutcome::Ready(baseline) => Preparation::Ready { baseline, policy: p },
        },
    }
}

/// The quantiles wanted to conclude a preparation; none where no check
/// will run.
pub fn quantile_request(preparation: &Preparation) -> (request: Option<QuantileRequest>)
    ensures
        request is Some <==> preparation is Ready,
        preparation matches Preparation::Ready { baseline, policy } ==> request == Some(
            QuantileRequest {
                test: policy.test,
                count: baseline@.count as u32,
                lower: policy.lower_boundary,
                upper: policy.upper_boundary,
            },
        ),
{
    match preparation {
        Preparation::Ready { baseline, policy } => Some(
            QuantileRequest {
                test: policy.test,
                count: baseline.count(),
                lower: policy.lower_boundary,
                upper: policy.upper_boundary,
            },
        ),
        _ => None,
    }
}

/// Judges the sample by a preparation and the critical values.
pub fn conclude(preparation: &Preparation, critical: &CriticalValues, sample: &MetricSample) -> (result:
    EvaluationResult)
    ensures
        result@ == conclusion(*preparation, *critical, *sample),
{
    match preparation {
        Preparation::NoThreshold => EvaluationResult::NoThreshold,
        Preparation::InsufficientData => EvaluationResult::InsufficientData,
        Preparation::Ready { baseline, policy } => {
            let bounds = limits(baseline, policy, critical);
            EvaluationResult::Checked(decide(sample.value, &bounds))
        },
    }
}

/// Evaluates a sample against the active policy of its scope, with the
/// critical values of that policy given beforehand.
pub fn evaluate(
    policy: Option<StatisticPolicy>,
    history: &Vec<MetricSample>,
    sample: &MetricSample,
    now: i64,
    critical: &CriticalValues,
) -> (result: EvaluationResult)
    requires
        history_in_range(history@),
    ensures
        result@ == evaluation(policy, history@, *sample, now, *critical),
{
    let preparation = prepare(policy, history, now);
    conclude(&preparation, critical, sample)
}

/// The quantiles that the evaluation of a sample asks for; none where no
/// check runs.
pub open spec fn wanted_quantiles(
    policy: Option<StatisticPolicy>,
    history: Seq<MetricSample>,
    now: i64,
) -> Option<QuantileRequest> {
    match policy {
        None => None,
        Some(p) => {
            let samples = selected(history, p, now);
            if sufficient(samples, p) {
                Some(
                    QuantileRequest {
                        test: p.test,
                        count: samples.len() as u32,
                        lower: p.lower_boundary,
                        upper: p.upper_boundary,
                    },
                )
            } else {
                None
            }
        },
    }
}

/// Evaluates a sample in one call. The critical values come from
/// `quantiles`, which is asked once, when the baseline stands, and not at
/// all where no check runs. The result is that of `evaluate` with the
/// critical values that `quantiles` gave.
pub fn evaluate_with<F: Fn(QuantileRequest) -> CriticalValues>(
    policy: Option<StatisticPolicy>,
    history: &Vec<MetricSample>,
    sample: &MetricSample,
    now: i64,
    quantiles: F,
) -> (result: EvaluationResult)
    requires
        history_in_range(history@),
        forall|request: QuantileRequest| quantiles.requires((request,)),
    ensures
        match wanted_quantiles(policy, history@, now) {
            None => result@ == evaluation(
                policy,
                history@,
                *sample,
                now,
                CriticalValues { lower: None, upper: None },
            ) && !(result@ is Checked),
            Some(request) => exists|critical: CriticalValues|
                quantiles.ensures((request,), critical) && result@ == evaluation(
                    policy,
                    history@,
                    *sample,
                    now,
                    critical,
                ),
        },
{
    let preparation = prepare(policy, history, now);
    match quantile_request(&preparation) {
        Some(request) => {
            let critical = quantiles(request);
            let result = conclude(&preparation, &critical, sample);
            proof {
                assert(wanted_quantiles(policy, history@, now) == Some(request));
                assert(quantiles.ensures((request,), critical));
                assert(result@ == evaluation(policy, history@, *sample, now, critical));
            }
            result
        },
        None => conclude(&preparation, &CriticalValues { lower: None, upper: None }, sample),
    }
}

/// Builds the baseline as `prepare` does, for any history: `None` where the
/// history is out of the range of the statistics.
pub fn try_prepare(policy: Option<StatisticPolicy>, history: &Vec<MetricSample>, now: i64) -> (
preparation: Option<Preparation>)
    ensures
        preparation is Some <==> history_in_range(history@),
        preparation matches Some(p) ==> prepared(p, policy, history@, now),
{
    if check_history(history) {
        Some(prepare(policy, history, now))
    } else {
        None
    }
}

/// Evaluates as `evaluate` does, for any history: `None` where the history
/// is out of the range of the statistics.
pub fn try_evaluate(
    policy: Option<StatisticPolicy>,
    history: &Vec<MetricSample>,
    sample: &MetricSample,
    now: i64,
    critical: &CriticalValues,
) -> (result: Option<EvaluationResult>)
    ensures
        result is Some <==> history_in_range(history@),
        result matches Some(r) ==> r@ == evaluation(policy, history@, *sample, now, *critical),
{
    if check_history(history) {
        Some(evaluate(policy, history, sample, now, critical))
    } else {
        None
    }
}

/// Preparing and concluding is evaluating.
pub proof fn lemma_conclusion_is_evaluation(
    preparation: Preparation,
    policy: Option<StatisticPolicy>,
    history: Seq<MetricSample>,
    sample: MetricSample,
    now: i64,
    critical: CriticalValues,
)
    requires
        prepared(preparation, policy, history, now),
    ensures
        conclusion(preparation, critical, sample) == evaluation(
            policy,
            history,
            sample,
            now,
            critical,
        ),
{
}

/// Where the history does not vary, each limit that there is lies on the
/// mean: a sample at the mean breaks nothing, a sample below the mean
/// breaks the lower limit, and a sample above the mean breaks the upper
/// limit.
pub proof fn lemma_verdict_without_deviation(
    policy: StatisticPolicy,
    stats: BaselineStats,
    critical: CriticalValues,
    value: i64,
)
    requires
        Baseline::valid_stats(stats),
        stats.std_dev == 0,
    ensures
        limits_of(policy, stats, critical).lower matches Some(limit) ==> limit == stats.mean,
        limits_of(policy, stats, critical).upper matches Some(limit) ==> limit == stats.mean,
        value == stats.mean ==> violations_of(value, limits_of(policy, stats, critical)).len() == 0,
        value < stats.mean && limits_of(policy, stats, critical).lower is Some ==> side_violations(
            BoundarySide::Lower,
            value,
            limits_of(policy, stats, critical).lower,
        ) == seq![Violation { side: BoundarySide::Lower, limit: stats.mean as i128, value }],
        value > stats.mean && limits_of(policy, stats, critical).upper is Some ==> side_violations(
            BoundarySide::Upper,
            value,
            limits_of(policy, stats, critical).upper,
        ) == seq![Violation { side: BoundarySide::Upper, limit: stats.mean as i128, value }],
{
    if critical.lower is Some {
        lemma_limit_without_deviation(
            policy.test,
            stats,
            BoundarySide::Lower,
            critical.lower->0 as int,
        );
    }
    if critical.upper is Some {
        lemma_limit_without_deviation(
            policy.test,
            stats,
            BoundarySide::Upper,
            critical.upper->0 as int,
        );
    }
}

/// With critical values that are not negative the limits have the mean
/// between them, and no sample breaks both: the lower limit is at most the
/// mean, the upper limit at least, and there is at most one violation.
pub proof fn lemma_limits_around_mean(
    policy: StatisticPolicy,
    stats: BaselineStats,
    critical: CriticalValues,
    value: i64,
)
    requires
        Baseline::valid_stats(stats),
        critical.lower matches Some(c) ==> c >= 0,
        critical.upper matches Some(c) ==> c >= 0,
    ensures
        limits_of(policy, stats, critical).lower matches Some(limit) ==> limit <= stats.mean,
        limits_of(policy, stats, critical).upper matches Some(limit) ==> limit >= stats.mean,
        violations_of(value, limits_of(policy, stats, critical)).len() <= 1,
{
    if critical.lower is Some {
        lemma_distance_bound(policy.test, stats, critical.lower->0 as int);
    }
    if critical.upper is Some {
        lemma_distance_bound(policy.test, stats, critical.upper->0 as int);
    }
}

/// An evaluation depends on nothing but its inputs: two results for the
/// same policy, history, sample, time and critical values hold the same
/// violations.
pub proof fn lemma_evaluation_repeatable(
    first: EvaluationResult,
    second: EvaluationResult,
    policy: Option<StatisticPolicy>,
    history: Seq<MetricSample>,
    sample: MetricSample,
    now: i64,
    critical: CriticalValues,
)
    requires
        first@ == evaluation(policy, history, sample, now, critical),
        second@ == evaluation(policy, history, sample, now, critical),
    ensures
        first@ == second@,
{
}

/// Evaluating a sample twice against the same history raises no alert
/// twice: recording the violations of the second result after those of the
/// first leaves the record as it was after the first.
pub proof fn lemma_evaluation_idempotent(
    first: EvaluationResult,
    second: EvaluationResult,
    policy: Option<StatisticPolicy>,
    history: Seq<MetricSample>,
    sample: MetricSample,
    now: i64,
    critical: CriticalValues,
    alerts: Seq<Alert>,
    version: u64,
)
    requires
        first@ == evaluation(policy, history, sample, now, critical),
        second@ == evaluation(policy, history, sample, now, critical),
    ensures
        first@ matches Evaluation::Checked(violations) ==> {
            &&& second@ matches Evaluation::Checked(again)
            &&& again == violations
            &&& with_violations(
                with_violations(alerts, sample.id, version, violations),
                sample.id,
                version,
                again,
            ) == with_violations(alerts, sample.id, version, violations)
        },
{
    if let Evaluation::Checked(violations) = first@ {
        lemma_record_idempotent(alerts, sample.id, version, violations);
    }
}

/// The minimum sample size decides between a verdict and none: with one
/// sample fewer inside the window than the policy asks for, the result is
/// that the data do not suffice; with exactly as many, at least one, and
/// no cap below that number, the check runs.
pub proof fn lemma_min_sample_size_verdict(
    policy: StatisticPolicy,
    history: Seq<MetricSample>,
    sample: MetricSample,
    now: i64,
    critical: CriticalValues,
)
    ensures
        eligible(history, policy.window, now).len() + 1 == policy.min_sample_size ==> evaluation(
            Some(policy),
            history,
            sample,
            now,
            critical,
        ) is InsufficientData,
        ({
            &&& eligible(history, policy.window, now).len() == policy.min_sample_size
            &&& policy.min_sample_size >= 1
            &&& (policy.max_sample_size matches Some(max) ==> max >= policy.min_sample_size)
        }) ==> evaluation(Some(policy), history, sample, now, critical) is Checked,
{
    lemma_min_sample_size_decides(history, policy, now);
}

} // verus!
