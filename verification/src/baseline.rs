//! The baseline of a scope: which historical samples count, and their
//! summary statistics.

use vstd::prelude::*;
use vstd::arithmetic::div_mod::lemma_div_is_ordered;
use vstd::arithmetic::div_mod::lemma_div_multiples_vanish;
use vstd::arithmetic::div_mod::lemma_div_multiples_vanish_quotient;
use vstd::arithmetic::div_mod::lemma_fundamental_div_mod;
use crate::numeric::div_floor;
use crate::numeric::floor_sqrt;
use crate::numeric::is_floor_sqrt;
use crate::numeric::isqrt;
use crate::numeric::lemma_floor_sqrt;
use crate::numeric::lemma_floor_sqrt_of_square;
use crate::policy::StatisticPolicy;
use crate::sample::history_in_range;
use crate::sample::MetricSample;
use crate::sample::HISTORY_LIMIT;
use crate::sample::VALUE_LIMIT;

verus! {

/// The largest standard deviation that a baseline holds.
pub const STD_DEV_LIMIT: u64 = 0x200_0000_0000;

/// A sample is inside the window when it is no older than `now - window`.
pub open spec fn in_window(sample: MetricSample, window: Option<u32>, now: i64) -> bool {
    match window {
        None => true,
        Some(w) => sample.created >= now - w,
    }
}

/// The test that the window applies to each sample.
pub open spec fn window_test(window: Option<u32>, now: i64) -> spec_fn(MetricSample) -> bool {
    |sample: MetricSample| in_window(sample, window, now)
}

/// The samples of the history that lie inside the window, in their order.
pub open spec fn eligible(history: Seq<MetricSample>, window: Option<u32>, now: i64) -> Seq<
    MetricSample,
> {
    history.filter(window_test(window, now))
}

/// The first `max` of the samples, or all of them where there is no cap or
/// there are no more than `max`.
pub open spec fn capped(samples: Seq<MetricSample>, max: Option<u32>) -> Seq<MetricSample> {
    match max {
        Some(m) => if m < samples.len() {
            samples.take(m as int)
        } else {
            samples
        },
        None => samples,
    }
}

/// The samples that a policy judges by: the window is applied first, the
/// cap on their number second.
pub open spec fn selected(history: Seq<MetricSample>, policy: StatisticPolicy, now: i64) -> Seq<
    MetricSample,
> {
    capped(eligible(history, policy.window, now), policy.max_sample_size)
}

/// The sum of the values.
pub open spec fn sum_values(samples: Seq<MetricSample>) -> int
    decreases samples.len(),
{
    if samples.len() == 0 {
        0
    } else {
        sum_values(samples.drop_last()) + samples.last().value
    }
}

/// The sum of the squares of the values.
pub open spec fn sum_squares(samples: Seq<MetricSample>) -> int
    decreases samples.len(),
{
    if samples.len() == 0 {
        0
    } else {
        sum_squares(samples.drop_last()) + samples.last().value * samples.last().value
    }
}

/// The sum over the samples of `(scale * value - offset)` squared. With the
/// number of samples for `scale` and their sum for `offset`, this is the
/// sum of the squared deviations from the mean, times the square of the
/// number of samples.
pub open spec fn scaled_squared_deviations(
    samples: Seq<MetricSample>,
    scale: int,
    offset: int,
) -> int
    decreases samples.len(),
{
    if samples.len() == 0 {
        0
    } else {
        let d = scale * samples.last().value - offset;
        scaled_squared_deviations(samples.drop_last(), scale, offset) + d * d
    }
}

/// The arithmetic mean, rounded toward negative infinity.
pub open spec fn mean_of(samples: Seq<MetricSample>) -> int {
    sum_values(samples) / (samples.len() as int)
}

/// The sample variance with Bessel's correction, rounded down; zero for
/// fewer than two samples.
pub open spec fn variance_of(samples: Seq<MetricSample>) -> int {
    let n = samples.len() as int;
    if n <= 1 {
        0
    } else {
        scaled_squared_deviations(samples, n, sum_values(samples)) / (n * (n * (n - 1)))
    }
}

/// The sample standard deviation, rounded down.
pub open spec fn std_dev_of(samples: Seq<MetricSample>) -> nat {
    floor_sqrt(variance_of(samples) as nat)
}

/// What a baseline says of the samples it was built from.
pub struct BaselineStats {
    pub count: nat,
    pub mean: int,
    pub std_dev: nat,
}

/// The summary statistics of `samples`.
pub open spec fn statistics(samples: Seq<MetricSample>) -> BaselineStats {
    BaselineStats {
        count: samples.len(),
        mean: mean_of(samples),
        std_dev: std_dev_of(samples),
    }
}

/// Summary statistics of the historical samples of a scope. A baseline
/// counts at least one sample and its standard deviation is at most
/// `STD_DEV_LIMIT`.
#[derive(Debug, Clone, Copy, PartialEq, Eq)]
pub struct Baseline {
    count: u32,
    mean: i64,
    std_dev: u64,
}

impl View for Baseline {
    type V = BaselineStats;

    closed spec fn view(&self) -> BaselineStats {
        BaselineStats {
            count: self.count as nat,
            mean: self.mean as int,
            std_dev: self.std_dev as nat,
        }
    }
}

impl Baseline {
    #[verifier::type_invariant]
    spec fn well_formed(self) -> bool {
        Self::valid_stats(self@)
    }

    /// The statistics that a baseline can hold.
    pub open spec fn valid_stats(stats: BaselineStats) -> bool {
        &&& 1 <= stats.count <= u32::MAX
        &&& i64::MIN <= stats.mean <= i64::MAX
        &&& stats.std_dev <= STD_DEV_LIMIT
    }

    /// Makes a baseline of the given statistics, unless it would count no
    /// sample or its standard deviation is over the limit.
    pub fn new(count: u32, mean: i64, std_dev: u64) -> (baseline: Option<Baseline>)
        ensures
            baseline is Some <==> count >= 1 && std_dev <= STD_DEV_LIMIT,
            baseline matches Some(b) ==> b@ == (BaselineStats {
                count: count as nat,
                mean: mean as int,
                std_dev: std_dev as nat,
            }),
    {
        if count >= 1 && std_dev <= STD_DEV_LIMIT {
            Some(Baseline { count, mean, std_dev })
        } else {
            None
        }
    }

    /// The number of samples.
    pub fn count(&self) -> (count: u32)
        ensures
            count == self@.count,
            count >= 1,
    {
        proof {
            use_type_invariant(self);
        }
        self.count
    }

    /// The mean of the samples.
    pub fn mean(&self) -> (mean: i64)
        ensures
            mean == self@.mean,
    {
        self.mean
    }

    /// The standard deviation of the samples.
    pub fn std_dev(&self) -> (std_dev: u64)
        ensures
            std_dev == self@.std_dev,
            std_dev <= STD_DEV_LIMIT,
    {
        proof {
            use_type_invariant(self);
        }
        self.std_dev
    }
}

/// What the baseline builder found.
#[derive(Debug, Clone, Copy, PartialEq, Eq)]
pub enum BaselineOutcome {
    /// Too few samples were selected for a verdict.
    InsufficientData,
    /// The statistics of the selected samples.
    Ready(Baseline),
}

/// Whether the samples suffice to judge by: at least one sample, and no
/// fewer than the minimum sample size of the policy.
pub open spec fn sufficient(samples: Seq<MetricSample>, policy: StatisticPolicy) -> bool {
    samples.len() >= 1 && samples.len() >= policy.min_sample_size
}

/// The outcome that the selected samples call for: their statistics where
/// they are enough, and otherwise the report that they are not.
pub open spec fn outcome_for(
    outcome: BaselineOutcome,
    samples: Seq<MetricSample>,
    policy: StatisticPolicy,
) -> bool {
    match outcome {
        BaselineOutcome::InsufficientData => !sufficient(samples, policy),
        BaselineOutcome::Ready(baseline) => sufficient(samples, policy) && baseline@ == statistics(
            samples,
        ),
    }
}

/// Two baselines with the same statistics are the same baseline.
pub proof fn lemma_baseline_by_statistics(a: Baseline, b: Baseline)
    requires
        a@ == b@,
    ensures
        a == b,
{
}

/// Filtering a sequence that ends in `x` filters what comes before, and
/// keeps `x` if it passes.
proof fn lemma_filter_push<A>(s: Seq<A>, x: A, pred: spec_fn(A) -> bool)
    ensures
        s.push(x).filter(pred) == if pred(x) {
            s.filter(pred).push(x)
        } else {
            s.filter(pred)
        },
{
    reveal(Seq::filter);
    assert(s.push(x).drop_last() =~= s);
}

/// Tells whether a sample lies inside the window.
pub fn within_window(sample: &MetricSample, window: Option<u32>, now: i64) -> (inside: bool)
    ensures
        inside == in_window(*sample, window, now),
{
    match window {
        None => true,
        Some(w) => sample.created as i128 >= now as i128 - w as i128,
    }
}

/// Selects the samples that the policy judges by: those inside the window,
/// and of these no more than the cap, from the front of the history.
pub fn select(history: &Vec<MetricSample>, policy: &StatisticPolicy, now: i64) -> (kept: Vec<
    MetricSample,
>)
    ensures
        kept@ == selected(history@, *policy, now),
{
    let n: usize = history.len();
    let limit: usize = match policy.max_sample_size {
        Some(m) => if (m as usize) < n {
            m as usize
        } else {
            n
        },
        None => n,
    };
    let ghost pred = window_test(policy.window, now);
    let mut kept: Vec<MetricSample> = Vec::new();
    let mut i: usize = 0;
    proof {
        reveal(Seq::filter);
        assert(history@.take(0) =~= Seq::<MetricSample>::empty());
    }
    while i < n && kept.len() < limit
        invariant
            n == history.len(),
            i <= n,
            pred == window_test(policy.window, now),
            kept@ == history@.take(i as int).filter(pred),
            kept.len() <= limit,
        decreases n - i,
    {
        let sample: MetricSample = history[i];
        proof {
            assert(history@.take(i + 1) =~= history@.take(i as int).push(sample));
            lemma_filter_push(history@.take(i as int), sample, pred);
        }
        if within_window(&sample, policy.window, now) {
            kept.push(sample);
        }
        i += 1;
    }
    proof {
        let front = history@.take(i as int);
        let back = history@.skip(i as int);
        let all = history@.filter(pred);
        assert(history@ =~= front + back);
        Seq::filter_distributes_over_add(front, back, pred);
        front.lemma_filter_len(pred);
        if i == n {
            reveal(Seq::filter);
            assert(back =~= Seq::<MetricSample>::empty());
            assert(all =~= kept@);
        } else {
            assert(kept.len() == limit);
            assert(limit < n);
            let m = policy.max_sample_size->0;
            assert(limit == m);
            if m < all.len() {
                assert(all.take(m as int) =~= kept@);
            } else {
                assert(all =~= kept@);
            }
        }
    }
    kept
}

/// Selecting keeps samples of the history only, so what is selected from a
/// history in range is in range.
pub proof fn lemma_selected_in_range(history: Seq<MetricSample>, policy: StatisticPolicy, now: i64)
    requires
        history_in_range(history),
    ensures
        history_in_range(selected(history, policy, now)),
{
    let pred = window_test(policy.window, now);
    let all = history.filter(pred);
    history.lemma_filter_len(pred);
    assert forall|i: int| 0 <= i < all.len() implies (#[trigger] all[i]).in_range() by {
        assert(all.contains(all[i]));
        lemma_filter_source(history, pred, all[i]);
    }
}

/// Whatever a filter keeps was in the sequence.
proof fn lemma_filter_source<A>(s: Seq<A>, pred: spec_fn(A) -> bool, x: A)
    requires
        s.filter(pred).contains(x),
    ensures
        s.contains(x),
    decreases s.len(),
{
    reveal(Seq::filter);
    if s.len() > 0 {
        let front = s.drop_last();
        if front.filter(pred).contains(x) {
            lemma_filter_source(front, pred, x);
            let j = choose|j: int| 0 <= j < front.len() && front[j] == x;
            assert(s[j] == x);
        } else {
            let kept = s.filter(pred);
            let k = choose|k: int| 0 <= k < kept.len() && kept[k] == x;
            if k < front.filter(pred).len() {
                assert(front.filter(pred)[k] == x);
            }
            assert(s[s.len() - 1] == x);
        }
    }
}

/// The scaled squared deviations written out by the binomial formula.
proof fn lemma_scaled_squared_deviations(samples: Seq<MetricSample>, scale: int, offset: int)
    ensures
        scaled_squared_deviations(samples, scale, offset) == scale * scale * sum_squares(samples)
            - 2 * scale * offset * sum_values(samples) + samples.len() * (offset * offset),
    decreases samples.len(),
{
    if samples.len() > 0 {
        let front = samples.drop_last();
        let x = samples.last().value as int;
        lemma_scaled_squared_deviations(front, scale, offset);
        let q = sum_squares(front);
        let t = sum_values(front);
        let k = front.len() as int;
        assert((scale * scale * q - 2 * scale * offset * t + k * (offset * offset)) + (scale * x
            - offset) * (scale * x - offset) == scale * scale * (q + x * x) - 2 * scale * offset * (
        t + x) + (k + 1) * (offset * offset)) by (nonlinear_arith);
    }
}

/// The squared deviations from the mean by the sum and the sum of squares
/// of `n` samples: scaled by the square of `n`, they are `n` times
/// `n * sum of squares - sum * sum`. They are not negative.
pub proof fn lemma_deviations_by_sums(samples: Seq<MetricSample>)
    ensures
        scaled_squared_deviations(samples, samples.len() as int, sum_values(samples))
            == samples.len() * (samples.len() * sum_squares(samples) - sum_values(samples)
            * sum_values(samples)),
        scaled_squared_deviations(samples, samples.len() as int, sum_values(samples)) >= 0,
{
    let n = samples.len() as int;
    let t = sum_values(samples);
    let q = sum_squares(samples);
    lemma_scaled_squared_deviations(samples, n, t);
    assert(n * n * q - 2 * n * t * t + n * (t * t) == n * (n * q - t * t)) by (nonlinear_arith);
    lemma_scaled_squared_deviations_nonnegative(samples, n, t);
}

/// A sum of squares is not negative.
proof fn lemma_scaled_squared_deviations_nonnegative(
    samples: Seq<MetricSample>,
    scale: int,
    offset: int,
)
    ensures
        scaled_squared_deviations(samples, scale, offset) >= 0,
    decreases samples.len(),
{
    if samples.len() > 0 {
        lemma_scaled_squared_deviations_nonnegative(samples.drop_last(), scale, offset);
        let d = scale * samples.last().value - offset;
        assert(d * d >= 0) by (nonlinear_arith);
    }
}

/// The mean is rounded down: it is the greatest whole number that, taken as
/// often as there are samples, does not exceed their sum.
pub proof fn lemma_mean_rounds_down(samples: Seq<MetricSample>)
    requires
        samples.len() >= 1,
    ensures
        samples.len() * mean_of(samples) <= sum_values(samples) < samples.len() * (mean_of(samples)
            + 1),
{
    let n = samples.len() as int;
    let total = sum_values(samples);
    lemma_fundamental_div_mod(total, n);
    vstd::arithmetic::div_mod::lemma_mod_bound(total, n);
    assert(n * (total / n + 1) == n * (total / n) + n) by (nonlinear_arith);
}

/// The standard deviation is rounded down: it is the greatest whole number
/// whose square, times `n - 1`, does not exceed the sum of the squared
/// deviations from the mean, where `n` is the number of samples. Both
/// sides of the comparison are scaled by the square of `n`.
pub proof fn lemma_std_dev_rounds_down(samples: Seq<MetricSample>)
    requires
        samples.len() >= 2,
    ensures
        ({
            let n = samples.len() as int;
            let s = std_dev_of(samples) as int;
            let deviations = scaled_squared_deviations(samples, n, sum_values(samples));
            s * s * (n * (n * (n - 1))) <= deviations < (s + 1) * (s + 1) * (n * (n * (n - 1)))
        }),
{
    let n = samples.len() as int;
    let s = std_dev_of(samples) as int;
    let deviations = scaled_squared_deviations(samples, n, sum_values(samples));
    let scale = n * (n * (n - 1));
    lemma_deviations_by_sums(samples);
    assert(scale >= 2) by (nonlinear_arith)
        requires
            n >= 2,
            scale == n * (n * (n - 1)),
    ;
    let variance = deviations / scale;
    lemma_fundamental_div_mod(deviations, scale);
    vstd::arithmetic::div_mod::lemma_mod_bound(deviations, scale);
    vstd::arithmetic::div_mod::lemma_div_pos_is_pos(deviations, scale);
    lemma_floor_sqrt(variance as nat);
    assert(s * s * scale <= deviations < (s + 1) * (s + 1) * scale) by (nonlinear_arith)
        requires
            s * s <= variance < (s + 1) * (s + 1),
            deviations == scale * variance + deviations % scale,
            0 <= deviations % scale < scale,
    ;
}

/// Computes the statistics of the samples: their number, their mean and
/// their standard deviation, which is zero for a single sample.
pub fn summarize(samples: &Vec<MetricSample>) -> (baseline: Baseline)
    requires
        samples.len() >= 1,
        history_in_range(samples@),
    ensures
        baseline@ == statistics(samples@),
{
    let n: usize = samples.len();
    let mut total: i128 = 0;
    let mut squares: u128 = 0;
    let mut i: usize = 0;
    while i < n
        invariant
            n == samples.len(),
            n <= HISTORY_LIMIT,
            i <= n,
            history_in_range(samples@),
            total == sum_values(samples@.take(i as int)),
            squares == sum_squares(samples@.take(i as int)),
            -i * VALUE_LIMIT <= total <= i * VALUE_LIMIT,
            squares <= i * 0x1_0000_0000_0000_0000_0000,
        decreases n - i,
    {
        let v: i128 = samples[i].value as i128;
        proof {
            assert(samples@[i as int].in_range());
            assert(samples@.take(i + 1).drop_last() =~= samples@.take(i as int));
            assert(0 <= v * v <= 0x1_0000_0000_0000_0000_0000) by (nonlinear_arith)
                requires
                    -0x100_0000_0000 <= v <= 0x100_0000_0000,
            ;
        }
        let square: u128 = (v * v) as u128;
        total = total + v;
        squares = squares + square;
        i += 1;
    }
    assert(samples@.take(n as int) =~= samples@);
    let count: u64 = n as u64;
    let mean: i128 = div_floor(total, count);
    proof {
        let limit = VALUE_LIMIT as int;
        lemma_div_is_ordered(total as int, n * limit, n as int);
        lemma_div_is_ordered(n * (-limit), total as int, n as int);
        lemma_div_multiples_vanish(limit, n as int);
        lemma_div_multiples_vanish(-limit, n as int);
    }
    let mut std_dev: u64 = 0;
    if n >= 2 {
        let wide: u128 = n as u128;
        proof {
            lemma_deviations_by_sums(samples@);
            assert(0 <= total * total <= 0x1_0000_0000_0000_0000_0000_0000_0000_00) by (nonlinear_arith)
                requires
                    -0x1000_0000_0000_0000 <= total <= 0x1000_0000_0000_0000,
            ;
            assert(wide * squares <= 0x1_0000_0000_0000_0000_0000_0000_0000_00) by (nonlinear_arith)
                requires
                    wide <= 0x10_0000,
                    squares <= wide * 0x1_0000_0000_0000_0000_0000,
            ;
            assert(wide * (wide * squares - total * total) >= 0 ==> wide * squares - total * total
                >= 0) by (nonlinear_arith)
                requires
                    wide >= 2,
            ;
            assert(wide * (wide - 1) <= 0x100_0000_0000 && wide * (wide - 1) >= 2) by (nonlinear_arith)
                requires
                    2 <= wide <= 0x10_0000,
            ;
        }
        let numerator: u128 = wide * squares - (total * total) as u128;
        let denominator: u128 = wide * (wide - 1);
        let variance: u128 = numerator / denominator;
        let root: u128 = isqrt(variance);
        proof {
            lemma_div_multiples_vanish_quotient(n as int, numerator as int, denominator as int);
            assert(variance == variance_of(samples@));
            lemma_floor_sqrt(variance as nat);
            lemma_fundamental_div_mod(numerator as int, denominator as int);
            let square_limit: int = 0x1_0000_0000_0000_0000_0000;
            assert(variance <= 2 * square_limit) by (nonlinear_arith)
                requires
                    numerator == denominator * variance + (numerator as int % denominator as int),
                    0 <= numerator as int % denominator as int,
                    numerator <= wide * squares,
                    squares <= wide * square_limit,
                    denominator == wide * (wide - 1),
                    wide >= 2,
                    square_limit > 0,
            ;
            assert(root <= 0x200_0000_0000) by (nonlinear_arith)
                requires
                    root * root <= variance,
                    variance <= 2 * 0x1_0000_0000_0000_0000_0000,
            ;
        }
        std_dev = root as u64;
    } else {
        proof {
            lemma_floor_sqrt_of_square(0);
        }
    }
    Baseline { count: n as u32, mean: mean as i64, std_dev }
}

/// Builds the baseline of a scope: selects the samples by window and cap,
/// and summarizes them unless they are fewer than the policy asks for. No
/// baseline is built of no samples.
pub fn build_baseline(history: &Vec<MetricSample>, policy: &StatisticPolicy, now: i64) -> (outcome:
    BaselineOutcome)
    requires
        history_in_range(history@),
    ensures
        outcome_for(outcome, selected(history@, *policy, now), *policy),
{
    let kept = select(history, policy, now);
    proof {
        lemma_selected_in_range(history@, *policy, now);
    }
    if kept.len() == 0 || kept.len() < policy.min_sample_size as usize {
        BaselineOutcome::InsufficientData
    } else {
        BaselineOutcome::Ready(summarize(&kept))
    }
}

/// The history runs from the newest sample to the oldest.
pub open spec fn newest_first(samples: Seq<MetricSample>) -> bool {
    forall|i: int, j: int|
        0 <= i < j < samples.len() ==> (#[trigger] samples[i]).created >= (
        #[trigger] samples[j]).created
}

/// Filtering keeps the order: what was newest first stays newest first.
proof fn lemma_filter_keeps_order(samples: Seq<MetricSample>, pred: spec_fn(MetricSample) -> bool)
    requires
        newest_first(samples),
    ensures
        newest_first(samples.filter(pred)),
    decreases samples.len(),
{
    reveal(Seq::filter);
    if samples.len() > 0 {
        let front = samples.drop_last();
        let last = samples.last();
        assert forall|i: int, j: int| 0 <= i < j < front.len() implies (#[trigger] front[i]).created
            >= (#[trigger] front[j]).created by {
            assert(front[i] == samples[i] && front[j] == samples[j]);
        }
        lemma_filter_keeps_order(front, pred);
        let kept_front = front.filter(pred);
        let kept = samples.filter(pred);
        assert forall|i: int, j: int| 0 <= i < j < kept.len() implies (#[trigger] kept[i]).created
            >= (#[trigger] kept[j]).created by {
            if j < kept_front.len() {
                assert(kept[i] == kept_front[i] && kept[j] == kept_front[j]);
            } else {
                assert(kept[j] == last);
                assert(kept[i] == kept_front[i]);
                assert(kept_front.contains(kept_front[i]));
                lemma_filter_source(front, pred, kept_front[i]);
                let k = choose|k: int| 0 <= k < front.len() && front[k] == kept_front[i];
                assert(samples[k] == kept_front[i]);
                assert(samples[samples.len() - 1] == last);
            }
        }
    }
}

/// The cap is honored, and it keeps the most recent samples: of a history
/// that runs from the newest to the oldest, the selected samples are the
/// first of those inside the window, no more of them than the cap allows,
/// and none that was left out is newer than one that was selected.
pub proof fn lemma_cap_keeps_most_recent(
    history: Seq<MetricSample>,
    policy: StatisticPolicy,
    now: i64,
)
    requires
        newest_first(history),
    ensures
        policy.max_sample_size matches Some(max) ==> selected(history, policy, now).len() <= max,
        selected(history, policy, now).len() <= eligible(history, policy.window, now).len(),
        selected(history, policy, now) == eligible(history, policy.window, now).take(
            selected(history, policy, now).len() as int,
        ),
        forall|i: int, j: int|
            0 <= i < selected(history, policy, now).len() <= j < eligible(
                history,
                policy.window,
                now,
            ).len() ==> (#[trigger] selected(history, policy, now)[i]).created >= (#[trigger] eligible(
                history,
                policy.window,
                now,
            )[j]).created,
{
    let all = eligible(history, policy.window, now);
    let kept = selected(history, policy, now);
    lemma_filter_keeps_order(history, window_test(policy.window, now));
    assert(kept =~= all.take(kept.len() as int));
    assert forall|i: int, j: int| 0 <= i < kept.len() <= j < all.len() implies (#[trigger] kept[i]).created
        >= (#[trigger] all[j]).created by {
        assert(kept[i] == all[i]);
    }
}

/// The window is applied before the cap: every selected sample lies inside
/// the window, so a sample outside it is never counted, however few are
/// left.
pub proof fn lemma_selected_inside_window(
    history: Seq<MetricSample>,
    policy: StatisticPolicy,
    now: i64,
)
    ensures
        forall|i: int|
            0 <= i < selected(history, policy, now).len() ==> in_window(
                #[trigger] selected(history, policy, now)[i],
                policy.window,
                now,
            ),
        selected(history, policy, now).len() <= eligible(history, policy.window, now).len(),
        eligible(history, policy.window, now).len() <= history.len(),
{
    let pred = window_test(policy.window, now);
    let all = history.filter(pred);
    let kept = selected(history, policy, now);
    history.lemma_filter_len(pred);
    assert forall|i: int| 0 <= i < kept.len() implies in_window(
        #[trigger] kept[i],
        policy.window,
        now,
    ) by {
        assert(kept[i] == all[i]);
        history.lemma_filter_pred(pred, i);
    }
}

/// The minimum sample size decides between a verdict and none: with one
/// sample fewer inside the window than the policy asks for there is no
/// baseline, and with exactly as many, at least one, and no cap below that
/// number, there is one.
pub proof fn lemma_min_sample_size_decides(
    history: Seq<MetricSample>,
    policy: StatisticPolicy,
    now: i64,
)
    ensures
        eligible(history, policy.window, now).len() + 1 == policy.min_sample_size ==> !sufficient(
            selected(history, policy, now),
            policy,
        ),
        ({
            &&& eligible(history, policy.window, now).len() == policy.min_sample_size
            &&& policy.min_sample_size >= 1
            &&& (policy.max_sample_size matches Some(max) ==> max >= policy.min_sample_size)
        }) ==> sufficient(selected(history, policy, now), policy),
{
}

} // verus!
