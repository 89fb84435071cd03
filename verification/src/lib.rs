//! Threshold and boundary detection for continuous benchmarking.
//!
//! A new sample of a metric is a regression when it lies beyond a limit
//! that the history of the metric sets. The policy of a threshold says how:
//! which samples of the history count, which statistical test to run, and
//! how confident each boundary has to be.
//!
//! - `policy`, `sample`: the policy and the samples.
//! - `baseline`: the selection of the samples and their statistics.
//! - `boundary`: the limits of a baseline.
//! - `alert`: the comparison of a sample with the limits.
//! - `engine`: the evaluation of a sample, end to end.
//! - `lifecycle`, `alerts`, `registry`: the versions of the policies, the
//!   record of the alerts, and both by scope.
//! - `numeric`: integer square roots and floor division.
//!
//! All numbers are integers. A sample value counts units of the metric's
//! resolution; probabilities and critical values come in millionths. The
//! quantiles of the distributions are not computed here: the caller hands
//! them in as critical values.
//!
//! The rest serves the command line client: `cli`, `statistic`, `commands`,
//! `resource` and `plan_level` take over arguments, `backend` chooses the
//! host and the tries of a request, `branch` finds the branch of a run, and
//! `urls` and `web` make the URLs of its results.

use vstd::prelude::*;

pub mod alert;
pub mod alerts;
pub mod backend;
pub mod baseline;
pub mod boundary;
pub mod branch;
pub mod cli;
pub mod commands;
pub mod engine;
pub mod error;
pub mod lifecycle;
pub mod numeric;
pub mod plan_level;
pub mod policy;
pub mod registry;
pub mod resource;
pub mod sample;
pub mod statistic;
pub mod text;
pub mod urls;
pub mod web;

verus! {

} // verus!
