//! What one check reports: its metrics, each with optional thresholds, the
//! lines that explain it, and the severity that follows from them.
//!
//! Metric values and thresholds are fixed-point numbers: hundredths of the
//! metric's unit (`9050` is `90.50 %` for a `%` metric).

use vstd::prelude::*;

use crate::text::string_views;

verus! {

/// How much a check calls for attention, from least to most.
#[derive(Debug, Clone, Copy, PartialEq, Eq, Structural)]
pub enum Severity {
    Info,
    Attention,
    Critique,
}

/// The position of a severity in the order `Info < Attention < Critique`.
pub open spec fn rank(s: Severity) -> nat {
    match s {
        Severity::Info => 0,
        Severity::Attention => 1,
        Severity::Critique => 2,
    }
}

impl Severity {
    /// The position of this severity in the order `Info < Attention < Critique`.
    pub fn rank(&self) -> (r: u8)
        ensures
            r == rank(*self),
    {
        match self {
            Severity::Info => 0,
            Severity::Attention => 1,
            Severity::Critique => 2,
        }
    }
}

/// One measured value.
pub struct Metric {
    pub name: String,
    /// In hundredths of `unit`.
    pub value: i64,
    pub unit: String,
    /// Reaching this value makes the metric call for attention.
    pub threshold_warning: Option<i64>,
    /// Reaching this value makes the metric critical.
    pub threshold_critical: Option<i64>,
}

/// The outcome of one check.
pub struct CheckResult {
    pub check_name: String,
    pub metrics: Vec<Metric>,
    pub details: Vec<String>,
    /// The heaviest processes (or, for `systemd`, the failed units).
    pub top_processes: Vec<String>,
    /// The check's own one-line summary, when it has one.
    pub status_value: Option<String>,
}

/// A metric is critical once it reaches its critical threshold, calls for
/// attention once it reaches its warning threshold, and is fine otherwise.
pub open spec fn metric_severity(m: Metric) -> Severity {
    if m.threshold_critical matches Some(c) && m.value >= c {
        Severity::Critique
    } else if m.threshold_warning matches Some(w) && m.value >= w {
        Severity::Attention
    } else {
        Severity::Info
    }
}

/// The higher of two severities.
pub open spec fn max_severity(a: Severity, b: Severity) -> Severity {
    if rank(a) >= rank(b) {
        a
    } else {
        b
    }
}

/// The worst severity among `metrics`; `Info` when there are none.
pub open spec fn metrics_severity(metrics: Seq<Metric>) -> Severity
    decreases metrics.len(),
{
    if metrics.len() == 0 {
        Severity::Info
    } else {
        max_severity(metrics_severity(metrics.drop_last()), metric_severity(metrics.last()))
    }
}

/// The severity of a whole check.
pub open spec fn result_severity(r: CheckResult) -> Severity {
    metrics_severity(r.metrics@)
}

/// The worst severity among a list of results; `Info` when there are none.
pub open spec fn results_severity(results: Seq<CheckResult>) -> Severity
    decreases results.len(),
{
    if results.len() == 0 {
        Severity::Info
    } else {
        max_severity(results_severity(results.drop_last()), result_severity(results.last()))
    }
}

/// Every metric is at most `metrics_severity`, and when there is a metric,
/// one of them reaches it.
pub proof fn lemma_metrics_severity_is_max(metrics: Seq<Metric>)
    ensures
        forall|i: int|
            0 <= i < metrics.len() ==> rank(#[trigger] metric_severity(metrics[i])) <= rank(
                metrics_severity(metrics),
            ),
        metrics.len() == 0 ==> metrics_severity(metrics) == Severity::Info,
        metrics.len() > 0 ==> exists|i: int|
            0 <= i < metrics.len() && #[trigger] metric_severity(metrics[i]) == metrics_severity(
                metrics,
            ),
    decreases metrics.len(),
{
    if metrics.len() > 0 {
        let init = metrics.drop_last();
        lemma_metrics_severity_is_max(init);
        assert forall|i: int| 0 <= i < metrics.len() implies rank(
            #[trigger] metric_severity(metrics[i]),
        ) <= rank(metrics_severity(metrics)) by {
            if i < metrics.len() - 1 {
                assert(metrics[i] == init[i]);
            }
        }
        if rank(metrics_severity(init)) >= rank(metric_severity(metrics.last())) && init.len() > 0 {
            let k = choose|k: int| 0 <= k < init.len() && #[trigger] metric_severity(init[k]) == metrics_severity(init);
            assert(metrics[k] == init[k]);
        } else {
            assert(metric_severity(metrics[metrics.len() - 1]) == metrics_severity(metrics));
        }
    }
}

/// Every result is at most `results_severity`, and when there is a result,
/// one of them reaches it.
pub proof fn lemma_results_severity_is_max(results: Seq<CheckResult>)
    ensures
        forall|i: int|
            0 <= i < results.len() ==> rank(#[trigger] result_severity(results[i])) <= rank(
                results_severity(results),
            ),
        results.len() == 0 ==> results_severity(results) == Severity::Info,
        results.len() > 0 ==> exists|i: int|
            0 <= i < results.len() && #[trigger] result_severity(results[i]) == results_severity(
                results,
            ),
    decreases results.len(),
{
    if results.len() > 0 {
        let init = results.drop_last();
        lemma_results_severity_is_max(init);
        assert forall|i: int| 0 <= i < results.len() implies rank(
            #[trigger] result_severity(results[i]),
        ) <= rank(results_severity(results)) by {
            if i < results.len() - 1 {
                assert(results[i] == init[i]);
            }
        }
        if rank(results_severity(init)) >= rank(result_severity(results.last())) && init.len() > 0 {
            let k = choose|k: int| 0 <= k < init.len() && #[trigger] result_severity(init[k]) == results_severity(init);
            assert(results[k] == init[k]);
        } else {
            assert(result_severity(results[results.len() - 1]) == results_severity(results));
        }
    }
}

/// A result without metrics never calls for attention: a check that could
/// not read the machine reports "unavailable", never a false alarm.
pub proof fn lemma_no_metrics_no_alarm(r: CheckResult)
    requires
        r.metrics@.len() == 0,
    ensures
        result_severity(r) == Severity::Info,
{
}

impl Metric {
    /// The severity this metric's value reaches against its thresholds.
    pub fn severity(&self) -> (s: Severity)
        ensures
            s == metric_severity(*self),
    {
        match self.threshold_critical {
            Some(c) if self.value >= c => {
                return Severity::Critique;
            },
            _ => {},
        }
        match self.threshold_warning {
            Some(w) if self.value >= w => Severity::Attention,
            _ => Severity::Info,
        }
    }
}

pub(crate) fn max_of(a: Severity, b: Severity) -> (r: Severity)
    ensures
        r == max_severity(a, b),
{
    if a.rank() >= b.rank() {
        a
    } else {
        b
    }
}

impl CheckResult {
    /// The worst severity among this result's metrics (`Info` without any).
    pub fn worst_severity(&self) -> (s: Severity)
        ensures
            s == result_severity(*self),
    {
        let mut worst = Severity::Info;
        let mut i: usize = 0;
        while i < self.metrics.len()
            invariant
                i <= self.metrics.len(),
                worst == metrics_severity(self.metrics@.take(i as int)),
            decreases self.metrics.len() - i,
        {
            assert(self.metrics@.take(i + 1).drop_last() =~= self.metrics@.take(i as int));
            worst = max_of(worst, self.metrics[i].severity());
            i = i + 1;
        }
        assert(self.metrics@.take(self.metrics.len() as int) =~= self.metrics@);
        worst
    }
}

/// A count as a fixed-point metric value (hundredths), saturating at
/// `i64::MAX`.
pub open spec fn count_value(n: nat) -> i64 {
    if n * 100 <= i64::MAX {
        (n * 100) as i64
    } else {
        i64::MAX
    }
}

pub fn fixed_count(n: usize) -> (r: i64)
    ensures
        r == count_value(n as nat),
{
    if n as u128 * 100 <= i64::MAX as u128 {
        (n as u128 * 100) as i64
    } else {
        i64::MAX
    }
}

/// Whether `m` is the metric named `name`, in `unit`, with this value and
/// these thresholds.
pub open spec fn metric_is(
    m: Metric,
    name: Seq<char>,
    value: i64,
    unit: Seq<char>,
    warning: Option<i64>,
    critical: Option<i64>,
) -> bool {
    &&& m.name@ == name
    &&& m.value == value
    &&& m.unit@ == unit
    &&& m.threshold_warning == warning
    &&& m.threshold_critical == critical
}

/// The check's own one-line summary, when it has one.
pub open spec fn status_view(r: CheckResult) -> Option<Seq<char>> {
    match r.status_value {
        Some(s) => Some(s@),
        None => None,
    }
}

/// The details of a result, as character sequences.
pub open spec fn details_view(r: CheckResult) -> Seq<Seq<char>> {
    string_views(r.details@)
}

} // verus!
