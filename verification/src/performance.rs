//! Performance monitoring for security operations.
//!
//! Every protected operation is timed; samples accumulate in the monitor and
//! can be aggregated per metric kind.  Durations and timestamps are held in
//! milliseconds; the wall clock itself is read through a trusted wrapper and
//! nothing is promised of its value.

use vstd::prelude::*;
use vstd::arithmetic::div_mod::{lemma_div_is_ordered, lemma_div_multiples_vanish};

verus! {

/// Performance metric kinds: one per protected operation.
#[derive(Debug, Clone, Copy, PartialEq, Eq, Hash, Structural)]
pub enum MetricType {
    /// Timing of an integrity verification
    IntegrityVerification,
    /// Timing of a vulnerability scan
    VulnerabilityScan,
    /// Timing of an audit-trail append
    AuditTrailGeneration,
    /// Timing of a policy check
    RuntimeProtection,
    /// Timing of a sandboxed execution
    SandboxExecution,
}

/// One performance sample, immutable once recorded.
#[derive(Debug, Clone, Copy)]
pub struct PerformanceMetric {
    /// Kind of operation
    pub metric_type: MetricType,
    /// Duration of the operation, in milliseconds
    pub duration: u64,
    /// Memory usage in bytes, if available
    pub memory_usage: Option<u64>,
    /// CPU usage in whole percent, if available
    pub cpu_usage: Option<u64>,
    /// Timestamp of the measurement: milliseconds since the epoch
    pub timestamp: i64,
}

/// Performance monitoring configuration.
#[derive(Debug, Clone)]
pub struct PerformanceConfig {
    /// Whether to enable performance monitoring
    pub enabled: bool,
    /// Alert thresholds per metric kind, in milliseconds
    pub thresholds: Vec<(MetricType, u64)>,
    /// Whether to log performance metrics
    pub log_metrics: bool,
}

/// The default monitoring configuration: enabled, logging on, one threshold
/// per metric kind.
pub open spec fn is_default_performance_config(c: PerformanceConfig) -> bool {
    &&& c.enabled
    &&& c.log_metrics
    &&& c.thresholds@ =~= seq![
        (MetricType::IntegrityVerification, 100u64),
        (MetricType::VulnerabilityScan, 5000u64),
        (MetricType::AuditTrailGeneration, 10u64),
        (MetricType::RuntimeProtection, 50u64),
        (MetricType::SandboxExecution, 30000u64),
    ]
}

impl Default for PerformanceConfig {
    /// The default described by `is_default_performance_config`.
    fn default() -> (c: Self)
        ensures
            is_default_performance_config(c),
    {
        let mut thresholds: Vec<(MetricType, u64)> = Vec::new();
        thresholds.push((MetricType::IntegrityVerification, 100));
        thresholds.push((MetricType::VulnerabilityScan, 5000));
        thresholds.push((MetricType::AuditTrailGeneration, 10));
        thresholds.push((MetricType::RuntimeProtection, 50));
        thresholds.push((MetricType::SandboxExecution, 30000));
        PerformanceConfig { enabled: true, thresholds, log_metrics: true }
    }
}

/// The samples of one kind, in recording order.
pub open spec fn metrics_of_type(ms: Seq<PerformanceMetric>, t: MetricType) -> Seq<
    PerformanceMetric,
>
    decreases ms.len(),
{
    if ms.len() == 0 {
        Seq::empty()
    } else {
        let rest = metrics_of_type(ms.drop_last(), t);
        if ms.last().metric_type == t {
            rest.push(ms.last())
        } else {
            rest
        }
    }
}

/// The total duration of a sequence of samples, in milliseconds.
pub open spec fn sum_durations(ms: Seq<PerformanceMetric>) -> int
    decreases ms.len(),
{
    if ms.len() == 0 {
        0
    } else {
        sum_durations(ms.drop_last()) + ms.last().duration
    }
}

/// The configured alert threshold for a metric kind, if any: the first
/// matching entry wins.
pub open spec fn threshold_for(thresholds: Seq<(MetricType, u64)>, t: MetricType) -> Option<u64>
    decreases thresholds.len(),
{
    if thresholds.len() == 0 {
        None
    } else if thresholds[0].0 == t {
        Some(thresholds[0].1)
    } else {
        threshold_for(thresholds.drop_first(), t)
    }
}

/// A sample breaches its kind's configured threshold.
pub open spec fn spec_threshold_exceeded(c: PerformanceConfig, m: PerformanceMetric) -> bool {
    match threshold_for(c.thresholds@, m.metric_type) {
        Some(t) => m.duration > t,
        None => false,
    }
}

/// Relies on `chrono::Utc::now`: the current wall-clock time in milliseconds
/// since the epoch.  Nothing is promised of the value; it depends on the
/// clock.
#[verifier::external_body]
pub(crate) fn now_millis() -> i64 {
    chrono::Utc::now().timestamp_millis()
}

/// Performance monitoring service.
#[derive(Debug)]
pub struct PerformanceMonitor {
    config: PerformanceConfig,
    metrics: Vec<PerformanceMetric>,
    alerts: Vec<PerformanceMetric>,
}

impl PerformanceMonitor {
    /// The monitor's configuration, for contracts.
    pub closed spec fn spec_config(&self) -> PerformanceConfig {
        self.config
    }

    /// The recorded samples, in recording order, for contracts.
    pub closed spec fn spec_metrics(&self) -> Seq<PerformanceMetric> {
        self.metrics@
    }

    /// The samples that breached their threshold, in recording order, for
    /// contracts.
    pub closed spec fn spec_alerts(&self) -> Seq<PerformanceMetric> {
        self.alerts@
    }

    /// Create a new performance monitor with default configuration.
    pub fn new() -> (m: Self)
        ensures
            is_default_performance_config(m.spec_config()),
            m.spec_metrics().len() == 0,
            m.spec_alerts().len() == 0,
    {
        PerformanceMonitor { config: Default::default(), metrics: Vec::new(), alerts: Vec::new() }
    }

    /// Create a new performance monitor with custom configuration.
    pub fn with_config(config: PerformanceConfig) -> (m: Self)
        ensures
            m.spec_config() == config,
            m.spec_metrics().len() == 0,
            m.spec_alerts().len() == 0,
    {
        PerformanceMonitor { config, metrics: Vec::new(), alerts: Vec::new() }
    }

    /// Whether a sample breaches the configured threshold for its kind.
    pub fn threshold_exceeded(&self, metric: &PerformanceMetric) -> (r: bool)
        ensures
            r == spec_threshold_exceeded(self.spec_config(), *metric),
    {
        let n = self.config.thresholds.len();
        proof {
            assert(self.config.thresholds@.skip(0) =~= self.config.thresholds@);
        }
        let mut i: usize = 0;
        while i < n
            invariant
                n == self.config.thresholds@.len(),
                0 <= i <= n,
                threshold_for(self.config.thresholds@, metric.metric_type) == threshold_for(
                    self.config.thresholds@.skip(i as int),
                    metric.metric_type,
                ),
            decreases n - i,
        {
            proof {
                assert(self.config.thresholds@.skip(i as int)[0] == self.config.thresholds@[
                    i as int]);
                assert(self.config.thresholds@.skip(i as int).drop_first()
                    =~= self.config.thresholds@.skip(i + 1));
            }
            if self.config.thresholds[i].0 == metric.metric_type {
                return metric.duration > self.config.thresholds[i].1;
            }
            i = i + 1;
        }
        proof {
            assert(self.config.thresholds@.skip(n as int) =~= Seq::<(MetricType, u64)>::empty());
        }
        false
    }

    /// Record a performance metric.  When monitoring is enabled the sample
    /// is appended to the log, and a sample that breaches its kind's
    /// configured threshold additionally raises an alert — it is appended to
    /// the alert log, where an operator can observe it.  When disabled
    /// nothing is recorded.  Recording never fails the surrounding
    /// operation.
    pub fn record_metric(&mut self, metric: PerformanceMetric)
        ensures
            final(self).spec_config() == old(self).spec_config(),
            old(self).spec_config().enabled ==> final(self).spec_metrics() == old(
                self,
            ).spec_metrics().push(metric),
            old(self).spec_config().enabled && spec_threshold_exceeded(
                old(self).spec_config(),
                metric,
            ) ==> final(self).spec_alerts() == old(self).spec_alerts().push(metric),
            old(self).spec_config().enabled && !spec_threshold_exceeded(
                old(self).spec_config(),
                metric,
            ) ==> final(self).spec_alerts() == old(self).spec_alerts(),
            !old(self).spec_config().enabled ==> (final(self).spec_metrics() == old(
                self,
            ).spec_metrics() && final(self).spec_alerts() == old(self).spec_alerts()),
    {
        if !self.config.enabled {
            return ;
        }
        if self.threshold_exceeded(&metric) {
            self.alerts.push(metric);
        }
        self.metrics.push(metric);
    }

    /// Start timing an operation: the current time in milliseconds.
    pub fn start_timing(&self) -> i64 {
        now_millis()
    }

    /// End timing an operation and record the sample.  The duration is the
    /// elapsed wall-clock time since `start`, never negative; the sample
    /// carries `start` as its timestamp and no resource usage.
    pub fn end_timing(&mut self, start: i64, metric_type: MetricType)
        ensures
            final(self).spec_config() == old(self).spec_config(),
            old(self).spec_config().enabled ==> {
                &&& final(self).spec_metrics().len() == old(self).spec_metrics().len() + 1
                &&& final(self).spec_metrics() == old(self).spec_metrics().push(
                    final(self).spec_metrics().last(),
                )
                &&& final(self).spec_metrics().last().metric_type == metric_type
                &&& final(self).spec_metrics().last().timestamp == start
                &&& final(self).spec_metrics().last().memory_usage is None
                &&& final(self).spec_metrics().last().cpu_usage is None
            },
            old(self).spec_config().enabled && spec_threshold_exceeded(
                old(self).spec_config(),
                final(self).spec_metrics().last(),
            ) ==> final(self).spec_alerts() == old(self).spec_alerts().push(
                final(self).spec_metrics().last(),
            ),
            old(self).spec_config().enabled && !spec_threshold_exceeded(
                old(self).spec_config(),
                final(self).spec_metrics().last(),
            ) ==> final(self).spec_alerts() == old(self).spec_alerts(),
            !old(self).spec_config().enabled ==> (final(self).spec_metrics() == old(
                self,
            ).spec_metrics() && final(self).spec_alerts() == old(self).spec_alerts()),
    {
        let now = now_millis();
        let elapsed: i128 = now as i128 - start as i128;
        let duration: u64 = if elapsed < 0 {
            0
        } else if elapsed > u64::MAX as i128 {
            u64::MAX
        } else {
            elapsed as u64
        };
        let metric = PerformanceMetric {
            metric_type,
            duration,
            memory_usage: None,
            cpu_usage: None,
            timestamp: start,
        };
        self.record_metric(metric);
    }

    /// All recorded samples, in recording order.
    pub fn metrics(&self) -> (r: &Vec<PerformanceMetric>)
        ensures
            r@ == self.spec_metrics(),
    {
        &self.metrics
    }

    /// The samples that breached their configured threshold, in recording
    /// order: the monitor's alert log.
    pub fn alerts(&self) -> (r: &Vec<PerformanceMetric>)
        ensures
            r@ == self.spec_alerts(),
    {
        &self.alerts
    }

    /// The samples of one kind, in recording order.
    pub fn metrics_for_type(&self, metric_type: &MetricType) -> (r: Vec<PerformanceMetric>)
        ensures
            r@ == metrics_of_type(self.spec_metrics(), *metric_type),
    {
        let n = self.metrics.len();
        let mut r: Vec<PerformanceMetric> = Vec::new();
        proof {
            assert(self.spec_metrics().take(0) =~= Seq::<PerformanceMetric>::empty());
        }
        let mut i: usize = 0;
        while i < n
            invariant
                n == self.spec_metrics().len(),
                0 <= i <= n,
                r@ == metrics_of_type(self.spec_metrics().take(i as int), *metric_type),
            decreases n - i,
        {
            proof {
                assert(self.spec_metrics().take(i + 1).drop_last() =~= self.spec_metrics().take(
                    i as int,
                ));
                assert(self.spec_metrics().take(i + 1).last() == self.spec_metrics()[i as int]);
            }
            if self.metrics[i].metric_type == *metric_type {
                r.push(self.metrics[i]);
            }
            i = i + 1;
        }
        proof {
            assert(self.spec_metrics().take(n as int) =~= self.spec_metrics());
        }
        r
    }

    /// The arithmetic mean duration of the samples of one kind, in
    /// milliseconds, or `None` when there is no sample of that kind — never
    /// a division by zero.
    pub fn average_duration(&self, metric_type: &MetricType) -> (r: Option<u64>)
        ensures
            r is None <==> metrics_of_type(self.spec_metrics(), *metric_type).len() == 0,
            r matches Some(avg) ==> avg as int == sum_durations(
                metrics_of_type(self.spec_metrics(), *metric_type),
            ) / (metrics_of_type(self.spec_metrics(), *metric_type).len() as int),
    {
        let selected = self.metrics_for_type(metric_type);
        if selected.len() == 0 {
            return None;
        }
        let n = selected.len();
        let mut sum: u128 = 0;
        proof {
            assert(selected@.take(0) =~= Seq::<PerformanceMetric>::empty());
        }
        let mut i: usize = 0;
        while i < n
            invariant
                n == selected@.len(),
                0 <= i <= n,
                sum == sum_durations(selected@.take(i as int)),
                sum <= (i as int) * (u64::MAX as int),
            decreases n - i,
        {
            proof {
                assert(selected@.take(i + 1).drop_last() =~= selected@.take(i as int));
                assert(selected@.take(i + 1).last() == selected@[i as int]);
            }
            sum = sum + selected[i].duration as u128;
            i = i + 1;
        }
        proof {
            assert(selected@.take(n as int) =~= selected@);
            lemma_div_is_ordered(sum as int, (n as int) * (u64::MAX as int), n as int);
            lemma_div_multiples_vanish(u64::MAX as int, n as int);
            assert((n as int) * (u64::MAX as int) == (n as int) * (u64::MAX as int));
            assert(((n as int) * (u64::MAX as int)) / (n as int) == u64::MAX as int);
        }
        let avg: u128 = sum / (n as u128);
        Some(avg as u64)
    }

    /// Clear all recorded samples and alerts.
    pub fn clear_metrics(&mut self)
        ensures
            final(self).spec_config() == old(self).spec_config(),
            final(self).spec_metrics().len() == 0,
            final(self).spec_alerts().len() == 0,
    {
        self.metrics.clear();
        self.alerts.clear();
    }
}

impl Default for PerformanceMonitor {
    /// Same as `PerformanceMonitor::new`.
    fn default() -> (m: Self)
        ensures
            is_default_performance_config(m.spec_config()),
            m.spec_metrics().len() == 0,
            m.spec_alerts().len() == 0,
    {
        PerformanceMonitor::new()
    }
}

} // verus!
