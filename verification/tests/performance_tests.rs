use package_fast::performance::{MetricType, PerformanceConfig, PerformanceMetric,
    PerformanceMonitor};

fn sample(metric_type: MetricType, duration: u64) -> PerformanceMetric {
    PerformanceMetric { metric_type, duration, memory_usage: None, cpu_usage: None, timestamp: 0 }
}

#[test]
fn test_performance_monitor_creation() {
    let config = PerformanceConfig::default();
    assert!(config.enabled);
    assert!(config.log_metrics);
    let monitor = PerformanceMonitor::new();
    assert_eq!(monitor.metrics().len(), 0);
}

#[test]
fn test_performance_monitor_with_config() {
    let config = PerformanceConfig { enabled: false, thresholds: Vec::new(), log_metrics: false };

    let mut monitor = PerformanceMonitor::with_config(config);
    // With monitoring disabled, nothing is recorded.
    monitor.record_metric(sample(MetricType::IntegrityVerification, 50));
    assert_eq!(monitor.metrics().len(), 0);
}

#[test]
fn test_record_metric() {
    let mut monitor = PerformanceMonitor::new();
    monitor.record_metric(sample(MetricType::IntegrityVerification, 50));
    assert_eq!(monitor.metrics().len(), 1);
}

#[test]
fn timing_records_one_sample() {
    let mut monitor = PerformanceMonitor::new();
    let start = monitor.start_timing();
    monitor.end_timing(start, MetricType::IntegrityVerification);
    assert_eq!(monitor.metrics().len(), 1);
    assert_eq!(monitor.metrics()[0].metric_type, MetricType::IntegrityVerification);
    assert_eq!(monitor.metrics()[0].timestamp, start);
}

#[test]
fn test_metrics_for_type() {
    let mut monitor = PerformanceMonitor::new();

    monitor.record_metric(sample(MetricType::IntegrityVerification, 50));
    monitor.record_metric(sample(MetricType::VulnerabilityScan, 100));
    monitor.record_metric(sample(MetricType::IntegrityVerification, 75));

    let integrity_metrics = monitor.metrics_for_type(&MetricType::IntegrityVerification);
    assert_eq!(integrity_metrics.len(), 2);

    let vulnerability_metrics = monitor.metrics_for_type(&MetricType::VulnerabilityScan);
    assert_eq!(vulnerability_metrics.len(), 1);
}

#[test]
fn test_average_duration() {
    let mut monitor = PerformanceMonitor::new();

    monitor.record_metric(sample(MetricType::IntegrityVerification, 50));
    monitor.record_metric(sample(MetricType::IntegrityVerification, 100));

    let avg_duration = monitor.average_duration(&MetricType::IntegrityVerification);
    assert!(avg_duration.is_some());
    assert_eq!(avg_duration.unwrap(), 75);
}

#[test]
fn threshold_breach_raises_an_alert() {
    // The default threshold for integrity verification is 100 ms.
    let mut monitor = PerformanceMonitor::new();
    let fast = sample(MetricType::IntegrityVerification, 100);
    let slow = sample(MetricType::IntegrityVerification, 150);
    assert!(!monitor.threshold_exceeded(&fast));
    assert!(monitor.threshold_exceeded(&slow));

    monitor.record_metric(fast);
    assert_eq!(monitor.alerts().len(), 0);
    monitor.record_metric(slow);
    assert_eq!(monitor.alerts().len(), 1);
    assert_eq!(monitor.alerts()[0].duration, 150);
    assert_eq!(monitor.metrics().len(), 2);

    monitor.clear_metrics();
    assert_eq!(monitor.alerts().len(), 0);
}

#[test]
fn no_alert_without_a_configured_threshold() {
    let config = PerformanceConfig { enabled: true, thresholds: Vec::new(), log_metrics: false };
    let mut monitor = PerformanceMonitor::with_config(config);
    monitor.record_metric(sample(MetricType::SandboxExecution, u64::MAX));
    assert_eq!(monitor.alerts().len(), 0);
    assert_eq!(monitor.metrics().len(), 1);
}

#[test]
fn average_of_no_samples_is_absent() {
    let monitor = PerformanceMonitor::new();
    assert_eq!(monitor.average_duration(&MetricType::SandboxExecution), None);
}

#[test]
fn test_clear_metrics() {
    let mut monitor = PerformanceMonitor::new();

    monitor.record_metric(sample(MetricType::IntegrityVerification, 50));
    assert_eq!(monitor.metrics().len(), 1);

    monitor.clear_metrics();
    assert_eq!(monitor.metrics().len(), 0);
}
