use pleme_service_foundation::{MetricsSnapshot, ServiceMetrics};

#[test]
fn test_metrics() {
    let metrics = ServiceMetrics::new();

    metrics.record_request();
    metrics.record_success();

    let snapshot = metrics.snapshot();
    assert_eq!(snapshot.requests_total, 1);
    assert_eq!(snapshot.requests_success, 1);
    assert_eq!(snapshot.requests_error, 0);
}

#[test]
fn new_metrics_are_zero() {
    let metrics = ServiceMetrics::default();
    assert_eq!(
        metrics.snapshot(),
        MetricsSnapshot { requests_total: 0, requests_success: 0, requests_error: 0 }
    );
}

#[test]
fn clones_share_counters() {
    let metrics = ServiceMetrics::new();
    let other = metrics.clone();
    metrics.record_request();
    other.record_request();
    other.record_error();
    metrics.record_error();
    metrics.record_success();
    let expected = MetricsSnapshot { requests_total: 2, requests_success: 1, requests_error: 2 };
    assert_eq!(metrics.snapshot(), expected);
    assert_eq!(other.snapshot(), expected);
}
