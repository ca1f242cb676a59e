//! Request counters shared by every clone of the metrics handle.

use std::sync::atomic::AtomicU64;
use std::sync::atomic::Ordering;
use std::sync::Arc;
use vstd::prelude::*;

verus! {

/// Counters of requests, of successes and of errors. Clones share the counters, and any
/// thread may bump them.
///
/// No contract here describes the counters' values: they are shared atomics that any clone on
/// any thread may change behind `&self`, and tracking them would take ghost permissions that
/// this crate does not use; the tests check the counting instead.
#[derive(Clone)]
pub struct ServiceMetrics {
    requests_total: Arc<AtomicU64>,
    requests_success: Arc<AtomicU64>,
    requests_error: Arc<AtomicU64>,
}

/// The counters as read at one moment.
#[derive(Clone, Copy, Debug, PartialEq, Eq, Structural)]
pub struct MetricsSnapshot {
    pub requests_total: u64,
    pub requests_success: u64,
    pub requests_error: u64,
}

impl ServiceMetrics {
    /// Metrics with every counter at zero.
    pub fn new() -> Self {
        ServiceMetrics {
            requests_total: Arc::new(AtomicU64::new(0)),
            requests_success: Arc::new(AtomicU64::new(0)),
            requests_error: Arc::new(AtomicU64::new(0)),
        }
    }

    /// Counts one more request (the counter wraps around at `u64::MAX`).
    pub fn record_request(&self) {
        let _previous = self.requests_total.fetch_add(1, Ordering::Relaxed);
    }

    /// Counts one more successful request (the counter wraps around at `u64::MAX`).
    pub fn record_success(&self) {
        let _previous = self.requests_success.fetch_add(1, Ordering::Relaxed);
    }

    /// Counts one more failed request (the counter wraps around at `u64::MAX`).
    pub fn record_error(&self) {
        let _previous = self.requests_error.fetch_add(1, Ordering::Relaxed);
    }

    /// The three counters, each read once.
    pub fn snapshot(&self) -> MetricsSnapshot {
        let requests_total = self.requests_total.load(Ordering::Relaxed);
        let requests_success = self.requests_success.load(Ordering::Relaxed);
        let requests_error = self.requests_error.load(Ordering::Relaxed);
        MetricsSnapshot { requests_total, requests_success, requests_error }
    }
}

impl Default for ServiceMetrics {
    fn default() -> Self {
        Self::new()
    }
}

} // verus!
