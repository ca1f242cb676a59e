//! Service foundation: probes for orchestrators, a shutdown broadcaster,
//! request counters and the start-up decisions of a service.

pub mod bootstrap;
pub mod health;
pub mod metrics;
pub mod shutdown;

pub use bootstrap::{RunMode, RunPlan, ServiceBuilder, ServiceInfo};
pub use health::{HealthResponse, HealthStatus, LivenessProbe, ReadinessProbe, ReadinessStep};
pub use metrics::{MetricsSnapshot, ServiceMetrics};
pub use shutdown::{GracefulShutdown, ShutdownSignal};

use vstd::prelude::*;

verus! {

#[verifier::external_type_specification]
#[verifier::external_body]
pub struct ExIoError(std::io::Error);

/// Errors of the service foundation.
#[derive(Debug)]
pub enum ServiceError {
    /// The listening socket could not be bound to the port.
    BindError { port: u16, source: std::io::Error },
    /// A health check failed.
    HealthCheckFailed(String),
    /// The service could not start.
    InitializationFailed(String),
}

} // verus!
