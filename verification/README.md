# pleme-service-foundation (verified)

Service foundation for Pleme services: Kubernetes-style liveness and readiness probes,
a graceful-shutdown broadcaster, request counters, and the start-up decisions of a
service (its settings and which work a run does in each mode).

- `src/` is the library, verified with Verus: `health` (probes, the readiness evaluation
  as a step function with its laws, probe replies), `bootstrap` (settings, run modes,
  run plans), `shutdown` (the broadcaster over tokio's broadcast channel), `metrics`
  (shared atomic counters), and the error type in `lib.rs`. The counters and the shutdown
  channel are shared state that no contract describes; the tests cover them.
- `app/` is the ordinary Rust around it: axum endpoints, the async run loop, OS signal
  handling, reading the environment, and serde/thiserror copies of library types.
- `tests/` exercises the library.
