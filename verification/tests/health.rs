use pleme_service_foundation::health::{health_reply, status_of_check_result, HTTP_OK, HTTP_SERVICE_UNAVAILABLE};
use pleme_service_foundation::{HealthStatus, LivenessProbe, ReadinessProbe, ReadinessStep};
use HealthStatus::{Degraded, Healthy, Unhealthy};

/// Drives a readiness evaluation, answering check `i` with `replies[i]`; returns the answer and
/// the positions that were asked.
fn evaluate(probe: &ReadinessProbe<HealthStatus>) -> (HealthStatus, Vec<usize>) {
    let mut asked = Vec::new();
    let mut step = probe.begin();
    loop {
        match step {
            ReadinessStep::Ask(i) => {
                asked.push(i);
                let reply = probe.checks()[i];
                step = probe.advance(i, reply);
            }
            ReadinessStep::Answer(status) => return (status, asked),
        }
    }
}

fn probe_of(replies: &[HealthStatus]) -> ReadinessProbe<HealthStatus> {
    replies.iter().fold(ReadinessProbe::new(), |probe, r| probe.add_check(*r))
}

#[test]
fn test_liveness_probe() {
    let probe = LivenessProbe::new("abc123".to_string(), "0.1.0".to_string());
    assert_eq!(probe.check(), HealthStatus::Healthy);
    assert_eq!(probe.name(), "liveness");
}

#[test]
fn test_readiness_probe_no_checks() {
    let probe: ReadinessProbe<HealthStatus> = ReadinessProbe::new();
    assert_eq!(evaluate(&probe).0, HealthStatus::Healthy);
    assert_eq!(probe.begin(), ReadinessStep::Answer(HealthStatus::Healthy));
}

#[test]
fn readiness_probe_name() {
    let probe: ReadinessProbe<u8> = ReadinessProbe::default();
    assert_eq!(probe.name(), "readiness");
    assert!(probe.checks().is_empty());
}

#[test]
fn checks_run_in_the_order_they_were_added() {
    let probe = ReadinessProbe::new().add_check(3u8).add_check(1u8).add_check(2u8);
    assert_eq!(probe.checks(), &vec![3u8, 1u8, 2u8]);
}

#[test]
fn all_healthy_checks_make_the_service_ready() {
    let (status, asked) = evaluate(&probe_of(&[Healthy, Healthy, Healthy]));
    assert_eq!(status, Healthy);
    assert_eq!(asked, vec![0, 1, 2]);
}

#[test]
fn first_failing_check_decides_and_later_ones_do_not_run() {
    let (status, asked) = evaluate(&probe_of(&[Healthy, Degraded, Unhealthy]));
    assert_eq!(status, Degraded);
    assert_eq!(asked, vec![0, 1]);
    let (status, asked) = evaluate(&probe_of(&[Unhealthy, Degraded]));
    assert_eq!(status, Unhealthy);
    assert_eq!(asked, vec![0]);
}

#[test]
fn advance_steps() {
    let probe = probe_of(&[Healthy, Healthy]);
    assert_eq!(probe.begin(), ReadinessStep::Ask(0));
    assert_eq!(probe.advance(0, Healthy), ReadinessStep::Ask(1));
    assert_eq!(probe.advance(1, Healthy), ReadinessStep::Answer(Healthy));
    assert_eq!(probe.advance(0, Degraded), ReadinessStep::Answer(Degraded));
    assert_eq!(probe.advance(1, Unhealthy), ReadinessStep::Answer(Unhealthy));
}

#[test]
fn healthy_reply_is_ok() {
    let (code, body) = health_reply(HealthStatus::Healthy, "1.2.3".to_string(), "deadbeef".to_string(), 42);
    assert_eq!(code, 200);
    assert_eq!(code, HTTP_OK);
    assert_eq!(body.status, HealthStatus::Healthy);
    assert_eq!(body.version, "1.2.3");
    assert_eq!(body.git_sha, "deadbeef");
    assert_eq!(body.uptime_seconds, 42);
    assert!(body.checks.is_none());
}

#[test]
fn unhealthy_and_degraded_replies_are_unavailable() {
    let (code, body) = health_reply(HealthStatus::Unhealthy, "v".to_string(), "s".to_string(), 0);
    assert_eq!(code, 503);
    assert_eq!(code, HTTP_SERVICE_UNAVAILABLE);
    assert_eq!(body.status, HealthStatus::Unhealthy);
    let (code, body) = health_reply(HealthStatus::Degraded, "v".to_string(), "s".to_string(), 0);
    assert_eq!(code, 503);
    assert_eq!(body.status, HealthStatus::Degraded);
}

#[test]
fn liveness_reply_carries_the_build() {
    let probe = LivenessProbe::new("abc123".to_string(), "0.1.0".to_string());
    let (code, body) = probe.reply(probe.check());
    assert_eq!(code, 200);
    assert_eq!(body.status, HealthStatus::Healthy);
    assert_eq!(body.version, "0.1.0");
    assert_eq!(body.git_sha, "abc123");
    assert!(body.uptime_seconds < 60);
    assert!(body.checks.is_none());
    let (code, _) = probe.reply(HealthStatus::Degraded);
    assert_eq!(code, 503);
}

#[test]
fn fresh_probe_uptime_is_small() {
    let probe = LivenessProbe::new("a".to_string(), "b".to_string());
    assert!(probe.uptime() < 60);
}

#[test]
fn closure_results_map_to_statuses() {
    assert_eq!(status_of_check_result(true), Healthy);
    assert_eq!(status_of_check_result(false), Unhealthy);
}

#[test]
fn reply_with_uptime_is_exact() {
    let probe = LivenessProbe::new("abc123".to_string(), "0.1.0".to_string());
    let (code, body) = probe.reply_with_uptime(Healthy, 77);
    assert_eq!(code, 200);
    assert_eq!(body.uptime_seconds, 77);
    assert_eq!(body.version, "0.1.0");
    assert_eq!(body.git_sha, "abc123");
    let (code, body) = probe.reply_with_uptime(Unhealthy, 5);
    assert_eq!(code, 503);
    assert_eq!(body.uptime_seconds, 5);
}

#[test]
fn adding_a_check_to_a_clone() {
    let ready = probe_of(&[Healthy, Healthy]);
    assert_eq!(evaluate(&ready.clone().add_check(Degraded)).0, Degraded);
    assert_eq!(evaluate(&ready.clone().add_check(Healthy)).0, Healthy);
    let failing = probe_of(&[Healthy, Unhealthy]);
    assert_eq!(evaluate(&failing.clone().add_check(Degraded)).0, Unhealthy);
    assert_eq!(failing.clone().checks(), failing.checks());
}
