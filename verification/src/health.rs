//! Liveness and readiness probes, and the replies that the probe endpoints give.

use vstd::prelude::*;

verus! {

/// Health of a service or of one of the things it depends on.
#[derive(Clone, Copy, Debug, PartialEq, Eq, Structural)]
pub enum HealthStatus {
    Healthy,
    Unhealthy,
    Degraded,
}

/// HTTP status of a probe reply whose status is `Healthy`.
pub const HTTP_OK: u16 = 200;

/// HTTP status of a probe reply whose status is not `Healthy`.
pub const HTTP_SERVICE_UNAVAILABLE: u16 = 503;

/// The HTTP status code that a probe answers with for a given health status.
pub open spec fn status_code(status: HealthStatus) -> u16 {
    if status == HealthStatus::Healthy {
        HTTP_OK
    } else {
        HTTP_SERVICE_UNAVAILABLE
    }
}


#[verifier::external_type_specification]
#[verifier::external_body]
pub struct ExJsonValue(serde_json::Value);

#[verifier::external_type_specification]
#[verifier::external_body]
pub struct ExInstant(std::time::Instant);

/// `std::time::Instant::now` reads the clock: nothing is promised of the instant it returns.
pub assume_specification[ std::time::Instant::now ]() -> std::time::Instant;

/// `std::time::Instant::elapsed` reads the clock again: nothing is promised of the duration
/// (std documents that it saturates at zero rather than panicking).
pub assume_specification[ std::time::Instant::elapsed ](instant: &std::time::Instant) -> core::time::Duration;

/// `core::time::Duration::as_secs` gives the whole seconds of a duration; the duration is opaque
/// here, so nothing is promised of the number.
pub assume_specification[ core::time::Duration::as_secs ](duration: &core::time::Duration) -> u64;

/// Body of a probe reply.
#[derive(Clone, Debug)]
pub struct HealthResponse {
    pub status: HealthStatus,
    pub version: String,
    pub git_sha: String,
    pub uptime_seconds: u64,
    /// Details of individual checks; the probes of this library never fill it in.
    pub checks: Option<serde_json::Value>,
}

/// The reply of a probe endpoint: `200` with the status when it is `Healthy`, `503` otherwise,
/// and a body that carries the build's version and commit and the uptime, with no check details.
pub fn health_reply(status: HealthStatus, version: String, git_sha: String, uptime_seconds: u64) -> (reply: (u16, HealthResponse))
    ensures
        reply.0 == status_code(status),
        reply.1.status == status,
        reply.1.version@ == version@,
        reply.1.git_sha@ == git_sha@,
        reply.1.uptime_seconds == uptime_seconds,
        reply.1.checks is None,
{
    let code = match status {
        HealthStatus::Healthy => HTTP_OK,
        _ => HTTP_SERVICE_UNAVAILABLE,
    };
    (code, HealthResponse { status, version, git_sha, uptime_seconds, checks: None })
}

/// The status code of a reply for `Healthy`, the status `LivenessProbe::check` always gives,
/// is `200`.
pub proof fn lemma_liveness_answers_ok()
    ensures
        status_code(HealthStatus::Healthy) == HTTP_OK,
{
}

/// Liveness probe: tells the orchestrator whether the process should be restarted.
pub struct LivenessProbe {
    start_time: std::time::Instant,
    git_sha: String,
    version: String,
}

impl LivenessProbe {
    /// The commit the probe reports.
    pub closed spec fn git_sha_view(&self) -> Seq<char> {
        self.git_sha@
    }

    /// The version the probe reports.
    pub closed spec fn version_view(&self) -> Seq<char> {
        self.version@
    }

    /// A probe that reports the given commit and version and counts its uptime from now.
    pub fn new(git_sha: String, version: String) -> (probe: Self)
        ensures
            probe.git_sha_view() == git_sha@,
            probe.version_view() == version@,
    {
        LivenessProbe { start_time: std::time::Instant::now(), git_sha, version }
    }

    /// Whole seconds since the probe was made, as the clock reads now.
    pub fn uptime(&self) -> u64 {
        let elapsed = self.start_time.elapsed();
        elapsed.as_secs()
    }

    /// A live process is always healthy.
    pub fn check(&self) -> (status: HealthStatus)
        ensures
            status == HealthStatus::Healthy,
    {
        HealthStatus::Healthy
    }

    /// The name under which the probe reports.
    pub fn name(&self) -> (name: &'static str)
        ensures
            name@ == "liveness"@,
    {
        "liveness"
    }

    /// The reply of a probe endpoint for the given status and uptime reading, with this
    /// probe's version and commit.
    pub fn reply_with_uptime(&self, status: HealthStatus, uptime_seconds: u64) -> (reply: (u16, HealthResponse))
        ensures
            reply.0 == status_code(status),
            reply.1.status == status,
            reply.1.version@ == self.version_view(),
            reply.1.git_sha@ == self.git_sha_view(),
            reply.1.uptime_seconds == uptime_seconds,
            reply.1.checks is None,
    {
        health_reply(status, self.version.clone(), self.git_sha.clone(), uptime_seconds)
    }

    /// The reply of a probe endpoint for the given status, with this probe's version, commit
    /// and current uptime.
    pub fn reply(&self, status: HealthStatus) -> (reply: (u16, HealthResponse))
        ensures
            reply.0 == status_code(status),
            reply.1.status == status,
            reply.1.version@ == self.version_view(),
            reply.1.git_sha@ == self.git_sha_view(),
            reply.1.checks is None,
    {
        let uptime = self.uptime();
        self.reply_with_uptime(status, uptime)
    }
}

/// Status of a readiness check given as a closure that reports whether it passed:
/// `Healthy` when it passed, `Unhealthy` otherwise.
pub fn status_of_check_result(passed: bool) -> (status: HealthStatus)
    ensures
        status == (if passed { HealthStatus::Healthy } else { HealthStatus::Unhealthy }),
{
    if passed {
        HealthStatus::Healthy
    } else {
        HealthStatus::Unhealthy
    }
}

/// Where a readiness evaluation stands: the next check to ask, or the answer.
#[derive(Clone, Copy, Debug, PartialEq, Eq, Structural)]
pub enum ReadinessStep {
    /// Run the check at this position and report its status.
    Ask(usize),
    /// The evaluation is over; this is the probe's status.
    Answer(HealthStatus),
}

/// Readiness of a service whose checks report `replies`, in the order the checks were added:
/// the first status that is not `Healthy`, or `Healthy` when there is none.
pub open spec fn readiness_verdict(replies: Seq<HealthStatus>) -> HealthStatus
    decreases replies.len(),
{
    if replies.len() == 0 {
        HealthStatus::Healthy
    } else if replies[0] == HealthStatus::Healthy {
        readiness_verdict(replies.drop_first())
    } else {
        replies[0]
    }
}

/// First step of an evaluation over `count` checks.
pub open spec fn first_step(count: nat) -> ReadinessStep {
    if count == 0 {
        ReadinessStep::Answer(HealthStatus::Healthy)
    } else {
        ReadinessStep::Ask(0)
    }
}

/// Step that follows the reply of the check at position `asked`, among `count` checks.
pub open spec fn next_step(count: nat, asked: nat, reply: HealthStatus) -> ReadinessStep {
    match reply {
        HealthStatus::Healthy => if asked + 1 < count {
            ReadinessStep::Ask((asked + 1) as usize)
        } else {
            ReadinessStep::Answer(HealthStatus::Healthy)
        },
        _ => ReadinessStep::Answer(reply),
    }
}

/// The answer an evaluation reaches from asking the check at position `asked`, when each check
/// `j` replies `replies[j]` and the evaluation goes on with whatever position the step asks
/// next. A step that asks a position not after `asked`, or past the last check, asks no check
/// that exists, and the evaluation is taken to end `Healthy` there.
pub open spec fn answer_from(replies: Seq<HealthStatus>, asked: nat) -> HealthStatus
    decreases replies.len() - asked,
{
    if asked >= replies.len() {
        HealthStatus::Healthy
    } else {
        match next_step(replies.len(), asked, replies[asked as int]) {
            ReadinessStep::Answer(status) => status,
            ReadinessStep::Ask(next) => if asked < next && next < replies.len() {
                answer_from(replies, next as nat)
            } else {
                HealthStatus::Healthy
            },
        }
    }
}

/// Readiness probe: tells the orchestrator whether the service can take traffic. It holds the
/// checks to run, in the order they were added.
pub struct ReadinessProbe<C> {
    checks: Vec<C>,
}

impl<C> View for ReadinessProbe<C> {
    type V = Seq<C>;

    closed spec fn view(&self) -> Seq<C> {
        self.checks@
    }
}

impl<C> ReadinessProbe<C> {
    /// A probe with no checks.
    pub fn new() -> (probe: Self)
        ensures
            probe@ == Seq::<C>::empty(),
    {
        ReadinessProbe { checks: Vec::new() }
    }

    /// The probe with one more check, run after those already added.
    pub fn add_check(self, check: C) -> (probe: Self)
        ensures
            probe@ == self@.push(check),
    {
        let mut checks = self.checks;
        checks.push(check);
        ReadinessProbe { checks }
    }

    /// The checks, in the order they run.
    pub fn checks(&self) -> (checks: &Vec<C>)
        ensures
            checks@ == self@,
    {
        &self.checks
    }

    /// The name under which the probe reports.
    pub fn name(&self) -> (name: &'static str)
        ensures
            name@ == "readiness"@,
    {
        "readiness"
    }

    /// How an evaluation starts: with no checks the service is ready, otherwise the first
    /// check is asked.
    pub fn begin(&self) -> (step: ReadinessStep)
        ensures
            step == first_step(self@.len()),
            self@.len() == 0 ==> step == ReadinessStep::Answer(HealthStatus::Healthy),
            self@.len() > 0 ==> step == ReadinessStep::Ask(0),
    {
        if self.checks.len() == 0 {
            ReadinessStep::Answer(HealthStatus::Healthy)
        } else {
            ReadinessStep::Ask(0)
        }
    }

    /// How an evaluation goes on once the check at position `asked` has replied: a status that
    /// is not `Healthy` is the answer at once; a `Healthy` one moves to the next check, or
    /// answers `Healthy` after the last.
    pub fn advance(&self, asked: usize, reply: HealthStatus) -> (step: ReadinessStep)
        requires
            asked < self@.len(),
        ensures
            step == next_step(self@.len(), asked as nat, reply),
            reply == HealthStatus::Healthy && asked + 1 < self@.len() ==> step == ReadinessStep::Ask((asked + 1) as usize),
            reply == HealthStatus::Healthy && asked + 1 == self@.len() ==> step == ReadinessStep::Answer(HealthStatus::Healthy),
            reply != HealthStatus::Healthy ==> step == ReadinessStep::Answer(reply),
    {
        match reply {
            HealthStatus::Healthy => {
                if asked < self.checks.len() - 1 {
                    ReadinessStep::Ask(asked + 1)
                } else {
                    ReadinessStep::Answer(HealthStatus::Healthy)
                }
            },
            HealthStatus::Unhealthy => ReadinessStep::Answer(HealthStatus::Unhealthy),
            HealthStatus::Degraded => ReadinessStep::Answer(HealthStatus::Degraded),
        }
    }
}

impl<C: Clone> Clone for ReadinessProbe<C> {
    /// A probe with a clone of each check, in the same order.
    fn clone(&self) -> (probe: Self)
        ensures
            probe@.len() == self@.len(),
            forall|i: int| 0 <= i < self@.len() ==> cloned::<C>(self@[i], #[trigger] probe@[i]),
    {
        ReadinessProbe { checks: self.checks.clone() }
    }
}

impl<C> Default for ReadinessProbe<C> {
    fn default() -> (probe: Self)
        ensures
            probe@ == Seq::<C>::empty(),
    {
        Self::new()
    }
}

/// An evaluation that starts from `begin` and feeds each asked check its reply, going on with
/// the position each step asks, ends with the readiness verdict over all the replies: the first
/// status that is not `Healthy`, or `Healthy`. So every check up to the deciding one is asked,
/// in order.
/// (A probe holds its checks in a `Vec`, so there are at most `usize::MAX` of them.)
pub proof fn lemma_evaluation_reaches_verdict(replies: Seq<HealthStatus>)
    ensures
        match first_step(replies.len()) {
            ReadinessStep::Answer(status) => status == readiness_verdict(replies),
            ReadinessStep::Ask(first) => first == 0 && first < replies.len() && (replies.len() <= usize::MAX
                ==> answer_from(replies, first as nat) == readiness_verdict(replies)),
        },
{
    if 0 < replies.len() <= usize::MAX {
        lemma_answer_from_is_verdict(replies, 0);
        assert(replies.skip(0) =~= replies);
    }
}

/// Adding a check after the others: a probe that was ready answers with the new check's
/// status, and one that was not keeps its answer.
pub proof fn lemma_verdict_after_added_check(replies: Seq<HealthStatus>, added: HealthStatus)
    ensures
        readiness_verdict(replies.push(added)) == (if readiness_verdict(replies) == HealthStatus::Healthy {
            added
        } else {
            readiness_verdict(replies)
        }),
    decreases replies.len(),
{
    let all = replies.push(added);
    if replies.len() == 0 {
        assert(all[0] == added);
        assert(readiness_verdict(all.drop_first()) == HealthStatus::Healthy);
    } else {
        assert(all[0] == replies[0]);
        lemma_verdict_after_added_check(replies.drop_first(), added);
        assert(all.drop_first() =~= replies.drop_first().push(added));
        if replies[0] == HealthStatus::Healthy {
            assert(readiness_verdict(all) == readiness_verdict(all.drop_first()));
            assert(readiness_verdict(replies) == readiness_verdict(replies.drop_first()));
        }
    }
}

/// From any asked position, the answer is the verdict over the replies from that position on.
proof fn lemma_answer_from_is_verdict(replies: Seq<HealthStatus>, asked: nat)
    requires
        asked < replies.len(),
        replies.len() <= usize::MAX,
    ensures
        answer_from(replies, asked) == readiness_verdict(replies.skip(asked as int)),
    decreases replies.len() - asked,
{
    let rest = replies.skip(asked as int);
    assert(rest[0] == replies[asked as int]);
    assert(rest.len() > 0);
    if replies[asked as int] == HealthStatus::Healthy {
        assert(readiness_verdict(rest) == readiness_verdict(rest.drop_first()));
        if asked + 1 < replies.len() {
            lemma_answer_from_is_verdict(replies, asked + 1);
            assert(rest.drop_first() =~= replies.skip((asked + 1) as int));
            assert(answer_from(replies, asked) == answer_from(replies, asked + 1));
        } else {
            assert(rest.drop_first().len() == 0);
            assert(answer_from(replies, asked) == HealthStatus::Healthy);
        }
    } else {
        assert(answer_from(replies, asked) == replies[asked as int]);
        assert(readiness_verdict(rest) == rest[0]);
    }
}

/// The service is ready exactly when every check replies `Healthy`.
pub proof fn lemma_ready_iff_all_healthy(replies: Seq<HealthStatus>)
    ensures
        (readiness_verdict(replies) == HealthStatus::Healthy) <==> (forall|i: int|
            0 <= i < replies.len() ==> replies[i] == HealthStatus::Healthy),
    decreases replies.len(),
{
    if replies.len() > 0 {
        lemma_ready_iff_all_healthy(replies.drop_first());
        if readiness_verdict(replies) == HealthStatus::Healthy {
            assert forall|i: int| 0 <= i < replies.len() implies replies[i] == HealthStatus::Healthy by {
                if i > 0 {
                    assert(replies[i] == replies.drop_first()[i - 1]);
                }
            }
        } else if replies[0] == HealthStatus::Healthy {
            let j = choose|j: int| 0 <= j < replies.drop_first().len() && replies.drop_first()[j] != HealthStatus::Healthy;
            assert(replies[j + 1] != HealthStatus::Healthy);
        }
    }
}

/// Once a check replies with a status that is not `Healthy` after only `Healthy` replies, the
/// verdict is that status, whatever the checks after it would reply: they need not run.
pub proof fn lemma_verdict_ignores_later_checks(healthy: Seq<HealthStatus>, failing: HealthStatus, later: Seq<HealthStatus>)
    requires
        forall|i: int| 0 <= i < healthy.len() ==> healthy[i] == HealthStatus::Healthy,
        failing != HealthStatus::Healthy,
    ensures
        readiness_verdict(healthy + seq![failing] + later) == failing,
    decreases healthy.len(),
{
    let all = healthy + seq![failing] + later;
    if healthy.len() > 0 {
        lemma_verdict_ignores_later_checks(healthy.drop_first(), failing, later);
        assert(all.drop_first() =~= healthy.drop_first() + seq![failing] + later);
    } else {
        assert(all[0] == failing);
    }
}

} // verus!
