use vstd::prelude::*;

verus! {

/// The retry budget: the health endpoint is probed at most this many times.
pub const HEALTH_MAX_ATTEMPTS: u64 = 30;
/// Fixed delay, in seconds, between one probe and the next.
pub const HEALTH_RETRY_DELAY_SECS: u64 = 2;
/// Per-request timeout, in seconds, for one probe.
pub const HEALTH_REQUEST_TIMEOUT_SECS: u64 = 5;

/// What the driver must do after one probe outcome has been recorded.
#[derive(Clone, Copy, PartialEq, Eq, Structural, Debug)]
pub enum HealthStep {
    /// The endpoint answered with success: the dashboard is ready.
    Ready,
    /// Not ready yet and budget remains: wait the fixed delay, probe again.
    Retry,
    /// The final attempt was not a success: the retry budget is exhausted.
    Timeout,
}

/// A success status is any code in the 2xx range.
pub open spec fn spec_is_success_status(code: u16) -> bool {
    200 <= code < 300
}

/// Whether one HTTP outcome counts as "ready": a response arrived and its
/// status was 2xx. A connection failure (no status at all) and a non-2xx
/// response both count as "not yet ready" and are treated alike.
pub fn classify_probe(status: Option<u16>) -> (healthy: bool)
    ensures
        healthy == (status matches Some(code) && spec_is_success_status(code)),
{
    match status {
        Some(code) => 200 <= code && code < 300,
        None => false,
    }
}

/// The decision taken on the probe made after `prior` earlier failed
/// attempts: success is immediately `Ready`; a failure on the final attempt
/// of the budget is `Timeout`; any other failure is retried.
pub open spec fn spec_gate_decision(prior: nat, healthy: bool) -> HealthStep {
    if healthy {
        HealthStep::Ready
    } else if prior + 1 >= HEALTH_MAX_ATTEMPTS {
        HealthStep::Timeout
    } else {
        HealthStep::Retry
    }
}

/// Bounded-retry readiness check against the dashboard service.
///
/// A `HealthGate` only decides; the driver performs the probe and the fixed
/// inter-attempt delay. `attempts` counts probes recorded so far, `retries`
/// counts the `Retry` answers given, so the delays the driver was told to
/// make amount to at least `retries * HEALTH_RETRY_DELAY_SECS` seconds.
pub struct HealthGate {
    pub attempts: u64,
    pub retries: u64,
    pub finished: bool,
}

impl HealthGate {
    /// Within budget, and every recorded probe but at most the last asked
    /// for one delay.
    pub open spec fn wf(self) -> bool {
        &&& self.attempts <= HEALTH_MAX_ATTEMPTS
        &&& (self.attempts == HEALTH_MAX_ATTEMPTS ==> self.finished)
        &&& (self.finished ==> self.retries + 1 == self.attempts)
        &&& (!self.finished ==> self.retries == self.attempts)
    }

    /// The least time, in seconds, that recording these probes can have taken
    /// the driver, from the mandated inter-attempt delays alone.
    pub open spec fn spec_min_elapsed_secs(self) -> nat {
        (self.retries * HEALTH_RETRY_DELAY_SECS) as nat
    }

    /// A fresh gate with the whole budget ahead of it.
    pub fn new() -> (g: HealthGate)
        ensures
            g.wf(),
            g.attempts == 0,
            g.retries == 0,
            !g.finished,
    {
        HealthGate { attempts: 0, retries: 0, finished: false }
    }

    /// Record one probe outcome and answer what the driver must do next.
    pub fn record_probe(&mut self, healthy: bool) -> (step: HealthStep)
        requires
            old(self).wf(),
            !old(self).finished,
        ensures
            final(self).wf(),
            step == spec_gate_decision(old(self).attempts as nat, healthy),
            final(self).attempts == old(self).attempts + 1,
            final(self).retries == old(self).retries + (if step is Retry { 1int } else { 0int }),
            final(self).finished == !(step is Retry),
    {
        self.attempts = self.attempts + 1;
        if healthy {
            self.finished = true;
            HealthStep::Ready
        } else if self.attempts >= HEALTH_MAX_ATTEMPTS {
            self.finished = true;
            HealthStep::Timeout
        } else {
            self.retries = self.retries + 1;
            HealthStep::Retry
        }
    }
}

/// A gate whose endpoint first succeeds on attempt `k` (with `k` within the
/// budget) answers `Retry` to each of the `k - 1` failures before it and
/// `Ready` to attempt `k` itself: the driver makes exactly `k` probes and is
/// told to wait `k - 1` delays, so at least `(k - 1) * HEALTH_RETRY_DELAY_SECS`
/// seconds pass before success.
pub proof fn lemma_gate_succeeds_at_k(outcomes: Seq<bool>, k: int)
    requires
        1 <= k <= HEALTH_MAX_ATTEMPTS,
        outcomes.len() >= k,
        forall|i: int| 0 <= i < k - 1 ==> !outcomes[i],
        outcomes[k - 1],
    ensures
        forall|i: int| 0 <= i < k - 1 ==> spec_gate_decision(i as nat, outcomes[i]) is Retry,
        spec_gate_decision((k - 1) as nat, outcomes[k - 1]) is Ready,
        (HealthGate {
            attempts: k as u64,
            retries: (k - 1) as u64,
            finished: true,
        }).spec_min_elapsed_secs() == (k - 1) * HEALTH_RETRY_DELAY_SECS,
{
}

/// A gate whose endpoint never succeeds answers `Retry` to every attempt but
/// the last and `Timeout` to attempt `HEALTH_MAX_ATTEMPTS`: the driver makes
/// exactly the budgeted number of probes and then gives up.
pub proof fn lemma_gate_exhausts(outcomes: Seq<bool>)
    requires
        outcomes.len() >= HEALTH_MAX_ATTEMPTS,
        forall|i: int| 0 <= i < HEALTH_MAX_ATTEMPTS ==> !outcomes[i],
    ensures
        forall|i: int|
            0 <= i < HEALTH_MAX_ATTEMPTS - 1 ==> spec_gate_decision(i as nat, outcomes[i]) is Retry,
        spec_gate_decision((HEALTH_MAX_ATTEMPTS - 1) as nat, outcomes[HEALTH_MAX_ATTEMPTS - 1])
            is Timeout,
{
}

} // verus!
