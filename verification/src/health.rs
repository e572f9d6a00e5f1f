//! The health probe: how one liveness check of the gateway proceeds, and
//! how long a newly started gateway is waited for.
//!
//! The probe itself performs no request and does not sleep. It says which
//! request to make next, and with which timeout, and judges what came
//! back; the caller makes the request and sleeps.

use crate::text::concat2;
use crate::text::decimal;
use crate::text::decimal_string;
use vstd::prelude::*;
use vstd::string::StringExecFns;

verus! {

/// How long one request of a probe may take, in seconds.
pub const PROBE_TIMEOUT_SECS: u64 = 3;

/// The pause before each probe of a readiness wait, in milliseconds.
pub const POLL_INTERVAL_MS: u64 = 500;

/// What came of one request.
#[derive(Debug, Clone, Copy, PartialEq, Eq, Structural)]
pub enum ProbeResponse {
    /// A response arrived, with this status code.
    Status(u16),
    /// No response: the connection failed or the request timed out.
    Failed,
}

/// Which request of a check is under way.
#[derive(Debug, Clone, Copy, PartialEq, Eq, Structural)]
pub enum ProbeStage {
    /// The request to the dedicated health path.
    Health,
    /// The request to the root path, which stands in for a gateway that
    /// offers no health path.
    Root,
}

/// What a check asks for next.
#[derive(Debug, Clone, PartialEq, Eq)]
pub enum ProbeStep {
    /// Fetch `url`, giving up after `timeout_secs` seconds, then report
    /// the response for `stage`.
    Request { stage: ProbeStage, url: String, timeout_secs: u64 },
    /// The check is over, with this verdict.
    Done(bool),
}

/// `ProbeStep` as mathematical values.
pub enum ProbeStepView {
    Request { stage: ProbeStage, url: Seq<char>, timeout_secs: u64 },
    Done(bool),
}

impl View for ProbeStep {
    type V = ProbeStepView;

    open spec fn view(&self) -> ProbeStepView {
        match *self {
            ProbeStep::Request { stage, url, timeout_secs } => ProbeStepView::Request {
                stage,
                url: url@,
                timeout_secs,
            },
            ProbeStep::Done(ok) => ProbeStepView::Done(ok),
        }
    }
}

/// Whether a status code is of the success class.
pub open spec fn status_is_success(code: u16) -> bool {
    200 <= code < 300
}

/// Whether a response speaks for a live gateway: only a response with a
/// status of the success class does.
pub open spec fn response_is_success(response: ProbeResponse) -> bool {
    match response {
        ProbeResponse::Status(code) => status_is_success(code),
        ProbeResponse::Failed => false,
    }
}

/// The address of the health path below `base`.
pub open spec fn health_url_of(base: Seq<char>) -> Seq<char> {
    base + "/health"@
}

/// The first step of a check: the request to the health path.
pub open spec fn probe_first(base: Seq<char>) -> ProbeStepView {
    ProbeStepView::Request {
        stage: ProbeStage::Health,
        url: health_url_of(base),
        timeout_secs: PROBE_TIMEOUT_SECS,
    }
}

/// The step that follows `response` to the request of `stage`. A failed
/// health request is followed by one request to the root path; nothing
/// follows the root request.
pub open spec fn probe_next(stage: ProbeStage, base: Seq<char>, response: ProbeResponse)
    -> ProbeStepView {
    if response_is_success(response) {
        ProbeStepView::Done(true)
    } else {
        match stage {
            ProbeStage::Health => ProbeStepView::Request {
                stage: ProbeStage::Root,
                url: base,
                timeout_secs: PROBE_TIMEOUT_SECS,
            },
            ProbeStage::Root => ProbeStepView::Done(false),
        }
    }
}

/// The verdict of a check whose health request is answered by `health` and
/// whose root request, if it comes to that, by `root`.
pub open spec fn probe_verdict(base: Seq<char>, health: ProbeResponse, root: ProbeResponse)
    -> bool {
    match probe_next(ProbeStage::Health, base, health) {
        ProbeStepView::Done(ok) => ok,
        ProbeStepView::Request { stage, .. } => match probe_next(stage, base, root) {
            ProbeStepView::Done(ok) => ok,
            ProbeStepView::Request { .. } => false,
        },
    }
}

/// Tells whether `code` is a status of the success class.
pub fn is_success(code: u16) -> (ok: bool)
    ensures
        ok == status_is_success(code),
{
    200 <= code && code < 300
}

/// Tells whether `response` speaks for a live gateway.
pub fn succeeded(response: ProbeResponse) -> (ok: bool)
    ensures
        ok == response_is_success(response),
{
    match response {
        ProbeResponse::Status(code) => is_success(code),
        ProbeResponse::Failed => false,
    }
}

/// Begins a check of the gateway at `base_url`.
pub fn begin_check(base_url: &str) -> (step: ProbeStep)
    ensures
        step@ == probe_first(base_url@),
{
    ProbeStep::Request {
        stage: ProbeStage::Health,
        url: concat2(base_url, "/health"),
        timeout_secs: PROBE_TIMEOUT_SECS,
    }
}

/// Continues a check with the response to the request of `stage`.
pub fn continue_check(stage: ProbeStage, base_url: &str, response: ProbeResponse) -> (step:
    ProbeStep)
    ensures
        step@ == probe_next(stage, base_url@, response),
{
    if succeeded(response) {
        ProbeStep::Done(true)
    } else {
        match stage {
            ProbeStage::Health => ProbeStep::Request {
                stage: ProbeStage::Root,
                url: String::from_str(base_url),
                timeout_secs: PROBE_TIMEOUT_SECS,
            },
            ProbeStage::Root => ProbeStep::Done(false),
        }
    }
}

/// A check finds the gateway alive exactly when the health path answers
/// with success, or the health path does not and the root path does. It
/// makes at most two requests, the second one only after the first failed,
/// and to the base address itself.
pub proof fn law_check_health(base: Seq<char>, health: ProbeResponse, root: ProbeResponse)
    ensures
        response_is_success(health) ==> probe_verdict(base, health, root),
        !response_is_success(health) && response_is_success(root) ==> probe_verdict(
            base,
            health,
            root,
        ),
        !response_is_success(health) && !response_is_success(root) ==> !probe_verdict(
            base,
            health,
            root,
        ),
        probe_verdict(base, health, root) == (response_is_success(health) || response_is_success(
            root,
        )),
        response_is_success(health) ==> probe_next(ProbeStage::Health, base, health)
            == ProbeStepView::Done(true),
        !response_is_success(health) ==> probe_next(ProbeStage::Health, base, health)
            == (ProbeStepView::Request {
            stage: ProbeStage::Root,
            url: base,
            timeout_secs: PROBE_TIMEOUT_SECS,
        }),
        probe_next(ProbeStage::Root, base, root) is Done,
{
}

/// A bounded wait for a gateway to become healthy: a pause and a probe,
/// again and again, until a probe succeeds or the budget is used up.
#[derive(Debug, Clone, Copy, PartialEq, Eq, Structural)]
pub struct ReadinessWait {
    /// The budget, in seconds.
    pub max_secs: u32,
    /// How many probes have been reported.
    pub probes: u64,
}

/// What a readiness wait asks for next.
#[derive(Debug, Clone, Copy, PartialEq, Eq, Structural)]
pub enum WaitStep {
    /// Sleep for `millis` milliseconds, run one check, report its verdict.
    PauseThenProbe { millis: u64 },
    /// The gateway answered, after about `after_ms` milliseconds of pauses.
    Ready { after_ms: u64 },
    /// The budget of `after_secs` seconds is used up.
    TimedOut { after_secs: u32 },
}

/// How many probes a budget of `max_secs` seconds allows.
pub open spec fn max_probes(max_secs: u32) -> nat {
    (max_secs * 2) as nat
}

/// The step that a wait is at before any verdict is reported, and again
/// after each failed probe.
pub open spec fn wait_pending(max_secs: u32, probes: nat) -> WaitStep {
    if probes < max_probes(max_secs) {
        WaitStep::PauseThenProbe { millis: POLL_INTERVAL_MS }
    } else {
        WaitStep::TimedOut { after_secs: max_secs }
    }
}

/// The wait after the verdict `healthy` of one more probe. A verdict that
/// arrives after the budget is used up changes nothing.
pub open spec fn wait_after(w: ReadinessWait, healthy: bool) -> (ReadinessWait, WaitStep) {
    if w.probes >= max_probes(w.max_secs) {
        (w, WaitStep::TimedOut { after_secs: w.max_secs })
    } else {
        let next = ReadinessWait { max_secs: w.max_secs, probes: (w.probes + 1) as u64 };
        if healthy {
            (next, WaitStep::Ready { after_ms: ((w.probes + 1) * POLL_INTERVAL_MS) as u64 })
        } else {
            (next, wait_pending(w.max_secs, (w.probes + 1) as nat))
        }
    }
}

/// The time that a wait has spent in pauses, in milliseconds.
pub open spec fn paused_ms(w: ReadinessWait) -> nat {
    (w.probes * POLL_INTERVAL_MS) as nat
}

/// A wait that has not asked for more probes than its budget allows.
pub open spec fn within_budget(w: ReadinessWait) -> bool {
    w.probes <= max_probes(w.max_secs)
}

impl ReadinessWait {
    /// A wait with a budget of `max_secs` seconds, and its first step.
    pub fn begin(max_secs: u32) -> (r: (ReadinessWait, WaitStep))
        ensures
            r.0 == (ReadinessWait { max_secs, probes: 0 }),
            r.1 == wait_pending(max_secs, 0),
            within_budget(r.0),
    {
        let w = ReadinessWait { max_secs, probes: 0 };
        let step = if max_secs > 0 {
            WaitStep::PauseThenProbe { millis: POLL_INTERVAL_MS }
        } else {
            WaitStep::TimedOut { after_secs: max_secs }
        };
        (w, step)
    }

    /// Takes the verdict of the probe that the last step asked for, and
    /// says what comes next.
    pub fn report(&mut self, healthy: bool) -> (step: WaitStep)
        ensures
            (*final(self), step) == wait_after(*old(self), healthy),
            within_budget(*old(self)) ==> within_budget(*final(self)),
    {
        let limit: u64 = (self.max_secs as u64) * 2;
        if self.probes >= limit {
            WaitStep::TimedOut { after_secs: self.max_secs }
        } else {
            self.probes = self.probes + 1;
            if healthy {
                WaitStep::Ready { after_ms: self.probes * POLL_INTERVAL_MS }
            } else if self.probes < limit {
                WaitStep::PauseThenProbe { millis: POLL_INTERVAL_MS }
            } else {
                WaitStep::TimedOut { after_secs: self.max_secs }
            }
        }
    }
}

/// What a wait has to say when it ends.
pub open spec fn wait_message(step: WaitStep) -> Option<Seq<char>> {
    match step {
        WaitStep::PauseThenProbe { .. } => None,
        WaitStep::Ready { after_ms } => Some(
            "Gateway ready after ~"@ + decimal(after_ms as nat) + "ms"@,
        ),
        WaitStep::TimedOut { after_secs } => Some(
            "Gateway not ready after "@ + decimal(after_secs as nat) + "s, UI will retry"@,
        ),
    }
}

/// The log line for the end of a wait; none while the wait goes on.
pub fn wait_log_line(step: WaitStep) -> (line: Option<String>)
    ensures
        line is Some <==> wait_message(step) is Some,
        line matches Some(l) ==> wait_message(step) == Some(l@),
{
    match step {
        WaitStep::PauseThenProbe { .. } => None,
        WaitStep::Ready { after_ms } => {
            let mut l = String::from_str("Gateway ready after ~");
            l.append(decimal_string(after_ms).as_str());
            l.append("ms");
            Some(l)
        },
        WaitStep::TimedOut { after_secs } => {
            let mut l = String::from_str("Gateway not ready after ");
            l.append(decimal_string(after_secs as u64).as_str());
            l.append("s, UI will retry");
            Some(l)
        },
    }
}

/// The wait after the verdicts `verdicts`, reported one after the other.
pub open spec fn wait_run(w: ReadinessWait, verdicts: Seq<bool>) -> ReadinessWait
    decreases verdicts.len(),
{
    if verdicts.len() == 0 {
        w
    } else {
        wait_after(wait_run(w, verdicts.drop_last()), verdicts.last()).0
    }
}

/// Whatever the probes report, a wait never pauses for longer than its
/// budget: it asks for a pause only while fewer probes were made than the
/// budget allows, so the pauses add up to `max_secs` seconds at most.
pub proof fn law_wait_is_bounded(max_secs: u32, verdicts: Seq<bool>)
    ensures
        within_budget(wait_run(ReadinessWait { max_secs, probes: 0 }, verdicts)),
        wait_run(ReadinessWait { max_secs, probes: 0 }, verdicts).max_secs == max_secs,
        wait_run(ReadinessWait { max_secs, probes: 0 }, verdicts).probes <= verdicts.len(),
        paused_ms(wait_run(ReadinessWait { max_secs, probes: 0 }, verdicts)) <= max_secs * 1000,
    decreases verdicts.len(),
{
    if verdicts.len() > 0 {
        law_wait_is_bounded(max_secs, verdicts.drop_last());
    }
}

/// A wait asks for another pause only while its budget allows another
/// probe, and a wait whose budget is used up stays timed out.
pub proof fn law_wait_ends(w: ReadinessWait, healthy: bool)
    requires
        within_budget(w),
    ensures
        within_budget(wait_after(w, healthy).0),
        wait_after(w, healthy).1 is PauseThenProbe ==> wait_after(w, healthy).0.probes
            < max_probes(w.max_secs),
        wait_after(w, healthy).1 matches WaitStep::Ready { after_ms } ==> healthy && after_ms
            <= w.max_secs * 1000,
        w.probes == max_probes(w.max_secs) ==> wait_after(w, healthy) == (
            w,
            WaitStep::TimedOut { after_secs: w.max_secs },
        ),
{
}

} // verus!
