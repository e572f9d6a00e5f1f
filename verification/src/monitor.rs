//! The status monitor: what the periodic health report says, and how the
//! reports are paced.
//!
//! The monitor runs for as long as the application does. Each round reads
//! the configuration anew, probes the gateway that it names, and publishes
//! one of three states.
//!
//! Every observer gets the same status string. The user interface gets it
//! as it is; the tray shows it in a menu entry among the menu's commands,
//! behind a fixed label that says what the entry is.

use crate::config::OpenClawConfig;
use vstd::prelude::*;
use vstd::string::StringExecFns;

verus! {

/// The pause before the first round, in seconds: short, so that the first
/// report comes soon.
pub const FIRST_ROUND_DELAY_SECS: u64 = 5;

/// The pause before every later round, in seconds.
pub const ROUND_INTERVAL_SECS: u64 = 15;

/// What the monitor reports of the gateway.
#[derive(Debug, Clone, Copy, PartialEq, Eq, Structural)]
pub enum HealthStatus {
    /// The gateway answered the probe.
    Online,
    /// The gateway did not answer.
    Offline,
    /// The configuration could not be read, so there is nothing to probe.
    NoConfig,
}

/// What a round does after it has read the configuration.
#[derive(Debug, Clone, PartialEq, Eq)]
pub enum RoundStep {
    /// Probe the gateway at `base_url`, then report the verdict.
    Probe { base_url: String },
    /// Publish `status` without a probe.
    Publish { status: HealthStatus },
}

/// `RoundStep` as mathematical values.
pub enum RoundStepView {
    Probe { base_url: Seq<char> },
    Publish { status: HealthStatus },
}

impl View for RoundStep {
    type V = RoundStepView;

    open spec fn view(&self) -> RoundStepView {
        match *self {
            RoundStep::Probe { base_url } => RoundStepView::Probe { base_url: base_url@ },
            RoundStep::Publish { status } => RoundStepView::Publish { status },
        }
    }
}

/// The pause before round number `round`, counted from zero.
pub open spec fn pause_before(round: u64) -> u64 {
    if round == 0 {
        FIRST_ROUND_DELAY_SECS
    } else {
        ROUND_INTERVAL_SECS
    }
}

/// What a round does with the configuration that it read.
pub open spec fn round_step_of(config: Result<OpenClawConfig, String>) -> RoundStepView {
    match config {
        Ok(cfg) => RoundStepView::Probe { base_url: cfg.gateway.spec_base_url() },
        Err(_) => RoundStepView::Publish { status: HealthStatus::NoConfig },
    }
}

/// The state that stands for a verdict of the probe.
pub open spec fn status_of(healthy: bool) -> HealthStatus {
    if healthy {
        HealthStatus::Online
    } else {
        HealthStatus::Offline
    }
}

/// The state that a round publishes: no configuration, or else what the
/// probe found.
pub open spec fn round_status(config: Result<OpenClawConfig, String>, healthy: bool)
    -> HealthStatus {
    match round_step_of(config) {
        RoundStepView::Probe { .. } => status_of(healthy),
        RoundStepView::Publish { status } => status,
    }
}

/// The status string of a state, as every observer gets it.
pub open spec fn status_text_of(status: HealthStatus) -> Seq<char> {
    match status {
        HealthStatus::Online => "online"@,
        HealthStatus::Offline => "offline"@,
        HealthStatus::NoConfig => "no config"@,
    }
}

/// The text of the tray's status entry: the status string behind the
/// entry's label.
pub open spec fn tray_label_of(status: HealthStatus) -> Seq<char> {
    "Status: "@ + status_text_of(status)
}

/// How long to sleep before round number `round`, counted from zero.
pub fn round_pause_secs(round: u64) -> (secs: u64)
    ensures
        secs == pause_before(round),
{
    if round == 0 {
        FIRST_ROUND_DELAY_SECS
    } else {
        ROUND_INTERVAL_SECS
    }
}

/// Begins a round with the configuration that was read: a gateway to
/// probe, or the report that there is no configuration.
pub fn begin_round(config: Result<OpenClawConfig, String>) -> (step: RoundStep)
    ensures
        step@ == round_step_of(config),
{
    match config {
        Ok(cfg) => RoundStep::Probe { base_url: cfg.gateway.base_url() },
        Err(_) => RoundStep::Publish { status: HealthStatus::NoConfig },
    }
}

/// The state that stands for a verdict of the probe.
pub fn status_from_probe(healthy: bool) -> (status: HealthStatus)
    ensures
        status == status_of(healthy),
{
    if healthy {
        HealthStatus::Online
    } else {
        HealthStatus::Offline
    }
}

/// The status string of `status`, as every observer gets it.
pub fn status_text(status: HealthStatus) -> (text: &'static str)
    ensures
        text@ == status_text_of(status),
{
    match status {
        HealthStatus::Online => "online",
        HealthStatus::Offline => "offline",
        HealthStatus::NoConfig => "no config",
    }
}

/// The text of the tray's status entry for `status`.
pub fn tray_label(status: HealthStatus) -> (label: String)
    ensures
        label@ == tray_label_of(status),
{
    let mut label = String::from_str("Status: ");
    label.append(status_text(status));
    label
}

/// A round reports that there is no configuration exactly when the
/// configuration could not be read, and then without a probe; otherwise it
/// reports what the probe found.
pub proof fn law_round_status(config: Result<OpenClawConfig, String>, healthy: bool)
    ensures
        round_status(config, healthy) == HealthStatus::NoConfig <==> config is Err,
        config is Err ==> round_step_of(config) is Publish,
        config is Ok ==> round_step_of(config) is Probe,
        config is Ok ==> (round_status(config, healthy) == HealthStatus::Online <==> healthy),
        config is Ok ==> (round_status(config, healthy) == HealthStatus::Offline <==> !healthy),
{
}

} // verus!
