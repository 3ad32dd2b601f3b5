//! Timeout policy: duration limits for agent execution, iterations, git
//! operations, and heartbeat monitoring parameters.

use vstd::prelude::*;

use crate::duration::DurationMs;

verus! {

/// Duration limits for agent execution, with heartbeat parameters.
#[derive(Clone, Debug, PartialEq, Eq, Structural)]
pub struct TimeoutConfig {
    /// Maximum time allowed for overall agent execution.
    pub agent_timeout: DurationMs,
    /// Maximum time allowed for a single iteration.
    pub iteration_timeout: DurationMs,
    /// Interval between heartbeat checks.
    pub heartbeat_interval: DurationMs,
    /// Number of missed heartbeats before execution counts as stalled.
    pub missed_heartbeats_threshold: u32,
    /// Initial grace period before heartbeat monitoring begins.
    pub startup_grace_period: DurationMs,
    /// Maximum time allowed for a single git operation.
    pub git_timeout: DurationMs,
}

/// The default timeout policy: 600 s agent, 900 s iteration, 45 s heartbeat,
/// 4 missed beats, 120 s grace, 60 s git.
pub open spec fn default_timeout_config() -> TimeoutConfig {
    TimeoutConfig {
        agent_timeout: DurationMs { millis: 600_000 },
        iteration_timeout: DurationMs { millis: 900_000 },
        heartbeat_interval: DurationMs { millis: 45_000 },
        missed_heartbeats_threshold: 4,
        startup_grace_period: DurationMs { millis: 120_000 },
        git_timeout: DurationMs { millis: 60_000 },
    }
}

impl Default for TimeoutConfig {
    /// The default timeout policy.
    fn default() -> (r: Self)
        ensures
            r == default_timeout_config(),
    {
        TimeoutConfig {
            agent_timeout: DurationMs { millis: 600_000 },
            iteration_timeout: DurationMs { millis: 900_000 },
            heartbeat_interval: DurationMs { millis: 45_000 },
            missed_heartbeats_threshold: 4,
            startup_grace_period: DurationMs { millis: 120_000 },
            git_timeout: DurationMs { millis: 60_000 },
        }
    }
}

impl TimeoutConfig {
    /// The default timeout policy.
    pub fn new() -> (r: Self)
        ensures
            r == default_timeout_config(),
    {
        Self::default()
    }

    /// A timeout policy built from the given values.
    pub fn with_values(
        agent_timeout: DurationMs,
        iteration_timeout: DurationMs,
        heartbeat_interval: DurationMs,
        missed_heartbeats_threshold: u32,
        startup_grace_period: DurationMs,
        git_timeout: DurationMs,
    ) -> (r: Self)
        ensures
            r == (TimeoutConfig {
                agent_timeout,
                iteration_timeout,
                heartbeat_interval,
                missed_heartbeats_threshold,
                startup_grace_period,
                git_timeout,
            }),
    {
        TimeoutConfig {
            agent_timeout,
            iteration_timeout,
            heartbeat_interval,
            missed_heartbeats_threshold,
            startup_grace_period,
            git_timeout,
        }
    }

    /// The same policy with the agent timeout replaced.
    pub fn with_agent_timeout(self, timeout: DurationMs) -> (r: Self)
        ensures
            r == (TimeoutConfig { agent_timeout: timeout, ..self }),
    {
        TimeoutConfig { agent_timeout: timeout, ..self }
    }

    /// The same policy with the iteration timeout replaced.
    pub fn with_iteration_timeout(self, timeout: DurationMs) -> (r: Self)
        ensures
            r == (TimeoutConfig { iteration_timeout: timeout, ..self }),
    {
        TimeoutConfig { iteration_timeout: timeout, ..self }
    }

    /// The same policy with the heartbeat interval replaced.
    pub fn with_heartbeat_interval(self, interval: DurationMs) -> (r: Self)
        ensures
            r == (TimeoutConfig { heartbeat_interval: interval, ..self }),
    {
        TimeoutConfig { heartbeat_interval: interval, ..self }
    }

    /// The same policy with the missed-heartbeats threshold replaced.
    pub fn with_missed_heartbeats_threshold(self, threshold: u32) -> (r: Self)
        ensures
            r == (TimeoutConfig { missed_heartbeats_threshold: threshold, ..self }),
    {
        TimeoutConfig { missed_heartbeats_threshold: threshold, ..self }
    }

    /// The same policy with the startup grace period replaced.
    pub fn with_startup_grace_period(self, grace_period: DurationMs) -> (r: Self)
        ensures
            r == (TimeoutConfig { startup_grace_period: grace_period, ..self }),
    {
        TimeoutConfig { startup_grace_period: grace_period, ..self }
    }

    /// The same policy with the git timeout replaced.
    pub fn with_git_timeout(self, timeout: DurationMs) -> (r: Self)
        ensures
            r == (TimeoutConfig { git_timeout: timeout, ..self }),
    {
        TimeoutConfig { git_timeout: timeout, ..self }
    }
}

} // verus!
