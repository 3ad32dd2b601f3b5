//! Heartbeat stall detection: the decision rule applied at each monitoring
//! wake-up, given the time elapsed since the last pulse.
//!
//! The periodic waking, sleeping and channel plumbing live outside the
//! library; they feed elapsed times in and carry the produced events out.

use vstd::prelude::*;

use crate::timeout::TimeoutConfig;

verus! {

/// Events produced by heartbeat monitoring.
#[derive(Clone, Debug, PartialEq, Eq, Structural)]
pub enum HeartbeatEvent {
    /// Heartbeats are being missed but the threshold is not yet reached.
    Warning { missed: u32, elapsed_secs: u64, remaining_secs: u64 },
    /// The missed-heartbeats threshold has been reached.
    StallDetected { missed: u32, elapsed_secs: u64, threshold_secs: u64 },
}

/// Monitoring state carried between wake-ups: the warning level already
/// reported, so that each level is announced once.
#[derive(Clone, Debug, PartialEq, Eq, Structural)]
pub struct HeartbeatState {
    pub last_warning_sent: Option<u32>,
}

impl HeartbeatState {
    /// The state at the start of monitoring, and after each pulse.
    pub fn new() -> (r: Self)
        ensures
            r.last_warning_sent is None,
    {
        HeartbeatState { last_warning_sent: None }
    }
}

/// The number of whole heartbeat intervals contained in `elapsed`.
pub open spec fn spec_missed_beats(elapsed_ms: u64, interval_ms: u64) -> int {
    if interval_ms == 0 {
        0
    } else {
        elapsed_ms as int / interval_ms as int
    }
}

/// What one monitoring wake-up decides, given the whole missed-beat count.
///
/// - `missed >= threshold` yields `StallDetected` and clears the memo;
/// - `missed == threshold - 1` and `missed > 0` yields `Warning` unless one
///   was already sent for this level;
/// - `missed == 0` clears the memo and yields nothing.
pub open spec fn spec_heartbeat_check(
    config: TimeoutConfig,
    state: HeartbeatState,
    elapsed_ms: u64,
) -> (Option<HeartbeatEvent>, HeartbeatState) {
    let missed0 = spec_missed_beats(elapsed_ms, config.heartbeat_interval.millis);
    let missed = (if missed0 > u32::MAX { u32::MAX as int } else { missed0 }) as u32;
    let threshold = config.missed_heartbeats_threshold;
    let elapsed_secs = (elapsed_ms / 1000) as u64;
    let threshold_secs = ((config.heartbeat_interval.millis / 1000) as int * threshold as int) as u64;
    if missed >= threshold {
        (
            Some(HeartbeatEvent::StallDetected { missed, elapsed_secs, threshold_secs }),
            HeartbeatState { last_warning_sent: None },
        )
    } else if missed > 0 && missed + 1 >= threshold {
        if state.last_warning_sent == Some(missed) {
            (None, state)
        } else {
            let remaining_secs = (if threshold_secs >= elapsed_secs {
                threshold_secs - elapsed_secs
            } else {
                0int
            }) as u64;
            (
                Some(HeartbeatEvent::Warning { missed, elapsed_secs, remaining_secs }),
                HeartbeatState { last_warning_sent: Some(missed) },
            )
        }
    } else if missed == 0 {
        (None, HeartbeatState { last_warning_sent: None })
    } else {
        (None, state)
    }
}

/// One monitoring wake-up: decide which event, if any, the elapsed time
/// since the last pulse calls for, and carry the warning memo forward.
pub fn heartbeat_check(config: &TimeoutConfig, state: HeartbeatState, elapsed_ms: u64) -> (r: (
    Option<HeartbeatEvent>,
    HeartbeatState,
))
    requires
        config.heartbeat_interval.millis > 0,
        config.heartbeat_interval.millis / 1000 * config.missed_heartbeats_threshold as u64
            <= u64::MAX,
    ensures
        r == spec_heartbeat_check(*config, state, elapsed_ms),
{
    let interval_ms = config.heartbeat_interval.millis;
    let threshold = config.missed_heartbeats_threshold;
    let missed_wide: u64 = elapsed_ms / interval_ms;
    let missed: u32 = if missed_wide > u32::MAX as u64 {
        u32::MAX
    } else {
        missed_wide as u32
    };
    let elapsed_secs = elapsed_ms / 1000;
    let threshold_secs = (interval_ms / 1000) * (threshold as u64);
    if missed >= threshold {
        (
            Some(HeartbeatEvent::StallDetected { missed, elapsed_secs, threshold_secs }),
            HeartbeatState { last_warning_sent: None },
        )
    } else if missed > 0 && missed + 1 >= threshold {
        let already = match state.last_warning_sent {
            Some(level) => level == missed,
            None => false,
        };
        if already {
            (None, state)
        } else {
            let remaining_secs = if threshold_secs >= elapsed_secs {
                threshold_secs - elapsed_secs
            } else {
                0
            };
            (
                Some(HeartbeatEvent::Warning { missed, elapsed_secs, remaining_secs }),
                HeartbeatState { last_warning_sent: Some(missed) },
            )
        }
    } else if missed == 0 {
        (None, HeartbeatState { last_warning_sent: None })
    } else {
        (None, state)
    }
}

} // verus!
