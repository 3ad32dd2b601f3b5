use ralph_core::duration::DurationMs;
use ralph_core::heartbeat::{heartbeat_check, HeartbeatEvent, HeartbeatState};
use ralph_core::timeout::TimeoutConfig;

#[test]
fn test_default_agent_timeout() {
    let config = TimeoutConfig::default();
    assert_eq!(config.agent_timeout, DurationMs::from_secs(600));
}

#[test]
fn test_default_iteration_timeout() {
    let config = TimeoutConfig::default();
    assert_eq!(config.iteration_timeout, DurationMs::from_secs(900));
}

#[test]
fn test_default_heartbeat_interval() {
    let config = TimeoutConfig::default();
    assert_eq!(config.heartbeat_interval, DurationMs::from_secs(45));
}

#[test]
fn test_default_missed_heartbeats_threshold() {
    let config = TimeoutConfig::default();
    assert_eq!(config.missed_heartbeats_threshold, 4);
}

#[test]
fn test_default_startup_grace_period() {
    let config = TimeoutConfig::default();
    assert_eq!(config.startup_grace_period, DurationMs::from_secs(120));
}

#[test]
fn test_default_git_timeout() {
    let config = TimeoutConfig::default();
    assert_eq!(config.git_timeout, DurationMs::from_secs(60));
}

#[test]
fn test_new_returns_default() {
    let config = TimeoutConfig::new();
    let default_config = TimeoutConfig::default();
    assert_eq!(config, default_config);
}

#[test]
fn test_with_values() {
    let config = TimeoutConfig::with_values(
        DurationMs::from_secs(120),
        DurationMs::from_secs(300),
        DurationMs::from_secs(10),
        5,
        DurationMs::from_secs(60),
        DurationMs::from_secs(45),
    );

    assert_eq!(config.agent_timeout, DurationMs::from_secs(120));
    assert_eq!(config.iteration_timeout, DurationMs::from_secs(300));
    assert_eq!(config.heartbeat_interval, DurationMs::from_secs(10));
    assert_eq!(config.missed_heartbeats_threshold, 5);
    assert_eq!(config.startup_grace_period, DurationMs::from_secs(60));
    assert_eq!(config.git_timeout, DurationMs::from_secs(45));
}

#[test]
fn mod_test_builder_pattern() {
    let config = TimeoutConfig::new()
        .with_agent_timeout(DurationMs::from_secs(300))
        .with_iteration_timeout(DurationMs::from_secs(600))
        .with_heartbeat_interval(DurationMs::from_secs(15))
        .with_missed_heartbeats_threshold(5)
        .with_startup_grace_period(DurationMs::from_secs(90))
        .with_git_timeout(DurationMs::from_secs(30));

    assert_eq!(config.agent_timeout, DurationMs::from_secs(300));
    assert_eq!(config.iteration_timeout, DurationMs::from_secs(600));
    assert_eq!(config.heartbeat_interval, DurationMs::from_secs(15));
    assert_eq!(config.missed_heartbeats_threshold, 5);
    assert_eq!(config.startup_grace_period, DurationMs::from_secs(90));
    assert_eq!(config.git_timeout, DurationMs::from_secs(30));
}

#[test]
fn test_config_equality() {
    let config1 = TimeoutConfig::default();
    let config2 = TimeoutConfig::default();
    assert_eq!(config1, config2);
}

#[test]
fn test_config_clone() {
    let config1 = TimeoutConfig::default();
    let config2 = config1.clone();
    assert_eq!(config1, config2);
}

#[test]
fn test_heartbeat_no_missed_beats() {
    let config = TimeoutConfig::new()
        .with_heartbeat_interval(DurationMs::from_secs(10))
        .with_missed_heartbeats_threshold(3);
    let (event, state) = heartbeat_check(&config, HeartbeatState::new(), 5_000);
    assert!(event.is_none());
    assert!(state.last_warning_sent.is_none());
}

#[test]
fn test_heartbeat_warning_at_threshold_minus_one() {
    let config = TimeoutConfig::new()
        .with_heartbeat_interval(DurationMs::from_secs(10))
        .with_missed_heartbeats_threshold(3);
    // 25 s elapsed with a 10 s interval: two whole beats missed.
    let (event, state) = heartbeat_check(&config, HeartbeatState::new(), 25_000);
    match event {
        Some(HeartbeatEvent::Warning { missed, elapsed_secs, remaining_secs }) => {
            assert_eq!(missed, 2);
            assert_eq!(elapsed_secs, 25);
            assert_eq!(remaining_secs, 5);
        }
        other => panic!("expected a warning, got {:?}", other),
    }
    assert_eq!(state.last_warning_sent, Some(2));
}

#[test]
fn test_heartbeat_warning_not_repeated() {
    let config = TimeoutConfig::new()
        .with_heartbeat_interval(DurationMs::from_secs(10))
        .with_missed_heartbeats_threshold(3);
    let (_, state) = heartbeat_check(&config, HeartbeatState::new(), 25_000);
    let (event, _) = heartbeat_check(&config, state, 27_000);
    assert!(event.is_none());
}

#[test]
fn test_heartbeat_stall_at_threshold() {
    let config = TimeoutConfig::new()
        .with_heartbeat_interval(DurationMs::from_secs(10))
        .with_missed_heartbeats_threshold(3);
    let (event, state) = heartbeat_check(&config, HeartbeatState::new(), 31_000);
    match event {
        Some(HeartbeatEvent::StallDetected { missed, elapsed_secs, threshold_secs }) => {
            assert_eq!(missed, 3);
            assert_eq!(elapsed_secs, 31);
            assert_eq!(threshold_secs, 30);
        }
        other => panic!("expected a stall, got {:?}", other),
    }
    assert!(state.last_warning_sent.is_none());
}

#[test]
fn test_heartbeat_pulse_resets_memo() {
    let config = TimeoutConfig::new()
        .with_heartbeat_interval(DurationMs::from_secs(10))
        .with_missed_heartbeats_threshold(3);
    let (_, warned) = heartbeat_check(&config, HeartbeatState::new(), 25_000);
    assert!(warned.last_warning_sent.is_some());
    // A pulse resets the elapsed time; the next wake-up sees no missed
    // beats and clears the memo.
    let (event, state) = heartbeat_check(&config, warned, 2_000);
    assert!(event.is_none());
    assert!(state.last_warning_sent.is_none());
}
