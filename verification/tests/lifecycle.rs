use bot_supervisor::supervisor::{
    start_message, stop_message, BotState, StopAction, SupervisorError, DEFAULT_GRACE_MS,
    DEFAULT_RESTART_PAUSE_MS,
};

#[test]
fn fresh_supervisor_has_no_worker() {
    let s = BotState::default();
    let st = s.status(0, false);
    assert!(!st.is_running);
    assert_eq!(st.uptime_seconds, 0);
    assert_eq!(st.pid, None);
    assert!(s.needs_fallback_probe());
}

#[test]
fn default_delays_match_the_protocol() {
    let s = BotState::default();
    assert_eq!(s.grace_ms, DEFAULT_GRACE_MS);
    assert_eq!(s.restart_pause_ms, DEFAULT_RESTART_PAUSE_MS);
    assert_eq!(DEFAULT_GRACE_MS, 500);
    assert_eq!(DEFAULT_RESTART_PAUSE_MS, 300);
}

#[test]
fn stop_on_fresh_supervisor_is_not_running() {
    let mut s = BotState::default();
    assert_eq!(s.stop(), Err(SupervisorError::NotRunning));
    // and nothing changed
    let st = s.status(5, false);
    assert!(!st.is_running);
    assert_eq!(st.pid, None);
}

#[test]
fn start_status_stop_status_round() {
    let mut s = BotState::default();
    assert!(s.start_attempt().is_ok());
    let msg = s.start_commit(4242, 100);
    assert_eq!(msg, "Bot started with PID: 4242");

    let st = s.status(100, false);
    assert!(st.is_running);
    assert_eq!(st.pid, Some(4242));
    assert_eq!(st.uptime_seconds, 0);

    let action = s.stop().expect("a tracked worker must be handed out");
    assert_eq!(action, StopAction { pid: 4242, grace_ms: 500 });
    assert_eq!(stop_message(), "Bot stopped successfully");

    let st = s.status(200, false);
    assert!(!st.is_running);
    assert_eq!(st.pid, None);
    assert_eq!(st.uptime_seconds, 0);
}

#[test]
fn only_the_first_start_succeeds() {
    let mut s = BotState::default();
    assert!(s.start_attempt().is_ok());
    s.start_commit(7, 10);
    // every further attempt, however many, is refused and changes nothing
    for _ in 0..3 {
        assert_eq!(s.start_attempt(), Err(SupervisorError::AlreadyRunning));
        let st = s.status(10, false);
        assert!(st.is_running);
        assert_eq!(st.pid, Some(7));
    }
}

#[test]
fn two_rival_starts_one_wins() {
    // Two callers race for an idle supervisor; exclusive access serializes
    // them, so exactly one passes the guard and commits.
    let mut s = BotState::default();
    let first = s.start_attempt();
    assert!(first.is_ok());
    let msg = s.start_commit(31, 0);
    assert!(msg.contains("31"));
    let second = s.start_attempt();
    assert_eq!(second, Err(SupervisorError::AlreadyRunning));
    let st = s.status(0, false);
    assert_eq!(st.pid, Some(31));
}

#[test]
fn restart_on_stopped_recovers_like_fresh_start() {
    let mut s = BotState::default();
    assert_eq!(s.restart_begin(), None);
    assert!(s.start_attempt().is_ok());
    let msg = s.start_commit(99, 50);
    assert_eq!(msg, start_message(99));
    assert!(s.status(50, false).is_running);
}

#[test]
fn restart_on_running_stops_first() {
    let mut s = BotState::default();
    s.start_commit(11, 0);
    let action = s.restart_begin();
    assert_eq!(action, Some(StopAction { pid: 11, grace_ms: 500 }));
    assert!(!s.status(1, false).is_running);
    assert!(s.start_attempt().is_ok());
    s.start_commit(12, 2);
    assert_eq!(s.status(2, false).pid, Some(12));
}

#[test]
fn uptime_never_decreases_until_stop_resets_it() {
    let mut s = BotState::new(500, 300);
    s.start_commit(5, 100);
    let mut last = 0;
    for now in [100u64, 101, 130, 500, 10_000] {
        let up = s.status(now, false).uptime_seconds;
        assert!(up >= last);
        assert_eq!(up, now - 100);
        last = up;
    }
    s.stop().unwrap();
    assert_eq!(s.status(10_001, false).uptime_seconds, 0);
}

#[test]
fn clock_before_start_reads_zero_uptime() {
    let mut s = BotState::default();
    s.start_commit(5, 100);
    assert_eq!(s.status(40, false).uptime_seconds, 0);
}

#[test]
fn fallback_probe_only_adds_when_untracked() {
    let mut s = BotState::default();
    assert!(s.needs_fallback_probe());
    // an externally started worker answers the probe
    let st = s.status(0, true);
    assert!(st.is_running);
    assert_eq!(st.pid, None);
    // a tracked worker does not consult the probe
    s.start_commit(8, 0);
    assert!(!s.needs_fallback_probe());
    assert!(s.status(0, false).is_running);
}

#[test]
fn health_reports_probes_only_with_a_pid() {
    let mut s = BotState::default();
    let h = s.health(0, false, true, Some(2048));
    assert!(!h.is_running);
    assert!(!h.is_responsive);
    assert_eq!(h.pid, None);
    assert_eq!(h.memory_kb, None);
    assert_eq!(h.uptime_seconds, 0);

    s.start_commit(21, 100);
    let h = s.health(160, false, true, Some(4096));
    assert!(h.is_running);
    assert!(h.is_responsive);
    assert_eq!(h.pid, Some(21));
    assert_eq!(h.memory_kb, Some(4096));
    assert_eq!(h.uptime_seconds, 60);

    let h = s.health(160, false, false, None);
    assert!(!h.is_responsive);
    assert_eq!(h.memory_kb, None);
}

#[test]
fn health_includes_the_fallback_probe_like_status() {
    // an externally started worker answers the endpoint: health, like
    // status, reports running — with no PID, no responsiveness, no memory
    let s = BotState::default();
    let h = s.health(0, true, true, Some(1024));
    assert!(h.is_running);
    assert!(!h.is_responsive);
    assert_eq!(h.pid, None);
    assert_eq!(h.memory_kb, None);
    assert_eq!(h.uptime_seconds, 0);
    let st = s.status(0, true);
    assert_eq!(h.is_running, st.is_running);
    assert_eq!(h.uptime_seconds, st.uptime_seconds);
    assert_eq!(h.pid, st.pid);
}

#[test]
fn error_messages_word_for_word() {
    assert_eq!(SupervisorError::AlreadyRunning.message(), "Bot is already running");
    assert_eq!(SupervisorError::NotRunning.message(), "Bot is not running");
    assert_eq!(
        SupervisorError::SpawnFailure(String::from("no such file")).message(),
        "Failed to start bot: no such file"
    );
    assert_eq!(
        SupervisorError::LockFailure(String::from("poisoned lock")).message(),
        "poisoned lock"
    );
}

#[test]
fn start_message_carries_the_pid_in_decimal() {
    assert_eq!(start_message(0), "Bot started with PID: 0");
    assert_eq!(start_message(1), "Bot started with PID: 1");
    assert_eq!(start_message(4294967295), "Bot started with PID: 4294967295");
}
