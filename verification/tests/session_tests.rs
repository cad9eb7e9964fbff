//! Session tests: liveness window behavior, phase transitions, and the
//! connect-retry policy.

use hexbridge::session::{
    connect_decision, phase_step, ConnectAttempt, ConnectDecision, LivenessMonitor, Phase,
    SessionEvent, CONNECT_TIMEOUT_MS, LIVENESS_TIMEOUT_MS, TELEMETRY_INTERVAL_MS,
};

#[test]
fn liveness_window_resets_on_frame() {
    let mut m = LivenessMonitor::new(0, LIVENESS_TIMEOUT_MS);
    // Quiet but within the window: not fatal.
    assert!(!m.on_tick(2999));
    // A frame arrives: the window restarts from its arrival time.
    m.on_frame(2000);
    assert!(!m.on_tick(4999));
    // The full window passes with no further frame: fatal.
    assert!(m.on_tick(5000));
    assert!(m.fatal);
}

#[test]
fn liveness_fatal_without_any_frame() {
    let mut m = LivenessMonitor::new(100, LIVENESS_TIMEOUT_MS);
    assert!(m.on_tick(100 + LIVENESS_TIMEOUT_MS));
}

#[test]
fn session_phases_in_order() {
    let mut p = Phase::Disconnected;
    p = phase_step(p, SessionEvent::ConnectStarted);
    assert_eq!(p, Phase::Connecting);
    p = phase_step(p, SessionEvent::ConnectFailed);
    assert_eq!(p, Phase::Connecting);
    p = phase_step(p, SessionEvent::ConnectOpened);
    assert_eq!(p, Phase::Connected);
    p = phase_step(p, SessionEvent::HandshakeIssued);
    assert_eq!(p, Phase::HandshakeSent);
    p = phase_step(p, SessionEvent::FrameHandled);
    assert_eq!(p, Phase::Ready);
    p = phase_step(p, SessionEvent::FrameHandled);
    assert_eq!(p, Phase::Ready);
}

#[test]
fn faulted_is_terminal() {
    let p = phase_step(Phase::Ready, SessionEvent::FatalFault);
    assert_eq!(p, Phase::Faulted);
    for ev in [
        SessionEvent::ConnectStarted,
        SessionEvent::ConnectFailed,
        SessionEvent::ConnectOpened,
        SessionEvent::HandshakeIssued,
        SessionEvent::FrameHandled,
        SessionEvent::FatalFault,
    ] {
        assert_eq!(phase_step(Phase::Faulted, ev), Phase::Faulted);
    }
}

#[test]
fn connect_policy_retries_until_open() {
    assert_eq!(connect_decision(ConnectAttempt::Opened), ConnectDecision::Proceed);
    assert_eq!(connect_decision(ConnectAttempt::Failed), ConnectDecision::RetryImmediately);
    assert_eq!(connect_decision(ConnectAttempt::TimedOut), ConnectDecision::RetryImmediately);
}

#[test]
fn timing_constants() {
    assert_eq!(LIVENESS_TIMEOUT_MS, 3000);
    assert_eq!(CONNECT_TIMEOUT_MS, 3000);
    assert_eq!(TELEMETRY_INTERVAL_MS, 500);
}
