//! Session-local state: the connection phase machine, the liveness
//! monitor, and the connect-retry policy. The transport loop itself runs
//! outside the library; it feeds events in and carries the decisions out.

use vstd::prelude::*;

verus! {

/// Inactivity window after which the link is declared dead, in
/// milliseconds.
pub const LIVENESS_TIMEOUT_MS: u64 = 3000;

/// Window within which one connection attempt must complete, in
/// milliseconds.
pub const CONNECT_TIMEOUT_MS: u64 = 3000;

/// Interval of the periodic telemetry sender, in milliseconds.
pub const TELEMETRY_INTERVAL_MS: u64 = 500;

/// Process exit status for a fatal condition: a protocol-version
/// mismatch or a liveness timeout.
pub const FATAL_EXIT_CODE: i32 = 255;

/// Connection phase of the session. `Faulted` is terminal: no transition
/// leaves it within a process lifetime.
#[derive(Clone, Copy, PartialEq, Eq, Structural, Debug)]
pub enum Phase {
    Disconnected,
    Connecting,
    Connected,
    HandshakeSent,
    Ready,
    Faulted,
}

/// An event the session reacts to.
#[derive(Clone, Copy, PartialEq, Eq, Structural, Debug)]
pub enum SessionEvent {
    /// The first connection attempt was launched.
    ConnectStarted,
    /// One connection attempt failed or timed out; another follows at
    /// once.
    ConnectFailed,
    /// The transport is open.
    ConnectOpened,
    /// All five handshake requests were written.
    HandshakeIssued,
    /// A frame was received and handled without a fatal outcome.
    FrameHandled,
    /// A fatal condition: version mismatch, liveness timeout, or a
    /// failed handshake send.
    FatalFault,
}

/// The phase machine. A fatal fault moves any phase to `Faulted`;
/// `Faulted` absorbs every event; an event that does not apply to the
/// current phase leaves it unchanged.
pub open spec fn spec_phase_step(p: Phase, ev: SessionEvent) -> Phase {
    if p == Phase::Faulted {
        Phase::Faulted
    } else {
        match ev {
            SessionEvent::FatalFault => Phase::Faulted,
            SessionEvent::ConnectStarted => if p == Phase::Disconnected {
                Phase::Connecting
            } else {
                p
            },
            SessionEvent::ConnectFailed => p,
            SessionEvent::ConnectOpened => if p == Phase::Connecting {
                Phase::Connected
            } else {
                p
            },
            SessionEvent::HandshakeIssued => if p == Phase::Connected {
                Phase::HandshakeSent
            } else {
                p
            },
            SessionEvent::FrameHandled => if p == Phase::HandshakeSent || p == Phase::Ready {
                Phase::Ready
            } else {
                p
            },
        }
    }
}

/// Advances the phase machine by one event.
pub fn phase_step(p: Phase, ev: SessionEvent) -> (r: Phase)
    ensures
        r == spec_phase_step(p, ev),
{
    if matches!(p, Phase::Faulted) {
        return Phase::Faulted;
    }
    match ev {
        SessionEvent::FatalFault => Phase::Faulted,
        SessionEvent::ConnectStarted => if matches!(p, Phase::Disconnected) {
            Phase::Connecting
        } else {
            p
        },
        SessionEvent::ConnectFailed => p,
        SessionEvent::ConnectOpened => if matches!(p, Phase::Connecting) {
            Phase::Connected
        } else {
            p
        },
        SessionEvent::HandshakeIssued => if matches!(p, Phase::Connected) {
            Phase::HandshakeSent
        } else {
            p
        },
        SessionEvent::FrameHandled => if matches!(p, Phase::HandshakeSent) || matches!(
            p,
            Phase::Ready,
        ) {
            Phase::Ready
        } else {
            p
        },
    }
}

/// The faulted phase is terminal: no event leaves it.
pub proof fn lemma_faulted_terminal(ev: SessionEvent)
    ensures
        spec_phase_step(Phase::Faulted, ev) == Phase::Faulted,
{
}

/// Only a fatal fault reaches the faulted phase.
pub proof fn lemma_fault_only_by_fatal(p: Phase, ev: SessionEvent)
    requires
        p != Phase::Faulted,
        ev != SessionEvent::FatalFault,
    ensures
        spec_phase_step(p, ev) != Phase::Faulted,
{
}

// ---------------------------------------------------------------------
// Connect-retry policy.
// ---------------------------------------------------------------------

/// How one connection attempt ended.
#[derive(Clone, Copy, PartialEq, Eq, Structural, Debug)]
pub enum ConnectAttempt {
    /// The transport opened.
    Opened,
    /// The attempt itself returned an error.
    Failed,
    /// The attempt did not complete within [`CONNECT_TIMEOUT_MS`].
    TimedOut,
}

/// What the connection manager does next.
#[derive(Clone, Copy, PartialEq, Eq, Structural, Debug)]
pub enum ConnectDecision {
    /// Hand the open connection to the session loop.
    Proceed,
    /// Log the failure and try again at once: no backoff, no attempt
    /// cap, no give-up path.
    RetryImmediately,
}

/// The connect policy: proceed exactly on success, otherwise retry
/// immediately and unboundedly.
pub fn connect_decision(a: ConnectAttempt) -> (r: ConnectDecision)
    ensures
        r == ConnectDecision::Proceed <==> a == ConnectAttempt::Opened,
{
    match a {
        ConnectAttempt::Opened => ConnectDecision::Proceed,
        ConnectAttempt::Failed => ConnectDecision::RetryImmediately,
        ConnectAttempt::TimedOut => ConnectDecision::RetryImmediately,
    }
}

// ---------------------------------------------------------------------
// Liveness monitor.
// ---------------------------------------------------------------------

/// Races each receive against an inactivity deadline. A frame before the
/// deadline resets the window; a deadline that passes with no frame is
/// fatal, exactly once: after that the monitor accepts no further event.
#[derive(Clone, Copy, PartialEq, Eq, Structural, Debug)]
pub struct LivenessMonitor {
    /// The inactivity window, in milliseconds.
    pub window_ms: u64,
    /// The instant, in milliseconds, at which the link is declared dead
    /// if no frame has arrived by then.
    pub deadline_ms: u64,
    /// Whether the monitor has declared the link dead.
    pub fatal: bool,
}

/// The monitor after a frame arrived at `now_ms`: the window restarts.
pub open spec fn spec_after_frame(m: LivenessMonitor, now_ms: u64) -> LivenessMonitor {
    LivenessMonitor { window_ms: m.window_ms, deadline_ms: (now_ms + m.window_ms) as u64, fatal: false }
}

/// The monitor after the timer was consulted at `now_ms`: fatal exactly
/// when the deadline has passed with no frame.
pub open spec fn spec_after_tick(m: LivenessMonitor, now_ms: u64) -> LivenessMonitor {
    LivenessMonitor {
        window_ms: m.window_ms,
        deadline_ms: m.deadline_ms,
        fatal: now_ms >= m.deadline_ms,
    }
}

impl LivenessMonitor {
    /// Starts the monitor when the connection opens: the first deadline
    /// is one full window after the open.
    pub fn new(now_ms: u64, window_ms: u64) -> (r: LivenessMonitor)
        requires
            now_ms + window_ms <= u64::MAX,
        ensures
            r == (LivenessMonitor {
                window_ms,
                deadline_ms: (now_ms + window_ms) as u64,
                fatal: false,
            }),
    {
        LivenessMonitor { window_ms, deadline_ms: now_ms + window_ms, fatal: false }
    }

    /// Records a frame received at `now_ms`, resetting the window.
    pub fn on_frame(&mut self, now_ms: u64)
        requires
            !old(self).fatal,
            now_ms + old(self).window_ms <= u64::MAX,
        ensures
            *final(self) == spec_after_frame(*old(self), now_ms),
    {
        self.deadline_ms = now_ms + self.window_ms;
    }

    /// Consults the timer at `now_ms`. Returns whether the link is now
    /// declared dead; once it is, the monitor is spent.
    pub fn on_tick(&mut self, now_ms: u64) -> (fatal: bool)
        requires
            !old(self).fatal,
        ensures
            *final(self) == spec_after_tick(*old(self), now_ms),
            fatal == (now_ms >= old(self).deadline_ms),
    {
        self.fatal = now_ms >= self.deadline_ms;
        self.fatal
    }
}

/// Liveness law: after a frame at `t1`, a timer consulted at `t2` is
/// fatal exactly when the full window passed with no further frame; and
/// a frame always clears the way for the next receive (the monitor it
/// leaves is never fatal).
pub proof fn lemma_liveness_window(m: LivenessMonitor, t1: u64, t2: u64)
    requires
        !m.fatal,
        t1 + m.window_ms <= u64::MAX,
    ensures
        !spec_after_frame(m, t1).fatal,
        spec_after_tick(spec_after_frame(m, t1), t2).fatal <==> t2 >= t1 + m.window_ms,
{
}

/// Liveness law: the verdict is reached at most once. A tick that does
/// not reach the deadline changes nothing, so the deadline that was
/// missed is the same one the frame (or the open) set; and a fatal
/// verdict is final, since a spent monitor accepts no further event.
pub proof fn lemma_tick_before_deadline_harmless(m: LivenessMonitor, now_ms: u64)
    requires
        !m.fatal,
        now_ms < m.deadline_ms,
    ensures
        spec_after_tick(m, now_ms) == m,
{
}

} // verus!
