//! Decisions of the native session observer: which session and power events
//! change whether the desktop session is interactive, and when the change
//! forces the renderers to start over.

use vstd::prelude::*;

verus! {

/// A stall of the observer's periodic timer at least this long counts as a
/// missed suspend, and forces a session restart.
pub const TIMER_STALL_MS: u64 = 31_000;

/// The lock state reported for the current session.
#[derive(Clone, Copy, Debug, PartialEq, Eq, Structural)]
pub enum SessionLock {
    Locked,
    Unlocked,
    Unknown,
}

/// Whether the current session is interactive: a locked session is not, an
/// unlocked one is when it is the active session; otherwise it is unknown.
pub open spec fn session_interactive(lock: SessionLock, active: bool) -> Option<bool> {
    match lock {
        SessionLock::Locked => Some(false),
        SessionLock::Unlocked => Some(active),
        SessionLock::Unknown => None,
    }
}

pub fn interactive_session_state(lock: SessionLock, active: bool) -> (interactive: Option<bool>)
    ensures
        interactive == session_interactive(lock, active),
{
    match lock {
        SessionLock::Locked => Some(false),
        SessionLock::Unlocked => Some(active),
        SessionLock::Unknown => None,
    }
}

/// An event the observer receives.
#[derive(Clone, Copy, Debug, PartialEq, Eq, Structural)]
pub enum SessionEvent {
    /// The session was locked or its console or remote connection dropped.
    Lost,
    /// The session was unlocked or a console or remote connection arrived.
    Regained,
    /// The machine is suspending.
    Suspended,
    /// The machine resumed from suspend.
    Resumed,
    /// The periodic timer fired.
    Timer,
}

/// A session change to hand to the runtime health.
#[derive(Clone, Copy, Debug, PartialEq, Eq, Structural)]
pub struct SessionUpdate {
    pub interactive: bool,
    pub force: bool,
}

/// Whether the machine is suspended and when the timer last fired (or the
/// machine last resumed), in milliseconds on the observer's clock.
pub struct SessionObserver {
    pub suspended: bool,
    pub last_tick_ms: u64,
}

pub open spec fn stalled(last_tick_ms: u64, now_ms: u64) -> bool {
    now_ms >= last_tick_ms + TIMER_STALL_MS
}

/// The update an event produces, given whether the machine is suspended and
/// the current session's state (`query`) as read when the event arrived.
pub open spec fn session_update(
    suspended: bool,
    last_tick_ms: u64,
    event: SessionEvent,
    now_ms: u64,
    query: Option<bool>,
) -> Option<SessionUpdate> {
    match event {
        SessionEvent::Lost => Some(SessionUpdate { interactive: false, force: false }),
        SessionEvent::Regained => match query {
            Some(active) => Some(SessionUpdate { interactive: active && !suspended, force: false }),
            None => None,
        },
        SessionEvent::Suspended => Some(SessionUpdate { interactive: false, force: false }),
        SessionEvent::Resumed => Some(
            SessionUpdate {
                interactive: match query {
                    Some(active) => active,
                    None => false,
                },
                force: true,
            },
        ),
        SessionEvent::Timer => match query {
            Some(active) => Some(
                SessionUpdate { interactive: active && !suspended, force: stalled(last_tick_ms, now_ms) },
            ),
            None => None,
        },
    }
}

impl SessionObserver {
    /// An observer started at `now_ms`, before any suspend.
    pub fn new(now_ms: u64) -> (observer: Self)
        ensures
            !observer.suspended,
            observer.last_tick_ms == now_ms,
    {
        SessionObserver { suspended: false, last_tick_ms: now_ms }
    }

    /// Handles `event` at `now_ms`; `query` is the current session's state
    /// as read when the event arrived.
    pub fn observe(&mut self, event: SessionEvent, now_ms: u64, query: Option<bool>) -> (update: Option<
        SessionUpdate,
    >)
        ensures
            update == session_update(old(self).suspended, old(self).last_tick_ms, event, now_ms, query),
            final(self).suspended == match event {
                SessionEvent::Suspended => true,
                SessionEvent::Resumed => false,
                _ => old(self).suspended,
            },
            final(self).last_tick_ms == match event {
                SessionEvent::Resumed | SessionEvent::Timer => now_ms,
                _ => old(self).last_tick_ms,
            },
    {
        match event {
            SessionEvent::Lost => Some(SessionUpdate { interactive: false, force: false }),
            SessionEvent::Regained => match query {
                Some(active) => Some(SessionUpdate { interactive: active && !self.suspended, force: false }),
                None => None,
            },
            SessionEvent::Suspended => {
                self.suspended = true;
                Some(SessionUpdate { interactive: false, force: false })
            },
            SessionEvent::Resumed => {
                self.suspended = false;
                self.last_tick_ms = now_ms;
                Some(
                    SessionUpdate {
                        interactive: match query {
                            Some(active) => active,
                            None => false,
                        },
                        force: true,
                    },
                )
            },
            SessionEvent::Timer => {
                let force = self.last_tick_ms <= u64::MAX - TIMER_STALL_MS && now_ms >= self.last_tick_ms
                    + TIMER_STALL_MS;
                self.last_tick_ms = now_ms;
                match query {
                    Some(active) => Some(SessionUpdate { interactive: active && !self.suspended, force }),
                    None => None,
                }
            },
        }
    }
}

/// While the machine is suspended, no event but a resume reports an
/// interactive session.
pub proof fn law_suspended_machine_is_never_interactive(
    last_tick_ms: u64,
    event: SessionEvent,
    now_ms: u64,
    query: Option<bool>,
)
    requires
        event != SessionEvent::Resumed,
    ensures
        match session_update(true, last_tick_ms, event, now_ms, query) {
            Some(update) => !update.interactive,
            None => true,
        },
{
}

/// A resume always reports the session, and forces the renderers to start over.
pub proof fn law_resume_forces_a_restart(
    suspended: bool,
    last_tick_ms: u64,
    now_ms: u64,
    query: Option<bool>,
)
    ensures
        session_update(suspended, last_tick_ms, SessionEvent::Resumed, now_ms, query) is Some,
        session_update(suspended, last_tick_ms, SessionEvent::Resumed, now_ms, query)->0.force,
{
}

/// An update reports an interactive session only when the session was read
/// as active, and, except on a resume, only while the machine is not
/// suspended. A regained session is reported as read: active and not
/// suspended, without forcing a restart.
pub proof fn law_interactive_only_when_the_session_is_active(
    suspended: bool,
    last_tick_ms: u64,
    event: SessionEvent,
    now_ms: u64,
    query: Option<bool>,
)
    ensures
        match session_update(suspended, last_tick_ms, event, now_ms, query) {
            Some(update) => update.interactive ==> query == Some(true) && (event == SessionEvent::Resumed
                || !suspended),
            None => true,
        },
        event == SessionEvent::Regained && query is Some ==> session_update(
            suspended,
            last_tick_ms,
            event,
            now_ms,
            query,
        ) == Some(SessionUpdate { force: false, interactive: query->0 && !suspended }),
        event == SessionEvent::Regained && query is None ==> session_update(
            suspended,
            last_tick_ms,
            event,
            now_ms,
            query,
        ) is None,
{
}

} // verus!
