//! The background monitor: a state machine that decides, event by event,
//! when to capture the clipboard, sync, send requested files, or sign out;
//! and when the history popup closes by itself.

use vstd::prelude::*;
use crate::history::LocalState;
use crate::text::starts_with;
use crate::transfer::is_pinned;

verus! {

/// Pending wake-up reasons of the monitor.
#[derive(Clone, Copy, Debug, PartialEq, Eq, Structural)]
pub struct MonitorWake {
    pub capture: bool,
    pub sync: bool,
}

impl MonitorWake {
    pub fn new() -> (r: MonitorWake)
        ensures
            !r.capture && !r.sync,
    {
        MonitorWake { capture: false, sync: false }
    }

    /// Some reason to wake up is pending.
    pub fn pending(&self) -> (r: bool)
        ensures
            r == (self.capture || self.sync),
    {
        self.capture || self.sync
    }

    /// Hands out the pending reasons and clears them.
    pub fn take(&mut self) -> (r: (bool, bool))
        ensures
            r == (old(self).capture, old(self).sync),
            !final(self).capture && !final(self).sync,
    {
        let r = (self.capture, self.sync);
        self.capture = false;
        self.sync = false;
        r
    }
}

/// Adds wake-up reasons; a reason that is already pending stays pending.
pub fn request_monitor(wake: &mut MonitorWake, capture: bool, sync: bool)
    ensures
        final(wake).capture == (old(wake).capture || capture),
        final(wake).sync == (old(wake).sync || sync),
{
    wake.capture = wake.capture || capture;
    wake.sync = wake.sync || sync;
}

/// The clipboard is looked at when its change counter is unknown or moved.
pub fn clipboard_changed(marker: Option<u64>, last: Option<u64>) -> (r: bool)
    ensures
        r == (marker is None || marker != last),
{
    match marker {
        None => true,
        Some(m) => match last {
            Some(l) => m != l,
            None => true,
        },
    }
}

/// Interval between two syncs of the polling monitor, in nanoseconds.
pub const SYNC_INTERVAL_NS: u64 = 3_000_000_000;

/// A sync is due once the interval has passed since the last one.
pub fn sync_due(elapsed_ns: u64) -> (r: bool)
    ensures
        r == (elapsed_ns >= SYNC_INTERVAL_NS),
{
    elapsed_ns >= SYNC_INTERVAL_NS
}

/// Some local source is pinned, so other devices may still ask for it and
/// the monitor keeps checking for file requests.
pub fn has_pinned_source(state: &LocalState) -> (r: bool)
    ensures
        r == exists|k: int| 0 <= k < state@.sources.len() && starts_with(
            (#[trigger] state@.sources[k]).sha256@,
            "pinned:"@,
        ),
{
    let mut i: usize = 0;
    while i < state.sources.len()
        invariant
            i <= state@.sources.len(),
            forall|k: int| 0 <= k < i ==> !starts_with((#[trigger] state@.sources[k]).sha256@, "pinned:"@),
        decreases state@.sources.len() - i,
    {
        if is_pinned(&state.sources[i]) {
            return true;
        }
        i = i + 1;
    }
    false
}

/// How long an event-driven monitor waits for a wake-up while other devices
/// may still ask for a pinned file, in milliseconds.
pub const FILE_SOURCE_WAIT_MS: u64 = 20_000;

/// Pause after a polling round, in milliseconds.
pub const POLL_PAUSE_MS: u64 = 500;

/// Pause while capture is off or nobody is signed in, in milliseconds.
pub const IDLE_PAUSE_MS: u64 = 2_000;

/// Pause when the settings could not be read, in milliseconds.
pub const SETTINGS_RETRY_MS: u64 = 3_000;

/// What the monitor remembers between events.
#[derive(Clone, Copy, Debug, PartialEq, Eq, Structural)]
pub struct MonitorState {
    /// Woken by clipboard notices and requests (Windows), not by polling.
    pub event_driven: bool,
    /// A pinned file source exists, so other devices may still ask for it.
    pub file_source_active: bool,
    /// The last sync succeeded (polling monitor).
    pub server_ready: bool,
    /// The clipboard change counter at the last capture (polling monitor).
    pub last_marker: Option<u64>,
    /// When the last sync was attempted, in nanoseconds of a monotonic clock (polling monitor).
    pub last_sync_ns: Option<u64>,
    /// A sync was asked for in this round and has not run yet.
    pub sync_pending: bool,
    /// This round began because the wait timed out.
    pub timed_out: bool,
}

/// What the settings say at the start of a round.
#[derive(Clone, Copy, Debug, PartialEq, Eq, Structural)]
pub struct Session {
    /// Capture is switched on.
    pub enabled: bool,
    /// A session token is stored.
    pub signed_in: bool,
}

/// The outcome of a sync attempt.
#[derive(Clone, Copy, Debug, PartialEq, Eq, Structural)]
pub enum SyncOutcome {
    /// Another sync was running; this one did not start.
    Busy,
    /// The sync succeeded.
    Done,
    /// The sync failed.
    Failed,
    /// The server rejected the session.
    Rejected,
}

/// What happened since the last action.
#[derive(Clone, Copy, Debug, PartialEq, Eq, Structural)]
pub enum MonitorEvent {
    /// The wait ended: the wake reasons taken, whether it timed out, and
    /// whether capture is enabled and someone is signed in (`None` when the
    /// settings could not be read).
    Woken { capture: bool, sync: bool, timed_out: bool, session: Option<Session> },
    /// A pause ended: the settings as for `Woken`, and the clock (nanoseconds).
    Tick { session: Option<Session>, now_ns: u64 },
    /// A capture ran: whether it succeeded, and whether a pinned source exists afterwards.
    Captured { ok: bool, pinned_source: bool },
    /// A sync ran.
    Synced(SyncOutcome),
    /// The local sign-out ran.
    AuthCleared,
    /// The sync status was shown, at `now_ns` (nanoseconds of a monotonic clock).
    Reported { now_ns: u64 },
    /// The clipboard change counter was read.
    MarkerRead(Option<u64>),
    /// The requested files were sent (or the attempt failed).
    Fulfilled,
}

/// What the monitor does next.
#[derive(Clone, Copy, Debug, PartialEq, Eq, Structural)]
pub enum MonitorAction {
    /// Wait for a wake-up, at most this many milliseconds (`None`: no limit).
    Wait(Option<u64>),
    /// Pause this many milliseconds, then read the settings.
    Sleep(u64),
    /// Capture the clipboard.
    Capture,
    /// Sync with the server.
    Sync,
    /// Send the files that other devices asked for.
    FulfilRequests,
    /// Sign this device out locally.
    ClearAuth,
    /// Show whether the server is reachable.
    ReportSync(bool),
    /// Read the clipboard change counter.
    ReadMarker,
}

/// The wait that ends an event-driven round: bounded only while a pinned
/// file source exists.
pub open spec fn round_end(s: MonitorState) -> MonitorAction {
    if s.event_driven {
        MonitorAction::Wait(
            if s.file_source_active {
                Some(FILE_SOURCE_WAIT_MS)
            } else {
                None
            },
        )
    } else {
        MonitorAction::Sleep(POLL_PAUSE_MS)
    }
}

/// After the capture of an event-driven round: the sync that was asked for,
/// else the file requests after a timeout while a pinned source exists.
pub open spec fn after_capture(s: MonitorState) -> (MonitorState, MonitorAction) {
    if s.sync_pending {
        (MonitorState { sync_pending: false, timed_out: false, ..s }, MonitorAction::Sync)
    } else if s.timed_out && s.file_source_active {
        (MonitorState { timed_out: false, ..s }, MonitorAction::FulfilRequests)
    } else {
        (MonitorState { timed_out: false, ..s }, round_end(MonitorState { timed_out: false, ..s }))
    }
}

/// Milliseconds since the last sync; unbounded when none ran yet.
pub open spec fn since_sync(s: MonitorState, now_ns: u64) -> u64 {
    match s.last_sync_ns {
        None => u64::MAX,
        Some(t) => if now_ns >= t {
            (now_ns - t) as u64
        } else {
            0
        },
    }
}

/// Capture is enabled and someone is signed in.
pub open spec fn session_on(session: Option<Session>) -> bool {
    session matches Some(p) && p.enabled && p.signed_in
}

/// The monitor's next state and action after event `e` in state `s`.
pub open spec fn monitor_next(s: MonitorState, e: MonitorEvent) -> (MonitorState, MonitorAction) {
    match e {
        MonitorEvent::Woken { capture, sync, timed_out, session } => if !s.event_driven {
            (s, round_end(s))
        } else if session is None {
            (s, round_end(s))
        } else if !session_on(session) {
            let t = MonitorState { file_source_active: false, sync_pending: false, timed_out: false, ..s };
            (t, round_end(t))
        } else {
            let t = MonitorState { sync_pending: sync, timed_out: timed_out, ..s };
            if capture {
                (t, MonitorAction::Capture)
            } else {
                after_capture(t)
            }
        },
        MonitorEvent::Tick { session, now_ns } => if s.event_driven {
            (s, round_end(s))
        } else if session is None {
            (s, MonitorAction::Sleep(SETTINGS_RETRY_MS))
        } else if !session_on(session) {
            (MonitorState { server_ready: false, ..s }, MonitorAction::Sleep(IDLE_PAUSE_MS))
        } else if since_sync(s, now_ns) >= SYNC_INTERVAL_NS {
            (s, MonitorAction::Sync)
        } else {
            (s, MonitorAction::ReadMarker)
        },
        MonitorEvent::Captured { ok, pinned_source } => if s.event_driven {
            after_capture(
                MonitorState {
                    file_source_active: if ok {
                        pinned_source
                    } else {
                        s.file_source_active
                    },
                    ..s
                },
            )
        } else {
            (s, round_end(s))
        },
        MonitorEvent::Synced(outcome) => if s.event_driven {
            if outcome == SyncOutcome::Rejected {
                (MonitorState { file_source_active: false, ..s }, MonitorAction::ClearAuth)
            } else {
                (s, round_end(s))
            }
        } else {
            let t = MonitorState { server_ready: outcome == SyncOutcome::Done, ..s };
            if outcome == SyncOutcome::Rejected {
                (t, MonitorAction::ClearAuth)
            } else {
                (t, MonitorAction::ReportSync(t.server_ready))
            }
        },
        MonitorEvent::AuthCleared => if s.event_driven {
            (s, round_end(s))
        } else {
            (s, MonitorAction::ReportSync(s.server_ready))
        },
        MonitorEvent::Reported { now_ns } => if s.event_driven {
            (s, round_end(s))
        } else {
            (MonitorState { last_sync_ns: Some(now_ns), ..s }, MonitorAction::ReadMarker)
        },
        MonitorEvent::MarkerRead(marker) => if !s.event_driven && s.server_ready && (marker is None
            || marker != s.last_marker) {
            (MonitorState { last_marker: marker, ..s }, MonitorAction::Capture)
        } else {
            (s, round_end(s))
        },
        MonitorEvent::Fulfilled => (s, round_end(s)),
    }
}

/// The state and first action of a monitor: an event-driven one waits for
/// its first wake-up; a polling one reads the settings at once.
pub fn monitor_start(event_driven: bool) -> (r: (MonitorState, MonitorAction))
    ensures
        r.0 == (MonitorState {
            event_driven,
            file_source_active: false,
            server_ready: false,
            last_marker: None,
            last_sync_ns: None,
            sync_pending: false,
            timed_out: false,
        }),
        r.1 == if event_driven {
            MonitorAction::Wait(None)
        } else {
            MonitorAction::Sleep(0)
        },
{
    let s = MonitorState {
        event_driven,
        file_source_active: false,
        server_ready: false,
        last_marker: None,
        last_sync_ns: None,
        sync_pending: false,
        timed_out: false,
    };
    if event_driven {
        (s, MonitorAction::Wait(None))
    } else {
        (s, MonitorAction::Sleep(0))
    }
}

fn end_round(s: MonitorState) -> (r: MonitorAction)
    ensures
        r == round_end(s),
{
    if s.event_driven {
        MonitorAction::Wait(
            if s.file_source_active {
                Some(FILE_SOURCE_WAIT_MS)
            } else {
                None
            },
        )
    } else {
        MonitorAction::Sleep(POLL_PAUSE_MS)
    }
}

fn continue_round(s: MonitorState) -> (r: (MonitorState, MonitorAction))
    ensures
        r == after_capture(s),
{
    if s.sync_pending {
        (MonitorState { sync_pending: false, timed_out: false, ..s }, MonitorAction::Sync)
    } else if s.timed_out && s.file_source_active {
        (MonitorState { timed_out: false, ..s }, MonitorAction::FulfilRequests)
    } else {
        let t = MonitorState { timed_out: false, ..s };
        (t, end_round(t))
    }
}

fn session_is_on(session: Option<Session>) -> (r: bool)
    ensures
        r == session_on(session),
{
    match session {
        Some(p) => p.enabled && p.signed_in,
        None => false,
    }
}

/// One step of the monitor: the next state and action after event `e`.
pub fn monitor_step(s: MonitorState, e: MonitorEvent) -> (r: (MonitorState, MonitorAction))
    ensures
        r == monitor_next(s, e),
        e matches MonitorEvent::MarkerRead(m) ==> (!s.event_driven && s.server_ready && (m is None
            || m != s.last_marker) ==> r.1 == MonitorAction::Capture && r.0 == (MonitorState {
            last_marker: m,
            ..s
        })),
{
    match e {
        MonitorEvent::Woken { capture, sync, timed_out, session } => {
            if !s.event_driven || session.is_none() {
                (s, end_round(s))
            } else if !session_is_on(session) {
                let t = MonitorState {
                    file_source_active: false,
                    sync_pending: false,
                    timed_out: false,
                    ..s
                };
                (t, end_round(t))
            } else {
                let t = MonitorState { sync_pending: sync, timed_out: timed_out, ..s };
                if capture {
                    (t, MonitorAction::Capture)
                } else {
                    continue_round(t)
                }
            }
        },
        MonitorEvent::Tick { session, now_ns } => {
            if s.event_driven {
                (s, end_round(s))
            } else if session.is_none() {
                (s, MonitorAction::Sleep(SETTINGS_RETRY_MS))
            } else if !session_is_on(session) {
                (MonitorState { server_ready: false, ..s }, MonitorAction::Sleep(IDLE_PAUSE_MS))
            } else {
                let since = match s.last_sync_ns {
                    None => u64::MAX,
                    Some(t) => if now_ns >= t {
                        now_ns - t
                    } else {
                        0
                    },
                };
                if sync_due(since) {
                    (s, MonitorAction::Sync)
                } else {
                    (s, MonitorAction::ReadMarker)
                }
            }
        },
        MonitorEvent::Captured { ok, pinned_source } => {
            if s.event_driven {
                let active = if ok {
                    pinned_source
                } else {
                    s.file_source_active
                };
                continue_round(MonitorState { file_source_active: active, ..s })
            } else {
                (s, end_round(s))
            }
        },
        MonitorEvent::Synced(outcome) => {
            if s.event_driven {
                if outcome == SyncOutcome::Rejected {
                    (MonitorState { file_source_active: false, ..s }, MonitorAction::ClearAuth)
                } else {
                    (s, end_round(s))
                }
            } else {
                let t = MonitorState { server_ready: outcome == SyncOutcome::Done, ..s };
                if outcome == SyncOutcome::Rejected {
                    (t, MonitorAction::ClearAuth)
                } else {
                    (t, MonitorAction::ReportSync(t.server_ready))
                }
            }
        },
        MonitorEvent::AuthCleared => {
            if s.event_driven {
                (s, end_round(s))
            } else {
                (s, MonitorAction::ReportSync(s.server_ready))
            }
        },
        MonitorEvent::Reported { now_ns } => {
            if s.event_driven {
                (s, end_round(s))
            } else {
                (MonitorState { last_sync_ns: Some(now_ns), ..s }, MonitorAction::ReadMarker)
            }
        },
        MonitorEvent::MarkerRead(marker) => {
            if !s.event_driven && s.server_ready && clipboard_changed(marker, s.last_marker) {
                (MonitorState { last_marker: marker, ..s }, MonitorAction::Capture)
            } else {
                (s, end_round(s))
            }
        },
        MonitorEvent::Fulfilled => (s, end_round(s)),
    }
}

/// An event-driven monitor never polls: it only waits for wake-ups (bounded
/// only while a pinned file source exists), and starts no work on a wake-up
/// that carries no reason.
pub proof fn law_event_driven_never_polls(s: MonitorState, e: MonitorEvent)
    requires
        s.event_driven,
    ensures
        monitor_next(s, e).0.event_driven,
        !(monitor_next(s, e).1 is Sleep),
        monitor_next(s, e).1 != MonitorAction::ReadMarker,
        monitor_next(s, e).1 != MonitorAction::ReportSync(true),
        monitor_next(s, e).1 != MonitorAction::ReportSync(false),
        monitor_next(s, e).1 matches MonitorAction::Wait(Some(t)) ==> t == FILE_SOURCE_WAIT_MS
            && monitor_next(s, e).0.file_source_active,
        (e matches MonitorEvent::Woken { capture, sync, timed_out, session } && !capture && !sync
            && !timed_out) ==> monitor_next(s, e).1 is Wait,
        e is Tick ==> monitor_next(s, e).1 is Wait,
{
}

/// Nothing is captured, synced or sent while capture is off or nobody is
/// signed in; an event-driven monitor then also stops expecting file requests.
pub proof fn law_no_work_without_session(s: MonitorState, e: MonitorEvent)
    ensures
        (e matches MonitorEvent::Woken { session, .. } && !session_on(session)) ==> monitor_next(
            s,
            e,
        ).1 is Wait || monitor_next(s, e).1 is Sleep,
        (e matches MonitorEvent::Tick { session, .. } && !session_on(session)) ==> monitor_next(
            s,
            e,
        ).1 is Wait || monitor_next(s, e).1 is Sleep,
        s.event_driven ==> ((e matches MonitorEvent::Woken { session, .. } && session is Some
            && !session_on(session)) ==> !monitor_next(s, e).0.file_source_active),
{
}

/// A polling monitor captures only after a successful sync, and only when
/// the clipboard changed (or its counter is unknown); the counter seen is
/// remembered.
pub proof fn law_polling_captures_after_sync(s: MonitorState, e: MonitorEvent)
    requires
        !s.event_driven,
        monitor_next(s, e).1 == MonitorAction::Capture,
    ensures
        s.server_ready,
        e matches MonitorEvent::MarkerRead(m) && (m is None || m != s.last_marker)
            && monitor_next(s, e).0.last_marker == m,
{
}

/// A polling monitor whose server is ready captures whenever the clipboard's
/// change counter differs from the one it remembers (or is unknown), however
/// many captures came before, and then remembers the new counter.
pub proof fn law_polling_captures_on_change(s: MonitorState, m: Option<u64>)
    requires
        !s.event_driven,
        s.server_ready,
        m is None || m != s.last_marker,
    ensures
        monitor_next(s, MonitorEvent::MarkerRead(m)).1 == MonitorAction::Capture,
        monitor_next(s, MonitorEvent::MarkerRead(m)).0 == (MonitorState { last_marker: m, ..s }),
        monitor_next(s, MonitorEvent::MarkerRead(m)).0.last_marker == m,
{
}

/// A polling monitor reads the same counter twice without capturing again:
/// an unchanged clipboard is captured once.
pub proof fn law_polling_captures_once_per_change(s: MonitorState, m: u64)
    requires
        !s.event_driven,
        s.server_ready,
        s.last_marker != Some(m),
    ensures
        ({
            let (t, a) = monitor_next(s, MonitorEvent::MarkerRead(Some(m)));
            &&& a == MonitorAction::Capture
            &&& t.last_marker == Some(m)
            &&& monitor_next(t, MonitorEvent::MarkerRead(Some(m))).1 == MonitorAction::Sleep(
                POLL_PAUSE_MS,
            )
        }),
{
}

/// A polling round with capture on: the monitor syncs when no sync ran yet
/// or the interval has passed since the last one, else reads the clipboard's
/// change counter; only a successful sync makes the server count as ready;
/// once the status is shown the sync time is remembered and the counter read;
/// an unchanged counter, or a server that is not ready, ends the round in a
/// pause without a capture.
pub proof fn law_polling_round(s: MonitorState, now_ns: u64, m: Option<u64>)
    requires
        !s.event_driven,
    ensures
        ({
            let on = Some(Session { enabled: true, signed_in: true });
            &&& s.last_sync_ns is None ==> monitor_next(s, MonitorEvent::Tick { session: on, now_ns }).1
                == MonitorAction::Sync
            &&& s.last_sync_ns matches Some(t) ==> (now_ns >= t + SYNC_INTERVAL_NS ==> monitor_next(
                s,
                MonitorEvent::Tick { session: on, now_ns },
            ).1 == MonitorAction::Sync)
            &&& s.last_sync_ns matches Some(t) ==> (t <= now_ns < t + SYNC_INTERVAL_NS
                ==> monitor_next(s, MonitorEvent::Tick { session: on, now_ns }).1
                == MonitorAction::ReadMarker)
            &&& monitor_next(s, MonitorEvent::Synced(SyncOutcome::Done)) == (MonitorState {
                server_ready: true,
                ..s
            }, MonitorAction::ReportSync(true))
            &&& monitor_next(s, MonitorEvent::Synced(SyncOutcome::Failed)) == (MonitorState {
                server_ready: false,
                ..s
            }, MonitorAction::ReportSync(false))
            &&& monitor_next(s, MonitorEvent::Reported { now_ns }) == (MonitorState {
                last_sync_ns: Some(now_ns),
                ..s
            }, MonitorAction::ReadMarker)
            &&& !s.server_ready ==> monitor_next(s, MonitorEvent::MarkerRead(m)) == (s,
                MonitorAction::Sleep(POLL_PAUSE_MS))
            &&& (m is Some && m == s.last_marker) ==> monitor_next(s, MonitorEvent::MarkerRead(m))
                == (s, MonitorAction::Sleep(POLL_PAUSE_MS))
        }),
{
}

/// A rejected session always leads to the local sign-out, and the monitor
/// then neither counts the server as ready nor waits for file requests.
pub proof fn law_rejected_session_signs_out(s: MonitorState)
    ensures
        monitor_next(s, MonitorEvent::Synced(SyncOutcome::Rejected)).1 == MonitorAction::ClearAuth,
        !monitor_next(s, MonitorEvent::Synced(SyncOutcome::Rejected)).0.file_source_active
            || !s.event_driven,
        !monitor_next(s, MonitorEvent::Synced(SyncOutcome::Rejected)).0.server_ready
            || s.event_driven,
{
}

/// An event-driven round runs the capture, then the sync, each only when its
/// wake-up asked for it, and sends requested files only after a timeout
/// while a pinned source exists.
pub proof fn law_event_driven_round(s: MonitorState, capture: bool, sync: bool, timed_out: bool)
    requires
        s.event_driven,
    ensures
        ({
            let e = MonitorEvent::Woken { capture, sync, timed_out, session: Some(Session { enabled: true, signed_in: true }) };
            let (t, a) = monitor_next(s, e);
            &&& capture ==> a == MonitorAction::Capture
            &&& !capture && sync ==> a == MonitorAction::Sync
            &&& !capture && !sync ==> (a == MonitorAction::FulfilRequests <==> timed_out
                && s.file_source_active)
            &&& capture ==> (monitor_next(t, MonitorEvent::Captured { ok: true, pinned_source: false }).1
                == if sync {
                MonitorAction::Sync
            } else {
                MonitorAction::Wait(None)
            })
        }),
{
}

/// Whether the history popup holds the keyboard focus that it was given.
pub struct PopupFocus {
    pub armed: bool,
}

impl PopupFocus {
    /// The popup gained or lost focus. It closes when it loses the focus it
    /// held; the answer says whether to close it now.
    pub fn focus_changed(&mut self, focused: bool) -> (r: bool)
        ensures
            final(self).armed == focused,
            r == (old(self).armed && !focused),
    {
        let was_armed = self.armed;
        self.armed = focused;
        was_armed && !focused
    }
}

} // verus!
