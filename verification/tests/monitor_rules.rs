use mymemo_clipboard::account::{require_session_for_password_change, require_session_for_sync};
use mymemo_clipboard::capture::{capture_choice, CaptureChoice};
use mymemo_clipboard::hex::{decode_hex, hex};
use mymemo_clipboard::monitor::{
    monitor_start, monitor_step, MonitorAction, MonitorEvent, MonitorState, Session, SyncOutcome,
};
use mymemo_clipboard::selection::SelectionState;

const ON: Option<Session> = Some(Session { enabled: true, signed_in: true });
const OFF: Option<Session> = Some(Session { enabled: false, signed_in: true });

fn woken(capture: bool, sync: bool, timed_out: bool, session: Option<Session>) -> MonitorEvent {
    MonitorEvent::Woken { capture, sync, timed_out, session }
}

#[test]
fn event_driven_round_captures_then_syncs() {
    let (s, a) = monitor_start(true);
    assert_eq!(a, MonitorAction::Wait(None));
    let (s, a) = monitor_step(s, woken(true, true, false, ON));
    assert_eq!(a, MonitorAction::Capture);
    let (s, a) = monitor_step(s, MonitorEvent::Captured { ok: true, pinned_source: true });
    assert_eq!(a, MonitorAction::Sync);
    assert!(s.file_source_active);
    let (s, a) = monitor_step(s, MonitorEvent::Synced(SyncOutcome::Done));
    assert_eq!(a, MonitorAction::Wait(Some(20_000)));
    let (s, a) = monitor_step(s, woken(false, false, true, ON));
    assert_eq!(a, MonitorAction::FulfilRequests);
    let (s, a) = monitor_step(s, MonitorEvent::Fulfilled);
    assert_eq!(a, MonitorAction::Wait(Some(20_000)));
    let (s, a) = monitor_step(s, woken(false, false, false, OFF));
    assert_eq!(a, MonitorAction::Wait(None));
    assert!(!s.file_source_active);
}

#[test]
fn event_driven_monitor_signs_out_on_rejection() {
    let (s, _) = monitor_start(true);
    let (s, a) = monitor_step(s, woken(false, true, false, ON));
    assert_eq!(a, MonitorAction::Sync);
    let (s, a) = monitor_step(s, MonitorEvent::Synced(SyncOutcome::Rejected));
    assert_eq!(a, MonitorAction::ClearAuth);
    let (_, a) = monitor_step(s, MonitorEvent::AuthCleared);
    assert_eq!(a, MonitorAction::Wait(None));
    let (s, _) = monitor_start(true);
    let (_, a) = monitor_step(s, woken(false, true, false, None));
    assert_eq!(a, MonitorAction::Wait(None));
}

#[test]
fn polling_monitor_syncs_then_captures_on_change() {
    let (s, a) = monitor_start(false);
    assert_eq!(a, MonitorAction::Sleep(0));
    let (s, a) = monitor_step(s, MonitorEvent::Tick { session: ON, now_ns: 10 });
    assert_eq!(a, MonitorAction::Sync);
    let (s, a) = monitor_step(s, MonitorEvent::Synced(SyncOutcome::Done));
    assert_eq!(a, MonitorAction::ReportSync(true));
    let (s, a) = monitor_step(s, MonitorEvent::Reported { now_ns: 20 });
    assert_eq!(a, MonitorAction::ReadMarker);
    let (s, a) = monitor_step(s, MonitorEvent::MarkerRead(Some(5)));
    assert_eq!(a, MonitorAction::Capture);
    assert_eq!(s.last_marker, Some(5));
    let (s, a) = monitor_step(s, MonitorEvent::Captured { ok: true, pinned_source: false });
    assert_eq!(a, MonitorAction::Sleep(500));
    let (s, a) = monitor_step(s, MonitorEvent::Tick { session: ON, now_ns: 1_000_000_000 });
    assert_eq!(a, MonitorAction::ReadMarker);
    let (s, a) = monitor_step(s, MonitorEvent::MarkerRead(Some(5)));
    assert_eq!(a, MonitorAction::Sleep(500));
    let (s, a) = monitor_step(s, MonitorEvent::Tick { session: ON, now_ns: 3_000_000_020 });
    assert_eq!(a, MonitorAction::Sync);
    let (s, a) = monitor_step(s, MonitorEvent::Synced(SyncOutcome::Failed));
    assert_eq!(a, MonitorAction::ReportSync(false));
    let (s, _) = monitor_step(s, MonitorEvent::Reported { now_ns: 3_000_000_030 });
    let (s, a) = monitor_step(s, MonitorEvent::MarkerRead(Some(6)));
    assert_eq!(a, MonitorAction::Sleep(500));
    let (s, a) = monitor_step(s, MonitorEvent::Tick { session: OFF, now_ns: 4_000_000_000 });
    assert_eq!(a, MonitorAction::Sleep(2_000));
    assert!(!s.server_ready);
    let (_, a) = monitor_step(s, MonitorEvent::Tick { session: None, now_ns: 4_000_000_000 });
    assert_eq!(a, MonitorAction::Sleep(3_000));
}

#[test]
fn polling_monitor_signs_out_on_rejection() {
    let s = MonitorState {
        event_driven: false,
        file_source_active: false,
        server_ready: true,
        last_marker: None,
        last_sync_ns: None,
        sync_pending: false,
        timed_out: false,
    };
    let (s, a) = monitor_step(s, MonitorEvent::Synced(SyncOutcome::Rejected));
    assert_eq!(a, MonitorAction::ClearAuth);
    let (_, a) = monitor_step(s, MonitorEvent::AuthCleared);
    assert_eq!(a, MonitorAction::ReportSync(false));
}

#[test]
fn capture_order() {
    assert_eq!(capture_choice(false, Some("/a".into()), Some("x".into())), CaptureChoice::Skip);
    assert_eq!(capture_choice(true, Some("/a".into()), Some("x".into())), CaptureChoice::File("/a".into()));
    assert_eq!(
        capture_choice(true, None, Some("hello".into())),
        CaptureChoice::Text {
            text: "hello".into(),
            hash: "text:2cf24dba5fb0a30e26e83b2ac5b9e29e1b161e5c1fa7425e73043362938b9824".into()
        }
    );
    assert_eq!(capture_choice(true, None, Some(String::new())), CaptureChoice::Image);
    assert_eq!(capture_choice(true, None, None), CaptureChoice::Image);
}

#[test]
fn sessions_are_required() {
    assert_eq!(require_session_for_password_change("").unwrap_err(), "다시 로그인해 주세요.");
    assert!(require_session_for_password_change("smc_x").is_ok());
    assert_eq!(require_session_for_sync("").unwrap_err(), "로그인이 필요합니다.");
    assert!(require_session_for_sync("smc_x").is_ok());
}

#[test]
fn decoded_hex_encodes_to_lower_case() {
    let bytes = decode_hex("00ABcdEF").unwrap();
    assert_eq!(bytes.len(), 4);
    assert_eq!(hex(&bytes), "00abcdef");
}

#[test]
fn closing_keeps_a_live_run_cancelled() {
    let mut state = SelectionState::default();
    state.open_popup();
    let run = state.begin().unwrap();
    state.close_popup();
    assert!(state.begin().is_err());
    state.open_popup();
    state.open_popup();
    assert!(run.ensure_not_cancelled(&state).is_err());
    assert_eq!(state.begin().unwrap_err(), "이미 항목을 붙여넣는 중입니다.");
    run.release(&mut state);
    assert!(state.begin().is_ok());
}
