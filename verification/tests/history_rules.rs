use mymemo_clipboard::transfer::sync_outcome;
use mymemo_clipboard::history::{
    feed_event_kind, ClipboardItem, FeedEvent, FeedEventKind, LocalSource, LocalState,
    PendingItem, MAX_ITEMS,
};
use mymemo_clipboard::monitor::has_pinned_source;
use mymemo_clipboard::paste::{
    check_remote_origin, download_name, plan_paste, plan_thumbnail, thumbnail_answer,
    thumbnail_data_url, PasteKind, ThumbnailPlan,
};

fn item(id: &str, text: &str) -> ClipboardItem {
    ClipboardItem {
        seq: 1,
        id: id.to_string(),
        space_id: "personal".to_string(),
        origin_device_id: "device_a".to_string(),
        kind: "text".to_string(),
        text: text.to_string(),
        filename: None,
        mime_type: None,
        size_bytes: None,
        thumbnail_available: false,
        created_at: "2025-01-01T00:00:00Z".to_string(),
    }
}

fn file_item(id: &str, origin: &str, size: Option<u64>) -> ClipboardItem {
    ClipboardItem {
        kind: "file".to_string(),
        filename: Some("report.pdf".to_string()),
        size_bytes: size,
        origin_device_id: origin.to_string(),
        ..item(id, "report.pdf")
    }
}

fn pending(local_id: &str, thumbnail: Option<&str>) -> PendingItem {
    PendingItem {
        client_event_id: "clip_1".to_string(),
        kind: "text".to_string(),
        text: "hello".to_string(),
        filename: None,
        mime_type: None,
        size_bytes: None,
        thumbnail_base64: thumbnail.map(|t| t.to_string()),
        thumbnail_mime_type: None,
        local_id: local_id.to_string(),
        created_at: "2025-01-01T00:00:00Z".to_string(),
    }
}

fn source(item_id: &str, path: &str, managed: bool) -> LocalSource {
    LocalSource {
        item_id: item_id.to_string(),
        path: path.to_string(),
        size_bytes: 3,
        sha256: "abc".to_string(),
        source_identity: None,
        managed,
    }
}

fn ids(state: &LocalState) -> Vec<String> {
    state.items.iter().map(|i| i.id.clone()).collect()
}

#[test]
fn feed_page_applies_events_in_order() {
    let mut state = LocalState::default();
    state.items = vec![item("a", "1"), item("b", "2")];
    let events = vec![
        FeedEvent::Published(item("c", "3")),
        FeedEvent::Published(item("a", "1 again")),
        FeedEvent::Deleted("b".to_string()),
        FeedEvent::Other,
    ];
    state.apply_feed_page(events, 42);
    assert_eq!(ids(&state), vec!["a", "c"]);
    assert_eq!(state.items[0].text, "1 again");
    assert_eq!(state.cursor, 42);
}

#[test]
fn feed_event_replayed_twice_changes_nothing() {
    let mut once = LocalState::default();
    once.items = vec![item("a", "1"), item("b", "2")];
    let mut twice = once.clone();
    once.apply_feed_event(FeedEvent::Published(item("b", "new")));
    twice.apply_feed_event(FeedEvent::Published(item("b", "new")));
    twice.apply_feed_event(FeedEvent::Published(item("b", "new")));
    assert!(once.same_state_as(&twice));
    assert_eq!(ids(&once), vec!["b", "a"]);
}

#[test]
fn feed_event_kinds() {
    assert_eq!(feed_event_kind("published"), FeedEventKind::Published);
    assert_eq!(feed_event_kind("deleted"), FeedEventKind::Deleted);
    assert_eq!(feed_event_kind("renamed"), FeedEventKind::Other);
}

#[test]
fn publish_results_keep_failures_waiting() {
    let mut state = LocalState::default();
    state.items = vec![item("local_x", "hello"), item("old", "o")];
    state.pending = vec![pending("local_x", None), pending("local_y", None)];
    state.sources = vec![source("local_x", "/tmp/x", false)];
    let results = vec![
        (pending("local_x", None), Ok(item("srv_x", "hello"))),
        (pending("local_y", None), Err("quota".to_string())),
    ];
    let outcome = state.apply_publish_results(results);
    assert_eq!(outcome, Ok(Some("quota".to_string())));
    assert_eq!(ids(&state), vec!["srv_x", "old"]);
    assert_eq!(state.pending.len(), 1);
    assert_eq!(state.pending[0].local_id, "local_y");
    assert_eq!(state.sources[0].item_id, "srv_x");
}

#[test]
fn publish_results_stop_on_rejected_session() {
    let mut state = LocalState::default();
    state.items = vec![item("a", "1")];
    state.pending = vec![pending("local_x", None)];
    let before = state.clone();
    let results = vec![
        (pending("local_x", None), Ok(item("srv_x", "hello"))),
        (pending("local_y", None), Err("auth_required".to_string())),
    ];
    assert_eq!(state.apply_publish_results(results), Err("auth_required".to_string()));
    assert_eq!(state, before);
}

#[test]
fn capture_accepted_goes_first_with_its_source() {
    let mut state = LocalState::default();
    state.items = vec![item("srv_1", "same"), item("b", "2")];
    let r = state.record_capture(
        pending("local_1", None),
        Some(source("local_1", "/tmp/f", false)),
        Ok(item("srv_1", "same")),
        &"device_a".to_string(),
    );
    assert_eq!(r, Ok(None));
    assert_eq!(ids(&state), vec!["srv_1", "b"]);
    assert_eq!(state.sources[0].item_id, "srv_1");
    assert!(state.pending.is_empty());
}

#[test]
fn capture_not_accepted_waits_with_local_entry() {
    let mut state = LocalState::default();
    state.items = vec![item("b", "2")];
    let r = state.record_capture(
        pending("local_1", Some("AAAA")),
        None,
        Err("offline".to_string()),
        &"device_a".to_string(),
    );
    assert_eq!(r, Ok(Some("offline".to_string())));
    assert_eq!(ids(&state), vec!["local_1", "b"]);
    assert_eq!(state.items[0].seq, 0);
    assert_eq!(state.items[0].space_id, "personal");
    assert_eq!(state.items[0].origin_device_id, "device_a");
    assert!(state.items[0].thumbnail_available);
    assert_eq!(state.pending.len(), 1);
}

#[test]
fn capture_with_rejected_session_changes_nothing() {
    let mut state = LocalState::default();
    state.items = vec![item("b", "2")];
    let before = state.clone();
    let r = state.record_capture(
        pending("local_1", None),
        None,
        Err("auth_required".to_string()),
        &"device_a".to_string(),
    );
    assert_eq!(r, Err("auth_required".to_string()));
    assert_eq!(state, before);
}

#[test]
fn history_is_capped_at_five_hundred() {
    let mut state = LocalState::default();
    for k in 0..(MAX_ITEMS + 20) {
        state.items.push(item(&format!("id{k}"), "x"));
    }
    state.cap_history();
    assert_eq!(state.items.len(), 500);
    assert_eq!(state.items[0].id, "id0");
    state.trim_history(3);
    assert_eq!(ids(&state), vec!["id0", "id1", "id2"]);
}

#[test]
fn unused_sources_are_forgotten_and_own_files_removed() {
    let mut state = LocalState::default();
    state.items = vec![item("a", "1")];
    state.pending = vec![pending("local_p", None)];
    state.sources = vec![
        source("a", "/keep/a", false),
        source("gone", "/own/gone.png", true),
        source("local_p", "/missing", true),
        source("gone2", "/user/file", false),
    ];
    let removed = state.clean_local_sources(&vec![true, true, false, true]);
    assert_eq!(state.sources.len(), 1);
    assert_eq!(state.sources[0].path, "/keep/a");
    assert_eq!(removed, vec!["/own/gone.png".to_string(), "/missing".to_string()]);
}

#[test]
fn same_state_detects_changes() {
    let mut a = LocalState::default();
    a.items = vec![item("a", "1")];
    let mut b = a.clone();
    assert!(a.same_state_as(&b));
    b.items[0].filename = Some("x".to_string());
    assert!(!a.same_state_as(&b));
    let mut c = a.clone();
    c.cursor = 9;
    assert!(!a.same_state_as(&c));
}

#[test]
fn paste_plans() {
    let mut state = LocalState::default();
    state.items = vec![
        item("t", "hello"),
        file_item("f", "device_b", Some(7)),
        file_item("r", "device_b", None),
    ];
    state.sources = vec![source("f", "/x", false)];
    assert_eq!(plan_paste(&state, &"t".to_string()), Ok((0, PasteKind::Text)));
    assert_eq!(
        plan_paste(&state, &"f".to_string()),
        Ok((1, PasteKind::Local { source: 0, expected_size: 7 }))
    );
    assert_eq!(plan_paste(&state, &"r".to_string()), Ok((2, PasteKind::NoLocalSource)));
    assert_eq!(
        plan_paste(&state, &"zz".to_string()).unwrap_err(),
        "클립보드 항목을 찾을 수 없습니다."
    );
    assert!(check_remote_origin(&state.items[2], &"device_a".to_string()).is_ok());
    assert_eq!(
        check_remote_origin(&state.items[2], &"device_b".to_string()).unwrap_err(),
        "원본 파일을 찾을 수 없습니다. 파일을 다시 복사해 주세요."
    );
    assert_eq!(download_name(&state.items[1]), ("f".to_string(), "report.pdf".to_string()));
    assert_eq!(download_name(&state.items[0]), ("t".to_string(), "hello".to_string()));
    let mut nested = file_item("n", "device_b", None);
    nested.filename = Some("a/b\\c.txt".to_string());
    assert_eq!(download_name(&nested), ("n".to_string(), "c.txt".to_string()));
    nested.filename = None;
    nested.text = "plain name".to_string();
    assert_eq!(download_name(&nested), ("n".to_string(), "plain name".to_string()));
}

#[test]
fn thumbnail_plans_and_answers() {
    let mut state = LocalState::default();
    let mut with_thumb = item("i", "img");
    with_thumb.thumbnail_available = true;
    state.items = vec![item("t", "x"), with_thumb];
    state.pending = vec![pending("local_1", Some("QUJD")), pending("local_2", None)];
    assert_eq!(
        plan_thumbnail(&state, &"local_1".to_string()),
        Ok(ThumbnailPlan::Ready(Some("data:image/jpeg;base64,QUJD".to_string())))
    );
    assert_eq!(plan_thumbnail(&state, &"local_2".to_string()), Ok(ThumbnailPlan::Ready(None)));
    assert_eq!(plan_thumbnail(&state, &"t".to_string()), Ok(ThumbnailPlan::Ready(None)));
    assert_eq!(plan_thumbnail(&state, &"i".to_string()), Ok(ThumbnailPlan::Fetch));
    assert!(plan_thumbnail(&state, &"none".to_string()).is_err());

    assert_eq!(thumbnail_answer(404, None), Ok(None));
    assert_eq!(thumbnail_answer(401, None), Err("auth_required".to_string()));
    assert_eq!(thumbnail_answer(500, None).unwrap_err(), "썸네일을 불러오지 못했습니다.");
    assert_eq!(
        thumbnail_answer(200, Some("image/gif")).unwrap_err(),
        "썸네일 형식이 올바르지 않습니다."
    );
    assert_eq!(thumbnail_answer(200, Some("image/png")), Ok(Some("image/png".to_string())));
    assert_eq!(thumbnail_data_url("image/png", b"hi").unwrap(), "data:image/png;base64,aGk=");
    assert_eq!(
        thumbnail_data_url("image/png", &vec![0u8; 256 * 1024 + 1]).unwrap_err(),
        "썸네일이 너무 큽니다."
    );
}

#[test]
fn pinned_sources_keep_the_monitor_listening() {
    let mut state = LocalState::default();
    state.sources = vec![source("a", "/a", false)];
    assert!(!has_pinned_source(&state));
    state.sources[0].sha256 = "pinned:00".to_string();
    assert!(has_pinned_source(&state));
}

#[test]
fn finishing_a_sync_caps_then_forgets_unused_sources() {
    let mut state = LocalState::default();
    state.items = (0..502).map(|i| item(&format!("i{i}"), "x")).collect();
    state.sources = vec![
        source("i0", "/keep", false),
        source("i501", "/gone-own", true),
        source("i1", "/missing", true),
    ];
    let removed = state.finish_sync(&vec![true, true, false]);
    assert_eq!(state.items.len(), MAX_ITEMS);
    assert_eq!(state.sources.len(), 1);
    assert_eq!(state.sources[0].path, "/keep");
    assert_eq!(removed, vec!["/gone-own".to_string(), "/missing".to_string()]);
}

#[test]
fn sync_reports_publish_errors_first() {
    assert_eq!(sync_outcome(None, None), Ok(()));
    assert_eq!(sync_outcome(Some("a".to_string()), Some("b".to_string())), Err("a".to_string()));
    assert_eq!(sync_outcome(None, Some("b".to_string())), Err("b".to_string()));
}

#[test]
fn a_whole_sync_applies_publishes_pages_cap_and_cleaning() {
    let mut state = LocalState::default();
    state.cursor = 4;
    state.items = vec![item("old", "x"), item("local_1", "waiting")];
    state.pending = vec![pending("local_1", None), pending("local_2", None)];
    state.sources = vec![source("local_1", "/own", true), source("gone", "/gone", true)];
    let accepted = item("srv_1", "waiting");
    let results = vec![
        (pending("local_1", None), Ok(accepted)),
        (pending("local_2", None), Err("offline".to_string())),
    ];
    let pages = vec![
        (vec![FeedEvent::Published(item("srv_2", "new"))], 7),
        (vec![FeedEvent::Deleted("old".to_string())], 9),
    ];
    let (first, removed) = state.apply_sync(results, pages, &vec![true, true]).unwrap();
    assert_eq!(first, Some("offline".to_string()));
    assert_eq!(ids(&state), vec!["srv_2".to_string(), "srv_1".to_string()]);
    assert_eq!(state.cursor, 9);
    assert_eq!(state.pending.len(), 1);
    assert_eq!(state.pending[0].local_id, "local_2");
    assert_eq!(state.sources.len(), 1);
    assert_eq!(state.sources[0].item_id, "srv_1");
    assert_eq!(removed, vec!["/gone".to_string()]);

    let mut rejected = LocalState::default();
    rejected.pending = vec![pending("local_9", None)];
    let before = rejected.clone();
    let answer = rejected.apply_sync(
        vec![(pending("local_9", None), Err("auth_required".to_string()))],
        vec![(vec![FeedEvent::Deleted("x".to_string())], 3)],
        &vec![],
    );
    assert_eq!(answer, Err("auth_required".to_string()));
    assert_eq!(rejected, before);
}
