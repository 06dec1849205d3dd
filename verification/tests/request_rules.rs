use mymemo_clipboard::endpoint::{endpoint, MAX_URL_TEXT};
use mymemo_clipboard::history::PendingItem;
use mymemo_clipboard::images::{file_thumbnail_base64, image_file_bytes};
use mymemo_clipboard::transfer::{
    fetch_start, fetch_step, publish_body, BodyValue, FetchAction, FetchEvent, FetchStage,
};

const SHA_ABC: &str = "ba7816bf8f01cfea414140de5dae2223b00361a396177a9cb410ff61f20015ad";
const CANCELLED: &str = "파일 받기를 취소했습니다.";

fn resumed(ok: bool, elapsed_ms: u64) -> FetchEvent {
    FetchEvent::Resumed {
        check: if ok { Ok(()) } else { Err(CANCELLED.to_string()) },
        elapsed_ms,
    }
}

fn polled(http_status: u16, status: &str, digest: Option<&str>) -> FetchEvent {
    FetchEvent::Polled {
        http_status,
        body: Some((status.to_string(), digest.map(|d| d.to_string()))),
    }
}

#[test]
fn fetch_polls_until_ready_then_downloads() {
    let (s, a) = fetch_start("pending".to_string());
    assert_eq!(a, FetchAction::Pause(0));
    let (s, a) = fetch_step(s, resumed(true, 0));
    assert_eq!(a, FetchAction::Pause(1000));
    let (s, a) = fetch_step(s, resumed(true, 1000));
    assert_eq!(a, FetchAction::Poll);
    let (s, a) = fetch_step(s, polled(200, "pending", None));
    assert_eq!(a, FetchAction::Pause(0));
    let (s, a) = fetch_step(s, resumed(true, 1100));
    assert_eq!(a, FetchAction::Pause(1000));
    let (s, a) = fetch_step(s, resumed(true, 2100));
    assert_eq!(a, FetchAction::Poll);
    let (s, a) = fetch_step(s, polled(200, "ready", Some(SHA_ABC)));
    assert_eq!(a, FetchAction::Pause(0));
    assert_eq!(s, FetchStage::Ready { digest: SHA_ABC.to_string() });
    let (_, a) = fetch_step(s, resumed(true, 2200));
    assert_eq!(a, FetchAction::Download(SHA_ABC.to_string()));
}

#[test]
fn fetch_asks_nothing_after_a_cancellation() {
    let (s, _) = fetch_start("pending".to_string());
    let (_, a) = fetch_step(s.clone(), resumed(false, 0));
    assert_eq!(a, FetchAction::Fail(CANCELLED.to_string()));
    let paused = FetchStage::Paused { status: "pending".to_string() };
    let (_, a) = fetch_step(paused, resumed(false, 10));
    assert_eq!(a, FetchAction::Fail(CANCELLED.to_string()));
    let ready = FetchStage::Ready { digest: SHA_ABC.to_string() };
    let (_, a) = fetch_step(ready, resumed(false, 10));
    assert_eq!(a, FetchAction::Fail(CANCELLED.to_string()));
}

#[test]
fn fetch_stops_on_bad_answers() {
    let waiting = FetchStage::Waiting { status: "pending".to_string() };
    let (_, a) = fetch_step(waiting.clone(), resumed(true, 45_000));
    assert_eq!(
        a,
        FetchAction::Fail(
            "원본 기기가 응답하지 않습니다. 원본 기기에서 앱이 실행 중인지 확인해 주세요.".to_string()
        )
    );
    let (_, a) = fetch_step(waiting.clone(), resumed(true, 0));
    assert_eq!(a, FetchAction::Pause(1000));
    let ready_now = FetchStage::Waiting { status: "ready".to_string() };
    let (_, a) = fetch_step(ready_now, resumed(true, 0));
    assert_eq!(a, FetchAction::Pause(0));
    let (_, a) = fetch_step(waiting.clone(), polled(401, "pending", None));
    assert_eq!(a, FetchAction::Fail("auth_required".to_string()));
    let (_, a) = fetch_step(waiting.clone(), polled(404, "pending", None));
    assert_eq!(a, FetchAction::Fail("파일 요청 시간이 지났습니다.".to_string()));
    let (_, a) = fetch_step(waiting.clone(), FetchEvent::Polled { http_status: 200, body: None });
    assert_eq!(a, FetchAction::Fail("파일 전송 상태가 올바르지 않습니다.".to_string()));
    let (_, a) = fetch_step(waiting.clone(), polled(200, "ready", Some("abc")));
    assert_eq!(a, FetchAction::Fail("파일 전송 상태가 올바르지 않습니다.".to_string()));
    let (_, a) = fetch_step(waiting, polled(200, "expired", None));
    assert_eq!(
        a,
        FetchAction::Fail(
            "원본 기기가 응답하지 않습니다. 원본 기기에서 앱이 실행 중인지 확인해 주세요.".to_string()
        )
    );
}

fn pending_item() -> PendingItem {
    PendingItem {
        client_event_id: "clip_1".to_string(),
        kind: "file".to_string(),
        text: "a.png".to_string(),
        filename: Some("a.png".to_string()),
        mime_type: None,
        size_bytes: Some(12),
        thumbnail_base64: Some("QUJD".to_string()),
        thumbnail_mime_type: Some("image/jpeg".to_string()),
        local_id: "local_clip_1".to_string(),
        created_at: "t".to_string(),
    }
}

#[test]
fn publish_body_lists_the_fields_present() {
    let text = |s: &str| BodyValue::Text(s.to_string());
    assert_eq!(
        publish_body(&pending_item()),
        vec![
            ("client_event_id".to_string(), text("clip_1")),
            ("space_id".to_string(), text("personal")),
            ("kind".to_string(), text("file")),
            ("text".to_string(), text("a.png")),
            ("filename".to_string(), text("a.png")),
            ("size_bytes".to_string(), BodyValue::Number(12)),
            ("thumbnail_base64".to_string(), text("QUJD")),
            ("thumbnail_mime_type".to_string(), text("image/jpeg")),
        ]
    );
    let mut bare = pending_item();
    bare.filename = None;
    bare.size_bytes = None;
    bare.thumbnail_base64 = None;
    bare.thumbnail_mime_type = None;
    bare.mime_type = Some("text/plain".to_string());
    assert_eq!(publish_body(&bare).len(), 5);
    assert_eq!(publish_body(&bare)[4], ("mime_type".to_string(), text("text/plain")));
}

#[test]
fn file_thumbnails_follow_the_extension() {
    let rgba = vec![10u8; 4 * 4 * 4];
    let png = image_file_bytes(4, 4, &rgba).unwrap();
    assert!(file_thumbnail_base64(&png, "/x/pic.png", false).unwrap().starts_with("/9j/"));
    assert!(file_thumbnail_base64(&png, "/x/pic.PNG", false).is_some());
    assert_eq!(file_thumbnail_base64(&png, "/x/pic.jpg", false), None);
    assert_eq!(file_thumbnail_base64(&png, "/x/pic", false), None);
    assert_eq!(file_thumbnail_base64(&png, "C:\\x\\.png", true), None);
}

#[test]
fn overlong_server_addresses_are_refused() {
    let padded = format!("https://memos.my{}", " ".repeat(MAX_URL_TEXT));
    assert_eq!(endpoint(&padded, "/feed").unwrap_err(), "마이메모 HTTPS 주소를 확인해 주세요.");
    let trailing = format!("https://memos.my{}", " ".repeat(8));
    assert_eq!(endpoint(&trailing, "/feed").unwrap(), "https://memos.my/api/clipboard/v1/feed");
}
