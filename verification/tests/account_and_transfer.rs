use mymemo_clipboard::account::{
    apply_login, check_login_password, check_login_token, check_password_change,
    check_preferences, history_cleanup, login_error, needs_purge_on_login, password_change_error,
    session_expired_message, shortcut_to_register, trim_trailing_slashes, HistoryCleanup,
};
use mymemo_clipboard::endpoint::{endpoint, endpoint_for};
use mymemo_clipboard::history::LocalSource;
use mymemo_clipboard::monitor::{clipboard_changed, request_monitor, sync_due, MonitorWake, PopupFocus};
use mymemo_clipboard::secrets::{
    check_private_path, check_secret_file_len, check_secret_value, history_key_bytes,
    secret_filename, SecretCache, HISTORY_KEY, SESSION_KEY,
};
use mymemo_clipboard::selection::SelectionState;
use mymemo_clipboard::settings::{
    default_shortcut, device_name_from, Settings, DEFAULT_SHORTCUT_MACOS, DEFAULT_SHORTCUT_OTHER,
};
use mymemo_clipboard::shortcut::validate_shortcut;
use mymemo_clipboard::transfer::{
    answer_error, check_download_header, check_downloaded, check_pinned_identity,
    check_pinned_read, check_source_content, check_source_metadata, check_uploaded_digest,
    download_error, expected_digest, feed_error, file_request_error, is_pinned, poll_result,
    message_with_status, pending_requests_error, poll_error, poll_wait, publish_error, ready,
    upload_answer, upload_error, PollWait, UploadAnswer,
};

const SHA_ABC: &str = "ba7816bf8f01cfea414140de5dae2223b00361a396177a9cb410ff61f20015ad";

fn settings() -> Settings {
    Settings::defaults("Desk".to_string(), DEFAULT_SHORTCUT_OTHER)
}

fn source(sha: &str, identity: Option<&str>) -> LocalSource {
    LocalSource {
        item_id: "item-1".to_string(),
        path: "/tmp/a".to_string(),
        size_bytes: 3,
        sha256: sha.to_string(),
        source_identity: identity.map(|s| s.to_string()),
        managed: false,
    }
}

#[test]
fn history_limit_defaults_to_two_hundred() {
    let settings = Settings::defaults("Desk".to_string(), DEFAULT_SHORTCUT_OTHER);
    assert_eq!(settings.history_limit, 200);
    assert_eq!(settings.server_url, "https://memos.my");
    assert!(settings.enabled);
    assert_eq!(settings.shortcut, "Ctrl+Shift+V");
    assert_eq!(settings.device_id, "");
}

#[test]
fn device_names_and_default_shortcuts() {
    assert_eq!(device_name_from(Some("PC".to_string()), Some("host".to_string())), "PC");
    assert_eq!(device_name_from(None, Some("host".to_string())), "host");
    assert_eq!(device_name_from(None, None), "내 기기");
    let long = "가".repeat(100);
    assert_eq!(device_name_from(Some(long), None).chars().count(), 80);
    assert_eq!(default_shortcut(true), DEFAULT_SHORTCUT_MACOS);
    assert_eq!(default_shortcut(false), "Ctrl+Shift+V");
}

#[test]
fn device_id_is_given_once() {
    let mut s = settings();
    assert_eq!(s.assign_device_id(), Ok(true));
    assert!(s.device_id.starts_with("device_") && s.device_id.len() == 39);
    let id = s.device_id.clone();
    assert_eq!(s.assign_device_id(), Ok(false));
    assert_eq!(s.device_id, id);
}

#[test]
fn settings_views_and_changes() {
    let mut s = settings();
    s.username = "kim".to_string();
    s.display_name = "Kim".to_string();
    let view = s.public_view("smc_x");
    assert!(view.logged_in);
    assert_eq!(view.username, "kim");
    assert!(!s.public_view("").logged_in);
    let next = s.with_preferences(false, "Alt+V".to_string(), 50);
    assert!(!next.enabled);
    assert_eq!(next.shortcut, "Alt+V");
    assert_eq!(next.history_limit, 50);
    assert_eq!(next.username, "kim");
    s.clear_account();
    assert_eq!(s.username, "");
    assert_eq!(s.display_name, "");
    assert_eq!(s.device_name, "Desk");
}

#[test]
fn password_rules_and_server_answers() {
    assert_eq!(check_password_change("", "12345678").unwrap_err(), "현재 비밀번호를 입력해 주세요.");
    assert_eq!(
        check_password_change("old-pass", "short").unwrap_err(),
        "비밀번호는 제어 문자를 제외하고 8자 이상 입력해 주세요."
    );
    assert_eq!(
        check_password_change("samepass", "samepass").unwrap_err(),
        "현재 비밀번호와 다른 비밀번호를 입력해 주세요."
    );
    assert!(check_password_change("old-pass", "new-pass").is_ok());
    assert!(check_password_change("old-pass", "new\u{7}pass").is_err());
    assert!(check_password_change(&"a".repeat(257), "new-pass").is_err());
    assert!(check_password_change("old-pass", &"😀".repeat(128)).is_ok());
    assert!(check_password_change("old-pass", &"😀".repeat(129)).is_err());

    assert_eq!(password_change_error(200, "200 OK", None), None);
    assert_eq!(
        password_change_error(400, "400 Bad Request", Some("invalid_credentials")).unwrap(),
        "현재 비밀번호가 맞지 않습니다."
    );
    assert_eq!(
        password_change_error(400, "400 Bad Request", Some("password_unchanged")).unwrap(),
        "현재 비밀번호와 다른 비밀번호를 입력해 주세요."
    );
    assert_eq!(
        password_change_error(401, "401 Unauthorized", None).unwrap(),
        "로그인이 만료되었습니다. 다시 로그인해 주세요."
    );
    assert_eq!(
        password_change_error(429, "429 Too Many Requests", Some("other")).unwrap(),
        "요청이 많습니다. 잠시 후 다시 시도해 주세요."
    );
    assert_eq!(
        password_change_error(500, "500 Internal Server Error", None).unwrap(),
        "비밀번호를 변경하지 못했습니다. (500 Internal Server Error)"
    );
}

#[test]
fn sign_in_rules() {
    assert_eq!(check_login_password("").unwrap_err(), "아이디 또는 비밀번호를 확인해 주세요.");
    assert!(check_login_password(&"a".repeat(256)).is_ok());
    assert!(check_login_password(&"a".repeat(257)).is_err());
    assert!(check_login_password(&"가".repeat(86)).is_err());
    assert_eq!(login_error(200, "200 OK"), None);
    assert_eq!(login_error(401, "401 Unauthorized").unwrap(), "아이디 또는 비밀번호를 확인해 주세요.");
    assert_eq!(
        login_error(429, "429 Too Many Requests").unwrap(),
        "로그인 시도가 많습니다. 잠시 후 다시 시도해 주세요."
    );
    assert_eq!(
        login_error(502, "502 Bad Gateway").unwrap(),
        "로그인 서버가 응답하지 않았습니다. (502 Bad Gateway)"
    );
    assert!(check_login_token(&format!("smc_{}", "A".repeat(43))).is_ok());
    assert_eq!(
        check_login_token("smc_short").unwrap_err(),
        "로그인 응답이 올바르지 않습니다."
    );
    assert!(check_login_token(&format!("xyz_{}", "A".repeat(43))).is_err());

    assert_eq!(trim_trailing_slashes("https://memos.my//"), "https://memos.my");
    assert_eq!(trim_trailing_slashes("///"), "");
    let mut s = settings();
    s.username = "kim".to_string();
    assert!(!needs_purge_on_login(&s, "kim", "https://memos.my/"));
    assert!(needs_purge_on_login(&s, "lee", "https://memos.my"));
    assert!(needs_purge_on_login(&s, "kim", "https://other.example"));
    s.enabled = false;
    apply_login(&mut s, "https://memos.my/", "lee".to_string(), "Lee".to_string());
    assert_eq!(s.server_url, "https://memos.my");
    assert_eq!(s.username, "lee");
    assert_eq!(s.display_name, "Lee");
    assert!(s.enabled);
    assert_eq!(session_expired_message(), "로그인이 만료되었습니다. 다시 로그인해 주세요.");
}

#[test]
fn preferences_rules() {
    assert!(check_preferences("Ctrl+Shift+V", 1).is_ok());
    assert!(check_preferences("Ctrl+Shift+V", 500).is_ok());
    assert_eq!(
        check_preferences("Ctrl+Shift+V", 0).unwrap_err(),
        "최근 기록 개수는 1개에서 500개 사이로 입력해 주세요."
    );
    assert!(check_preferences("Ctrl+Shift+V", 501).is_err());
    assert_eq!(check_preferences("V", 10).unwrap_err(), "보조 키와 일반 키를 함께 입력해 주세요.");
    assert_eq!(history_cleanup(true, false), HistoryCleanup::Purge);
    assert_eq!(history_cleanup(true, true), HistoryCleanup::Trim);
    assert_eq!(history_cleanup(false, false), HistoryCleanup::Trim);

    let mut s = settings();
    assert_eq!(shortcut_to_register(&s, ""), Ok(None));
    assert_eq!(shortcut_to_register(&s, "smc_x"), Ok(Some("Ctrl+Shift+V".to_string())));
    s.shortcut = "Ctrl+Shift".to_string();
    assert_eq!(
        shortcut_to_register(&s, "smc_x").unwrap_err(),
        "지원하는 단축키 조합을 입력해 주세요."
    );
    s.enabled = false;
    assert_eq!(shortcut_to_register(&s, "smc_x"), Ok(None));
}

#[test]
fn shortcut_messages() {
    assert_eq!(validate_shortcut("   ").unwrap_err(), "단축키를 확인해 주세요.");
    assert_eq!(validate_shortcut(&"a".repeat(81)).unwrap_err(), "단축키를 확인해 주세요.");
    assert_eq!(validate_shortcut("Ctrl+\u{1}").unwrap_err(), "단축키를 확인해 주세요.");
    assert_eq!(validate_shortcut("Ctrl++V").unwrap_err(), "보조 키와 일반 키를 함께 입력해 주세요.");
    assert_eq!(validate_shortcut("A+V").unwrap_err(), "지원하는 단축키 조합을 입력해 주세요.");
    assert_eq!(
        validate_shortcut("Ctrl+Shift+Alt").unwrap_err(),
        "지원하는 단축키 조합을 입력해 주세요."
    );
    assert!(validate_shortcut(" ctrl + SHIFT + v ").is_ok());
    assert!(validate_shortcut("Option+Meta+F5").is_ok());
}

#[test]
fn answers_while_syncing() {
    assert_eq!(
        message_with_status("클립보드 전송에 실패했습니다.", "500 Internal Server Error"),
        "클립보드 전송에 실패했습니다. (500 Internal Server Error)"
    );
    assert_eq!(answer_error(204, "204 No Content", "x"), None);
    assert_eq!(answer_error(401, "401 Unauthorized", "x").unwrap(), "auth_required");
    assert_eq!(publish_error(401, "401 Unauthorized", None).unwrap(), "auth_required");
    assert_eq!(publish_error(201, "201 Created", Some("quota_exceeded")), None);
    assert_eq!(
        publish_error(413, "413 Payload Too Large", Some("quota_exceeded")).unwrap(),
        "저장 용량 50MB를 모두 사용했습니다. 마이메모 웹에서 파일이나 기록을 정리해 주세요."
    );
    assert_eq!(
        publish_error(413, "413 Payload Too Large", Some("clipboard_item_too_large")).unwrap(),
        "이 클립보드 항목은 공유하기에 너무 큽니다."
    );
    assert_eq!(
        publish_error(500, "500 Internal Server Error", None).unwrap(),
        "클립보드 전송에 실패했습니다. (500 Internal Server Error)"
    );
    assert_eq!(
        feed_error(503, "503 Service Unavailable").unwrap(),
        "클립보드 동기화에 실패했습니다. (503 Service Unavailable)"
    );
    assert_eq!(
        pending_requests_error(500, "500 Internal Server Error").unwrap(),
        "파일 요청을 확인하지 못했습니다. (500 Internal Server Error)"
    );
    assert_eq!(
        file_request_error(403, "403 Forbidden").unwrap(),
        "파일을 요청하지 못했습니다. (403 Forbidden)"
    );
    assert_eq!(upload_answer(404), UploadAnswer::Skip);
    assert_eq!(upload_answer(200), UploadAnswer::Accepted);
    assert_eq!(upload_answer(500), UploadAnswer::Failed);
    assert_eq!(upload_error("500 Internal Server Error"), "파일을 전송하지 못했습니다. (500 Internal Server Error)");
    assert!(check_uploaded_digest("aa", "aa").is_ok());
    assert_eq!(
        check_uploaded_digest("aa", "bb").unwrap_err(),
        "서버가 확인한 파일 내용이 원본과 다릅니다."
    );
}

#[test]
fn local_sources_must_be_unchanged() {
    let plain = source(SHA_ABC, None);
    assert!(check_source_metadata(&plain, 3, true, 3).is_ok());
    assert_eq!(
        check_source_metadata(&plain, 4, true, 3).unwrap_err(),
        "원본 파일이 복사한 뒤 변경되었거나 크기 제한을 넘었습니다."
    );
    assert!(check_source_metadata(&plain, 3, false, 3).is_err());
    assert!(check_source_content(&plain, b"abc").is_ok());
    assert_eq!(
        check_source_content(&plain, b"abd").unwrap_err(),
        "원본 파일이 복사한 뒤 변경되었습니다."
    );
    assert!(!is_pinned(&plain));

    let digest = "pinned:2d711642b726b04401627ca9fbac32f5c8530fb1903cc4db02258717921a4881";
    let pinned = source(digest, Some("x"));
    assert!(is_pinned(&pinned));
    assert!(check_pinned_identity(&pinned, "x").is_ok());
    assert_eq!(
        check_pinned_identity(&pinned, "y").unwrap_err(),
        "원본 파일이 복사한 뒤 변경되었습니다."
    );
    assert_eq!(
        check_pinned_identity(&source(digest, None), "x").unwrap_err(),
        "지연 전송 파일 정보가 없습니다."
    );
    assert!(check_pinned_identity(&source("pinned:00", Some("x")), "x").is_err());
    assert!(check_pinned_read("x", "x", 3, 3).is_ok());
    assert_eq!(
        check_pinned_read("x", "z", 3, 3).unwrap_err(),
        "원본 파일을 읽는 동안 변경되었습니다."
    );
    assert!(check_pinned_read("x", "x", 2, 3).is_err());
}

#[test]
fn fetching_a_file_from_another_device() {
    assert_eq!(poll_wait("pending", 0), PollWait::SleepThenPoll);
    assert_eq!(poll_wait("pending", 45_000), PollWait::GiveUp);
    assert_eq!(poll_wait("ready", 90_000), PollWait::Poll);
    assert_eq!(poll_error(200), None);
    assert_eq!(poll_error(401).unwrap(), "auth_required");
    assert_eq!(poll_error(404).unwrap(), "파일 요청 시간이 지났습니다.");
    assert_eq!(poll_error(500).unwrap(), "파일 전송 상태를 확인하지 못했습니다.");
    assert!(ready("ready") && ready("consumed") && !ready("pending"));
    assert_eq!(poll_result("pending", None), None);
    assert_eq!(poll_result("ready", Some(SHA_ABC.to_string())), Some(Ok(SHA_ABC.to_string())));
    assert_eq!(
        poll_result("consumed", None),
        Some(Err("파일 전송 상태가 올바르지 않습니다.".to_string()))
    );
    assert_eq!(
        poll_result("expired", Some(SHA_ABC.to_string())),
        Some(Err("원본 기기가 응답하지 않습니다. 원본 기기에서 앱이 실행 중인지 확인해 주세요.".to_string()))
    );
    assert_eq!(
        expected_digest("expired", Some(SHA_ABC.to_string())).unwrap_err(),
        "원본 기기가 응답하지 않습니다. 원본 기기에서 앱이 실행 중인지 확인해 주세요."
    );
    assert_eq!(expected_digest("ready", Some(SHA_ABC.to_string())), Ok(SHA_ABC.to_string()));
    assert_eq!(
        expected_digest("consumed", Some("abc".to_string())).unwrap_err(),
        "파일 전송 상태가 올바르지 않습니다."
    );
    assert!(expected_digest("ready", None).is_err());
    assert_eq!(download_error(200), None);
    assert_eq!(download_error(401).unwrap(), "auth_required");
    assert_eq!(download_error(500).unwrap(), "파일을 내려받지 못했습니다.");
    assert!(check_download_header(Some(SHA_ABC), SHA_ABC).is_ok());
    assert_eq!(
        check_download_header(None, SHA_ABC).unwrap_err(),
        "파일 전송 상태가 올바르지 않습니다."
    );
    assert_eq!(
        check_download_header(Some("00"), SHA_ABC).unwrap_err(),
        "받은 파일 내용이 올바르지 않습니다."
    );
    assert!(check_downloaded(b"abc", Some(3), SHA_ABC).is_ok());
    assert!(check_downloaded(b"abc", None, SHA_ABC).is_ok());
    assert_eq!(
        check_downloaded(b"abc", Some(4), SHA_ABC).unwrap_err(),
        "받은 파일 크기가 올바르지 않습니다."
    );
    assert_eq!(check_downloaded(b"", None, SHA_ABC).unwrap_err(), "받은 파일 크기가 올바르지 않습니다.");
    assert_eq!(
        check_downloaded(b"abd", None, SHA_ABC).unwrap_err(),
        "받은 파일 내용이 올바르지 않습니다."
    );
}

#[test]
fn local_secret_store_rules() {
    assert_eq!(secret_filename(SESSION_KEY), Ok("session-token.secret"));
    assert_eq!(secret_filename(HISTORY_KEY), Ok("history-key.secret"));
    assert_eq!(
        secret_filename("other").unwrap_err(),
        "로컬 보안 정보 이름이 올바르지 않습니다."
    );
    assert!(check_secret_file_len(128).is_ok());
    assert_eq!(check_secret_file_len(129).unwrap_err(), "로컬 보안 정보가 올바르지 않습니다.");
    assert!(check_secret_value(HISTORY_KEY, &"0f".repeat(32)).is_ok());
    assert!(check_secret_value(SESSION_KEY, &"0f".repeat(32)).is_err());
    assert!(check_private_path(true, true, false, 501, 501, 0o700).is_ok());
    assert!(check_private_path(false, false, true, 501, 501, 0o600).is_ok());
    assert_eq!(
        check_private_path(true, false, true, 501, 501, 0o700).unwrap_err(),
        "로컬 보안 저장소 경로가 올바르지 않습니다."
    );
    assert_eq!(
        check_private_path(false, false, true, 501, 501, 0o644).unwrap_err(),
        "로컬 보안 저장소 권한이 안전하지 않습니다."
    );
    assert!(check_private_path(false, false, true, 0, 501, 0o600).is_err());
    assert_eq!(history_key_bytes(&"0a".repeat(32)), Ok(vec![0x0a; 32]));
    assert_eq!(
        history_key_bytes(&"0a".repeat(31)).unwrap_err(),
        "클립보드 암호화 키가 올바르지 않습니다."
    );
    assert!(history_key_bytes("zz").is_err());
}

#[test]
fn secret_cache_gives_back_what_was_written() {
    let mut cache = SecretCache::new();
    assert_eq!(cache.get_secret(SESSION_KEY), None);
    cache.set_secret(SESSION_KEY, "smc_token");
    assert_eq!(cache.get_secret(SESSION_KEY), Some("smc_token".to_string()));
    assert_eq!(cache.session_token(), Some("smc_token".to_string()));
    assert_eq!(cache.get_secret(HISTORY_KEY), None);
    cache.set_secret(HISTORY_KEY, "ab");
    assert_eq!(cache.get_secret(SESSION_KEY), Some("smc_token".to_string()));
    cache.delete_secret(SESSION_KEY);
    assert_eq!(cache.get_secret(SESSION_KEY), Some(String::new()));
    assert_eq!(cache.get_secret(HISTORY_KEY), Some("ab".to_string()));
}

#[test]
fn development_servers_need_permission() {
    assert_eq!(
        endpoint_for("http://localhost:8080", "/feed", true).unwrap(),
        "http://localhost:8080/api/clipboard/v1/feed"
    );
    assert_eq!(
        endpoint_for("http://127.0.0.1", "/login", true).unwrap(),
        "http://127.0.0.1/api/clipboard/v1/login"
    );
    assert_eq!(
        endpoint_for("http://localhost:8080", "/feed", false).unwrap_err(),
        "마이메모 HTTPS 주소를 확인해 주세요."
    );
    assert_eq!(endpoint("not a url", "/feed").unwrap_err(), "서버 주소가 올바르지 않습니다.");
    assert!(endpoint("https://memos.my/?q=1", "/feed").is_err());
    assert!(endpoint("https://memos.my/#top", "/feed").is_err());
    assert!(endpoint("https://u:p@memos.my", "/feed").is_err());
    assert!(endpoint("http://memos.my", "/feed").is_err());
    assert_eq!(
        endpoint("https://memos.my:443", "/items").unwrap(),
        "https://memos.my/api/clipboard/v1/items"
    );
}

#[test]
fn monitor_decisions() {
    let mut wake = MonitorWake::new();
    assert!(!wake.pending());
    request_monitor(&mut wake, true, false);
    request_monitor(&mut wake, false, false);
    assert!(wake.pending());
    request_monitor(&mut wake, false, true);
    assert_eq!(wake.take(), (true, true));
    assert!(!wake.pending());
    assert!(clipboard_changed(None, None));
    assert!(clipboard_changed(Some(2), Some(1)));
    assert!(clipboard_changed(Some(2), None));
    assert!(!clipboard_changed(Some(2), Some(2)));
    assert!(!sync_due(2_999_999_999));
    assert!(sync_due(3_000_000_000));
    let mut focus = PopupFocus { armed: false };
    assert!(!focus.focus_changed(false));
    assert!(!focus.focus_changed(true));
    assert!(focus.focus_changed(false));
    assert!(!focus.armed);
}

#[test]
fn stale_selection_stays_cancelled() {
    let mut state = SelectionState::default();
    state.open_popup();
    let first = state.begin().unwrap();
    state.close_popup();
    first.release(&mut state);
    state.open_popup();
    let second = state.begin().unwrap();
    assert!(second.ensure_not_cancelled(&state).is_ok());
    assert_eq!(state.begin().unwrap_err(), "이미 항목을 붙여넣는 중입니다.");
    second.release(&mut state);
    state.close_popup();
    assert_eq!(state.begin().unwrap_err(), "클립보드 기록을 다시 열고 선택해 주세요.");
}
