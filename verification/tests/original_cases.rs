use mymemo_clipboard::account::{validate_current_password, validate_new_password};
use mymemo_clipboard::capture::privacy_markers_allow_capture;
use mymemo_clipboard::endpoint::endpoint;
use mymemo_clipboard::secrets::{valid_secret_value, HISTORY_KEY, SESSION_KEY};
use mymemo_clipboard::selection::SelectionState;
use mymemo_clipboard::settings::DEFAULT_SHORTCUT_OTHER;
use mymemo_clipboard::shortcut::validate_shortcut;

#[test]
fn shortcut_validation() {
    assert!(validate_shortcut(DEFAULT_SHORTCUT_OTHER).is_ok());
    assert!(validate_shortcut("Command+Shift+C").is_ok());
    assert!(validate_shortcut("V").is_err());
    assert!(validate_shortcut("Ctrl+Shift").is_err());
}

#[test]
fn selection_is_single_flight_and_popup_close_cancels_it() {
    let mut state = SelectionState::default();
    assert!(state.begin().is_err());

    state.open_popup();
    let selection = state.begin().expect("first selection should start");
    assert!(state.begin().is_err());
    assert!(selection.ensure_not_cancelled(&state).is_ok());

    state.close_popup();
    assert_eq!(
        selection.ensure_not_cancelled(&state).unwrap_err(),
        "파일 받기를 취소했습니다."
    );
    selection.release(&mut state);

    state.open_popup();
    assert!(state.begin().is_ok());
}

#[test]
fn windows_privacy_markers_fail_closed() {
    assert!(privacy_markers_allow_capture(false, false, None, false, None));
    assert!(!privacy_markers_allow_capture(true, false, None, false, None));
    assert!(!privacy_markers_allow_capture(false, true, Some(0), false, None));
    assert!(!privacy_markers_allow_capture(false, true, None, false, None));
    assert!(!privacy_markers_allow_capture(false, false, None, true, Some(0)));
    assert!(privacy_markers_allow_capture(false, true, Some(1), true, Some(1)));
}

#[test]
fn release_endpoints_are_pinned_to_memos_my() {
    assert_eq!(
        endpoint("https://memos.my", "/feed").unwrap().as_str(),
        "https://memos.my/api/clipboard/v1/feed"
    );
    assert!(endpoint("https://attacker.example", "/login").is_err());
    assert!(endpoint("https://memos.my.attacker.example", "/login").is_err());
    assert!(endpoint("https://memos.my:8443", "/login").is_err());
    assert!(endpoint("https://memos.my/path", "/login").is_err());
    assert!(endpoint("https://user@memos.my", "/login").is_err());
}

#[test]
fn password_change_accepts_existing_eight_character_passwords() {
    assert!(validate_current_password("12345678").is_ok());
    assert!(validate_new_password("12345678").is_ok());
    assert!(validate_current_password("").is_err());
    assert!(validate_new_password("1234567").is_err());
}

#[test]
fn local_secret_values_use_exact_shapes() {
    assert!(valid_secret_value(
        SESSION_KEY,
        &format!("smc_{}", "A".repeat(43))
    ));
    assert!(!valid_secret_value(
        SESSION_KEY,
        &format!("legacy_{}", "z".repeat(40))
    ));
    assert!(valid_secret_value(HISTORY_KEY, &"a1".repeat(32)));
    assert!(!valid_secret_value(SESSION_KEY, "smc_short"));
    assert!(!valid_secret_value(HISTORY_KEY, &"g0".repeat(32)));
    assert!(!valid_secret_value("unknown", &"a".repeat(64)));
}
