use mymemo_clipboard::capture::mime_type_of;
use mymemo_clipboard::path::path_extension;
use mymemo_clipboard::capture::{source_identity, text_hash};
use mymemo_clipboard::fallback::{
    delete_platform_secret, load_platform_secret, read_clipboard, read_file_clipboard,
    store_platform_secret, write_clipboard, write_file_clipboard,
};
use mymemo_clipboard::platform::{
    capture_foreground, clipboard_change_marker, drop_files_payload, ForegroundTarget,
};
use mymemo_clipboard::secrets::SESSION_KEY;

#[test]
fn paste_target_is_a_bundle_identifier() {
    assert_eq!(
        capture_foreground(Some("com.apple.TextEdit\n".to_string())),
        ForegroundTarget::App("com.apple.TextEdit".to_string())
    );
    assert_eq!(
        capture_foreground(Some("  org.mozilla-firefox  ".to_string())),
        ForegroundTarget::App("org.mozilla-firefox".to_string())
    );
    assert_eq!(capture_foreground(Some("\n".to_string())), ForegroundTarget::Nothing);
    assert_eq!(capture_foreground(Some("com.app; rm".to_string())), ForegroundTarget::Nothing);
    assert_eq!(capture_foreground(Some("a".repeat(256))), ForegroundTarget::Nothing);
    assert_eq!(
        capture_foreground(Some("a".repeat(255))),
        ForegroundTarget::App("a".repeat(255))
    );
    assert_eq!(capture_foreground(Some("앱".to_string())), ForegroundTarget::Nothing);
    assert_eq!(capture_foreground(None), ForegroundTarget::Nothing);
}

#[test]
fn change_counter() {
    assert_eq!(clipboard_change_marker(Some(7)), Some(7));
    assert_eq!(clipboard_change_marker(Some(0)), Some(0));
    assert_eq!(clipboard_change_marker(Some(-1)), None);
    assert_eq!(clipboard_change_marker(None), None);
}

#[test]
fn windows_file_drop_block() {
    let path: Vec<u16> = "C:\\a".encode_utf16().collect();
    let block = drop_files_payload(&path);
    assert_eq!(
        block,
        vec![
            20, 0, 0, 0, 0, 0, 0, 0, 0, 0, 0, 0, 0, 0, 0, 0, 1, 0, 0, 0, //
            b'C', 0, b':', 0, b'\\', 0, b'a', 0, 0, 0, 0, 0,
        ]
    );
    let wide: Vec<u16> = vec![0x1234, 0xabcd];
    assert_eq!(&drop_files_payload(&wide)[20..], &[0x34, 0x12, 0xcd, 0xab, 0, 0, 0, 0]);
}

#[test]
fn fingerprints_and_identities() {
    assert_eq!(
        text_hash("hello"),
        "text:2cf24dba5fb0a30e26e83b2ac5b9e29e1b161e5c1fa7425e73043362938b9824"
    );
    assert_eq!(text_hash(""), "text:e3b0c44298fc1c149afbf4c8996fb92427ae41e4649b934ca495991b7852b855");
    assert_eq!(
        source_identity("C:\\Users\\a.txt", 42, 1_700_000_000_123_456_789),
        "C:\\Users\\a.txt:42:1700000000123456789"
    );
    assert_eq!(source_identity("p", 0, 0), "p:0:0");
}

#[test]
fn unsupported_systems_do_nothing() {
    assert_eq!(read_file_clipboard(), Ok(None));
    assert_eq!(read_clipboard(), Ok(None));
    assert_eq!(write_clipboard("x").unwrap_err(), "이 운영체제는 아직 지원하지 않습니다.");
    assert_eq!(write_file_clipboard("/x").unwrap_err(), "이 운영체제는 아직 지원하지 않습니다.");
    assert_eq!(load_platform_secret(SESSION_KEY), Ok(String::new()));
    assert_eq!(
        store_platform_secret(SESSION_KEY, "v").unwrap_err(),
        "이 운영체제에서는 보안 저장소를 지원하지 않습니다."
    );
    assert_eq!(delete_platform_secret(SESSION_KEY), Ok(()));
}

#[test]
fn extensions_follow_the_system_separators() {
    use_path_rules();
}

fn use_path_rules() {
    assert_eq!(path_extension("C:\\dir\\.png", false), Some("png".to_string()));
    assert_eq!(path_extension("C:\\dir\\.png", true), None);
    assert_eq!(path_extension("/home/u/photo.PNG", false), Some("PNG".to_string()));
    assert_eq!(path_extension("/home/u/archive.tar.gz", false), Some("gz".to_string()));
    assert_eq!(path_extension("/home/u/.bashrc", false), None);
    assert_eq!(path_extension("/home/u/name.", false), Some(String::new()));
    assert_eq!(path_extension("/home/u/photo.png/", false), Some("png".to_string()));
    assert_eq!(path_extension("/home/u/photo.png/.", false), Some("png".to_string()));
    assert_eq!(path_extension("/home/u/..", false), None);
    assert_eq!(path_extension("/", false), None);
    assert_eq!(path_extension(".", false), None);
    assert_eq!(path_extension("", false), None);
    assert_eq!(path_extension("a\\b.txt", true), Some("txt".to_string()));
    assert_eq!(path_extension("a\\b.txt", false), Some("txt".to_string()));
    assert_eq!(path_extension("a.d\\b", false), Some("d\\b".to_string()));
    assert_eq!(path_extension("a.d\\b", true), None);
    assert_eq!(mime_type_of("C:\\dir\\.png", false), "image/png");
    assert_eq!(mime_type_of("C:\\dir\\.png", true), "application/octet-stream");
    assert_eq!(mime_type_of("/x/photo.PNG", false), "image/png");
    assert_eq!(mime_type_of("/x/blob", false), "application/octet-stream");
}
