use mymemo_clipboard::capture::{
    check_copied_file, classify, clipboard_image_ok, content_digest, copied_file_facts,
    file_bytes_hash, file_capture, file_capture_hash, image_capture_hash, local_id_for,
    pinned_digest, shared_file_name, should_capture, text_capture_hash, text_pending,
    wants_thumbnail, AppliedHash,
};
use mymemo_clipboard::crypto::{
    open_history, random_device_id, random_event_id, random_history_key_text, random_nonce,
    random_temp_name, seal_history, sha256_hex,
};
use mymemo_clipboard::hex::{decimal, decode_hex, hex};
use mymemo_clipboard::images::{
    image_file_bytes, image_file_name, received_image, thumbnail_base64,
};
use mymemo_clipboard::paste::thumbnail_data_url;
use mymemo_clipboard::secrets::{valid_secret_value, HISTORY_KEY};

const SHA_ABC: &str = "ba7816bf8f01cfea414140de5dae2223b00361a396177a9cb410ff61f20015ad";
const SHA_HELLO: &str = "2cf24dba5fb0a30e26e83b2ac5b9e29e1b161e5c1fa7425e73043362938b9824";

fn all_hex(s: &str) -> bool {
    s.bytes().all(|b| b.is_ascii_hexdigit() && !b.is_ascii_uppercase())
}

#[test]
fn hex_encodes_lower_case_and_decodes_back() {
    assert_eq!(hex(&[0x00, 0xab, 0xff, 0x10]), "00abff10");
    assert_eq!(hex(&[]), "");
    let bytes: Vec<u8> = (0..=255).collect();
    assert_eq!(decode_hex(&hex(&bytes)), Some(bytes));
    assert_eq!(decode_hex("ABcd"), Some(vec![0xab, 0xcd]));
    assert_eq!(decode_hex(""), Some(vec![]));
    assert_eq!(decode_hex("abc"), None);
    assert_eq!(decode_hex("0g"), None);
    assert_eq!(decode_hex("é1"), None);
}

#[test]
fn decimal_digits() {
    assert_eq!(decimal(0), "0");
    assert_eq!(decimal(1234567890), "1234567890");
    assert_eq!(decimal(u64::MAX as u128), "18446744073709551615");
    assert_eq!(decimal(u128::MAX), "340282366920938463463374607431768211455");
}

#[test]
fn sha256_known_digests() {
    assert_eq!(sha256_hex(b"abc"), SHA_ABC);
    assert_eq!(content_digest(b"hello"), SHA_HELLO);
    assert_eq!(file_bytes_hash(b"abc"), format!("file:{SHA_ABC}"));
    assert_eq!(image_capture_hash(b"abc"), format!("image:{SHA_ABC}"));
    assert_eq!(file_capture_hash("xyz"), "file:xyz");
    assert_eq!(
        pinned_digest("x"),
        "pinned:2d711642b726b04401627ca9fbac32f5c8530fb1903cc4db02258717921a4881"
    );
}

#[test]
fn base64_standard_alphabet_with_padding() {
    assert_eq!(thumbnail_data_url("image/png", b"hello").unwrap(), "data:image/png;base64,aGVsbG8=");
    assert_eq!(thumbnail_data_url("image/png", b"").unwrap(), "data:image/png;base64,");
    assert_eq!(thumbnail_data_url("image/jpeg", &[0xfb, 0xff]).unwrap(), "data:image/jpeg;base64,+/8=");
}

#[test]
fn sealed_history_opens_with_the_same_key() {
    let key = [7u8; 32];
    let nonce = [1u8; 12];
    let plain = b"{\"cursor\":3}".to_vec();
    let sealed = seal_history(&key, &nonce, &plain).unwrap();
    assert_eq!(sealed.len(), 12 + plain.len() + 16);
    assert_eq!(&sealed[..12], &nonce);
    assert_eq!(open_history(&key, &sealed), Ok(plain.clone()));

    let empty = seal_history(&key, &nonce, b"").unwrap();
    assert_eq!(open_history(&key, &empty), Ok(vec![]));
}

#[test]
fn sealed_history_rejects_wrong_key_and_damage() {
    let key = [7u8; 32];
    let nonce = [2u8; 12];
    let sealed = seal_history(&key, &nonce, b"state").unwrap();
    assert_eq!(
        open_history(&[8u8; 32], &sealed).unwrap_err(),
        "로컬 클립보드 기록을 열 수 없습니다."
    );
    let mut damaged = sealed.clone();
    let last = damaged.len() - 1;
    damaged[last] ^= 1;
    assert_eq!(
        open_history(&key, &damaged).unwrap_err(),
        "로컬 클립보드 기록을 열 수 없습니다."
    );
    assert_eq!(
        open_history(&key, &[0u8; 12]).unwrap_err(),
        "로컬 클립보드 기록이 올바르지 않습니다."
    );
    assert_eq!(
        open_history(&[1u8; 31], &sealed).unwrap_err(),
        "암호화 키가 올바르지 않습니다."
    );
    assert_eq!(
        seal_history(&[1u8; 16], &nonce, b"x").unwrap_err(),
        "암호화 키가 올바르지 않습니다."
    );
}

#[test]
fn random_identifiers_have_their_shapes() {
    let event = random_event_id().unwrap();
    assert!(event.starts_with("clip_") && event.len() == 5 + 32 && all_hex(&event[5..]));
    let device = random_device_id().unwrap();
    assert!(device.starts_with("device_") && device.len() == 7 + 32 && all_hex(&device[7..]));
    let key = random_history_key_text().unwrap();
    assert_eq!(key.len(), 64);
    assert!(valid_secret_value(HISTORY_KEY, &key));
    assert_eq!(random_nonce().unwrap().len(), 12);
    let temp = random_temp_name(".clipboard-").unwrap();
    assert!(temp.starts_with(".clipboard-") && temp.ends_with(".tmp"));
    assert_eq!(temp.len(), 11 + 16 + 4);
    assert_ne!(random_event_id().unwrap(), event);
}

#[test]
fn text_kinds() {
    assert_eq!(classify("https://memos.my/x"), "url");
    assert_eq!(classify("http://example.com"), "url");
    assert_eq!(classify("https://a b"), "text");
    assert_eq!(classify("see https://memos.my"), "text");
    assert_eq!(classify("ftp://host"), "text");
    assert_eq!(classify("hello"), "text");
}

#[test]
fn shareable_text_fingerprints() {
    assert_eq!(text_capture_hash("hello"), Some(format!("text:{SHA_HELLO}")));
    assert_eq!(text_capture_hash(""), None);
    assert_eq!(text_capture_hash("a\0b"), None);
    assert!(text_capture_hash(&"a".repeat(64 * 1024)).is_some());
    assert_eq!(text_capture_hash(&"a".repeat(64 * 1024 + 1)), None);
    assert_eq!(text_capture_hash(&"가".repeat(21846)), None);
    assert!(text_capture_hash(&"가".repeat(21845)).is_some());
}

#[test]
fn capture_happens_once_per_value() {
    let mut last = String::new();
    assert!(should_capture("text:a", &mut last, &None, 0));
    assert_eq!(last, "text:a");
    assert!(!should_capture("text:a", &mut last, &None, 10));
    assert!(should_capture("text:b", &mut last, &None, 20));
    assert_eq!(last, "text:b");
}

#[test]
fn own_paste_is_not_captured_for_three_seconds() {
    let applied = Some(AppliedHash { hash: "file:f".to_string(), at_ns: 1_000_000_000 });
    let mut last = String::new();
    assert!(!should_capture("file:f", &mut last, &applied, 3_999_999_999));
    assert_eq!(last, "file:f");
    let mut last = String::new();
    assert!(should_capture("file:f", &mut last, &applied, 4_000_000_000));
    let mut last = String::new();
    assert!(should_capture("file:g", &mut last, &applied, 1_500_000_000));
}

#[test]
fn copied_files_and_their_records() {
    assert_eq!(check_copied_file(false, 3).unwrap_err(), "폴더 붙여넣기는 지원하지 않습니다.");
    assert_eq!(check_copied_file(true, 0).unwrap_err(), "파일은 10MB 이하만 공유할 수 있습니다.");
    assert_eq!(
        check_copied_file(true, 10 * 1024 * 1024 + 1).unwrap_err(),
        "파일은 10MB 이하만 공유할 수 있습니다."
    );
    assert!(check_copied_file(true, 10 * 1024 * 1024).is_ok());
    assert_eq!(shared_file_name(Some("a.txt".to_string())), Ok("a.txt".to_string()));
    assert_eq!(shared_file_name(Some(String::new())).unwrap_err(), "파일 이름을 읽을 수 없습니다.");
    assert_eq!(shared_file_name(None).unwrap_err(), "파일 이름을 읽을 수 없습니다.");

    assert_eq!(
        copied_file_facts("/home/u/photo.png", false, true, 10, Some("photo.png".to_string())),
        Ok(("photo.png".to_string(), "image/png".to_string()))
    );
    assert_eq!(
        copied_file_facts("/home/u/notes.txt", false, true, 10, Some("notes.txt".to_string())),
        Ok(("notes.txt".to_string(), "text/plain".to_string()))
    );
    assert_eq!(
        copied_file_facts("/home/u/blob", false, true, 10, Some("blob".to_string())),
        Ok(("blob".to_string(), "application/octet-stream".to_string()))
    );
    assert_eq!(
        copied_file_facts("/home/u/dir", false, false, 10, Some("dir".to_string())).unwrap_err(),
        "폴더 붙여넣기는 지원하지 않습니다."
    );
    assert!(wants_thumbnail("image/png"));
    assert!(!wants_thumbnail("text/plain"));

    let (pending, source) = file_capture(
        "file",
        "photo.png".to_string(),
        "image/png".to_string(),
        10,
        "digest".to_string(),
        Some("QUJD".to_string()),
        None,
        "/home/u/photo.png".to_string(),
        false,
        "clip_1".to_string(),
        "2025-01-01T00:00:00Z".to_string(),
    );
    assert_eq!(pending.local_id, "local_clip_1");
    assert_eq!(pending.text, "photo.png");
    assert_eq!(pending.filename.as_deref(), Some("photo.png"));
    assert_eq!(pending.thumbnail_mime_type.as_deref(), Some("image/jpeg"));
    assert_eq!(pending.size_bytes, Some(10));
    assert_eq!(source.item_id, "local_clip_1");
    assert_eq!(source.sha256, "digest");
    assert!(!source.managed);

    let text = text_pending("https://memos.my".to_string(), "clip_2".to_string(), "t".to_string());
    assert_eq!(text.kind, "url");
    assert_eq!(text.local_id, "local_clip_2");
    assert_eq!(text.thumbnail_mime_type, None);
    assert_eq!(local_id_for("clip_9"), "local_clip_9");
}

#[test]
fn clipboard_image_limits() {
    assert!(clipboard_image_ok(2, 2, 16));
    assert!(!clipboard_image_ok(2, 2, 15));
    assert!(!clipboard_image_ok(0, 2, 0));
    assert!(!clipboard_image_ok(10_000, 5_001, 200_040_000));
    assert!(clipboard_image_ok(10_000, 5_000, 200_000_000));
    assert!(!clipboard_image_ok(usize::MAX, 2, 8));
}

#[test]
fn images_round_trip_through_png() {
    let rgba: Vec<u8> = vec![
        255, 0, 0, 255, 0, 255, 0, 255, //
        0, 0, 255, 255, 255, 255, 255, 128,
    ];
    let png = image_file_bytes(2, 2, &rgba).unwrap();
    assert_eq!(&png[..8], &[0x89, b'P', b'N', b'G', 0x0d, 0x0a, 0x1a, 0x0a]);
    let back = received_image(&png).unwrap();
    assert_eq!((back.width, back.height), (2, 2));
    assert_eq!(back.pixels, rgba);
    assert_eq!(received_image(b"not an image").err().unwrap(), "받은 이미지를 열 수 없습니다.");
    assert_eq!(image_file_bytes(3, 3, &rgba).unwrap_err(), "이미지를 준비할 수 없습니다.");
    let thumbnail = thumbnail_base64(2, 2, &rgba).unwrap();
    assert!(thumbnail.starts_with("/9j/"));
    assert_eq!(thumbnail_base64(3, 3, &rgba), None);
    assert_eq!(image_file_name(1_700_000_000_000), "clipboard-image-1700000000000.png");
}
