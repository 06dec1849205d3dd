//! What the client captures from the local clipboard, and the records it
//! makes of a capture.

use vstd::prelude::*;
use vstd::string::*;
use vstd::utf8::encode_utf8;
use crate::crypto::{prefixed_hex, sha256, sha256_digest, sha256_hex, tagged_hex};
use crate::hex::{decimal, decimal_text, hex_encode};
use crate::history::{clone_text, is_local_entry, LocalSource, PendingItem};
use crate::path::{path_extension, path_extension_spec};
use crate::text::{chars_of, has_char, has_white_space, is_white_space, range_has_white_space, starts_with, utf8_len_capped, vec_starts_with};

verus! {

broadcast use vstd::string::group_string_axioms;

/// Longest clipboard text that is shared, in UTF-8 bytes.
pub const MAX_TEXT_BYTES: usize = 64 * 1024;

/// Largest file or image that is shared, in bytes.
pub const MAX_FILE_BYTES: u64 = 10 * 1024 * 1024;

/// How long a value that the client itself put on the clipboard is not
/// captured again, in nanoseconds.
pub const SELF_PASTE_WINDOW_NS: u64 = 3_000_000_000;

/// The text is a single `http://` or `https://` address.
pub open spec fn is_url_text(t: Seq<char>) -> bool {
    (starts_with(t, "https://"@) || starts_with(t, "http://"@)) && !has_white_space(t)
}

/// The kind of a text capture: `url` for a single web address, else `text`.
pub fn classify(text: &str) -> (r: &'static str)
    ensures
        r@ == if is_url_text(text@) {
            "url"@
        } else {
            "text"@
        },
        r@ == "url"@ || r@ == "text"@,
        (exists|i: int| 0 <= i < text@.len() && is_white_space(#[trigger] text@[i])) ==> r@
            == "text"@,
        (exists|i: int|
            0 <= i < text@.len() && (#[trigger] text@[i] == '\n' || text@[i] == ' ' || text@[i]
                == '\t' || text@[i] == '\r')) ==> r@ == "text"@,
{
    let v = chars_of(text);
    let https = chars_of("https://");
    let http = chars_of("http://");
    if (vec_starts_with(&v, &https) || vec_starts_with(&v, &http)) && !range_has_white_space(
        &v,
        0,
        v.len(),
    ) {
        assert(v@.subrange(0, v@.len() as int) =~= v@);
        "url"
    } else {
        assert(v@.subrange(0, v@.len() as int) =~= v@);
        "text"
    }
}

/// A text that holds any white space (a space, a tab, a line break, or any
/// other Unicode white space) is never a link: several addresses on several
/// lines, or an address followed by words, are plain text.
pub proof fn law_white_space_means_text(t: Seq<char>, i: int)
    requires
        0 <= i < t.len(),
        is_white_space(t[i]) || t[i] == '\n' || t[i] == ' ' || t[i] == '\t' || t[i] == '\r',
    ensures
        !is_url_text(t),
{
    assert(is_white_space(t[i]));
}

/// A link is a text that starts with `https://` or `http://` and holds no
/// white space at all; such a text is always a link.
pub proof fn law_url_text_shape(t: Seq<char>)
    ensures
        is_url_text(t) <==> ((t.len() >= 8 && t.subrange(0, 8) == "https://"@) || (t.len() >= 7
            && t.subrange(0, 7) == "http://"@)) && forall|i: int|
            0 <= i < t.len() ==> !is_white_space(#[trigger] t[i]),
{
    reveal_strlit("https://");
    reveal_strlit("http://");
}

/// A value that the client put on the clipboard itself, and when (in
/// nanoseconds of a monotonic clock).
#[derive(Clone, Debug)]
pub struct AppliedHash {
    pub hash: String,
    pub at_ns: u64,
}

/// `applied` says that `hash` was put on the clipboard by the client less
/// than `SELF_PASTE_WINDOW_NS` before `now_ns`.
pub open spec fn recently_applied(hash: Seq<char>, applied: Option<AppliedHash>, now_ns: u64) -> bool {
    match applied {
        Some(a) => a.hash@ == hash && (if now_ns >= a.at_ns {
            now_ns - a.at_ns
        } else {
            0
        }) < SELF_PASTE_WINDOW_NS,
        None => false,
    }
}

/// One look at the clipboard: whether to capture the value with fingerprint
/// `hash`, and the fingerprint remembered afterwards.
pub open spec fn capture_step(last: Seq<char>, hash: Seq<char>, applied: Option<AppliedHash>, now_ns: u64) -> (
    bool,
    Seq<char>,
) {
    if last == hash {
        (false, last)
    } else {
        (!recently_applied(hash, applied, now_ns), hash)
    }
}

/// A clipboard value is captured at most once while it stays on the clipboard.
pub proof fn law_capture_once(last: Seq<char>, hash: Seq<char>, applied: Option<AppliedHash>, now_ns: u64, later_ns: u64)
    ensures
        !capture_step(capture_step(last, hash, applied, now_ns).1, hash, applied, later_ns).0,
{
}

/// A value that the client pasted itself is not captured again within the
/// window, even when it differs from the last value seen.
pub proof fn law_own_paste_not_recaptured(last: Seq<char>, a: AppliedHash, now_ns: u64)
    requires
        now_ns >= a.at_ns,
        now_ns - a.at_ns < SELF_PASTE_WINDOW_NS,
    ensures
        !capture_step(last, a.hash@, Some(a), now_ns).0,
{
}

/// Whether a clipboard value with fingerprint `hash` is to be captured: not
/// when it equals the last one seen, nor when the client pasted it itself a
/// moment ago. A new fingerprint becomes the last one seen.
pub fn should_capture(hash: &str, last_hash: &mut String, applied: &Option<AppliedHash>, now_ns: u64) -> (r:
    bool)
    ensures
        (r, final(last_hash)@) == capture_step(old(last_hash)@, hash@, *applied, now_ns),
{
    let h = String::from_str(hash);
    if h == *last_hash {
        return false;
    }
    *last_hash = h;
    match applied {
        Some(a) => {
            let elapsed = if now_ns >= a.at_ns {
                now_ns - a.at_ns
            } else {
                0
            };
            !(a.hash == *last_hash && elapsed < SELF_PASTE_WINDOW_NS)
        },
        None => true,
    }
}

/// Whether the Windows clipboard privacy formats allow a capture: nothing is
/// captured when the exclusion marker is present, or when a history or cloud
/// marker is present with any value but 1 (or unreadable).
pub fn privacy_markers_allow_capture(
    exclude_present: bool,
    history_present: bool,
    history_value: Option<u32>,
    cloud_present: bool,
    cloud_value: Option<u32>,
) -> (r: bool)
    ensures
        r == (!exclude_present && (!history_present || history_value == Some(1u32)) && (
        !cloud_present || cloud_value == Some(1u32))),
{
    !exclude_present && (!history_present || history_value == Some(1u32)) && (!cloud_present
        || cloud_value == Some(1u32))
}

/// Clipboard text is shared when it is non-empty, at most `MAX_TEXT_BYTES`
/// long in UTF-8 and holds no NUL character.
pub open spec fn text_shareable(t: Seq<char>) -> bool {
    t.len() > 0 && encode_utf8(t).len() <= MAX_TEXT_BYTES && !has_char(t, '\0')
}

/// The fingerprint of clipboard text.
pub fn text_hash(text: &str) -> (r: String)
    ensures
        r@ == tagged_hex("text:"@, sha256(encode_utf8(text@))),
{
    prefixed_hex("text:", sha256_digest(text.as_bytes()).as_slice())
}

/// The fingerprint of shareable clipboard text, `None` for text that is not shared.
pub fn text_capture_hash(text: &str) -> (r: Option<String>)
    ensures
        text_shareable(text@) <==> r is Some,
        r matches Some(h) ==> h@ == tagged_hex("text:"@, sha256(encode_utf8(text@))),
{
    let v = chars_of(text);
    let n = v.len();
    if n == 0 || utf8_len_capped(&v, 0, n, MAX_TEXT_BYTES + 1) > MAX_TEXT_BYTES {
        assert(v@.subrange(0, n as int) =~= v@);
        return None;
    }
    assert(v@.subrange(0, n as int) =~= v@);
    let mut i: usize = 0;
    while i < n
        invariant
            n == v@.len(),
            v@ == text@,
            i <= n,
            forall|k: int| 0 <= k < i ==> v@[k] != '\0',
        decreases n - i,
    {
        if v[i] == '\0' {
            assert(text@[i as int] == '\0');
            assert(has_char(text@, '\0'));
            return None;
        }
        i = i + 1;
    }
    Some(text_hash(text))
}

/// What one capture takes from the clipboard.
#[derive(Clone, Debug, PartialEq)]
pub enum CaptureChoice {
    /// Nothing: the clipboard's owner asked that it not be captured.
    Skip,
    /// The one copied file at this path.
    File(String),
    /// Shareable text, with its fingerprint.
    Text { text: String, hash: String },
    /// Whatever image the clipboard holds, if any.
    Image,
}

/// The order of a capture: nothing when the privacy markers forbid it, else
/// a copied file first, then shareable text, then an image. `file` and
/// `text` are what the clipboard gave (text is read only when no file was).
pub fn capture_choice(allowed: bool, file: Option<String>, text: Option<String>) -> (r: CaptureChoice)
    ensures
        !allowed ==> r == CaptureChoice::Skip,
        allowed && file is Some ==> r == CaptureChoice::File(file->0),
        allowed && file is None ==> match text {
            Some(t) => if text_shareable(t@) {
                r matches CaptureChoice::Text { text, hash } && text == t && hash@ == tagged_hex(
                    "text:"@,
                    sha256(encode_utf8(t@)),
                )
            } else {
                r == CaptureChoice::Image
            },
            None => r == CaptureChoice::Image,
        },
{
    if !allowed {
        return CaptureChoice::Skip;
    }
    match file {
        Some(path) => CaptureChoice::File(path),
        None => match text {
            Some(t) => match text_capture_hash(t.as_str()) {
                Some(hash) => CaptureChoice::Text { text: t, hash },
                None => CaptureChoice::Image,
            },
            None => CaptureChoice::Image,
        },
    }
}

/// The fingerprint of a copied file, from its content digest.
pub fn file_capture_hash(digest: &str) -> (r: String)
    ensures
        r@ == "file:"@ + digest@,
{
    let mut s = String::from_str("file:");
    s.append(digest);
    s
}

/// The fingerprint of clipboard image pixels (RGBA bytes).
pub fn image_capture_hash(rgba: &[u8]) -> (r: String)
    ensures
        r@ == tagged_hex("image:"@, sha256(rgba@)),
{
    prefixed_hex("image:", sha256_digest(rgba).as_slice())
}

/// The fingerprint of file bytes that the client puts on the clipboard.
pub fn file_bytes_hash(bytes: &[u8]) -> (r: String)
    ensures
        r@ == tagged_hex("file:"@, sha256(bytes@)),
{
    prefixed_hex("file:", sha256_digest(bytes).as_slice())
}

/// The local id of a capture: `local_` and its event id.
pub fn local_id_for(client_event_id: &str) -> (r: String)
    ensures
        r@ == "local_"@ + client_event_id@,
{
    let mut s = String::from_str("local_");
    s.append(client_event_id);
    s
}

/// The waiting record of a text capture.
pub fn text_pending(text: String, client_event_id: String, created_at: String) -> (r: PendingItem)
    ensures
        r.local_id@ == "local_"@ + client_event_id@,
        r.client_event_id == client_event_id,
        r.kind@ == if is_url_text(text@) {
            "url"@
        } else {
            "text"@
        },
        r.text == text,
        r.filename is None,
        r.mime_type is None,
        r.size_bytes is None,
        r.thumbnail_base64 is None,
        r.thumbnail_mime_type is None,
        r.created_at == created_at,
{
    let local_id = local_id_for(client_event_id.as_str());
    let kind = String::from_str(classify(text.as_str()));
    PendingItem {
        client_event_id,
        kind,
        text,
        filename: None,
        mime_type: None,
        size_bytes: None,
        thumbnail_base64: None,
        thumbnail_mime_type: None,
        local_id,
        created_at,
    }
}

pub open spec fn thumbnail_mime_for(thumbnail: Option<String>, m: Option<String>) -> bool {
    match thumbnail {
        Some(_) => m matches Some(t) && t@ == "image/jpeg"@,
        None => m is None,
    }
}

fn jpeg_mime_if(thumbnail: &Option<String>) -> (r: Option<String>)
    ensures
        thumbnail_mime_for(*thumbnail, r),
{
    match thumbnail {
        Some(_) => Some(String::from_str("image/jpeg")),
        None => None,
    }
}

/// The waiting record and the local source of a copied file (`managed` is
/// false: the file belongs to the user) or of a clipboard image that the
/// client saved (`managed` is true).
pub fn file_capture(
    kind: &str,
    filename: String,
    mime: String,
    size: u64,
    digest: String,
    thumbnail: Option<String>,
    source_identity: Option<String>,
    path: String,
    managed: bool,
    client_event_id: String,
    created_at: String,
) -> (r: (PendingItem, LocalSource))
    ensures
        r.0.local_id@ == "local_"@ + client_event_id@,
        r.0.client_event_id == client_event_id,
        r.0.kind@ == kind@,
        r.0.text == filename,
        r.0.filename == Some(filename),
        r.0.mime_type == Some(mime),
        r.0.size_bytes == Some(size),
        r.0.thumbnail_base64 == thumbnail,
        thumbnail_mime_for(thumbnail, r.0.thumbnail_mime_type),
        r.0.created_at == created_at,
        r.1.item_id == r.0.local_id,
        r.1.path == path,
        r.1.size_bytes == size,
        r.1.sha256 == digest,
        r.1.source_identity == source_identity,
        r.1.managed == managed,
{
    let local_id = local_id_for(client_event_id.as_str());
    let thumbnail_mime_type = jpeg_mime_if(&thumbnail);
    let pending = PendingItem {
        client_event_id,
        kind: String::from_str(kind),
        text: filename.clone(),
        filename: Some(filename),
        mime_type: Some(mime),
        size_bytes: Some(size),
        thumbnail_base64: thumbnail,
        thumbnail_mime_type,
        local_id: local_id.clone(),
        created_at,
    };
    let source = LocalSource {
        item_id: local_id,
        path,
        size_bytes: size,
        sha256: digest,
        source_identity,
        managed,
    };
    (pending, source)
}

pub open spec fn msg_folder() -> Seq<char> {
    "폴더 붙여넣기는 지원하지 않습니다."@
}

pub open spec fn msg_file_size() -> Seq<char> {
    "파일은 10MB 이하만 공유할 수 있습니다."@
}

/// A copied path is shared when it is a regular file of 1 byte up to `MAX_FILE_BYTES`.
pub fn check_copied_file(is_file: bool, len: u64) -> (r: Result<(), String>)
    ensures
        !is_file ==> (r matches Err(e) && e@ == msg_folder()),
        is_file && (len == 0 || len > MAX_FILE_BYTES) ==> (r matches Err(e) && e@ == msg_file_size()),
        is_file && 0 < len <= MAX_FILE_BYTES ==> r is Ok,
{
    if !is_file {
        return Err(String::from_str("폴더 붙여넣기는 지원하지 않습니다."));
    }
    if len == 0 || len > MAX_FILE_BYTES {
        return Err(String::from_str("파일은 10MB 이하만 공유할 수 있습니다."));
    }
    Ok(())
}

/// The name under which a copied file is shared; its absence (or an empty
/// name) is an error.
pub fn shared_file_name(name: Option<String>) -> (r: Result<String, String>)
    ensures
        match name {
            Some(n) => if n@.len() > 0 {
                r == Ok::<String, String>(n)
            } else {
                r matches Err(e) && e@ == "파일 이름을 읽을 수 없습니다."@
            },
            None => r matches Err(e) && e@ == "파일 이름을 읽을 수 없습니다."@,
        },
{
    match name {
        Some(n) => {
            if n.as_str().unicode_len() > 0 {
                Ok(n)
            } else {
                Err(String::from_str("파일 이름을 읽을 수 없습니다."))
            }
        },
        None => Err(String::from_str("파일 이름을 읽을 수 없습니다.")),
    }
}

/// The MIME type that `mime_guess` lists first for a file extension (any
/// case), `application/octet-stream` when it knows none.
pub uninterp spec fn mime_for_extension(ext: Seq<char>) -> Seq<char>;

/// Calls `mime_guess::from_ext(ext).first_or_octet_stream()` and takes its
/// essence. Claimed: the result is the named `mime_for_extension`; the crate
/// looks the extension up in a fixed table and consults nothing else.
#[verifier::external_body]
fn mime_of_extension(ext: &str) -> (r: String)
    ensures
        r@ == mime_for_extension(ext@),
{
    mime_guess::from_ext(ext).first_or_octet_stream().essence_str().to_string()
}

/// The MIME type of a file by its path: that of its extension, and
/// `application/octet-stream` when it has none.
pub open spec fn mime_for_path(path: Seq<char>, windows: bool) -> Seq<char> {
    match path_extension_spec(path, windows) {
        Some(e) => mime_for_extension(e),
        None => "application/octet-stream"@,
    }
}

/// The MIME type of the file at `path` (`windows` chooses the separators).
pub fn mime_type_of(path: &str, windows: bool) -> (r: String)
    ensures
        r@ == mime_for_path(path@, windows),
{
    match path_extension(path, windows) {
        Some(e) => mime_of_extension(e.as_str()),
        None => String::from_str("application/octet-stream"),
    }
}

/// What is shared of a copied path: its name and its MIME type, once the
/// path is known to be a regular file of an allowed size.
pub fn copied_file_facts(path: &str, windows: bool, is_file: bool, len: u64, name: Option<String>) -> (r:
    Result<(String, String), String>)
    ensures
        !is_file ==> (r matches Err(e) && e@ == msg_folder()),
        is_file && (len == 0 || len > MAX_FILE_BYTES) ==> (r matches Err(e) && e@ == msg_file_size()),
        is_file && 0 < len <= MAX_FILE_BYTES ==> match name {
            Some(n) => if n@.len() > 0 {
                r matches Ok(v) && v.0 == n && v.1@ == mime_for_path(path@, windows)
            } else {
                r matches Err(e) && e@ == "파일 이름을 읽을 수 없습니다."@
            },
            None => r matches Err(e) && e@ == "파일 이름을 읽을 수 없습니다."@,
        },
{
    check_copied_file(is_file, len)?;
    let filename = shared_file_name(name)?;
    let mime = mime_type_of(path, windows);
    Ok((filename, mime))
}

/// A copied file gets a thumbnail when its MIME type is an image type.
pub fn wants_thumbnail(mime: &str) -> (r: bool)
    ensures
        r == starts_with(mime@, "image/"@),
{
    let v = chars_of(mime);
    let prefix = chars_of("image/");
    vec_starts_with(&v, &prefix)
}

/// The identity of a file that is sent later: its canonical path, its size
/// and its modification time in nanoseconds, separated by colons.
pub fn source_identity(path: &str, len: u64, modified_nanos: u128) -> (r: String)
    ensures
        r@ == path@ + ":"@ + decimal_text(len as nat) + ":"@ + decimal_text(modified_nanos as nat),
{
    let mut s = String::from_str(path);
    s.append(":");
    let l = decimal(len as u128);
    s.append(l.as_str());
    s.append(":");
    let m = decimal(modified_nanos);
    s.append(m.as_str());
    s
}

/// The digest that stands for a file that is sent later, pinned by its
/// identity (canonical path, size and modification time).
pub fn pinned_digest(identity: &str) -> (r: String)
    ensures
        r@ == tagged_hex("pinned:"@, sha256(encode_utf8(identity@))),
{
    prefixed_hex("pinned:", sha256_digest(identity.as_bytes()).as_slice())
}

/// The content digest of a copied file.
pub fn content_digest(bytes: &[u8]) -> (r: String)
    ensures
        r@ == hex_encode(sha256(bytes@)),
{
    sha256_hex(bytes)
}

/// A clipboard image is taken when it has pixels, at most 50 million of
/// them, and exactly four bytes per pixel.
pub open spec fn image_dimensions_ok(width: int, height: int, byte_len: int) -> bool {
    width > 0 && height > 0 && width * height <= MAX_IMAGE_PIXELS && byte_len == width * height * 4
}

/// Most pixels of an image that is captured or shown as a thumbnail.
pub const MAX_IMAGE_PIXELS: usize = 50_000_000;

pub fn clipboard_image_ok(width: usize, height: usize, byte_len: usize) -> (r: bool)
    ensures
        r == image_dimensions_ok(width as int, height as int, byte_len as int),
{
    if width == 0 || height == 0 {
        return false;
    }
    match width.checked_mul(height) {
        Some(pixels) => {
            if pixels > MAX_IMAGE_PIXELS {
                return false;
            }
            assert(pixels * 4 <= usize::MAX) by {
                assert(pixels <= 50_000_000);
            }
            byte_len == pixels * 4
        },
        None => {
            assert(width * height > MAX_IMAGE_PIXELS) by (nonlinear_arith)
                requires
                    width * height > usize::MAX,
                    usize::MAX >= 0xffff_ffff,
            ;
            false
        },
    }
}

} // verus!
