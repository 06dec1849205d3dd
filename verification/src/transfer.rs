//! How the client reads the server's answers while it syncs, and how it
//! checks the files that it sends and receives.

use vstd::prelude::*;
use vstd::string::*;
use crate::capture::MAX_FILE_BYTES;
use crate::crypto::{sha256, sha256_digest, tagged_hex};
use crate::hex::{hex, hex_encode};
use crate::history::{auth_required_text, LocalSource, PendingItem};
use crate::text::{all_ascii_hex, all_hex_digits, chars_of, starts_with, vec_starts_with};
use vstd::utf8::encode_utf8;

verus! {

broadcast use vstd::string::group_string_axioms;

/// HTTP status 2xx.
pub open spec fn is_success(status: u16) -> bool {
    200 <= status && status <= 299
}

pub const UNAUTHORIZED: u16 = 401;

pub const NOT_FOUND: u16 = 404;

pub const TOO_MANY_REQUESTS: u16 = 429;

/// `message`, a space, and the status line in round brackets.
pub open spec fn with_status(message: Seq<char>, status_text: Seq<char>) -> Seq<char> {
    message + " ("@ + status_text + ")"@
}

pub fn message_with_status(message: &str, status_text: &str) -> (r: String)
    ensures
        r@ == with_status(message@, status_text@),
{
    let mut s = String::from_str(message);
    s.append(" (");
    s.append(status_text);
    s.append(")");
    s
}

/// The text that marks a rejected session inside the client.
pub fn auth_required() -> (r: String)
    ensures
        r@ == auth_required_text(),
{
    String::from_str("auth_required")
}

/// The error of an answer that the client cannot use, or `None` for a 2xx
/// answer: `auth_required` for 401, else `message` with the status line.
pub open spec fn answer_failure(status: u16, status_text: Seq<char>, message: Seq<char>) -> Option<Seq<char>> {
    if status == UNAUTHORIZED {
        Some(auth_required_text())
    } else if !is_success(status) {
        Some(with_status(message, status_text))
    } else {
        None
    }
}

pub open spec fn failure_matches(r: Option<String>, s: Option<Seq<char>>) -> bool {
    match (r, s) {
        (Some(a), Some(b)) => a@ == b,
        (None, None) => true,
        _ => false,
    }
}

/// The error of an answer, or `None` when it is a success.
pub fn answer_error(status: u16, status_text: &str, message: &str) -> (r: Option<String>)
    ensures
        failure_matches(r, answer_failure(status, status_text@, message@)),
{
    if status == UNAUTHORIZED {
        Some(auth_required())
    } else if !(200 <= status && status <= 299) {
        Some(message_with_status(message, status_text))
    } else {
        None
    }
}

/// A value in the body of a published capture.
#[derive(Clone, Debug, PartialEq)]
pub enum BodyValue {
    Text(String),
    Number(u64),
}

/// The abstract body value.
pub enum BodyValueView {
    Text(Seq<char>),
    Number(u64),
}

pub open spec fn value_view(v: BodyValue) -> BodyValueView {
    match v {
        BodyValue::Text(t) => BodyValueView::Text(t@),
        BodyValue::Number(n) => BodyValueView::Number(n),
    }
}

pub open spec fn field_view(f: (String, BodyValue)) -> (Seq<char>, BodyValueView) {
    (f.0@, value_view(f.1))
}

pub open spec fn text_field(name: Seq<char>, o: Option<String>) -> Seq<(Seq<char>, BodyValueView)> {
    match o {
        Some(t) => seq![(name, BodyValueView::Text(t@))],
        None => Seq::empty(),
    }
}

/// The fields of the body that publishes capture `p`, in order: its event
/// id, the personal space, its kind and text, then each optional field that
/// it has (file name, MIME type, size, thumbnail and its MIME type).
pub open spec fn publish_body_spec(p: PendingItem) -> Seq<(Seq<char>, BodyValueView)> {
    seq![
        ("client_event_id"@, BodyValueView::Text(p.client_event_id@)),
        ("space_id"@, BodyValueView::Text("personal"@)),
        ("kind"@, BodyValueView::Text(p.kind@)),
        ("text"@, BodyValueView::Text(p.text@)),
    ] + text_field("filename"@, p.filename) + text_field("mime_type"@, p.mime_type) + match p.size_bytes {
        Some(n) => seq![("size_bytes"@, BodyValueView::Number(n))],
        None => Seq::empty(),
    } + text_field("thumbnail_base64"@, p.thumbnail_base64) + text_field(
        "thumbnail_mime_type"@,
        p.thumbnail_mime_type,
    )
}

/// No field of body `b` is named `name`.
pub open spec fn body_lacks(b: Seq<(Seq<char>, BodyValueView)>, name: Seq<char>) -> bool {
    forall|k: int| 0 <= k < b.len() ==> (#[trigger] b[k]).0 != name
}

proof fn lemma_lacks_concat(
    a: Seq<(Seq<char>, BodyValueView)>,
    b: Seq<(Seq<char>, BodyValueView)>,
    name: Seq<char>,
)
    requires
        body_lacks(a, name),
        body_lacks(b, name),
    ensures
        body_lacks(a + b, name),
{
    assert forall|k: int| 0 <= k < (a + b).len() implies (#[trigger] (a + b)[k]).0 != name by {
        if k < a.len() {
            assert((a + b)[k] == a[k]);
        } else {
            assert((a + b)[k] == b[k - a.len()]);
        }
    }
}

proof fn lemma_contains_concat(
    a: Seq<(Seq<char>, BodyValueView)>,
    b: Seq<(Seq<char>, BodyValueView)>,
    x: (Seq<char>, BodyValueView),
)
    ensures
        a.contains(x) ==> (a + b).contains(x),
        b.contains(x) ==> (a + b).contains(x),
{
    if a.contains(x) {
        let i = choose|i: int| 0 <= i < a.len() && a[i] == x;
        assert((a + b)[i] == x);
    }
    if b.contains(x) {
        let i = choose|i: int| 0 <= i < b.len() && b[i] == x;
        assert((a + b)[i + a.len()] == x);
    }
}

/// The fixed fields at the head of a published body.
pub open spec fn body_head(p: PendingItem) -> Seq<(Seq<char>, BodyValueView)> {
    seq![
        ("client_event_id"@, BodyValueView::Text(p.client_event_id@)),
        ("space_id"@, BodyValueView::Text("personal"@)),
        ("kind"@, BodyValueView::Text(p.kind@)),
        ("text"@, BodyValueView::Text(p.text@)),
    ]
}

pub open spec fn size_field(o: Option<u64>) -> Seq<(Seq<char>, BodyValueView)> {
    match o {
        Some(n) => seq![("size_bytes"@, BodyValueView::Number(n))],
        None => Seq::empty(),
    }
}

proof fn lemma_parts_lack(p: PendingItem, name: Seq<char>)
    requires
        name != "client_event_id"@,
        name != "space_id"@,
        name != "kind"@,
        name != "text"@,
    ensures
        body_lacks(body_head(p), name),
        "filename"@ != name ==> body_lacks(text_field("filename"@, p.filename), name),
        "mime_type"@ != name ==> body_lacks(text_field("mime_type"@, p.mime_type), name),
        "size_bytes"@ != name ==> body_lacks(size_field(p.size_bytes), name),
        "thumbnail_base64"@ != name ==> body_lacks(
            text_field("thumbnail_base64"@, p.thumbnail_base64),
            name,
        ),
        "thumbnail_mime_type"@ != name ==> body_lacks(
            text_field("thumbnail_mime_type"@, p.thumbnail_mime_type),
            name,
        ),
        p.filename is None ==> body_lacks(text_field("filename"@, p.filename), name),
        p.mime_type is None ==> body_lacks(text_field("mime_type"@, p.mime_type), name),
        p.size_bytes is None ==> body_lacks(size_field(p.size_bytes), name),
        p.thumbnail_base64 is None ==> body_lacks(
            text_field("thumbnail_base64"@, p.thumbnail_base64),
            name,
        ),
        p.thumbnail_mime_type is None ==> body_lacks(
            text_field("thumbnail_mime_type"@, p.thumbnail_mime_type),
            name,
        ),
{
    let h = body_head(p);
    assert forall|k: int| 0 <= k < h.len() implies (#[trigger] h[k]).0 != name by {
        if k == 0 {
        } else if k == 1 {
        } else if k == 2 {
        } else {
        }
    }
}

proof fn lemma_body_parts(
    p: PendingItem,
    x: (Seq<char>, BodyValueView),
    name: Seq<char>,
)
    ensures
        ({
            let h = body_head(p);
            let f1 = text_field("filename"@, p.filename);
            let f2 = text_field("mime_type"@, p.mime_type);
            let f3 = size_field(p.size_bytes);
            let f4 = text_field("thumbnail_base64"@, p.thumbnail_base64);
            let f5 = text_field("thumbnail_mime_type"@, p.thumbnail_mime_type);
            &&& publish_body_spec(p) == h + f1 + f2 + f3 + f4 + f5
            &&& (h.contains(x) || f1.contains(x) || f2.contains(x) || f3.contains(x) || f4.contains(x)
                || f5.contains(x)) ==> publish_body_spec(p).contains(x)
            &&& (body_lacks(h, name) && body_lacks(f1, name) && body_lacks(f2, name) && body_lacks(
                f3,
                name,
            ) && body_lacks(f4, name) && body_lacks(f5, name)) ==> body_lacks(
                publish_body_spec(p),
                name,
            )
        }),
{
    let h = body_head(p);
    let f1 = text_field("filename"@, p.filename);
    let f2 = text_field("mime_type"@, p.mime_type);
    let f3 = size_field(p.size_bytes);
    let f4 = text_field("thumbnail_base64"@, p.thumbnail_base64);
    let f5 = text_field("thumbnail_mime_type"@, p.thumbnail_mime_type);
    assert(publish_body_spec(p) =~= h + f1 + f2 + f3 + f4 + f5);
    lemma_contains_concat(h, f1, x);
    lemma_contains_concat(h + f1, f2, x);
    lemma_contains_concat(h + f1 + f2, f3, x);
    lemma_contains_concat(h + f1 + f2 + f3, f4, x);
    lemma_contains_concat(h + f1 + f2 + f3 + f4, f5, x);
    if body_lacks(h, name) && body_lacks(f1, name) && body_lacks(f2, name) && body_lacks(f3, name)
        && body_lacks(f4, name) && body_lacks(f5, name) {
        lemma_lacks_concat(h, f1, name);
        lemma_lacks_concat(h + f1, f2, name);
        lemma_lacks_concat(h + f1 + f2, f3, name);
        lemma_lacks_concat(h + f1 + f2 + f3, f4, name);
        lemma_lacks_concat(h + f1 + f2 + f3 + f4, f5, name);
    }
}

/// The body carries the capture's event id, kind and text, and each optional
/// field that the capture has (file name, MIME type, size, thumbnail and its
/// MIME type) with its value, each whatever the others are; a field that the
/// capture lacks is not in the body at all.
pub proof fn law_publish_body_fields(p: PendingItem)
    ensures
        publish_body_spec(p).contains(("client_event_id"@, BodyValueView::Text(p.client_event_id@))),
        publish_body_spec(p).contains(("kind"@, BodyValueView::Text(p.kind@))),
        publish_body_spec(p).contains(("text"@, BodyValueView::Text(p.text@))),
        p.filename matches Some(v) ==> publish_body_spec(p).contains(
            ("filename"@, BodyValueView::Text(v@)),
        ),
        p.mime_type matches Some(v) ==> publish_body_spec(p).contains(
            ("mime_type"@, BodyValueView::Text(v@)),
        ),
        p.size_bytes matches Some(n) ==> publish_body_spec(p).contains(
            ("size_bytes"@, BodyValueView::Number(n)),
        ),
        p.thumbnail_base64 matches Some(v) ==> publish_body_spec(p).contains(
            ("thumbnail_base64"@, BodyValueView::Text(v@)),
        ),
        p.thumbnail_mime_type matches Some(v) ==> publish_body_spec(p).contains(
            ("thumbnail_mime_type"@, BodyValueView::Text(v@)),
        ),
        p.filename is None ==> body_lacks(publish_body_spec(p), "filename"@),
        p.mime_type is None ==> body_lacks(publish_body_spec(p), "mime_type"@),
        p.size_bytes is None ==> body_lacks(publish_body_spec(p), "size_bytes"@),
        p.thumbnail_base64 is None ==> body_lacks(publish_body_spec(p), "thumbnail_base64"@),
        p.thumbnail_mime_type is None ==> body_lacks(publish_body_spec(p), "thumbnail_mime_type"@),
{
    reveal_strlit("client_event_id");
    reveal_strlit("space_id");
    reveal_strlit("kind");
    reveal_strlit("text");
    reveal_strlit("filename");
    reveal_strlit("mime_type");
    reveal_strlit("size_bytes");
    reveal_strlit("thumbnail_base64");
    reveal_strlit("thumbnail_mime_type");
    let h = body_head(p);
    let f1 = text_field("filename"@, p.filename);
    let f2 = text_field("mime_type"@, p.mime_type);
    let f3 = size_field(p.size_bytes);
    let f4 = text_field("thumbnail_base64"@, p.thumbnail_base64);
    let f5 = text_field("thumbnail_mime_type"@, p.thumbnail_mime_type);
    let xe = ("client_event_id"@, BodyValueView::Text(p.client_event_id@));
    assert(h[0] == xe);
    lemma_body_parts(p, xe, "filename"@);
    let xk = ("kind"@, BodyValueView::Text(p.kind@));
    assert(h[2] == xk);
    lemma_body_parts(p, xk, "filename"@);
    let xt = ("text"@, BodyValueView::Text(p.text@));
    assert(h[3] == xt);
    lemma_body_parts(p, xt, "filename"@);
    if let Some(v) = p.filename {
        assert(f1[0] == ("filename"@, BodyValueView::Text(v@)));
        lemma_body_parts(p, ("filename"@, BodyValueView::Text(v@)), "filename"@);
    }
    if let Some(v) = p.mime_type {
        assert(f2[0] == ("mime_type"@, BodyValueView::Text(v@)));
        lemma_body_parts(p, ("mime_type"@, BodyValueView::Text(v@)), "filename"@);
    }
    if let Some(n) = p.size_bytes {
        assert(f3[0] == ("size_bytes"@, BodyValueView::Number(n)));
        lemma_body_parts(p, ("size_bytes"@, BodyValueView::Number(n)), "filename"@);
    }
    if let Some(v) = p.thumbnail_base64 {
        assert(f4[0] == ("thumbnail_base64"@, BodyValueView::Text(v@)));
        lemma_body_parts(p, ("thumbnail_base64"@, BodyValueView::Text(v@)), "filename"@);
    }
    if let Some(v) = p.thumbnail_mime_type {
        assert(f5[0] == ("thumbnail_mime_type"@, BodyValueView::Text(v@)));
        lemma_body_parts(p, ("thumbnail_mime_type"@, BodyValueView::Text(v@)), "filename"@);
    }
    assert("space_id"@[0] != "filename"@[0]);
    assert("client_event_id"@.len() == 15 && "space_id"@.len() == 8 && "kind"@.len() == 4
        && "text"@.len() == 4 && "filename"@.len() == 8 && "mime_type"@.len() == 9
        && "size_bytes"@.len() == 10 && "thumbnail_base64"@.len() == 16
        && "thumbnail_mime_type"@.len() == 19);
    if p.filename is None {
        lemma_parts_lack(p, "filename"@);
        lemma_body_parts(p, xe, "filename"@);
    }
    if p.mime_type is None {
        lemma_parts_lack(p, "mime_type"@);
        lemma_body_parts(p, xe, "mime_type"@);
    }
    if p.size_bytes is None {
        lemma_parts_lack(p, "size_bytes"@);
        lemma_body_parts(p, xe, "size_bytes"@);
    }
    if p.thumbnail_base64 is None {
        lemma_parts_lack(p, "thumbnail_base64"@);
        lemma_body_parts(p, xe, "thumbnail_base64"@);
    }
    if p.thumbnail_mime_type is None {
        lemma_parts_lack(p, "thumbnail_mime_type"@);
        lemma_body_parts(p, xe, "thumbnail_mime_type"@);
    }
}

fn push_field(out: &mut Vec<(String, BodyValue)>, name: &str, v: BodyValue)
    ensures
        final(out)@.map_values(|f: (String, BodyValue)| field_view(f)) == old(out)@.map_values(
            |f: (String, BodyValue)| field_view(f),
        ).push((name@, value_view(v))),
{
    let ghost before = out@;
    let f = (String::from_str(name), v);
    let ghost g = f;
    out.push(f);
    assert(out@.map_values(|f: (String, BodyValue)| field_view(f)) =~= before.map_values(
        |f: (String, BodyValue)| field_view(f),
    ).push(field_view(g)));
}

fn push_text(out: &mut Vec<(String, BodyValue)>, name: &str, o: &Option<String>)
    ensures
        final(out)@.map_values(|f: (String, BodyValue)| field_view(f)) == old(out)@.map_values(
            |f: (String, BodyValue)| field_view(f),
        ) + text_field(name@, *o),
{
    match o {
        Some(t) => {
            let ghost before = out@.map_values(|f: (String, BodyValue)| field_view(f));
            push_field(out, name, BodyValue::Text(t.clone()));
            assert(out@.map_values(|f: (String, BodyValue)| field_view(f)) =~= before + text_field(
                name@,
                *o,
            ));
        },
        None => {
            assert(out@.map_values(|f: (String, BodyValue)| field_view(f)) =~= out@.map_values(
                |f: (String, BodyValue)| field_view(f),
            ) + text_field(name@, *o));
        },
    }
}

/// The fields of the body that publishes capture `p`.
pub fn publish_body(p: &PendingItem) -> (r: Vec<(String, BodyValue)>)
    ensures
        r@.map_values(|f: (String, BodyValue)| field_view(f)) == publish_body_spec(*p),
        p.filename matches Some(v) ==> r@.map_values(|f: (String, BodyValue)| field_view(f)).contains(
            ("filename"@, BodyValueView::Text(v@)),
        ),
        p.mime_type matches Some(v) ==> r@.map_values(|f: (String, BodyValue)| field_view(f)).contains(
            ("mime_type"@, BodyValueView::Text(v@)),
        ),
        p.size_bytes matches Some(n) ==> r@.map_values(|f: (String, BodyValue)| field_view(f)).contains(
            ("size_bytes"@, BodyValueView::Number(n)),
        ),
        p.thumbnail_base64 matches Some(v) ==> r@.map_values(|f: (String, BodyValue)| field_view(f)).contains(
            ("thumbnail_base64"@, BodyValueView::Text(v@)),
        ),
        p.thumbnail_mime_type matches Some(v) ==> r@.map_values(|f: (String, BodyValue)| field_view(f)).contains(
            ("thumbnail_mime_type"@, BodyValueView::Text(v@)),
        ),
        p.filename is None ==> body_lacks(r@.map_values(|f: (String, BodyValue)| field_view(f)), "filename"@),
        p.mime_type is None ==> body_lacks(r@.map_values(|f: (String, BodyValue)| field_view(f)), "mime_type"@),
        p.size_bytes is None ==> body_lacks(r@.map_values(|f: (String, BodyValue)| field_view(f)), "size_bytes"@),
        p.thumbnail_base64 is None ==> body_lacks(
            r@.map_values(|f: (String, BodyValue)| field_view(f)),
            "thumbnail_base64"@,
        ),
        p.thumbnail_mime_type is None ==> body_lacks(
            r@.map_values(|f: (String, BodyValue)| field_view(f)),
            "thumbnail_mime_type"@,
        ),
{
    let mut out: Vec<(String, BodyValue)> = Vec::new();
    assert(out@.map_values(|f: (String, BodyValue)| field_view(f)) =~= Seq::empty());
    push_field(&mut out, "client_event_id", BodyValue::Text(p.client_event_id.clone()));
    push_field(&mut out, "space_id", BodyValue::Text(String::from_str("personal")));
    push_field(&mut out, "kind", BodyValue::Text(p.kind.clone()));
    push_field(&mut out, "text", BodyValue::Text(p.text.clone()));
    push_text(&mut out, "filename", &p.filename);
    push_text(&mut out, "mime_type", &p.mime_type);
    let ghost mid = out@.map_values(|f: (String, BodyValue)| field_view(f));
    match p.size_bytes {
        Some(n) => push_field(&mut out, "size_bytes", BodyValue::Number(n)),
        None => {},
    }
    assert(out@.map_values(|f: (String, BodyValue)| field_view(f)) =~= mid + match p.size_bytes {
        Some(n) => seq![("size_bytes"@, BodyValueView::Number(n))],
        None => Seq::<(Seq<char>, BodyValueView)>::empty(),
    });
    push_text(&mut out, "thumbnail_base64", &p.thumbnail_base64);
    push_text(&mut out, "thumbnail_mime_type", &p.thumbnail_mime_type);
    proof {
        reveal_strlit("client_event_id");
        reveal_strlit("space_id");
        reveal_strlit("personal");
        reveal_strlit("kind");
        reveal_strlit("text");
    }
    assert(out@.map_values(|f: (String, BodyValue)| field_view(f)) =~= publish_body_spec(*p));
    proof {
        law_publish_body_fields(*p);
    }
    out
}

/// The error of the server's answer to a published capture, from its status
/// and the `error` code of its body.
pub open spec fn publish_failure(status: u16, status_text: Seq<char>, code: Option<Seq<char>>) -> Option<
    Seq<char>,
> {
    if status == UNAUTHORIZED {
        Some(auth_required_text())
    } else if is_success(status) {
        None
    } else if code == Some("quota_exceeded"@) {
        Some("저장 용량 50MB를 모두 사용했습니다. 마이메모 웹에서 파일이나 기록을 정리해 주세요."@)
    } else if code == Some("clipboard_item_too_large"@) {
        Some("이 클립보드 항목은 공유하기에 너무 큽니다."@)
    } else {
        Some(with_status("클립보드 전송에 실패했습니다."@, status_text))
    }
}

pub open spec fn opt_view(o: Option<&str>) -> Option<Seq<char>> {
    match o {
        Some(s) => Some(s@),
        None => None,
    }
}

pub fn publish_error(status: u16, status_text: &str, code: Option<&str>) -> (r: Option<String>)
    ensures
        failure_matches(r, publish_failure(status, status_text@, opt_view(code))),
{
    if status == UNAUTHORIZED {
        return Some(auth_required());
    }
    if 200 <= status && status <= 299 {
        return None;
    }
    let quota = String::from_str("quota_exceeded");
    let too_large = String::from_str("clipboard_item_too_large");
    match code {
        Some(c) => {
            let c = String::from_str(c);
            if c == quota {
                return Some(
                    String::from_str(
                        "저장 용량 50MB를 모두 사용했습니다. 마이메모 웹에서 파일이나 기록을 정리해 주세요.",
                    ),
                );
            }
            if c == too_large {
                return Some(String::from_str("이 클립보드 항목은 공유하기에 너무 큽니다."));
            }
        },
        None => {},
    }
    Some(message_with_status("클립보드 전송에 실패했습니다.", status_text))
}

/// The error of a feed page answer.
pub fn feed_error(status: u16, status_text: &str) -> (r: Option<String>)
    ensures
        failure_matches(
            r,
            answer_failure(status, status_text@, "클립보드 동기화에 실패했습니다."@),
        ),
{
    answer_error(status, status_text, "클립보드 동기화에 실패했습니다.")
}

/// The error of the answer that lists the files other devices asked for.
pub fn pending_requests_error(status: u16, status_text: &str) -> (r: Option<String>)
    ensures
        failure_matches(
            r,
            answer_failure(status, status_text@, "파일 요청을 확인하지 못했습니다."@),
        ),
{
    answer_error(status, status_text, "파일 요청을 확인하지 못했습니다.")
}

/// The error of the answer to asking another device for a file.
pub fn file_request_error(status: u16, status_text: &str) -> (r: Option<String>)
    ensures
        failure_matches(r, answer_failure(status, status_text@, "파일을 요청하지 못했습니다."@)),
{
    answer_error(status, status_text, "파일을 요청하지 못했습니다.")
}

/// The result of a sync: the first capture that could not be published
/// is reported before a failed file request.
pub fn sync_outcome(pending_error: Option<String>, file_error: Option<String>) -> (r: Result<
    (),
    String,
>)
    ensures
        match pending_error {
            Some(e) => r == Err::<(), String>(e),
            None => match file_error {
                Some(e) => r == Err::<(), String>(e),
                None => r == Ok::<(), String>(()),
            },
        },
{
    match pending_error {
        Some(e) => Err(e),
        None => match file_error {
            Some(e) => Err(e),
            None => Ok(()),
        },
    }
}

/// What to do with the answer to an uploaded file.
#[derive(PartialEq, Eq, Structural, Clone, Copy, Debug)]
pub enum UploadAnswer {
    /// The request is gone; go on with the next one.
    Skip,
    /// Accepted; its body holds the digest that the server computed.
    Accepted,
    /// Failed: stop and report.
    Failed,
}

pub open spec fn upload_answer_spec(status: u16) -> UploadAnswer {
    if status == NOT_FOUND {
        UploadAnswer::Skip
    } else if is_success(status) {
        UploadAnswer::Accepted
    } else {
        UploadAnswer::Failed
    }
}

pub fn upload_answer(status: u16) -> (r: UploadAnswer)
    ensures
        r == upload_answer_spec(status),
{
    if status == NOT_FOUND {
        UploadAnswer::Skip
    } else if 200 <= status && status <= 299 {
        UploadAnswer::Accepted
    } else {
        UploadAnswer::Failed
    }
}

/// The error that a failed upload reports.
pub fn upload_error(status_text: &str) -> (r: String)
    ensures
        r@ == with_status("파일을 전송하지 못했습니다."@, status_text@),
{
    message_with_status("파일을 전송하지 못했습니다.", status_text)
}

/// The server must report the digest of what was sent.
pub fn check_uploaded_digest(returned: &str, sent: &str) -> (r: Result<(), String>)
    ensures
        returned@ == sent@ <==> r is Ok,
        r matches Err(e) ==> e@ == "서버가 확인한 파일 내용이 원본과 다릅니다."@,
{
    if String::from_str(returned) == String::from_str(sent) {
        Ok(())
    } else {
        Err(String::from_str("서버가 확인한 파일 내용이 원본과 다릅니다."))
    }
}

pub open spec fn msg_changed_or_too_big() -> Seq<char> {
    "원본 파일이 복사한 뒤 변경되었거나 크기 제한을 넘었습니다."@
}

pub open spec fn msg_changed() -> Seq<char> {
    "원본 파일이 복사한 뒤 변경되었습니다."@
}

/// A local source may be sent when it still is a regular file whose size is
/// the recorded size, the size asked for, and within the limit.
pub open spec fn source_metadata_ok(source: LocalSource, expected: u64, is_file: bool, len: u64) -> bool {
    is_file && len == source.size_bytes && len == expected && len != 0 && len <= MAX_FILE_BYTES
}

pub fn check_source_metadata(source: &LocalSource, expected: u64, is_file: bool, len: u64) -> (r: Result<
    (),
    String,
>)
    ensures
        source_metadata_ok(*source, expected, is_file, len) <==> r is Ok,
        r matches Err(e) ==> e@ == msg_changed_or_too_big(),
{
    if !is_file || len != source.size_bytes || len != expected || len == 0 || len > MAX_FILE_BYTES {
        Err(String::from_str("원본 파일이 복사한 뒤 변경되었거나 크기 제한을 넘었습니다."))
    } else {
        Ok(())
    }
}

/// The source is pinned by identity, not by content (a file sent later).
pub fn is_pinned(source: &LocalSource) -> (r: bool)
    ensures
        r == starts_with(source.sha256@, "pinned:"@),
{
    vec_starts_with(&chars_of(source.sha256.as_str()), &chars_of("pinned:"))
}

/// Before a pinned file is read, its identity must be the recorded one and
/// must match the recorded digest.
pub fn check_pinned_identity(source: &LocalSource, identity_now: &str) -> (r: Result<(), String>)
    ensures
        source.source_identity is None ==> (r matches Err(e) && e@ == "지연 전송 파일 정보가 없습니다."@),
        source.source_identity matches Some(id) ==> ((r is Ok <==> (identity_now@ == id@
            && source.sha256@ == tagged_hex("pinned:"@, sha256(encode_utf8(identity_now@)))))
            && (r matches Err(e) ==> e@ == msg_changed())),
{
    match &source.source_identity {
        None => Err(String::from_str("지연 전송 파일 정보가 없습니다.")),
        Some(expected) => {
            let now = String::from_str(identity_now);
            if now != *expected {
                return Err(String::from_str("원본 파일이 복사한 뒤 변경되었습니다."));
            }
            let digest = crate::capture::pinned_digest(identity_now);
            if digest != source.sha256 {
                return Err(String::from_str("원본 파일이 복사한 뒤 변경되었습니다."));
            }
            Ok(())
        },
    }
}

/// After a pinned file is read, its identity and the number of bytes read
/// must not have changed.
pub fn check_pinned_read(identity_before: &str, identity_after: &str, read_len: usize, expected: u64) -> (r:
    Result<(), String>)
    ensures
        (identity_before@ == identity_after@ && read_len == expected) <==> r is Ok,
        r matches Err(e) ==> e@ == "원본 파일을 읽는 동안 변경되었습니다."@,
{
    if String::from_str(identity_after) != String::from_str(identity_before) || read_len as u64
        != expected {
        Err(String::from_str("원본 파일을 읽는 동안 변경되었습니다."))
    } else {
        Ok(())
    }
}

/// The bytes of an unpinned source must still have the recorded digest.
pub fn check_source_content(source: &LocalSource, bytes: &[u8]) -> (r: Result<(), String>)
    ensures
        (hex_encode(sha256(bytes@)) == source.sha256@) <==> r is Ok,
        r matches Err(e) ==> e@ == msg_changed(),
{
    let digest = hex(sha256_digest(bytes).as_slice());
    if digest != source.sha256 {
        Err(String::from_str("원본 파일이 복사한 뒤 변경되었습니다."))
    } else {
        Ok(())
    }
}

/// How long the client waits for another device to send a file, in milliseconds.
pub const FILE_WAIT_MS: u64 = 45_000;

/// What to do before the next status poll of a file request.
#[derive(PartialEq, Eq, Structural, Clone, Copy, Debug)]
pub enum PollWait {
    /// Still pending after the waiting time: stop polling.
    GiveUp,
    /// Still pending: sleep a second, then poll.
    SleepThenPoll,
    /// Not pending: poll at once.
    Poll,
}

pub open spec fn poll_wait_spec(status: Seq<char>, elapsed_ms: u64) -> PollWait {
    if status == "pending"@ {
        if elapsed_ms >= FILE_WAIT_MS {
            PollWait::GiveUp
        } else {
            PollWait::SleepThenPoll
        }
    } else {
        PollWait::Poll
    }
}

pub fn poll_wait(status: &str, elapsed_ms: u64) -> (r: PollWait)
    ensures
        r == poll_wait_spec(status@, elapsed_ms),
{
    if String::from_str(status) == String::from_str("pending") {
        if elapsed_ms >= FILE_WAIT_MS {
            PollWait::GiveUp
        } else {
            PollWait::SleepThenPoll
        }
    } else {
        PollWait::Poll
    }
}

/// The error of a status poll answer.
pub open spec fn poll_failure(status: u16) -> Option<Seq<char>> {
    if status == UNAUTHORIZED {
        Some(auth_required_text())
    } else if status == NOT_FOUND {
        Some("파일 요청 시간이 지났습니다."@)
    } else if !is_success(status) {
        Some("파일 전송 상태를 확인하지 못했습니다."@)
    } else {
        None
    }
}

pub fn poll_error(status: u16) -> (r: Option<String>)
    ensures
        failure_matches(r, poll_failure(status)),
{
    if status == UNAUTHORIZED {
        Some(auth_required())
    } else if status == NOT_FOUND {
        Some(String::from_str("파일 요청 시간이 지났습니다."))
    } else if !(200 <= status && status <= 299) {
        Some(String::from_str("파일 전송 상태를 확인하지 못했습니다."))
    } else {
        None
    }
}

/// The file is ready on the server (or was already fetched).
pub open spec fn is_ready(status: Seq<char>) -> bool {
    status == "ready"@ || status == "consumed"@
}

pub fn ready(status: &str) -> (r: bool)
    ensures
        r == is_ready(status@),
{
    let s = String::from_str(status);
    s == String::from_str("ready") || s == String::from_str("consumed")
}

/// The digest that the downloaded file must have: the request must have
/// ended ready, with a 64-digit hexadecimal digest.
pub fn expected_digest(status: &str, digest: Option<String>) -> (r: Result<String, String>)
    ensures
        !is_ready(status@) ==> (r matches Err(e) && e@
            == "원본 기기가 응답하지 않습니다. 원본 기기에서 앱이 실행 중인지 확인해 주세요."@),
        is_ready(status@) ==> match digest {
            Some(d) => if d@.len() == 64 && all_ascii_hex(d@) {
                r == Ok::<String, String>(d)
            } else {
                r matches Err(e) && e@ == "파일 전송 상태가 올바르지 않습니다."@
            },
            None => r matches Err(e) && e@ == "파일 전송 상태가 올바르지 않습니다."@,
        },
{
    if !ready(status) {
        return Err(
            String::from_str(
                "원본 기기가 응답하지 않습니다. 원본 기기에서 앱이 실행 중인지 확인해 주세요.",
            ),
        );
    }
    match digest {
        Some(d) => {
            let v = chars_of(d.as_str());
            if v.len() == 64 && all_hex_digits(&v) {
                Ok(d)
            } else {
                Err(String::from_str("파일 전송 상태가 올바르지 않습니다."))
            }
        },
        None => Err(String::from_str("파일 전송 상태가 올바르지 않습니다.")),
    }
}

/// What a status poll tells the client: `None` to poll again (the request
/// still waits), else the digest that the download must have, or the error
/// that ends the request.
pub fn poll_result(status: &str, digest: Option<String>) -> (r: Option<Result<String, String>>)
    ensures
        (status@ == "pending"@) ==> r is None,
        (status@ != "pending"@) ==> (r matches Some(res) && match res {
            Ok(d) => is_ready(status@) && digest == Some(d) && d@.len() == 64 && all_ascii_hex(d@),
            Err(e) => if !is_ready(status@) {
                e@ == "원본 기기가 응답하지 않습니다. 원본 기기에서 앱이 실행 중인지 확인해 주세요."@
            } else {
                e@ == "파일 전송 상태가 올바르지 않습니다."@ && !(digest matches Some(d) && d@.len()
                    == 64 && all_ascii_hex(d@))
            },
        }),
{
    if String::from_str(status) == String::from_str("pending") {
        return None;
    }
    Some(expected_digest(status, digest))
}

/// Where fetching a file from another device stands.
#[derive(Clone, Debug, PartialEq)]
pub enum FetchStage {
    /// The request's last known status is `status`; the wait comes next.
    Waiting { status: String },
    /// The wait is over; the status poll comes next.
    Paused { status: String },
    /// The file is ready under `digest`; the download comes next.
    Ready { digest: String },
}

/// What happened since the last action of a fetch.
#[derive(Debug, PartialEq)]
pub enum FetchEvent {
    /// The pause ended: whether the selection may go on (its error if not),
    /// and the milliseconds since the request was created.
    Resumed { check: Result<(), String>, elapsed_ms: u64 },
    /// A status poll was answered: its HTTP status, and its body's status and
    /// digest (`None` when the body could not be read).
    Polled { http_status: u16, body: Option<(String, Option<String>)> },
}

/// What the fetch does next.
#[derive(Clone, Debug, PartialEq)]
pub enum FetchAction {
    /// Pause this many milliseconds, then check the selection.
    Pause(u64),
    /// Ask the server for the request's status.
    Poll,
    /// Download the file, which must have this digest.
    Download(String),
    /// Stop with this error.
    Fail(String),
}

pub open spec fn msg_status_invalid() -> Seq<char> {
    "파일 전송 상태가 올바르지 않습니다."@
}

pub open spec fn msg_no_answer() -> Seq<char> {
    "원본 기기가 응답하지 않습니다. 원본 기기에서 앱이 실행 중인지 확인해 주세요."@
}

/// A digest as the server must report it: 64 hexadecimal digits.
pub open spec fn digest_ok(d: Seq<char>) -> bool {
    d.len() == 64 && all_ascii_hex(d)
}

pub open spec fn fails_with(a: FetchAction, m: Seq<char>) -> bool {
    a matches FetchAction::Fail(e) && e@ == m
}

/// The next stage and action of a fetch after event `e` in stage `s`.
pub open spec fn fetch_result(s: FetchStage, e: FetchEvent, r: (FetchStage, FetchAction)) -> bool {
    match e {
        FetchEvent::Resumed { check, elapsed_ms } => match check {
            Err(m) => r.0 == s && r.1 == FetchAction::Fail(m),
            Ok(()) => match s {
                FetchStage::Waiting { status } => match poll_wait_spec(status@, elapsed_ms) {
                    PollWait::GiveUp => r.0 == s && fails_with(r.1, msg_no_answer()),
                    PollWait::SleepThenPoll => r.0 == FetchStage::Paused { status }
                        && r.1 == FetchAction::Pause(1000),
                    PollWait::Poll => r.0 == FetchStage::Paused { status } && r.1 == FetchAction::Pause(0),
                },
                FetchStage::Paused { status } => r.0 == s && r.1 == FetchAction::Poll,
                FetchStage::Ready { digest } => r.0 == s && r.1 == FetchAction::Download(digest),
            },
        },
        FetchEvent::Polled { http_status, body } => match poll_failure(http_status) {
            Some(m) => r.0 == s && fails_with(r.1, m),
            None => match body {
                None => r.0 == s && fails_with(r.1, msg_status_invalid()),
                Some(b) => if b.0@ == "pending"@ {
                    r.0 == FetchStage::Waiting { status: b.0 } && r.1 == FetchAction::Pause(0)
                } else if !is_ready(b.0@) {
                    r.0 == s && fails_with(r.1, msg_no_answer())
                } else if b.1 matches Some(d) && digest_ok(d@) {
                    r.0 == FetchStage::Ready { digest: b.1->0 } && r.1 == FetchAction::Pause(0)
                } else {
                    r.0 == s && fails_with(r.1, msg_status_invalid())
                },
            },
        },
    }
}

/// The first stage and action of a fetch, once the request was created with
/// status `status`: check the selection at once.
pub fn fetch_start(status: String) -> (r: (FetchStage, FetchAction))
    ensures
        r == (FetchStage::Waiting { status }, FetchAction::Pause(0)),
{
    (FetchStage::Waiting { status }, FetchAction::Pause(0))
}

/// One step of fetching a file from another device. Nothing is asked of
/// the server once the selection was cancelled: a poll or a download only
/// follows a check that let the selection go on, and the ready stage (the
/// only one that downloads) is entered only with a well-formed digest.
pub fn fetch_step(s: FetchStage, e: FetchEvent) -> (r: (FetchStage, FetchAction))
    ensures
        fetch_result(s, e, r),
        (e matches FetchEvent::Resumed { check, .. } && check is Err) ==> r.1 is Fail,
        (r.1 is Poll || r.1 is Download) ==> (e matches FetchEvent::Resumed { check, .. }
            && check is Ok),
        r.0 matches FetchStage::Ready { digest } ==> (s is Ready || digest_ok(digest@)),
{
    match e {
        FetchEvent::Resumed { check, elapsed_ms } => match check {
            Err(m) => (s, FetchAction::Fail(m)),
            Ok(()) => match s {
                FetchStage::Waiting { status } => match poll_wait(status.as_str(), elapsed_ms) {
                    PollWait::GiveUp => (
                        FetchStage::Waiting { status },
                        FetchAction::Fail(
                            String::from_str(
                                "원본 기기가 응답하지 않습니다. 원본 기기에서 앱이 실행 중인지 확인해 주세요.",
                            ),
                        ),
                    ),
                    PollWait::SleepThenPoll => (FetchStage::Paused { status }, FetchAction::Pause(1000)),
                    PollWait::Poll => (FetchStage::Paused { status }, FetchAction::Pause(0)),
                },
                FetchStage::Paused { status } => (FetchStage::Paused { status }, FetchAction::Poll),
                FetchStage::Ready { digest } => {
                    let d = digest.clone();
                    (FetchStage::Ready { digest }, FetchAction::Download(d))
                },
            },
        },
        FetchEvent::Polled { http_status, body } => match poll_error(http_status) {
            Some(m) => (s, FetchAction::Fail(m)),
            None => match body {
                None => (s, FetchAction::Fail(String::from_str("파일 전송 상태가 올바르지 않습니다."))),
                Some((status, digest)) => match poll_result(status.as_str(), digest) {
                    None => (FetchStage::Waiting { status }, FetchAction::Pause(0)),
                    Some(Ok(d)) => (FetchStage::Ready { digest: d }, FetchAction::Pause(0)),
                    Some(Err(m)) => (s, FetchAction::Fail(m)),
                },
            },
        },
    }
}

/// The error of a download answer.
pub open spec fn download_failure(status: u16) -> Option<Seq<char>> {
    if status == UNAUTHORIZED {
        Some(auth_required_text())
    } else if !is_success(status) {
        Some("파일을 내려받지 못했습니다."@)
    } else {
        None
    }
}

pub fn download_error(status: u16) -> (r: Option<String>)
    ensures
        failure_matches(r, download_failure(status)),
{
    if status == UNAUTHORIZED {
        Some(auth_required())
    } else if !(200 <= status && status <= 299) {
        Some(String::from_str("파일을 내려받지 못했습니다."))
    } else {
        None
    }
}

/// The download's digest header must be there and name the expected digest.
pub fn check_download_header(header: Option<&str>, expected: &str) -> (r: Result<(), String>)
    ensures
        header is None ==> (r matches Err(e) && e@ == "파일 전송 상태가 올바르지 않습니다."@),
        header matches Some(h) ==> ((h@ == expected@ <==> r is Ok) && (r matches Err(e) ==> e@
            == "받은 파일 내용이 올바르지 않습니다."@)),
{
    match header {
        None => Err(String::from_str("파일 전송 상태가 올바르지 않습니다.")),
        Some(h) => {
            if String::from_str(h) == String::from_str(expected) {
                Ok(())
            } else {
                Err(String::from_str("받은 파일 내용이 올바르지 않습니다."))
            }
        },
    }
}

/// A downloaded file must be non-empty, within the limit, of the size the
/// entry announced, and have the expected digest.
pub open spec fn downloaded_verdict(bytes: Seq<u8>, item_size: Option<u64>, expected: Seq<char>) -> Result<
    (),
    Seq<char>,
> {
    if bytes.len() == 0 || bytes.len() > MAX_FILE_BYTES || (item_size matches Some(s) && s
        != bytes.len()) {
        Err("받은 파일 크기가 올바르지 않습니다."@)
    } else if hex_encode(sha256(bytes)) != expected {
        Err("받은 파일 내용이 올바르지 않습니다."@)
    } else {
        Ok(())
    }
}

pub fn check_downloaded(bytes: &[u8], item_size: Option<u64>, expected: &str) -> (r: Result<(), String>)
    ensures
        match downloaded_verdict(bytes@, item_size, expected@) {
            Ok(()) => r is Ok,
            Err(m) => r matches Err(e) && e@ == m,
        },
{
    let n = bytes.len();
    let size_mismatch = match item_size {
        Some(s) => s != n as u64,
        None => false,
    };
    if n == 0 || n as u64 > MAX_FILE_BYTES || size_mismatch {
        return Err(String::from_str("받은 파일 크기가 올바르지 않습니다."));
    }
    let digest = hex(sha256_digest(bytes).as_slice());
    if digest != String::from_str(expected) {
        return Err(String::from_str("받은 파일 내용이 올바르지 않습니다."));
    }
    Ok(())
}

} // verus!
