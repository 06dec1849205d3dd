//! Choosing a history entry: what gets pasted, and the thumbnails that the
//! history popup shows.

use vstd::prelude::*;
use vstd::string::*;
use crate::crypto::{base64_encode, base64_standard};
use crate::history::{auth_required_text, find_item, find_pending, find_source, has_id, ClipboardItem, LocalState, StateView};
use crate::transfer::{auth_required, is_success, NOT_FOUND, UNAUTHORIZED};
use crate::text::chars_of;

verus! {

broadcast use vstd::string::group_string_axioms;

pub open spec fn msg_no_entry() -> Seq<char> {
    "클립보드 항목을 찾을 수 없습니다."@
}

/// How a chosen entry is pasted.
#[derive(PartialEq, Eq, Structural, Clone, Copy, Debug)]
pub enum PasteKind {
    /// Text goes on the clipboard as it is.
    Text,
    /// The bytes come from local source `source`; its size must be `expected_size`.
    Local { source: usize, expected_size: u64 },
    /// A file or image with no local source here.
    NoLocalSource,
}

/// A file or image entry (its bytes are pasted, not its text).
pub open spec fn carries_bytes(item: ClipboardItem) -> bool {
    item.kind@ == "file"@ || item.kind@ == "image"@
}

pub open spec fn first_item_index(items: Seq<ClipboardItem>, id: Seq<char>, i: int) -> bool {
    0 <= i < items.len() && items[i].id@ == id && forall|k: int| 0 <= k < i ==> (#[trigger] items[k]).id@ != id
}

/// The paste plan of entry `item` in state `st`.
pub open spec fn paste_kind_for(st: StateView, item: ClipboardItem, k: PasteKind) -> bool {
    if carries_bytes(item) {
        match k {
            PasteKind::Local { source, expected_size } => {
                &&& 0 <= source < st.sources.len()
                &&& st.sources[source as int].item_id@ == item.id@
                &&& (forall|m: int| 0 <= m < source ==> (#[trigger] st.sources[m]).item_id@ != item.id@)
                &&& expected_size == match item.size_bytes {
                    Some(s) => s,
                    None => st.sources[source as int].size_bytes,
                }
            },
            PasteKind::NoLocalSource => forall|m: int|
                0 <= m < st.sources.len() ==> (#[trigger] st.sources[m]).item_id@ != item.id@,
            PasteKind::Text => false,
        }
    } else {
        k == PasteKind::Text
    }
}

/// The entry `id` (the first with that id) and how to paste it.
pub fn plan_paste(state: &LocalState, id: &String) -> (r: Result<(usize, PasteKind), String>)
    ensures
        !has_id(state@.items, id@) <==> r is Err,
        r matches Err(e) ==> e@ == msg_no_entry(),
        r matches Ok((i, k)) ==> first_item_index(state@.items, id@, i as int) && paste_kind_for(
            state@,
            state@.items[i as int],
            k,
        ),
        r matches Ok((i, k)) ==> ((state@.items[i as int].kind@ == "file"@
            || state@.items[i as int].kind@ == "image"@) <==> k != PasteKind::Text),
        r matches Ok((i, k)) ==> (k == PasteKind::NoLocalSource <==> (state@.items[i as int].kind@
            == "file"@ || state@.items[i as int].kind@ == "image"@) && forall|m: int|
            0 <= m < state@.sources.len() ==> (#[trigger] state@.sources[m]).item_id@ != id@),
        r matches Ok((i, k)) ==> (k matches PasteKind::Local { source, expected_size } ==> {
            &&& source < state@.sources.len()
            &&& state@.sources[source as int].item_id@ == id@
            &&& expected_size == match state@.items[i as int].size_bytes {
                Some(n) => n,
                None => state@.sources[source as int].size_bytes,
            }
        }),
{
    let i = match find_item(&state.items, id) {
        Some(i) => i,
        None => {
            return Err(String::from_str("클립보드 항목을 찾을 수 없습니다."));
        },
    };
    let item = &state.items[i];
    let file = String::from_str("file");
    let image = String::from_str("image");
    if item.kind == file || item.kind == image {
        match find_source(&state.sources, &item.id) {
            Some(j) => {
                let expected = match item.size_bytes {
                    Some(s) => s,
                    None => state.sources[j].size_bytes,
                };
                Ok((i, PasteKind::Local { source: j, expected_size: expected }))
            },
            None => Ok((i, PasteKind::NoLocalSource)),
        }
    } else {
        Ok((i, PasteKind::Text))
    }
}

/// A file or image entry is pasted as bytes, never as its text: from the
/// first local source of its id, at the entry's size (the source's when the
/// entry has none), or, when no local source of it exists here, not at all
/// from this device.
pub proof fn law_bytes_entry_pasted_as_bytes(st: StateView, item: ClipboardItem, k: PasteKind)
    requires
        item.kind@ == "image"@ || item.kind@ == "file"@,
        paste_kind_for(st, item, k),
    ensures
        k != PasteKind::Text,
        k == PasteKind::NoLocalSource <==> forall|m: int|
            0 <= m < st.sources.len() ==> (#[trigger] st.sources[m]).item_id@ != item.id@,
        k matches PasteKind::Local { source, expected_size } ==> {
            &&& source < st.sources.len()
            &&& st.sources[source as int].item_id@ == item.id@
            &&& forall|m: int| 0 <= m < source ==> (#[trigger] st.sources[m]).item_id@ != item.id@
            &&& expected_size == match item.size_bytes {
                Some(n) => n,
                None => st.sources[source as int].size_bytes,
            }
        },
{
    if k == PasteKind::NoLocalSource {
    } else {
        if let PasteKind::Local { source, expected_size } = k {
            assert(st.sources[source as int].item_id@ == item.id@);
        }
    }
}

/// Any other entry is pasted as its text.
pub proof fn law_text_entry_pasted_as_text(st: StateView, item: ClipboardItem, k: PasteKind)
    requires
        item.kind@ != "image"@,
        item.kind@ != "file"@,
        paste_kind_for(st, item, k),
    ensures
        k == PasteKind::Text,
{
}

/// A file with no local source can only come from another device.
pub fn check_remote_origin(item: &ClipboardItem, device_id: &String) -> (r: Result<(), String>)
    ensures
        (item.origin_device_id@ == device_id@) <==> r is Err,
        r matches Err(e) ==> e@ == "원본 파일을 찾을 수 없습니다. 파일을 다시 복사해 주세요."@,
{
    if item.origin_device_id == *device_id {
        Err(String::from_str("원본 파일을 찾을 수 없습니다. 파일을 다시 복사해 주세요."))
    } else {
        Ok(())
    }
}

/// A path separator, on either kind of system.
pub open spec fn is_separator(c: char) -> bool {
    c == '/' || c == '\\'
}

/// The last component of `name`: what follows its last separator.
pub open spec fn base_name(name: Seq<char>) -> Seq<char>
    decreases name.len(),
{
    if name.len() == 0 {
        name
    } else if is_separator(name.last()) {
        Seq::empty()
    } else {
        base_name(name.drop_last()).push(name.last())
    }
}

proof fn lemma_base_name_suffix(name: Seq<char>, j: int)
    requires
        0 <= j <= name.len(),
        forall|k: int| j <= k < name.len() ==> !is_separator(#[trigger] name[k]),
        j == 0 || is_separator(name[j - 1]),
    ensures
        base_name(name) == name.subrange(j, name.len() as int),
    decreases name.len(),
{
    if name.len() == j {
        if j > 0 {
            assert(is_separator(name.last()));
        }
    } else {
        let t = name.drop_last();
        lemma_base_name_suffix(t, j);
        assert(t.subrange(j, t.len() as int).push(name.last()) =~= name.subrange(
            j,
            name.len() as int,
        ));
    }
}

/// Where a file received for `item` is saved: a directory named after the
/// entry's id, holding the file under its own name (the last component of
/// its file name, or of its text when it has none).
pub fn download_name(item: &ClipboardItem) -> (r: (String, String))
    ensures
        r.0 == item.id,
        r.1@ == base_name(
            match item.filename {
                Some(f) => f@,
                None => item.text@,
            },
        ),
{
    let name = match &item.filename {
        Some(f) => f.as_str(),
        None => item.text.as_str(),
    };
    let v = chars_of(name);
    let mut j = v.len();
    while j > 0 && !(v[j - 1] == '/' || v[j - 1] == '\\')
        invariant
            j <= v@.len(),
            v@ == name@,
            forall|k: int| j <= k < v@.len() ==> !is_separator(#[trigger] v@[k]),
        decreases j,
    {
        j = j - 1;
    }
    proof {
        lemma_base_name_suffix(v@, j as int);
    }
    let base = String::from_str(name.substring_char(j, v.len()));
    (item.id.clone(), base)
}

/// `data:` URL of base64 content.
pub open spec fn data_url(mime: Seq<char>, b64: Seq<char>) -> Seq<char> {
    "data:"@ + mime + ";base64,"@ + b64
}

pub fn make_data_url(mime: &str, b64: &str) -> (r: String)
    ensures
        r@ == data_url(mime@, b64@),
{
    let mut s = String::from_str("data:");
    s.append(mime);
    s.append(";base64,");
    s.append(b64);
    s
}

/// Where the thumbnail of an entry comes from.
#[derive(Clone, Debug, PartialEq)]
pub enum ThumbnailPlan {
    /// Known locally (or known to be absent).
    Ready(Option<String>),
    /// To be fetched from the server.
    Fetch,
}

pub open spec fn local_thumbnail(thumbnail: Option<String>, mime: Option<String>, r: ThumbnailPlan) -> bool {
    match thumbnail {
        Some(t) => r matches ThumbnailPlan::Ready(Some(u)) && u@ == data_url(
            match mime {
                Some(m) => m@,
                None => "image/jpeg"@,
            },
            t@,
        ),
        None => r == ThumbnailPlan::Ready(None),
    }
}

/// The thumbnail of entry or waiting capture `id`: a waiting capture carries
/// its own; an entry without one has none; otherwise the server has it.
pub fn plan_thumbnail(state: &LocalState, id: &String) -> (r: Result<ThumbnailPlan, String>)
    ensures
        match find_pending_spec(state@, id@) {
            Some(p) => r matches Ok(t) && local_thumbnail(p.thumbnail_base64, p.thumbnail_mime_type, t),
            None => if !has_id(state@.items, id@) {
                r matches Err(e) && e@ == msg_no_entry()
            } else if !first_item(state@.items, id@).thumbnail_available {
                r == Ok::<ThumbnailPlan, String>(ThumbnailPlan::Ready(None))
            } else {
                r == Ok::<ThumbnailPlan, String>(ThumbnailPlan::Fetch)
            },
        },
{
    match find_pending(&state.pending, id) {
        Some(j) => {
            let p = &state.pending[j];
            proof {
                assert(first_pending_index(state@, id@, j as int));
                lemma_first_pending_unique(state@, id@, j as int);
            }
            match &p.thumbnail_base64 {
                Some(t) => {
                    let mime = match &p.thumbnail_mime_type {
                        Some(m) => m.as_str(),
                        None => "image/jpeg",
                    };
                    Ok(ThumbnailPlan::Ready(Some(make_data_url(mime, t.as_str()))))
                },
                None => Ok(ThumbnailPlan::Ready(None)),
            }
        },
        None => {
            proof {
                assert(!exists|k: int| first_pending_index(state@, id@, k));
            }
            match find_item(&state.items, id) {
                None => Err(String::from_str("클립보드 항목을 찾을 수 없습니다.")),
                Some(i) => {
                    proof {
                        lemma_first_item_unique(state@.items, id@, i as int);
                    }
                    if !state.items[i].thumbnail_available {
                        Ok(ThumbnailPlan::Ready(None))
                    } else {
                        Ok(ThumbnailPlan::Fetch)
                    }
                },
            }
        },
    }
}

pub open spec fn first_pending_index(st: StateView, id: Seq<char>, j: int) -> bool {
    0 <= j < st.pending.len() && st.pending[j].local_id@ == id && forall|k: int|
        0 <= k < j ==> (#[trigger] st.pending[k]).local_id@ != id
}

/// The first waiting capture with local id `id`, if any.
pub open spec fn find_pending_spec(st: StateView, id: Seq<char>) -> Option<crate::history::PendingItem> {
    if exists|j: int| first_pending_index(st, id, j) {
        Some(st.pending[choose|j: int| first_pending_index(st, id, j)])
    } else {
        None
    }
}

/// The first entry with id `id` (meaningful when there is one).
pub open spec fn first_item(items: Seq<ClipboardItem>, id: Seq<char>) -> ClipboardItem {
    items[choose|i: int| first_item_index(items, id, i)]
}

proof fn lemma_first_pending_unique(st: StateView, id: Seq<char>, j: int)
    requires
        first_pending_index(st, id, j),
    ensures
        find_pending_spec(st, id) == Some(st.pending[j]),
{
    let c = choose|k: int| first_pending_index(st, id, k);
    assert(first_pending_index(st, id, c));
    if c < j {
        assert(st.pending[c].local_id@ != id);
    } else if c > j {
        assert(st.pending[j].local_id@ != id);
    }
}

proof fn lemma_first_item_unique(items: Seq<ClipboardItem>, id: Seq<char>, i: int)
    requires
        first_item_index(items, id, i),
    ensures
        first_item(items, id) == items[i],
{
    let c = choose|k: int| first_item_index(items, id, k);
    assert(first_item_index(items, id, c));
    if c < i {
        assert(items[c].id@ != id);
    } else if c > i {
        assert(items[i].id@ != id);
    }
}

/// The answer to a thumbnail download: `Ok(None)` when the server has none,
/// the content type when it is a JPEG or PNG image, else an error.
pub open spec fn thumbnail_answer_spec(status: u16, content_type: Option<Seq<char>>) -> Result<
    Option<Seq<char>>,
    Seq<char>,
> {
    if status == NOT_FOUND {
        Ok(None)
    } else if status == UNAUTHORIZED {
        Err(auth_required_text())
    } else if !is_success(status) {
        Err("썸네일을 불러오지 못했습니다."@)
    } else {
        match content_type {
            Some(t) => if t == "image/jpeg"@ || t == "image/png"@ {
                Ok(Some(t))
            } else {
                Err("썸네일 형식이 올바르지 않습니다."@)
            },
            None => Err("썸네일 형식이 올바르지 않습니다."@),
        }
    }
}

/// A successful answer is accepted exactly when its content type is JPEG
/// (the kind every capture uploads) or PNG, and it keeps that type; any other
/// type, or none, is refused.
pub proof fn law_thumbnail_types(status: u16, t: Seq<char>)
    requires
        200 <= status <= 299,
    ensures
        thumbnail_answer_spec(status, Some("image/jpeg"@)) matches Ok(Some(m)) && m
            == "image/jpeg"@,
        thumbnail_answer_spec(status, Some("image/png"@)) matches Ok(Some(m)) && m == "image/png"@,
        (t == "image/jpeg"@ || t == "image/png"@) ==> (thumbnail_answer_spec(status, Some(t)) matches Ok(
            Some(m),
        ) && m == t),
        !(t == "image/jpeg"@ || t == "image/png"@) ==> thumbnail_answer_spec(status, Some(t)) is Err,
        thumbnail_answer_spec(status, None) is Err,
{
}

pub fn thumbnail_answer(status: u16, content_type: Option<&str>) -> (r: Result<Option<String>, String>)
    ensures
        match thumbnail_answer_spec(
            status,
            match content_type {
                Some(t) => Some(t@),
                None => None,
            },
        ) {
            Ok(Some(t)) => r matches Ok(Some(m)) && m@ == t,
            Ok(None) => r matches Ok(None),
            Err(m) => r matches Err(e) && e@ == m,
        },
        content_type matches Some(t) ==> (200 <= status <= 299 ==> (((t@ == "image/jpeg"@ || t@
            == "image/png"@) ==> (r matches Ok(Some(m)) && m@ == t@)) && (!(t@ == "image/jpeg"@
            || t@ == "image/png"@) ==> r is Err))),
        content_type is None ==> (200 <= status <= 299 ==> r is Err),
        status == NOT_FOUND ==> r matches Ok(None),
        status == UNAUTHORIZED ==> (r matches Err(e) && e@ == auth_required_text()),
        !(200 <= status <= 299) && status != NOT_FOUND && status != UNAUTHORIZED ==> (r matches Err(
            e,
        ) && e@ == "썸네일을 불러오지 못했습니다."@),
{
    if status == NOT_FOUND {
        return Ok(None);
    }
    if status == UNAUTHORIZED {
        return Err(auth_required());
    }
    if !(200 <= status && status <= 299) {
        return Err(String::from_str("썸네일을 불러오지 못했습니다."));
    }
    match content_type {
        Some(t) => {
            let t = String::from_str(t);
            if t == String::from_str("image/jpeg") || t == String::from_str("image/png") {
                Ok(Some(t))
            } else {
                Err(String::from_str("썸네일 형식이 올바르지 않습니다."))
            }
        },
        None => Err(String::from_str("썸네일 형식이 올바르지 않습니다.")),
    }
}

/// Largest thumbnail that is shown, in bytes.
pub const MAX_THUMBNAIL_BYTES: usize = 256 * 1024;

/// The `data:` URL of a downloaded thumbnail, unless it is too large.
pub fn thumbnail_data_url(mime: &str, body: &[u8]) -> (r: Result<String, String>)
    ensures
        body@.len() > MAX_THUMBNAIL_BYTES ==> (r matches Err(e) && e@ == "썸네일이 너무 큽니다."@),
        body@.len() <= MAX_THUMBNAIL_BYTES ==> (r matches Ok(u) && u@ == data_url(
            mime@,
            base64_standard(body@),
        )),
{
    if body.len() > MAX_THUMBNAIL_BYTES {
        return Err(String::from_str("썸네일이 너무 큽니다."));
    }
    let b64 = base64_encode(body);
    Ok(make_data_url(mime, b64.as_str()))
}

} // verus!
