//! The local clipboard history: its entries, the captures that still wait
//! for the server, and the local files that back shared file entries.
//!
//! Every change that the client makes to its history goes through the
//! operations here: a server feed page, the answer to a publish, a new
//! capture, trimming, and forgetting files that no entry refers to.

use vstd::prelude::*;
use vstd::string::*;

verus! {

broadcast use vstd::seq_lib::group_seq_lib_default, vstd::seq_lib::group_seq_properties;

/// Most entries that the local history keeps.
pub const MAX_ITEMS: usize = 500;

/// One entry of the shared clipboard history.
#[derive(Clone, Debug, PartialEq)]
pub struct ClipboardItem {
    pub seq: i64,
    pub id: String,
    pub space_id: String,
    pub origin_device_id: String,
    pub kind: String,
    pub text: String,
    pub filename: Option<String>,
    pub mime_type: Option<String>,
    pub size_bytes: Option<u64>,
    pub thumbnail_available: bool,
    pub created_at: String,
}

/// A capture that the server has not accepted yet.
#[derive(Clone, Debug, PartialEq)]
pub struct PendingItem {
    pub client_event_id: String,
    pub kind: String,
    pub text: String,
    pub filename: Option<String>,
    pub mime_type: Option<String>,
    pub size_bytes: Option<u64>,
    pub thumbnail_base64: Option<String>,
    pub thumbnail_mime_type: Option<String>,
    pub local_id: String,
    pub created_at: String,
}

/// A file on this device that backs a shared file or image entry.
#[derive(Clone, Debug, PartialEq)]
pub struct LocalSource {
    pub item_id: String,
    pub path: String,
    pub size_bytes: u64,
    pub sha256: String,
    pub source_identity: Option<String>,
    pub managed: bool,
}

/// Everything the client keeps locally between runs.
#[derive(Clone, Debug, PartialEq)]
pub struct LocalState {
    pub cursor: i64,
    pub items: Vec<ClipboardItem>,
    pub pending: Vec<PendingItem>,
    pub sources: Vec<LocalSource>,
}

/// The abstract local state.
pub struct StateView {
    pub cursor: i64,
    pub items: Seq<ClipboardItem>,
    pub pending: Seq<PendingItem>,
    pub sources: Seq<LocalSource>,
}

impl View for LocalState {
    type V = StateView;

    open spec fn view(&self) -> StateView {
        StateView {
            cursor: self.cursor,
            items: self.items@,
            pending: self.pending@,
            sources: self.sources@,
        }
    }
}

/// One event of the server's history feed.
#[derive(Clone, Debug, PartialEq)]
pub enum FeedEvent {
    Published(ClipboardItem),
    Deleted(String),
    Other,
}

/// The kinds of feed event that the client tells apart.
#[derive(PartialEq, Eq, Structural, Clone, Copy, Debug)]
pub enum FeedEventKind {
    Published,
    Deleted,
    Other,
}

// ---------------------------------------------------------------------------
// Abstract operations
// ---------------------------------------------------------------------------

pub open spec fn id_differs(id: Seq<char>) -> spec_fn(ClipboardItem) -> bool {
    |e: ClipboardItem| e.id@ != id
}

/// The entries without the ones that carry `id`, in their order.
pub open spec fn without_id(items: Seq<ClipboardItem>, id: Seq<char>) -> Seq<ClipboardItem> {
    items.filter(id_differs(id))
}

/// `item` first, then every other entry that does not share its id.
pub open spec fn put_front(items: Seq<ClipboardItem>, item: ClipboardItem) -> Seq<ClipboardItem> {
    seq![item] + without_id(items, item.id@)
}

pub open spec fn has_id(items: Seq<ClipboardItem>, id: Seq<char>) -> bool {
    exists|k: int| 0 <= k < items.len() && (#[trigger] items[k]).id@ == id
}

/// No two entries share an id.
pub open spec fn ids_unique(items: Seq<ClipboardItem>) -> bool {
    forall|i: int, j: int| 0 <= i < j < items.len() ==> (#[trigger] items[i]).id@ != (#[trigger] items[j]).id@
}

/// At most `MAX_ITEMS` entries, the newest kept.
pub open spec fn capped(items: Seq<ClipboardItem>) -> Seq<ClipboardItem> {
    if items.len() > MAX_ITEMS {
        items.take(MAX_ITEMS as int)
    } else {
        items
    }
}

/// What one feed event does to the entries.
pub open spec fn feed_step(items: Seq<ClipboardItem>, ev: FeedEvent) -> Seq<ClipboardItem> {
    match ev {
        FeedEvent::Published(item) => put_front(items, item),
        FeedEvent::Deleted(id) => without_id(items, id@),
        FeedEvent::Other => items,
    }
}

/// What a page of feed events does to the entries, in order.
pub open spec fn feed_fold(items: Seq<ClipboardItem>, evs: Seq<FeedEvent>) -> Seq<ClipboardItem>
    decreases evs.len(),
{
    if evs.len() == 0 {
        items
    } else {
        feed_step(feed_fold(items, evs.drop_last()), evs.last())
    }
}

pub open spec fn renamed_source(s: LocalSource, from: Seq<char>, to: String) -> LocalSource {
    if s.item_id@ == from {
        LocalSource {
            item_id: to,
            path: s.path,
            size_bytes: s.size_bytes,
            sha256: s.sha256,
            source_identity: s.source_identity,
            managed: s.managed,
        }
    } else {
        s
    }
}

/// The sources of entry `from` now belong to entry `to`.
pub open spec fn renamed_sources(sources: Seq<LocalSource>, from: Seq<char>, to: String) -> Seq<
    LocalSource,
> {
    Seq::new(sources.len(), |i: int| renamed_source(sources[i], from, to))
}

/// The server accepted the capture `local_id` as `value`.
pub open spec fn accepted(st: StateView, local_id: Seq<char>, value: ClipboardItem) -> StateView {
    StateView {
        cursor: st.cursor,
        items: put_front(without_id(st.items, local_id), value),
        pending: st.pending,
        sources: renamed_sources(st.sources, local_id, value.id),
    }
}

pub open spec fn auth_required_text() -> Seq<char> {
    "auth_required"@
}

/// The outcome of publishing each waiting capture, folded in order: accepted
/// captures join the history, the others wait again.
pub open spec fn publish_fold(
    st: StateView,
    results: Seq<(PendingItem, Result<ClipboardItem, String>)>,
) -> StateView
    decreases results.len(),
{
    if results.len() == 0 {
        StateView { cursor: st.cursor, items: st.items, pending: Seq::empty(), sources: st.sources }
    } else {
        let prev = publish_fold(st, results.drop_last());
        let (p, r) = results.last();
        match r {
            Ok(v) => accepted(prev, p.local_id@, v),
            Err(_) => StateView {
                cursor: prev.cursor,
                items: prev.items,
                pending: prev.pending.push(p),
                sources: prev.sources,
            },
        }
    }
}

/// The first failure among publish outcomes, if any.
pub open spec fn first_publish_error(results: Seq<(PendingItem, Result<ClipboardItem, String>)>) -> Option<
    String,
>
    decreases results.len(),
{
    if results.len() == 0 {
        None
    } else {
        match first_publish_error(results.drop_last()) {
            Some(e) => Some(e),
            None => match results.last().1 {
                Ok(_) => None,
                Err(e) => Some(e),
            },
        }
    }
}

pub open spec fn is_auth_failure(r: (PendingItem, Result<ClipboardItem, String>)) -> bool {
    r.1 matches Err(e) && e@ == auth_required_text()
}

/// `id` names an entry of the history or a capture that still waits.
pub open spec fn is_active(st: StateView, id: Seq<char>) -> bool {
    has_id(st.items, id) || exists|k: int|
        0 <= k < st.pending.len() && (#[trigger] st.pending[k]).local_id@ == id
}

pub open spec fn keeps_source(st: StateView, s: LocalSource, present: bool) -> bool {
    is_active(st, s.item_id@) && present
}

/// The sources that stay: those of active entries whose file is still there.
pub open spec fn kept_sources(st: StateView, srcs: Seq<LocalSource>, present: Seq<bool>) -> Seq<
    LocalSource,
>
    decreases srcs.len(),
{
    if srcs.len() == 0 {
        Seq::empty()
    } else {
        let prev = kept_sources(st, srcs.drop_last(), present);
        if keeps_source(st, srcs.last(), present[srcs.len() - 1]) {
            prev.push(srcs.last())
        } else {
            prev
        }
    }
}

/// The files that the client created itself and no longer needs.
pub open spec fn dropped_files(st: StateView, srcs: Seq<LocalSource>, present: Seq<bool>) -> Seq<
    Seq<char>,
>
    decreases srcs.len(),
{
    if srcs.len() == 0 {
        Seq::empty()
    } else {
        let prev = dropped_files(st, srcs.drop_last(), present);
        if !keeps_source(st, srcs.last(), present[srcs.len() - 1]) && srcs.last().managed {
            prev.push(srcs.last().path@)
        } else {
            prev
        }
    }
}

/// `x` is the local stand-in entry for a capture that the server did not take.
pub open spec fn is_local_entry(x: ClipboardItem, p: PendingItem, device_id: String) -> bool {
    &&& x.seq == 0
    &&& x.id == p.local_id
    &&& x.space_id@ == "personal"@
    &&& x.origin_device_id == device_id
    &&& x.kind == p.kind
    &&& x.text == p.text
    &&& x.filename == p.filename
    &&& x.mime_type == p.mime_type
    &&& x.size_bytes == p.size_bytes
    &&& x.thumbnail_available == (p.thumbnail_base64 is Some)
    &&& x.created_at == p.created_at
}

pub open spec fn source_for(s: LocalSource, id: String) -> LocalSource {
    LocalSource {
        item_id: id,
        path: s.path,
        size_bytes: s.size_bytes,
        sha256: s.sha256,
        source_identity: s.source_identity,
        managed: s.managed,
    }
}

pub open spec fn pushed_source(srcs: Seq<LocalSource>, source: Option<LocalSource>, id: String) -> Seq<
    LocalSource,
> {
    match source {
        Some(s) => srcs.push(source_for(s, id)),
        None => srcs,
    }
}

pub open spec fn opt_text_eq(a: Option<String>, b: Option<String>) -> bool {
    match (a, b) {
        (Some(x), Some(y)) => x@ == y@,
        (None, None) => true,
        _ => false,
    }
}

/// The two entries hold the same values.
pub open spec fn same_item(a: ClipboardItem, b: ClipboardItem) -> bool {
    &&& a.seq == b.seq
    &&& a.id@ == b.id@
    &&& a.space_id@ == b.space_id@
    &&& a.origin_device_id@ == b.origin_device_id@
    &&& a.kind@ == b.kind@
    &&& a.text@ == b.text@
    &&& opt_text_eq(a.filename, b.filename)
    &&& opt_text_eq(a.mime_type, b.mime_type)
    &&& a.size_bytes == b.size_bytes
    &&& a.thumbnail_available == b.thumbnail_available
    &&& a.created_at@ == b.created_at@
}

pub open spec fn same_pending(a: PendingItem, b: PendingItem) -> bool {
    &&& a.client_event_id@ == b.client_event_id@
    &&& a.kind@ == b.kind@
    &&& a.text@ == b.text@
    &&& opt_text_eq(a.filename, b.filename)
    &&& opt_text_eq(a.mime_type, b.mime_type)
    &&& a.size_bytes == b.size_bytes
    &&& opt_text_eq(a.thumbnail_base64, b.thumbnail_base64)
    &&& opt_text_eq(a.thumbnail_mime_type, b.thumbnail_mime_type)
    &&& a.local_id@ == b.local_id@
    &&& a.created_at@ == b.created_at@
}

pub open spec fn same_source(a: LocalSource, b: LocalSource) -> bool {
    &&& a.item_id@ == b.item_id@
    &&& a.path@ == b.path@
    &&& a.size_bytes == b.size_bytes
    &&& a.sha256@ == b.sha256@
    &&& opt_text_eq(a.source_identity, b.source_identity)
    &&& a.managed == b.managed
}

/// The two states hold the same values, so nothing needs to be saved.
pub open spec fn same_state(a: StateView, b: StateView) -> bool {
    &&& a.cursor == b.cursor
    &&& a.items.len() == b.items.len()
    &&& (forall|i: int| 0 <= i < a.items.len() ==> same_item(#[trigger] a.items[i], b.items[i]))
    &&& a.pending.len() == b.pending.len()
    &&& (forall|i: int|
        0 <= i < a.pending.len() ==> same_pending(#[trigger] a.pending[i], b.pending[i]))
    &&& a.sources.len() == b.sources.len()
    &&& (forall|i: int|
        0 <= i < a.sources.len() ==> same_source(#[trigger] a.sources[i], b.sources[i]))
}

// ---------------------------------------------------------------------------
// Lemmas
// ---------------------------------------------------------------------------

/// Filtering by id keeps the entries in order, drops every entry with the id,
/// and keeps ids unique.
pub proof fn lemma_without_id(s: Seq<ClipboardItem>, id: Seq<char>)
    ensures
        forall|k: int|
            0 <= k < without_id(s, id).len() ==> (#[trigger] without_id(s, id)[k]).id@ != id
                && s.contains(without_id(s, id)[k]),
        ids_unique(s) ==> ids_unique(without_id(s, id)),
        without_id(s, id).len() <= s.len(),
    decreases s.len(),
{
    let r = without_id(s, id);
    if s.len() > 0 {
        let t = s.drop_last();
        let x = s.last();
        lemma_without_id(t, id);
        assert(s =~= t.push(x));
        t.lemma_filter_push(x, id_differs(id));
        let rt = without_id(t, id);
        assert forall|k: int| 0 <= k < r.len() implies (#[trigger] r[k]).id@ != id && s.contains(
            r[k],
        ) by {
            if k < rt.len() {
                assert(r[k] == rt[k]);
                let m = choose|m: int| 0 <= m < t.len() && t[m] == rt[k];
                assert(s[m] == t[m]);
            } else {
                assert(r[k] == x);
                assert(s[s.len() - 1] == x);
            }
        }
        if ids_unique(s) {
            assert(ids_unique(t)) by {
                assert forall|i: int, j: int| 0 <= i < j < t.len() implies (#[trigger] t[i]).id@
                    != (#[trigger] t[j]).id@ by {
                    assert(s[i] == t[i] && s[j] == t[j]);
                }
            }
            assert forall|i: int, j: int| 0 <= i < j < r.len() implies (#[trigger] r[i]).id@ != (
            #[trigger] r[j]).id@ by {
                if j < rt.len() {
                    assert(r[i] == rt[i] && r[j] == rt[j]);
                } else {
                    assert(r[j] == x);
                    assert(r[i] == rt[i]);
                    assert(t.contains(rt[i]));
                    let m = choose|m: int| 0 <= m < t.len() && t[m] == rt[i];
                    assert(s[m] == t[m]);
                    assert(s[s.len() - 1] == x);
                }
            }
        }
    } else {
        reveal(Seq::filter);
    }
}

/// Filtering a sequence whose entries all pass leaves it unchanged.
pub proof fn lemma_without_absent(s: Seq<ClipboardItem>, id: Seq<char>)
    requires
        forall|k: int| 0 <= k < s.len() ==> (#[trigger] s[k]).id@ != id,
    ensures
        without_id(s, id) == s,
    decreases s.len(),
{
    if s.len() == 0 {
        reveal(Seq::filter);
    } else {
        let t = s.drop_last();
        assert forall|k: int| 0 <= k < t.len() implies (#[trigger] t[k]).id@ != id by {
            assert(t[k] == s[k]);
        }
        lemma_without_absent(t, id);
        assert(s =~= t.push(s.last()));
        t.lemma_filter_push(s.last(), id_differs(id));
    }
}

/// The entry put in front is the only one with its id, and uniqueness is kept.
pub proof fn lemma_put_front(s: Seq<ClipboardItem>, x: ClipboardItem)
    ensures
        put_front(s, x)[0] == x,
        forall|k: int| 1 <= k < put_front(s, x).len() ==> (#[trigger] put_front(s, x)[k]).id@ != x.id@,
        ids_unique(s) ==> ids_unique(put_front(s, x)),
        put_front(s, x).len() <= s.len() + 1,
{
    lemma_without_id(s, x.id@);
    let w = without_id(s, x.id@);
    let r = put_front(s, x);
    assert forall|k: int| 1 <= k < r.len() implies (#[trigger] r[k]).id@ != x.id@ by {
        assert(r[k] == w[k - 1]);
    }
    if ids_unique(s) {
        assert forall|i: int, j: int| 0 <= i < j < r.len() implies (#[trigger] r[i]).id@ != (
        #[trigger] r[j]).id@ by {
            assert(r[j] == w[j - 1]);
            if i > 0 {
                assert(r[i] == w[i - 1]);
            }
        }
    }
}

pub proof fn lemma_take_unique(s: Seq<ClipboardItem>, n: int)
    requires
        ids_unique(s),
        0 <= n <= s.len(),
    ensures
        ids_unique(s.take(n)),
{
    let t = s.take(n);
    assert forall|i: int, j: int| 0 <= i < j < t.len() implies (#[trigger] t[i]).id@ != (
    #[trigger] t[j]).id@ by {
        assert(t[i] == s[i] && t[j] == s[j]);
    }
}

// ---------------------------------------------------------------------------
// Laws
// ---------------------------------------------------------------------------

/// A published entry ends up first, and it is then the only entry with its id.
pub proof fn law_published_entry_goes_first(items: Seq<ClipboardItem>, item: ClipboardItem)
    ensures
        feed_step(items, FeedEvent::Published(item))[0] == item,
        forall|k: int|
            1 <= k < feed_step(items, FeedEvent::Published(item)).len() ==> (#[trigger] feed_step(
                items,
                FeedEvent::Published(item),
            )[k]).id@ != item.id@,
{
    lemma_put_front(items, item);
}

/// After a delete event no entry has the deleted id; the rest keep their order.
pub proof fn law_deleted_entry_is_gone(items: Seq<ClipboardItem>, id: String)
    ensures
        !has_id(feed_step(items, FeedEvent::Deleted(id)), id@),
        feed_step(items, FeedEvent::Deleted(id)) == items.filter(id_differs(id@)),
{
    lemma_without_id(items, id@);
}

/// Applying the same feed event a second time changes nothing, so a page
/// that is fetched again after a failed sync is harmless.
pub proof fn law_feed_replay_is_harmless(items: Seq<ClipboardItem>, ev: FeedEvent)
    ensures
        feed_step(feed_step(items, ev), ev) == feed_step(items, ev),
{
    match ev {
        FeedEvent::Published(x) => {
            lemma_without_id(items, x.id@);
            let w = without_id(items, x.id@);
            w.lemma_filter_prepend(x, id_differs(x.id@));
            lemma_without_absent(w, x.id@);
            assert((seq![x] + w).filter(id_differs(x.id@)) =~= w);
        },
        FeedEvent::Deleted(id) => {
            lemma_without_id(items, id@);
            lemma_without_absent(without_id(items, id@), id@);
        },
        FeedEvent::Other => {},
    }
}

/// Feed events keep entry ids unique.
pub proof fn law_feed_keeps_ids_unique(items: Seq<ClipboardItem>, evs: Seq<FeedEvent>)
    requires
        ids_unique(items),
    ensures
        ids_unique(feed_fold(items, evs)),
    decreases evs.len(),
{
    if evs.len() > 0 {
        law_feed_keeps_ids_unique(items, evs.drop_last());
        let prev = feed_fold(items, evs.drop_last());
        match evs.last() {
            FeedEvent::Published(x) => lemma_put_front(prev, x),
            FeedEvent::Deleted(id) => lemma_without_id(prev, id@),
            FeedEvent::Other => {},
        }
    }
}

/// The capped history holds at most `MAX_ITEMS` entries, keeps the newest
/// ones in order, and keeps ids unique.
pub proof fn law_capped_history(items: Seq<ClipboardItem>)
    ensures
        capped(items).len() <= MAX_ITEMS,
        capped(items).len() == if items.len() > MAX_ITEMS {
            MAX_ITEMS as int
        } else {
            items.len() as int
        },
        forall|k: int| 0 <= k < capped(items).len() ==> #[trigger] capped(items)[k] == items[k],
        ids_unique(items) ==> ids_unique(capped(items)),
{
    if ids_unique(items) && items.len() > MAX_ITEMS {
        lemma_take_unique(items, MAX_ITEMS as int);
    }
}

/// Accepting a capture keeps entry ids unique, puts the accepted entry first,
/// and removes the local stand-in.
pub proof fn law_accept_keeps_ids_unique(st: StateView, local_id: Seq<char>, value: ClipboardItem)
    requires
        ids_unique(st.items),
    ensures
        ids_unique(accepted(st, local_id, value).items),
        accepted(st, local_id, value).items[0] == value,
        value.id@ != local_id ==> !has_id(accepted(st, local_id, value).items, local_id),
{
    lemma_without_id(st.items, local_id);
    let w = without_id(st.items, local_id);
    lemma_put_front(w, value);
    lemma_without_id(w, value.id@);
    let r = put_front(w, value);
    if value.id@ != local_id {
        assert forall|k: int| 0 <= k < r.len() implies (#[trigger] r[k]).id@ != local_id by {
            if k > 0 {
                let ww = without_id(w, value.id@);
                assert(r[k] == ww[k - 1]);
                assert(w.contains(ww[k - 1]));
                let m = choose|m: int| 0 <= m < w.len() && w[m] == ww[k - 1];
            }
        }
    }
}

/// Folding publish outcomes into the state keeps entry ids unique.
pub proof fn law_publish_keeps_ids_unique(
    st: StateView,
    results: Seq<(PendingItem, Result<ClipboardItem, String>)>,
)
    requires
        ids_unique(st.items),
    ensures
        ids_unique(publish_fold(st, results).items),
    decreases results.len(),
{
    if results.len() > 0 {
        law_publish_keeps_ids_unique(st, results.drop_last());
        let prev = publish_fold(st, results.drop_last());
        let (p, r) = results.last();
        match r {
            Ok(v) => law_accept_keeps_ids_unique(prev, p.local_id@, v),
            Err(_) => {},
        }
    }
}

/// A whole sync keeps entry ids unique: the publish outcomes, then the feed
/// events, then the cap.
pub proof fn law_sync_keeps_ids_unique(
    st: StateView,
    results: Seq<(PendingItem, Result<ClipboardItem, String>)>,
    evs: Seq<FeedEvent>,
)
    requires
        ids_unique(st.items),
    ensures
        ids_unique(capped(feed_fold(publish_fold(st, results).items, evs))),
{
    law_publish_keeps_ids_unique(st, results);
    law_feed_keeps_ids_unique(publish_fold(st, results).items, evs);
    law_capped_history(feed_fold(publish_fold(st, results).items, evs));
}

/// Recording a capture keeps entry ids unique: an accepted one replaces any
/// entry with its id, and a local stand-in has a fresh id.
pub proof fn law_capture_keeps_ids_unique(
    items: Seq<ClipboardItem>,
    value: ClipboardItem,
    local: ClipboardItem,
)
    requires
        ids_unique(items),
        !has_id(items, local.id@),
    ensures
        ids_unique(capped(put_front(items, value))),
        ids_unique(capped(seq![local] + items)),
{
    lemma_put_front(items, value);
    law_capped_history(put_front(items, value));
    let s = seq![local] + items;
    assert forall|i: int, j: int| 0 <= i < j < s.len() implies (#[trigger] s[i]).id@ != (
    #[trigger] s[j]).id@ by {
        if i == 0 {
            assert(s[j] == items[j - 1]);
        } else {
            assert(s[i] == items[i - 1] && s[j] == items[j - 1]);
        }
    }
    law_capped_history(s);
}

/// After cleaning, every source that stays belongs to an active entry and
/// its file was still there.
pub proof fn law_kept_sources_are_active(st: StateView, srcs: Seq<LocalSource>, present: Seq<bool>)
    requires
        present.len() == srcs.len(),
    ensures
        forall|k: int|
            0 <= k < kept_sources(st, srcs, present).len() ==> is_active(
                st,
                (#[trigger] kept_sources(st, srcs, present)[k]).item_id@,
            ) && exists|m: int|
                0 <= m < srcs.len() && srcs[m] == kept_sources(st, srcs, present)[k] && present[m],
    decreases srcs.len(),
{
    if srcs.len() > 0 {
        let t = srcs.drop_last();
        let pt = present.drop_last();
        law_kept_sources_are_active(st, t, pt);
        lemma_kept_prefix_any(st, t, present, pt);
        let r = kept_sources(st, srcs, present);
        let rt = kept_sources(st, t, present);
        assert forall|k: int| 0 <= k < r.len() implies is_active(st, (#[trigger] r[k]).item_id@)
            && exists|m: int| 0 <= m < srcs.len() && srcs[m] == r[k] && present[m] by {
            if k < rt.len() {
                assert(r[k] == rt[k]);
                let m = choose|m: int| 0 <= m < t.len() && t[m] == rt[k] && pt[m];
                assert(srcs[m] == t[m]);
                assert(present[m] == pt[m]);
            } else {
                assert(r[k] == srcs.last());
                assert(srcs[srcs.len() - 1] == srcs.last());
                assert(present[srcs.len() - 1]);
            }
        }
    }
}

/// The waiting captures whose publish failed, in their order.
pub open spec fn failed_pending(results: Seq<(PendingItem, Result<ClipboardItem, String>)>) -> Seq<
    PendingItem,
>
    decreases results.len(),
{
    if results.len() == 0 {
        Seq::empty()
    } else {
        let prev = failed_pending(results.drop_last());
        match results.last().1 {
            Ok(_) => prev,
            Err(_) => prev.push(results.last().0),
        }
    }
}

/// The state after a sync without a rejected session: the publish
/// outcomes, the events of every feed page in order with the cursor of the
/// last page, the cap, and then the cleaning of the local sources (`present`
/// says which source files still exist).
pub open spec fn synced(
    st: StateView,
    results: Seq<(PendingItem, Result<ClipboardItem, String>)>,
    evs: Seq<FeedEvent>,
    cursor: i64,
    present: Seq<bool>,
) -> StateView {
    let p = publish_fold(st, results);
    let c = StateView { items: capped(feed_fold(p.items, evs)), cursor: cursor, ..p };
    StateView { sources: kept_sources(c, c.sources, present), ..c }
}

/// The events of feed pages, in order.
pub open spec fn pages_events(pages: Seq<(Vec<FeedEvent>, i64)>) -> Seq<FeedEvent>
    decreases pages.len(),
{
    if pages.len() == 0 {
        Seq::empty()
    } else {
        pages_events(pages.drop_last()) + pages.last().0@
    }
}

/// The cursor after feed pages: that of the last page, else `cursor`.
pub open spec fn last_cursor(cursor: i64, pages: Seq<(Vec<FeedEvent>, i64)>) -> i64 {
    if pages.len() == 0 {
        cursor
    } else {
        pages.last().1
    }
}

proof fn lemma_publish_fold_shape(st: StateView, results: Seq<(PendingItem, Result<ClipboardItem, String>)>)
    ensures
        publish_fold(st, results).pending == failed_pending(results),
        publish_fold(st, results).sources.len() == st.sources.len(),
        publish_fold(st, results).cursor == st.cursor,
    decreases results.len(),
{
    if results.len() > 0 {
        lemma_publish_fold_shape(st, results.drop_last());
    }
}

/// Feed pages compose: applying one page and then the next is applying
/// their events in one run.
pub proof fn law_feed_pages_compose(items: Seq<ClipboardItem>, a: Seq<FeedEvent>, b: Seq<FeedEvent>)
    ensures
        feed_fold(feed_fold(items, a), b) == feed_fold(items, a + b),
    decreases b.len(),
{
    if b.len() == 0 {
        assert(a + b =~= a);
    } else {
        law_feed_pages_compose(items, a, b.drop_last());
        assert((a + b).drop_last() =~= a + b.drop_last());
        assert((a + b).last() == b.last());
    }
}

/// A sync that the server did not reject leaves unique entry ids, at most
/// `MAX_ITEMS` entries, the cursor of the last feed page, exactly the
/// captures whose publish failed (in order) still waiting, and only sources
/// that belong to an entry or waiting capture and whose file still existed.
pub proof fn law_sync_result(
    st: StateView,
    results: Seq<(PendingItem, Result<ClipboardItem, String>)>,
    evs: Seq<FeedEvent>,
    cursor: i64,
    present: Seq<bool>,
)
    requires
        ids_unique(st.items),
        present.len() == st.sources.len(),
    ensures
        ({
            let s = synced(st, results, evs, cursor, present);
            let p = publish_fold(st, results);
            &&& ids_unique(s.items)
            &&& s.items.len() <= MAX_ITEMS
            &&& s.cursor == cursor
            &&& s.pending == failed_pending(results)
            &&& forall|k: int|
                0 <= k < s.sources.len() ==> is_active(s, (#[trigger] s.sources[k]).item_id@)
                    && exists|m: int| 0 <= m < p.sources.len() && p.sources[m] == s.sources[k] && present[m]
        }),
{
    law_sync_keeps_ids_unique(st, results, evs);
    lemma_publish_fold_shape(st, results);
    let p = publish_fold(st, results);
    law_capped_history(feed_fold(p.items, evs));
    let c = StateView { items: capped(feed_fold(p.items, evs)), cursor: cursor, ..p };
    law_kept_sources_are_active(c, c.sources, present);
    let s = synced(st, results, evs, cursor, present);
    assert forall|k: int| 0 <= k < s.sources.len() implies is_active(
        s,
        (#[trigger] s.sources[k]).item_id@,
    ) by {
        assert(s.sources[k] == kept_sources(c, c.sources, present)[k]);
        assert(is_active(c, s.sources[k].item_id@));
    }
}

proof fn lemma_kept_prefix_any(st: StateView, t: Seq<LocalSource>, a: Seq<bool>, b: Seq<bool>)
    requires
        t.len() <= a.len(),
        t.len() <= b.len(),
        forall|k: int| 0 <= k < t.len() ==> a[k] == b[k],
    ensures
        kept_sources(st, t, a) == kept_sources(st, t, b),
    decreases t.len(),
{
    if t.len() > 0 {
        lemma_kept_prefix_any(st, t.drop_last(), a, b);
    }
}

// ---------------------------------------------------------------------------
// Executable operations
// ---------------------------------------------------------------------------

pub fn clone_text(o: &Option<String>) -> (r: Option<String>)
    ensures
        r == *o,
{
    match o {
        Some(s) => Some(s.clone()),
        None => None,
    }
}

fn opt_text_equal(a: &Option<String>, b: &Option<String>) -> (r: bool)
    ensures
        r == opt_text_eq(*a, *b),
{
    match (a, b) {
        (Some(x), Some(y)) => *x == *y,
        (None, None) => true,
        _ => false,
    }
}

/// Removes every entry whose id is `id`, keeping the order of the rest.
pub fn remove_id(items: &mut Vec<ClipboardItem>, id: &String)
    ensures
        final(items)@ == without_id(old(items)@, id@),
{
    let ghost orig = old(items)@;
    let mut i: usize = 0;
    let ghost mut j: int = 0;
    while i < items.len()
        invariant
            0 <= j <= orig.len(),
            i <= items@.len(),
            items@.subrange(0, i as int) == without_id(orig.subrange(0, j), id@),
            items@.subrange(i as int, items@.len() as int) == orig.subrange(j, orig.len() as int),
        decreases items@.len() - i,
    {
        assert(items@.subrange(i as int, items@.len() as int).len() > 0);
        assert(j < orig.len());
        let ghost x = orig[j];
        proof {
            assert(items@.subrange(i as int, items@.len() as int)[0] == x);
            assert(orig.subrange(0, j + 1) =~= orig.subrange(0, j).push(x));
            orig.subrange(0, j).lemma_filter_push(x, id_differs(id@));
        }
        if items[i].id == *id {
            let ghost before = items@;
            items.remove(i);
            assert(items@.subrange(0, i as int) =~= before.subrange(0, i as int));
            assert(items@.subrange(i as int, items@.len() as int) =~= before.subrange(
                i as int + 1,
                before.len() as int,
            ));
            assert(orig.subrange(j + 1, orig.len() as int) =~= orig.subrange(
                j,
                orig.len() as int,
            ).drop_first());
        } else {
            assert(items@.subrange(0, i as int + 1) =~= items@.subrange(0, i as int).push(x));
            assert(items@.subrange(i as int + 1, items@.len() as int) =~= items@.subrange(
                i as int,
                items@.len() as int,
            ).drop_first());
            assert(orig.subrange(j + 1, orig.len() as int) =~= orig.subrange(
                j,
                orig.len() as int,
            ).drop_first());
            i = i + 1;
        }
        proof {
            j = j + 1;
        }
    }
    assert(orig.subrange(j, orig.len() as int).len() == 0);
    assert(j == orig.len());
    assert(orig.subrange(0, j) =~= orig);
    assert(items@.subrange(0, i as int) =~= items@);
}

/// Moves `item` to the front of the history, dropping any entry with its id.
pub fn put_item_front(items: &mut Vec<ClipboardItem>, item: ClipboardItem)
    ensures
        final(items)@ == put_front(old(items)@, item),
{
    remove_id(items, &item.id);
    items.insert(0, item);
    assert(items@ =~= put_front(old(items)@, item));
}

/// Gives the sources of entry `from` to entry `to`.
pub fn rename_sources(sources: &mut Vec<LocalSource>, from: &String, to: &String)
    ensures
        final(sources)@ == renamed_sources(old(sources)@, from@, *to),
{
    let ghost orig = old(sources)@;
    let mut i: usize = 0;
    while i < sources.len()
        invariant
            sources@.len() == orig.len(),
            i <= sources@.len(),
            forall|k: int| 0 <= k < i ==> #[trigger] sources@[k] == renamed_source(orig[k], from@, *to),
            forall|k: int| i <= k < sources@.len() ==> #[trigger] sources@[k] == orig[k],
        decreases sources@.len() - i,
    {
        if sources[i].item_id == *from {
            let mut s = sources.remove(i);
            s.item_id = to.clone();
            sources.insert(i, s);
        }
        i = i + 1;
    }
    assert(sources@ =~= renamed_sources(orig, from@, *to));
}

/// Whether `v` holds an entry with id `id`.
pub fn contains_id(v: &Vec<ClipboardItem>, id: &String) -> (r: bool)
    ensures
        r == has_id(v@, id@),
{
    let mut i: usize = 0;
    while i < v.len()
        invariant
            i <= v@.len(),
            forall|k: int| 0 <= k < i ==> (#[trigger] v@[k]).id@ != id@,
        decreases v@.len() - i,
    {
        if v[i].id == *id {
            return true;
        }
        i = i + 1;
    }
    false
}

/// Index of the first entry with id `id`.
pub fn find_item(v: &Vec<ClipboardItem>, id: &String) -> (r: Option<usize>)
    ensures
        match r {
            Some(i) => i < v@.len() && v@[i as int].id@ == id@ && forall|k: int|
                0 <= k < i ==> (#[trigger] v@[k]).id@ != id@,
            None => !has_id(v@, id@),
        },
{
    let mut i: usize = 0;
    while i < v.len()
        invariant
            i <= v@.len(),
            forall|k: int| 0 <= k < i ==> (#[trigger] v@[k]).id@ != id@,
        decreases v@.len() - i,
    {
        if v[i].id == *id {
            return Some(i);
        }
        i = i + 1;
    }
    None
}

/// Index of the first waiting capture with local id `id`.
pub fn find_pending(v: &Vec<PendingItem>, id: &String) -> (r: Option<usize>)
    ensures
        match r {
            Some(i) => i < v@.len() && v@[i as int].local_id@ == id@ && forall|k: int|
                0 <= k < i ==> (#[trigger] v@[k]).local_id@ != id@,
            None => forall|k: int| 0 <= k < v@.len() ==> (#[trigger] v@[k]).local_id@ != id@,
        },
{
    let mut i: usize = 0;
    while i < v.len()
        invariant
            i <= v@.len(),
            forall|k: int| 0 <= k < i ==> (#[trigger] v@[k]).local_id@ != id@,
        decreases v@.len() - i,
    {
        if v[i].local_id == *id {
            return Some(i);
        }
        i = i + 1;
    }
    None
}

/// Index of the first source of entry `id`.
pub fn find_source(v: &Vec<LocalSource>, id: &String) -> (r: Option<usize>)
    ensures
        match r {
            Some(i) => i < v@.len() && v@[i as int].item_id@ == id@ && forall|k: int|
                0 <= k < i ==> (#[trigger] v@[k]).item_id@ != id@,
            None => forall|k: int| 0 <= k < v@.len() ==> (#[trigger] v@[k]).item_id@ != id@,
        },
{
    let mut i: usize = 0;
    while i < v.len()
        invariant
            i <= v@.len(),
            forall|k: int| 0 <= k < i ==> (#[trigger] v@[k]).item_id@ != id@,
        decreases v@.len() - i,
    {
        if v[i].item_id == *id {
            return Some(i);
        }
        i = i + 1;
    }
    None
}

/// Which kind of feed event a `type` field names.
pub fn feed_event_kind(kind: &str) -> (r: FeedEventKind)
    ensures
        r == if kind@ == "published"@ {
            FeedEventKind::Published
        } else if kind@ == "deleted"@ {
            FeedEventKind::Deleted
        } else {
            FeedEventKind::Other
        },
{
    let published = String::from_str("published");
    let deleted = String::from_str("deleted");
    let k = String::from_str(kind);
    if k == published {
        FeedEventKind::Published
    } else if k == deleted {
        FeedEventKind::Deleted
    } else {
        FeedEventKind::Other
    }
}

fn item_equal(a: &ClipboardItem, b: &ClipboardItem) -> (r: bool)
    ensures
        r == same_item(*a, *b),
{
    a.seq == b.seq && a.id == b.id && a.space_id == b.space_id && a.origin_device_id
        == b.origin_device_id && a.kind == b.kind && a.text == b.text && opt_text_equal(
        &a.filename,
        &b.filename,
    ) && opt_text_equal(&a.mime_type, &b.mime_type) && a.size_bytes == b.size_bytes
        && a.thumbnail_available == b.thumbnail_available && a.created_at == b.created_at
}

fn pending_equal(a: &PendingItem, b: &PendingItem) -> (r: bool)
    ensures
        r == same_pending(*a, *b),
{
    a.client_event_id == b.client_event_id && a.kind == b.kind && a.text == b.text
        && opt_text_equal(&a.filename, &b.filename) && opt_text_equal(&a.mime_type, &b.mime_type)
        && a.size_bytes == b.size_bytes && opt_text_equal(&a.thumbnail_base64, &b.thumbnail_base64)
        && opt_text_equal(&a.thumbnail_mime_type, &b.thumbnail_mime_type) && a.local_id
        == b.local_id && a.created_at == b.created_at
}

fn source_equal(a: &LocalSource, b: &LocalSource) -> (r: bool)
    ensures
        r == same_source(*a, *b),
{
    a.item_id == b.item_id && a.path == b.path && a.size_bytes == b.size_bytes && a.sha256
        == b.sha256 && opt_text_equal(&a.source_identity, &b.source_identity) && a.managed
        == b.managed
}

impl Default for LocalState {
    fn default() -> (r: Self)
        ensures
            r@.cursor == 0,
            r@.items.len() == 0,
            r@.pending.len() == 0,
            r@.sources.len() == 0,
    {
        LocalState { cursor: 0, items: Vec::new(), pending: Vec::new(), sources: Vec::new() }
    }
}

impl LocalState {
    /// Applies one feed event.
    pub fn apply_feed_event(&mut self, ev: FeedEvent)
        ensures
            final(self)@.items == feed_step(old(self)@.items, ev),
            final(self)@.cursor == old(self)@.cursor,
            final(self)@.pending == old(self)@.pending,
            final(self)@.sources == old(self)@.sources,
    {
        match ev {
            FeedEvent::Published(item) => put_item_front(&mut self.items, item),
            FeedEvent::Deleted(id) => remove_id(&mut self.items, &id),
            FeedEvent::Other => {},
        }
    }

    /// Applies a page of feed events in order and moves the cursor past it.
    pub fn apply_feed_page(&mut self, events: Vec<FeedEvent>, next_cursor: i64)
        ensures
            final(self)@.items == feed_fold(old(self)@.items, events@),
            final(self)@.cursor == next_cursor,
            final(self)@.pending == old(self)@.pending,
            final(self)@.sources == old(self)@.sources,
    {
        let ghost evs = events@;
        let mut events = events;
        let mut rest: Vec<FeedEvent> = Vec::new();
        // Events are applied front to back; reverse them so that `pop` yields them in order.
        while events.len() > 0
            invariant
                rest@ + events@.reverse() =~= evs.reverse(),
            decreases events@.len(),
        {
            let e = events.pop().unwrap();
            rest.push(e);
        }
        let ghost start = self@;
        let mut done: usize = 0;
        let total = rest.len();
        while rest.len() > 0
            invariant
                rest@.len() + done == total,
                total == evs.len(),
                rest@ =~= evs.subrange(done as int, total as int).reverse(),
                self@.items == feed_fold(start.items, evs.subrange(0, done as int)),
                self@.cursor == start.cursor,
                self@.pending == start.pending,
                self@.sources == start.sources,
            decreases rest@.len(),
        {
            let e = rest.pop().unwrap();
            proof {
                assert(e == evs[done as int]);
                let p = evs.subrange(0, done as int + 1);
                assert(p.drop_last() =~= evs.subrange(0, done as int));
                assert(p.last() == e);
            }
            self.apply_feed_event(e);
            done = done + 1;
        }
        assert(evs.subrange(0, total as int) =~= evs);
        self.cursor = next_cursor;
    }

    /// The server accepted the capture `local_id` as `value`.
    pub fn accept_published(&mut self, local_id: &String, value: ClipboardItem)
        ensures
            final(self)@ == accepted(old(self)@, local_id@, value),
    {
        remove_id(&mut self.items, local_id);
        let new_id = value.id.clone();
        rename_sources(&mut self.sources, local_id, &new_id);
        put_item_front(&mut self.items, value);
    }

    /// Folds the outcomes of publishing the waiting captures. A rejected
    /// session leaves the state as it was and is reported as such; otherwise
    /// accepted captures join the history, the rest wait again, and the first
    /// failure is returned.
    pub fn apply_publish_results(&mut self, results: Vec<(PendingItem, Result<ClipboardItem, String>)>) -> (r:
        Result<Option<String>, String>)
        ensures
            (exists|k: int| 0 <= k < results@.len() && #[trigger] is_auth_failure(results@[k]))
                ==> (r matches Err(e) && e@ == auth_required_text() && final(self)@ == old(self)@),
            !(exists|k: int| 0 <= k < results@.len() && #[trigger] is_auth_failure(results@[k]))
                ==> (r == Ok::<Option<String>, String>(first_publish_error(results@))
                && final(self)@ == publish_fold(old(self)@, results@)),
    {
        let ghost rs = results@;
        let auth = String::from_str("auth_required");
        let mut i: usize = 0;
        while i < results.len()
            invariant
                i <= rs.len(),
                rs == results@,
                auth@ == auth_required_text(),
                forall|k: int| 0 <= k < i ==> !#[trigger] is_auth_failure(rs[k]),
            decreases rs.len() - i,
        {
            if let Err(e) = &results[i].1 {
                if *e == auth {
                    assert(is_auth_failure(rs[i as int]));
                    return Err(auth);
                }
            }
            i = i + 1;
        }
        let ghost start = self@;
        self.pending = Vec::new();
        let mut results = results;
        let mut rest: Vec<(PendingItem, Result<ClipboardItem, String>)> = Vec::new();
        while results.len() > 0
            invariant
                rest@ + results@.reverse() =~= rs.reverse(),
            decreases results@.len(),
        {
            let e = results.pop().unwrap();
            rest.push(e);
        }
        let total = rest.len();
        let mut done: usize = 0;
        let mut first: Option<String> = None;
        while rest.len() > 0
            invariant
                rest@.len() + done == total,
                total == rs.len(),
                rest@ =~= rs.subrange(done as int, total as int).reverse(),
                self@ == publish_fold(start, rs.subrange(0, done as int)),
                first == first_publish_error(rs.subrange(0, done as int)),
            decreases rest@.len(),
        {
            let (p, outcome) = rest.pop().unwrap();
            proof {
                let q = rs.subrange(0, done as int + 1);
                assert(q.drop_last() =~= rs.subrange(0, done as int));
                assert(q.last() == (p, outcome));
            }
            match outcome {
                Ok(v) => {
                    self.accept_published(&p.local_id, v);
                },
                Err(e) => {
                    if first.is_none() {
                        first = Some(e);
                    }
                    self.pending.push(p);
                },
            }
            done = done + 1;
        }
        assert(rs.subrange(0, total as int) =~= rs);
        Ok(first)
    }

    /// Keeps only the newest `limit` entries.
    pub fn trim_history(&mut self, limit: usize)
        ensures
            final(self)@.items == if old(self)@.items.len() > limit {
                old(self)@.items.take(limit as int)
            } else {
                old(self)@.items
            },
            final(self)@.cursor == old(self)@.cursor,
            final(self)@.pending == old(self)@.pending,
            final(self)@.sources == old(self)@.sources,
    {
        self.items.truncate(limit);
    }

    /// Caps the history at `MAX_ITEMS` entries.
    pub fn cap_history(&mut self)
        ensures
            final(self)@.items == capped(old(self)@.items),
            final(self)@.cursor == old(self)@.cursor,
            final(self)@.pending == old(self)@.pending,
            final(self)@.sources == old(self)@.sources,
    {
        self.trim_history(MAX_ITEMS);
    }

    /// Records a capture after the attempt to publish it. A rejected session
    /// leaves the state as it was and is reported as such. An accepted
    /// capture goes first in the history and its source (if any) follows the
    /// server's id; a capture that the server did not take waits, with a local
    /// stand-in entry first in the history. The history is then capped. The
    /// failure text, if any, is handed back.
    pub fn record_capture(
        &mut self,
        pending: PendingItem,
        source: Option<LocalSource>,
        outcome: Result<ClipboardItem, String>,
        device_id: &String,
    ) -> (r: Result<Option<String>, String>)
        ensures
            (outcome matches Err(e) && e@ == auth_required_text()) ==> (r matches Err(e2) && e2@
                == auth_required_text() && final(self)@ == old(self)@),
            outcome matches Ok(v) ==> (r == Ok::<Option<String>, String>(None)
                && final(self)@.items == capped(put_front(old(self)@.items, v))
                && final(self)@.sources == pushed_source(old(self)@.sources, source, v.id)
                && final(self)@.pending == old(self)@.pending
                && final(self)@.cursor == old(self)@.cursor),
            (outcome matches Err(e) && e@ != auth_required_text()) ==> (r == Ok::<Option<String>, String>(Some(outcome->Err_0))
                && final(self)@.items.len() > 0
                && is_local_entry(final(self)@.items[0], pending, *device_id)
                && final(self)@.items == capped(seq![final(self)@.items[0]] + old(self)@.items)
                && final(self)@.sources == (match source {
                    Some(s) => old(self)@.sources.push(s),
                    None => old(self)@.sources,
                }) && final(self)@.pending == old(self)@.pending.push(pending)
                && final(self)@.cursor == old(self)@.cursor),
    {
        match outcome {
            Ok(value) => {
                match source {
                    Some(s) => {
                        let mut s = s;
                        s.item_id = value.id.clone();
                        self.sources.push(s);
                    },
                    None => {},
                }
                put_item_front(&mut self.items, value);
                self.cap_history();
                Ok(None)
            },
            Err(error) => {
                let auth = String::from_str("auth_required");
                if error == auth {
                    return Err(error);
                }
                let entry = ClipboardItem {
                    seq: 0,
                    id: pending.local_id.clone(),
                    space_id: String::from_str("personal"),
                    origin_device_id: device_id.clone(),
                    kind: pending.kind.clone(),
                    text: pending.text.clone(),
                    filename: clone_text(&pending.filename),
                    mime_type: clone_text(&pending.mime_type),
                    size_bytes: pending.size_bytes,
                    thumbnail_available: pending.thumbnail_base64.is_some(),
                    created_at: pending.created_at.clone(),
                };
                let ghost e = entry;
                self.items.insert(0, entry);
                assert(self@.items =~= seq![e] + old(self)@.items);
                match source {
                    Some(s) => self.sources.push(s),
                    None => {},
                }
                self.pending.push(pending);
                self.cap_history();
                assert(self@.items[0] == e);
                Ok(Some(error))
            },
        }
    }

    /// Whether the two states hold the same values.
    /// The end of a sync: the history is capped, then the sources that no
    /// entry uses (or whose file is gone, `present` being false) are
    /// forgotten; the paths of the client's own files among them are returned
    /// for removal.
    pub fn finish_sync(&mut self, present: &Vec<bool>) -> (r: Vec<String>)
        requires
            present@.len() == old(self)@.sources.len(),
        ensures
            final(self)@.items == capped(old(self)@.items),
            final(self)@.pending == old(self)@.pending,
            final(self)@.cursor == old(self)@.cursor,
            final(self)@.sources == kept_sources(
                (StateView { items: capped(old(self)@.items), ..old(self)@ }),
                old(self)@.sources,
                present@,
            ),
            r@.map_values(|p: String| p@) == dropped_files(
                (StateView { items: capped(old(self)@.items), ..old(self)@ }),
                old(self)@.sources,
                present@,
            ),
    {
        self.cap_history();
        self.clean_local_sources(present)
    }

    /// A whole sync, once its answers are in: the outcome of publishing each
    /// waiting capture, then every feed page in order, then the cap and the
    /// cleaning of local sources (`present` says which source files still
    /// exist). A rejected session changes nothing and is reported; otherwise
    /// the state becomes `synced(..)`, the answer carries the first publish
    /// error, and the paths of the client's own files that are no longer
    /// needed.
    pub fn apply_sync(
        &mut self,
        results: Vec<(PendingItem, Result<ClipboardItem, String>)>,
        pages: Vec<(Vec<FeedEvent>, i64)>,
        present: &Vec<bool>,
    ) -> (r: Result<(Option<String>, Vec<String>), String>)
        requires
            present@.len() == old(self)@.sources.len(),
        ensures
            (exists|k: int| 0 <= k < results@.len() && #[trigger] is_auth_failure(results@[k]))
                ==> (r matches Err(e) && e@ == auth_required_text() && final(self)@ == old(self)@),
            !(exists|k: int| 0 <= k < results@.len() && #[trigger] is_auth_failure(results@[k]))
                ==> (r matches Ok((first, removed)) && first == first_publish_error(results@)
                && final(self)@ == synced(
                old(self)@,
                results@,
                pages_events(pages@),
                last_cursor(old(self)@.cursor, pages@),
                present@,
            ) && removed@.map_values(|p: String| p@) == ({
                let q = publish_fold(old(self)@, results@);
                let c = (StateView {
                    items: capped(feed_fold(q.items, pages_events(pages@))),
                    cursor: last_cursor(old(self)@.cursor, pages@),
                    ..q
                });
                dropped_files(c, c.sources, present@)
            })),
    {
        let ghost start = self@;
        let ghost ps = pages@;
        let ghost rs = results@;
        let first = self.apply_publish_results(results)?;
        proof {
            lemma_publish_fold_shape(start, rs);
        }
        let ghost q = self@;
        let mut pages = pages;
        let mut rest: Vec<(Vec<FeedEvent>, i64)> = Vec::new();
        while pages.len() > 0
            invariant
                rest@ + pages@.reverse() =~= ps.reverse(),
            decreases pages@.len(),
        {
            let page = pages.pop().unwrap();
            rest.push(page);
        }
        let total = rest.len();
        let mut done: usize = 0;
        assert(pages_events(ps.subrange(0, 0)) =~= Seq::<FeedEvent>::empty());
        assert(feed_fold(q.items, Seq::<FeedEvent>::empty()) == q.items);
        while rest.len() > 0
            invariant
                rest@.len() + done == total,
                total == ps.len(),
                rest@ =~= ps.subrange(done as int, total as int).reverse(),
                self@.items == feed_fold(q.items, pages_events(ps.subrange(0, done as int))),
                self@.cursor == last_cursor(q.cursor, ps.subrange(0, done as int)),
                self@.pending == q.pending,
                self@.sources == q.sources,
            decreases rest@.len(),
        {
            let (events, next) = rest.pop().unwrap();
            let ghost before = ps.subrange(0, done as int);
            let ghost evs = events@;
            proof {
                let pre = ps.subrange(0, done as int + 1);
                assert(pre.drop_last() =~= before);
                assert(pre.last() == (events, next));
                law_feed_pages_compose(q.items, pages_events(before), evs);
            }
            self.apply_feed_page(events, next);
            done = done + 1;
        }
        assert(ps.subrange(0, total as int) =~= ps);
        let removed = self.finish_sync(present);
        Ok((first, removed))
    }

    pub fn same_state_as(&self, other: &LocalState) -> (r: bool)
        ensures
            r == same_state(self@, other@),
    {
        if self.cursor != other.cursor || self.items.len() != other.items.len()
            || self.pending.len() != other.pending.len() || self.sources.len()
            != other.sources.len() {
            return false;
        }
        let mut i: usize = 0;
        while i < self.items.len()
            invariant
                i <= self@.items.len(),
                self@.items.len() == other@.items.len(),
                forall|k: int| 0 <= k < i ==> same_item(#[trigger] self@.items[k], other@.items[k]),
            decreases self@.items.len() - i,
        {
            if !item_equal(&self.items[i], &other.items[i]) {
                return false;
            }
            i = i + 1;
        }
        let mut j: usize = 0;
        while j < self.pending.len()
            invariant
                j <= self@.pending.len(),
                self@.pending.len() == other@.pending.len(),
                forall|k: int| 0 <= k < j ==> same_pending(#[trigger] self@.pending[k], other@.pending[k]),
            decreases self@.pending.len() - j,
        {
            if !pending_equal(&self.pending[j], &other.pending[j]) {
                return false;
            }
            j = j + 1;
        }
        let mut k: usize = 0;
        while k < self.sources.len()
            invariant
                k <= self@.sources.len(),
                self@.sources.len() == other@.sources.len(),
                forall|m: int| 0 <= m < k ==> same_source(#[trigger] self@.sources[m], other@.sources[m]),
            decreases self@.sources.len() - k,
        {
            if !source_equal(&self.sources[k], &other.sources[k]) {
                return false;
            }
            k = k + 1;
        }
        true
    }

    /// Whether `id` names an entry or a waiting capture.
    pub fn is_active_id(&self, id: &String) -> (r: bool)
        ensures
            r == is_active(self@, id@),
    {
        if contains_id(&self.items, id) {
            return true;
        }
        find_pending(&self.pending, id).is_some()
    }

    /// Forgets the sources that no active entry uses or whose file is gone
    /// (`present[i]` tells whether the file of source `i` still exists), and
    /// returns the paths of the files that the client itself created and no
    /// longer needs, for removal.
    pub fn clean_local_sources(&mut self, present: &Vec<bool>) -> (r: Vec<String>)
        requires
            present@.len() == old(self)@.sources.len(),
        ensures
            final(self)@.sources == kept_sources(old(self)@, old(self)@.sources, present@),
            r@.map_values(|p: String| p@) == dropped_files(old(self)@, old(self)@.sources, present@),
            final(self)@.items == old(self)@.items,
            final(self)@.pending == old(self)@.pending,
            final(self)@.cursor == old(self)@.cursor,
    {
        let ghost st = self@;
        let ghost orig = st.sources;
        let mut removed: Vec<String> = Vec::new();
        let n0 = self.sources.len();
        let mut i: usize = 0;
        let mut j: usize = 0;
        while i < self.sources.len()
            invariant
                j <= orig.len(),
                n0 == orig.len(),
                i <= self.sources@.len(),
                present@.len() == orig.len(),
                self.items@ == st.items,
                self.pending@ == st.pending,
                self.cursor == st.cursor,
                self.sources@.subrange(0, i as int) == kept_sources(
                    st,
                    orig.subrange(0, j as int),
                    present@,
                ),
                self.sources@.subrange(i as int, self.sources@.len() as int) == orig.subrange(
                    j as int,
                    orig.len() as int,
                ),
                removed@.map_values(|p: String| p@) == dropped_files(
                    st,
                    orig.subrange(0, j as int),
                    present@,
                ),
            decreases self.sources@.len() - i,
        {
            assert(self.sources@.subrange(i as int, self.sources@.len() as int).len() > 0);
            assert(j < orig.len());
            let ghost x = orig[j as int];
            assert(self.sources@.subrange(i as int, self.sources@.len() as int)[0] == x);
            let ghost pre = orig.subrange(0, j as int + 1);
            assert(pre.drop_last() =~= orig.subrange(0, j as int));
            assert(pre.last() == x);
            assert(pre.len() - 1 == j);
            let active = self.is_active_id(&self.sources[i].item_id);
            let keep = active && present[j];
            if keep {
                assert(self.sources@.subrange(0, i as int + 1) =~= self.sources@.subrange(
                    0,
                    i as int,
                ).push(x));
                assert(self.sources@.subrange(i as int + 1, self.sources@.len() as int)
                    =~= self.sources@.subrange(i as int, self.sources@.len() as int).drop_first());
                i = i + 1;
            } else {
                let ghost before = self.sources@;
                let s = self.sources.remove(i);
                if s.managed {
                    let ghost rb = removed@;
                    removed.push(s.path);
                    assert(removed@.map_values(|p: String| p@) =~= rb.map_values(|p: String| p@).push(
                        x.path@,
                    ));
                }
                assert(self.sources@.subrange(0, i as int) =~= before.subrange(0, i as int));
                assert(self.sources@.subrange(i as int, self.sources@.len() as int) =~= before.subrange(
                    i as int + 1,
                    before.len() as int,
                ));
            }
            assert(orig.subrange(j as int + 1, orig.len() as int) =~= orig.subrange(
                j as int,
                orig.len() as int,
            ).drop_first());
            j = j + 1;
        }
        assert(j == orig.len());
        assert(orig.subrange(0, j as int) =~= orig);
        assert(self.sources@.subrange(0, i as int) =~= self.sources@);
        removed
    }
}

} // verus!
