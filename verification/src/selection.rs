//! The single-flight state of "paste the chosen history entry".
//!
//! The history popup can be open or closed; at most one selection runs at a
//! time; closing the popup cancels the selection that is running, and a
//! selection handle from an earlier run never speaks for a later one.

use vstd::prelude::*;
use vstd::string::*;

verus! {

/// The abstract state: the popup's visibility, whether a selection runs,
/// whether it was cancelled, and the number of the latest run.
#[derive(Clone, Copy)]
pub struct SelectionView {
    pub popup_open: bool,
    pub active: bool,
    pub cancelled: bool,
    pub generation: u64,
}

/// The number that the next run takes (wrapping at `u64::MAX`).
pub open spec fn next_generation(g: u64) -> u64 {
    if g == u64::MAX {
        0
    } else {
        (g + 1) as u64
    }
}

pub open spec fn initial_view() -> SelectionView {
    SelectionView { popup_open: false, active: false, cancelled: false, generation: 0 }
}

pub open spec fn opened(s: SelectionView) -> SelectionView {
    SelectionView { popup_open: true, active: s.active, cancelled: s.cancelled, generation: s.generation }
}

/// Closing the popup cancels a running selection.
pub open spec fn closed(s: SelectionView) -> SelectionView {
    SelectionView {
        popup_open: false,
        active: s.active,
        cancelled: s.cancelled || s.active,
        generation: s.generation,
    }
}

/// A selection may start only from an open popup with no selection running.
pub open spec fn can_begin(s: SelectionView) -> bool {
    s.popup_open && !s.active
}

pub open spec fn begun(s: SelectionView) -> SelectionView {
    SelectionView {
        popup_open: s.popup_open,
        active: true,
        cancelled: false,
        generation: next_generation(s.generation),
    }
}

/// The run numbered `g` may go on.
pub open spec fn still_live(s: SelectionView, g: u64) -> bool {
    s.generation == g && !s.cancelled && s.popup_open
}

/// Ending run `g` frees the slot, unless a later run holds it.
pub open spec fn released(s: SelectionView, g: u64) -> SelectionView {
    if s.generation == g {
        SelectionView { popup_open: s.popup_open, active: false, cancelled: false, generation: s.generation }
    } else {
        s
    }
}

pub open spec fn msg_reopen() -> Seq<char> {
    "클립보드 기록을 다시 열고 선택해 주세요."@
}

pub open spec fn msg_busy() -> Seq<char> {
    "이미 항목을 붙여넣는 중입니다."@
}

pub open spec fn msg_cancelled() -> Seq<char> {
    "파일 받기를 취소했습니다."@
}

/// Shared state of the history popup and the selection that pastes from it.
#[derive(Debug)]
pub struct SelectionState {
    popup_open: bool,
    active: bool,
    cancelled: bool,
    generation: u64,
}

/// Handle of one selection run.
#[derive(Debug)]
pub struct SelectionGuard {
    generation: u64,
}

impl View for SelectionState {
    type V = SelectionView;

    closed spec fn view(&self) -> SelectionView {
        SelectionView {
            popup_open: self.popup_open,
            active: self.active,
            cancelled: self.cancelled,
            generation: self.generation,
        }
    }
}

impl SelectionGuard {
    /// The number of the run that this handle belongs to.
    pub closed spec fn run(&self) -> u64 {
        self.generation
    }

    /// `Ok` while this run may go on; an error once it was cancelled, the
    /// popup closed, or a later run started.
    pub fn ensure_not_cancelled(&self, state: &SelectionState) -> (r: Result<(), String>)
        ensures
            r is Ok <==> still_live(state@, self.run()),
            r matches Err(e) ==> e@ == msg_cancelled(),
    {
        if state.generation != self.generation || state.cancelled || !state.popup_open {
            Err(String::from_str("파일 받기를 취소했습니다."))
        } else {
            Ok(())
        }
    }

    /// Ends this run.
    pub fn release(self, state: &mut SelectionState)
        ensures
            final(state)@ == released(old(state)@, self.run()),
    {
        if state.generation == self.generation {
            state.active = false;
            state.cancelled = false;
        }
    }
}

impl Default for SelectionState {
    fn default() -> (r: Self)
        ensures
            r@ == initial_view(),
    {
        SelectionState { popup_open: false, active: false, cancelled: false, generation: 0 }
    }
}

impl SelectionState {
    pub fn open_popup(&mut self)
        ensures
            final(self)@ == opened(old(self)@),
    {
        self.popup_open = true;
    }

    pub fn close_popup(&mut self)
        ensures
            final(self)@ == closed(old(self)@),
    {
        self.popup_open = false;
        if self.active {
            self.cancelled = true;
        }
    }

    /// Starts a selection run.
    pub fn begin(&mut self) -> (r: Result<SelectionGuard, String>)
        ensures
            can_begin(old(self)@) ==> (r matches Ok(g) && g.run() == begun(old(self)@).generation
                && final(self)@ == begun(old(self)@)),
            !can_begin(old(self)@) ==> r is Err && final(self)@ == old(self)@,
            !old(self)@.popup_open ==> (r matches Err(e) && e@ == msg_reopen()),
            old(self)@.popup_open && old(self)@.active ==> (r matches Err(e) && e@ == msg_busy()),
    {
        if !self.popup_open {
            return Err(String::from_str("클립보드 기록을 다시 열고 선택해 주세요."));
        }
        if self.active {
            return Err(String::from_str("이미 항목을 붙여넣는 중입니다."));
        }
        self.active = true;
        self.cancelled = false;
        self.generation = self.generation.wrapping_add(1);
        Ok(SelectionGuard { generation: self.generation })
    }
}

/// While one selection runs, no second one can start.
pub proof fn law_single_flight(s: SelectionView)
    requires
        can_begin(s),
    ensures
        !can_begin(begun(s)),
        still_live(begun(s), begun(s).generation),
{
}

/// Closing the popup cancels the running selection, and opening it again
/// does not revive that run.
pub proof fn law_close_cancels(s: SelectionView)
    requires
        can_begin(s),
    ensures
        !still_live(closed(begun(s)), begun(s).generation),
        !still_live(opened(closed(begun(s))), begun(s).generation),
        !can_begin(opened(closed(begun(s)))),
{
}

/// Once a run is released, a selection can start again from an open popup.
pub proof fn law_release_frees(s: SelectionView)
    requires
        can_begin(s),
    ensures
        can_begin(opened(released(closed(begun(s)), begun(s).generation))),
        can_begin(released(begun(s), begun(s).generation)),
{
}

/// A handle of an earlier run neither goes on in a later run nor ends it.
pub proof fn law_stale_handle(s: SelectionView)
    requires
        can_begin(s),
    ensures
        ({
            let g = begun(s).generation;
            let t = begun(released(begun(s), g));
            &&& !still_live(t, g)
            &&& released(t, g) == t
        }),
{
}

/// A selection needs the popup to be open.
pub proof fn law_needs_open_popup(s: SelectionView)
    ensures
        !can_begin(closed(s)),
        !can_begin(initial_view()),
{
}

/// One call on the selection state: open or close the popup, try to begin
/// a run, or release the handle of run `g`.
pub enum SelectionOp {
    Open,
    Close,
    Begin,
    Release(u64),
}

pub open spec fn apply_op(s: SelectionView, op: SelectionOp) -> SelectionView {
    match op {
        SelectionOp::Open => opened(s),
        SelectionOp::Close => closed(s),
        SelectionOp::Begin => if can_begin(s) {
            begun(s)
        } else {
            s
        },
        SelectionOp::Release(g) => released(s, g),
    }
}

/// The state after the calls `ops`, in order.
pub open spec fn apply_ops(s: SelectionView, ops: Seq<SelectionOp>) -> SelectionView
    decreases ops.len(),
{
    if ops.len() == 0 {
        s
    } else {
        apply_op(apply_ops(s, ops.drop_last()), ops.last())
    }
}

/// Closing the popup: until it is opened again, every attempt to begin
/// fails (whatever else happens); a run that was live at the close stays
/// cancelled for the rest of its life, even after the popup is opened again,
/// and no other run can start meanwhile; with no run going, closing only
/// hides the popup.
pub proof fn law_close_popup(s: SelectionView, ops: Seq<SelectionOp>)
    ensures
        (forall|k: int| 0 <= k < ops.len() ==> !(#[trigger] ops[k] is Open)) ==> (!apply_ops(
            closed(s),
            ops,
        ).popup_open && !can_begin(apply_ops(closed(s), ops))),
        (s.active && forall|k: int|
            0 <= k < ops.len() ==> #[trigger] ops[k] != SelectionOp::Release(s.generation)) ==> {
            &&& !still_live(apply_ops(closed(s), ops), s.generation)
            &&& apply_ops(closed(s), ops).cancelled
            &&& apply_ops(closed(s), ops).active
            &&& apply_ops(closed(s), ops).generation == s.generation
            &&& !can_begin(apply_ops(closed(s), ops))
        },
        !s.active ==> closed(s) == (SelectionView { popup_open: false, ..s }),
    decreases ops.len(),
{
    if ops.len() > 0 {
        let p = ops.drop_last();
        let n = ops.len() - 1;
        assert(ops.last() == ops[n]);
        if forall|k: int| 0 <= k < ops.len() ==> !(#[trigger] ops[k] is Open) {
            assert forall|k: int| 0 <= k < p.len() implies !(#[trigger] p[k] is Open) by {
                assert(p[k] == ops[k]);
            }
        }
        if forall|k: int| 0 <= k < ops.len() ==> #[trigger] ops[k] != SelectionOp::Release(s.generation) {
            assert forall|k: int| 0 <= k < p.len() implies #[trigger] p[k] != SelectionOp::Release(
                s.generation,
            ) by {
                assert(p[k] == ops[k]);
            }
        }
        law_close_popup(s, p);
    }
}

/// Opening the popup: the next attempt to begin succeeds exactly when no run
/// is going (else it is told that one is); opening starts no run, leaves a
/// cancelled run cancelled, and opening twice is opening once.
pub proof fn law_open_popup(s: SelectionView)
    ensures
        opened(opened(s)) == opened(s),
        can_begin(opened(s)) <==> !s.active,
        opened(s).popup_open && opened(s).active == s.active,
        opened(s).cancelled == s.cancelled && opened(s).generation == s.generation,
        forall|g: u64| s.cancelled ==> !still_live(opened(s), g),
{
}

/// `ops` never releases the handle of run `g`.
pub open spec fn keeps_run(ops: Seq<SelectionOp>, g: u64) -> bool {
    forall|k: int| 0 <= k < ops.len() ==> #[trigger] ops[k] != SelectionOp::Release(g)
}

/// A handle that `begin` gave out stays the current run, and keeps the
/// selection busy, until it is released: whatever other calls come, no
/// other run starts and its number stays the state's.
pub proof fn law_live_guard_stays_current(s: SelectionView, ops: Seq<SelectionOp>)
    requires
        can_begin(s),
        keeps_run(ops, begun(s).generation),
    ensures
        apply_ops(begun(s), ops).active,
        apply_ops(begun(s), ops).generation == begun(s).generation,
    decreases ops.len(),
{
    if ops.len() > 0 {
        let p = ops.drop_last();
        assert forall|k: int| 0 <= k < p.len() implies #[trigger] p[k] != SelectionOp::Release(
            begun(s).generation,
        ) by {
            assert(p[k] == ops[k]);
        }
        law_live_guard_stays_current(s, p);
        assert(ops.last() == ops[ops.len() - 1]);
    }
}

/// Closing the popup while a handle from `begin` is alive cancels that
/// handle for the rest of its life: its checks fail after any later calls,
/// the popup opened again included, and no other run can start meanwhile.
pub proof fn law_close_cancels_live_guard(
    s: SelectionView,
    before: Seq<SelectionOp>,
    after: Seq<SelectionOp>,
)
    requires
        can_begin(s),
        keeps_run(before, begun(s).generation),
        keeps_run(after, begun(s).generation),
    ensures
        ({
            let g = begun(s).generation;
            let t = apply_ops(closed(apply_ops(begun(s), before)), after);
            &&& !still_live(t, g)
            &&& !can_begin(t)
            &&& !can_begin(opened(t))
        }),
{
    law_live_guard_stays_current(s, before);
    let u = apply_ops(begun(s), before);
    law_close_popup(u, after);
}

/// Opening the popup while a handle from `begin` is alive starts nothing:
/// the next `begin` is refused as busy, and a cancelled run stays cancelled.
pub proof fn law_open_with_live_guard(s: SelectionView, ops: Seq<SelectionOp>)
    requires
        can_begin(s),
        keeps_run(ops, begun(s).generation),
    ensures
        ({
            let t = apply_ops(begun(s), ops);
            &&& opened(t).popup_open && opened(t).active
            &&& !can_begin(opened(t))
            &&& opened(t).cancelled == t.cancelled
            &&& opened(opened(t)) == opened(t)
        }),
{
    law_live_guard_stays_current(s, ops);
}

} // verus!
