//! The platform-facing decisions of the client: which application gets the
//! paste, when the clipboard counts as changed, and the clipboard block that
//! announces a file to Windows.

use vstd::prelude::*;
use vstd::string::*;
use crate::text::{chars_of, trim, trim_range};

verus! {

broadcast use vstd::string::group_string_axioms;

/// The application that was in front when the history popup opened, and
/// that the chosen entry is pasted into.
#[derive(Clone, Debug, PartialEq)]
pub enum ForegroundTarget {
    /// A Windows window handle.
    Window(isize),
    /// A macOS application, by bundle identifier.
    App(String),
    /// No target: nothing is pasted.
    Nothing,
}

/// A character of a bundle identifier: ASCII letter or digit, `.` or `-`.
pub open spec fn is_bundle_char(c: char) -> bool {
    ('a' <= c && c <= 'z') || ('A' <= c && c <= 'Z') || ('0' <= c && c <= '9') || c == '.' || c
        == '-'
}

/// A bundle identifier is non-empty, shorter than 256 bytes, and made of
/// bundle characters only (all of them ASCII, so characters count bytes).
pub open spec fn bundle_id_ok(t: Seq<char>) -> bool {
    0 < t.len() < 256 && forall|i: int| 0 <= i < t.len() ==> is_bundle_char(#[trigger] t[i])
}

fn bundle_char(c: char) -> (r: bool)
    ensures
        r == is_bundle_char(c),
{
    ('a' <= c && c <= 'z') || ('A' <= c && c <= 'Z') || ('0' <= c && c <= '9') || c == '.' || c
        == '-'
}

/// The target of a paste on macOS, from the frontmost application's bundle
/// identifier as the system printed it (`None` when it could not be asked):
/// the trimmed text when it is a bundle identifier, else no target.
pub fn capture_foreground(frontmost: Option<String>) -> (r: ForegroundTarget)
    ensures
        match frontmost {
            Some(out) => if bundle_id_ok(trim(out@)) {
                r matches ForegroundTarget::App(b) && b@ == trim(out@)
            } else {
                r == ForegroundTarget::Nothing
            },
            None => r == ForegroundTarget::Nothing,
        },
{
    let out = match frontmost {
        Some(o) => o,
        None => {
            return ForegroundTarget::Nothing;
        },
    };
    let v = chars_of(out.as_str());
    let (a, b) = trim_range(&v, 0, v.len());
    assert(v@.subrange(0, v@.len() as int) =~= v@);
    let n = b - a;
    if n == 0 || n >= 256 {
        return ForegroundTarget::Nothing;
    }
    let ghost t0 = trim(out@);
    assert(t0 == v@.subrange(a as int, b as int));
    let mut i = a;
    while i < b
        invariant
            a <= i <= b <= v@.len(),
            t0 == v@.subrange(a as int, b as int),
            frontmost == Some(out),
            t0 == trim(out@),
            forall|k: int| a <= k < i ==> is_bundle_char(#[trigger] v@[k]),
        decreases b - i,
    {
        if !bundle_char(v[i]) {
            assert(t0[i - a] == v@[i as int]);
            assert(!is_bundle_char(t0[i - a]));
            return ForegroundTarget::Nothing;
        }
        i = i + 1;
    }
    let t = String::from_str(out.as_str().substring_char(a, b));
    assert forall|k: int| 0 <= k < t@.len() implies is_bundle_char(#[trigger] t@[k]) by {
        assert(t@[k] == v@[a + k]);
    }
    ForegroundTarget::App(t)
}

/// The clipboard's change counter as the client keeps it: a negative count
/// (or none at all) is no counter.
pub fn clipboard_change_marker(change_count: Option<i64>) -> (r: Option<u64>)
    ensures
        match change_count {
            Some(c) => if c >= 0 {
                r == Some(c as u64)
            } else {
                r is None
            },
            None => r is None,
        },
{
    match change_count {
        Some(c) => if c >= 0 {
            Some(c as u64)
        } else {
            None
        },
        None => None,
    }
}

/// The little-endian bytes of UTF-16 code units.
pub open spec fn le_units(w: Seq<u16>) -> Seq<u8>
    decreases w.len(),
{
    if w.len() == 0 {
        Seq::empty()
    } else {
        le_units(w.drop_last()) + seq![(w.last() & 0xff) as u8, (w.last() >> 8) as u8]
    }
}

/// The `DROPFILES` header of a file list: the list starts at byte 20, the
/// drop point is (0, 0) in screen coordinates, and the names are UTF-16.
pub open spec fn drop_files_header() -> Seq<u8> {
    seq![20u8, 0, 0, 0, 0, 0, 0, 0, 0, 0, 0, 0, 0, 0, 0, 0, 1, 0, 0, 0]
}

/// The `CF_HDROP` clipboard block that names one file: the header, then the
/// path in UTF-16, closed by the two terminating NUL units.
pub open spec fn drop_files_block(path: Seq<u16>) -> Seq<u8> {
    drop_files_header() + le_units(path + seq![0u16, 0u16])
}

/// Builds the clipboard block that puts the file `path` (UTF-16 code
/// units, without a terminator) on the Windows clipboard.
pub fn drop_files_payload(path: &Vec<u16>) -> (r: Vec<u8>)
    requires
        path@.len() + 2 <= usize::MAX / 2,
    ensures
        r@ == drop_files_block(path@),
{
    let mut out: Vec<u8> = vec![20u8, 0, 0, 0, 0, 0, 0, 0, 0, 0, 0, 0, 0, 0, 0, 0, 1, 0, 0, 0];
    assert(out@ =~= drop_files_header() + le_units(Seq::<u16>::empty()));
    let mut units: Vec<u16> = path.clone();
    units.push(0u16);
    units.push(0u16);
    assert(units@ =~= path@ + seq![0u16, 0u16]);
    let mut i: usize = 0;
    while i < units.len()
        invariant
            i <= units@.len(),
            units@ == path@ + seq![0u16, 0u16],
            out@ == drop_files_header() + le_units(units@.subrange(0, i as int)),
        decreases units@.len() - i,
    {
        let w = units[i];
        out.push((w & 0xff) as u8);
        out.push((w >> 8) as u8);
        proof {
            let p = units@.subrange(0, i as int + 1);
            assert(p.drop_last() =~= units@.subrange(0, i as int));
            assert(p.last() == w);
            assert(out@ =~= drop_files_header() + le_units(p));
        }
        i = i + 1;
    }
    assert(units@.subrange(0, units@.len() as int) =~= units@);
    out
}

} // verus!
