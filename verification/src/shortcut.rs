//! The global shortcut that opens the clipboard history.

use vstd::prelude::*;
use vstd::string::*;
use vstd::utf8::encode_utf8;
use crate::text::{
    utf8_len_capped, chars_of, eq_ignore_ascii_case, has_control, range_eq_ignore_ascii_case, range_has_control,
    trim, trim_range,
};

verus! {

broadcast use vstd::string::group_string_axioms;

/// The pieces of `s` between `+` signs, as `str::split('+')` yields them.
pub open spec fn split_plus(s: Seq<char>) -> Seq<Seq<char>>
    decreases s.len(),
{
    if s.len() == 0 {
        seq![Seq::empty()]
    } else {
        let init = split_plus(s.drop_last());
        if s.last() == '+' {
            init.push(Seq::empty())
        } else {
            init.update(init.len() - 1, init.last().push(s.last()))
        }
    }
}

/// The modifier key names that a shortcut may combine.
pub open spec fn modifier_names() -> Seq<Seq<char>> {
    seq![
        "Ctrl"@,
        "Control"@,
        "Shift"@,
        "Alt"@,
        "Option"@,
        "Cmd"@,
        "Command"@,
        "Super"@,
        "Meta"@,
    ]
}

/// `p` names a modifier key, in any ASCII case.
pub open spec fn is_modifier(p: Seq<char>) -> bool {
    exists|k: int| 0 <= k < modifier_names().len() && eq_ignore_ascii_case(p, #[trigger] modifier_names()[k])
}

/// The trimmed pieces of a trimmed shortcut text.
pub open spec fn shortcut_parts(t: Seq<char>) -> Seq<Seq<char>> {
    Seq::new(split_plus(t).len(), |i: int| trim(split_plus(t)[i]))
}

pub open spec fn msg_shortcut_text() -> Seq<char> {
    "단축키를 확인해 주세요."@
}

pub open spec fn msg_shortcut_parts() -> Seq<char> {
    "보조 키와 일반 키를 함께 입력해 주세요."@
}

pub open spec fn msg_shortcut_keys() -> Seq<char> {
    "지원하는 단축키 조합을 입력해 주세요."@
}

/// The verdict on a shortcut text: it must be non-empty, at most 80 bytes
/// and free of control characters once trimmed; it must have at least two
/// non-empty `+`-separated keys; every key but the last must be a modifier
/// and the last must not be one.
pub open spec fn shortcut_verdict(v: Seq<char>) -> Result<(), Seq<char>> {
    let t = trim(v);
    let parts = shortcut_parts(t);
    if t.len() == 0 || encode_utf8(t).len() > 80 || has_control(t) {
        Err(msg_shortcut_text())
    } else if parts.len() < 2 || exists|i: int| 0 <= i < parts.len() && (#[trigger] parts[i]).len() == 0 {
        Err(msg_shortcut_parts())
    } else if !(forall|i: int| 0 <= i < parts.len() - 1 ==> is_modifier(#[trigger] parts[i]))
        || is_modifier(parts.last()) {
        Err(msg_shortcut_keys())
    } else {
        Ok(())
    }
}

proof fn lemma_split_nonempty(s: Seq<char>)
    ensures
        split_plus(s).len() >= 1,
    decreases s.len(),
{
    if s.len() > 0 {
        lemma_split_nonempty(s.drop_last());
    }
}

pub open spec fn bounds_view(v: Seq<char>, b: Seq<(usize, usize)>) -> Seq<Seq<char>> {
    Seq::new(b.len(), |k: int| v.subrange(b[k].0 as int, b[k].1 as int))
}

/// Bounds of the `+`-separated pieces of `v[lo..hi]`.
fn split_bounds(v: &Vec<char>, lo: usize, hi: usize) -> (r: Vec<(usize, usize)>)
    requires
        lo <= hi <= v@.len(),
    ensures
        bounds_view(v@, r@) == split_plus(v@.subrange(lo as int, hi as int)),
        forall|k: int| 0 <= k < r@.len() ==> lo <= (#[trigger] r@[k]).0 <= r@[k].1 <= hi,
{
    let mut done: Vec<(usize, usize)> = Vec::new();
    let mut cur = lo;
    let mut i = lo;
    assert(v@.subrange(lo as int, lo as int) =~= Seq::<char>::empty());
    assert(bounds_view(v@, done@) =~= Seq::<Seq<char>>::empty());
    while i < hi
        invariant
            lo <= cur <= i <= hi <= v@.len(),
            split_plus(v@.subrange(lo as int, i as int)) == bounds_view(v@, done@).push(
                v@.subrange(cur as int, i as int),
            ),
            forall|k: int| 0 <= k < done@.len() ==> lo <= (#[trigger] done@[k]).0 <= done@[k].1 <= i,
        decreases hi - i,
    {
        let c = v[i];
        let ghost pre = v@.subrange(lo as int, i as int + 1);
        assert(pre.drop_last() =~= v@.subrange(lo as int, i as int));
        assert(pre.last() == c);
        let ghost old_done = done@;
        if c == '+' {
            done.push((cur, i));
            assert(bounds_view(v@, done@) =~= bounds_view(v@, old_done).push(
                v@.subrange(cur as int, i as int),
            ));
            cur = i + 1;
            assert(v@.subrange(cur as int, i as int + 1) =~= Seq::<char>::empty());
        } else {
            assert(v@.subrange(cur as int, i as int + 1) =~= v@.subrange(cur as int, i as int).push(
                c,
            ));
            assert(bounds_view(v@, done@).push(v@.subrange(cur as int, i as int)).update(
                bounds_view(v@, done@).len() as int,
                v@.subrange(cur as int, i as int + 1),
            ) =~= bounds_view(v@, done@).push(v@.subrange(cur as int, i as int + 1)));
        }
        i = i + 1;
    }
    let ghost before = done@;
    done.push((cur, hi));
    assert(bounds_view(v@, done@) =~= bounds_view(v@, before).push(
        v@.subrange(cur as int, hi as int),
    ));
    done
}

fn modifier_words() -> (r: Vec<Vec<char>>)
    ensures
        r@.len() == modifier_names().len(),
        forall|k: int| 0 <= k < r@.len() ==> (#[trigger] r@[k])@ == modifier_names()[k],
{
    let mut w: Vec<Vec<char>> = Vec::new();
    w.push(chars_of("Ctrl"));
    w.push(chars_of("Control"));
    w.push(chars_of("Shift"));
    w.push(chars_of("Alt"));
    w.push(chars_of("Option"));
    w.push(chars_of("Cmd"));
    w.push(chars_of("Command"));
    w.push(chars_of("Super"));
    w.push(chars_of("Meta"));
    w
}

fn range_is_modifier(v: &Vec<char>, lo: usize, hi: usize, words: &Vec<Vec<char>>) -> (r: bool)
    requires
        lo <= hi <= v@.len(),
        words@.len() == modifier_names().len(),
        forall|k: int| 0 <= k < words@.len() ==> (#[trigger] words@[k])@ == modifier_names()[k],
    ensures
        r == is_modifier(v@.subrange(lo as int, hi as int)),
{
    let mut k: usize = 0;
    while k < words.len()
        invariant
            lo <= hi <= v@.len(),
            k <= words@.len(),
            words@.len() == modifier_names().len(),
            forall|j: int| 0 <= j < words@.len() ==> (#[trigger] words@[j])@ == modifier_names()[j],
            forall|j: int|
                0 <= j < k ==> !eq_ignore_ascii_case(
                    v@.subrange(lo as int, hi as int),
                    #[trigger] modifier_names()[j],
                ),
        decreases words@.len() - k,
    {
        if range_eq_ignore_ascii_case(v, lo, hi, &words[k]) {
            assert(eq_ignore_ascii_case(v@.subrange(lo as int, hi as int), modifier_names()[k as int]));
            return true;
        }
        k = k + 1;
    }
    false
}

/// Checks a shortcut text such as `Ctrl+Shift+V`.
#[verifier::loop_isolation(false)]
pub fn validate_shortcut(value: &str) -> (r: Result<(), String>)
    ensures
        match shortcut_verdict(value@) {
            Ok(()) => r is Ok,
            Err(m) => r matches Err(e) && e@ == m,
        },
{
    let v = chars_of(value);
    let (a, b) = trim_range(&v, 0, v.len());
    assert(v@.subrange(0, v@.len() as int) =~= v@);
    let ghost t = trim(value@);
    if a == b || utf8_len_capped(&v, a, b, 81) > 80 || range_has_control(&v, a, b) {
        return Err(String::from_str("단축키를 확인해 주세요."));
    }
    assert(t == v@.subrange(a as int, b as int));
    assert(t.len() != 0);
    assert(encode_utf8(t).len() <= 80);
    assert(!has_control(t));
    let pieces = split_bounds(&v, a, b);
    let ghost raw = split_plus(v@.subrange(a as int, b as int));
    let mut parts: Vec<(usize, usize)> = Vec::new();
    let mut i: usize = 0;
    while i < pieces.len()
        invariant
            i <= pieces@.len(),
            bounds_view(v@, pieces@) == raw,
            a <= b <= v@.len(),
            forall|k: int| 0 <= k < pieces@.len() ==> a <= (#[trigger] pieces@[k]).0 <= pieces@[k].1 <= b,
            parts@.len() == i,
            forall|k: int| 0 <= k < i ==> (#[trigger] parts@[k]).0 <= parts@[k].1 <= v@.len(),
            forall|k: int| 0 <= k < i ==> #[trigger] bounds_view(v@, parts@)[k] == trim(raw[k]),
        decreases pieces@.len() - i,
    {
        let (lo, hi) = pieces[i];
        assert(bounds_view(v@, pieces@)[i as int] == v@.subrange(lo as int, hi as int));
        let (p, q) = trim_range(&v, lo, hi);
        let ghost old_parts = parts@;
        parts.push((p, q));
        assert forall|k: int| 0 <= k < i + 1 implies #[trigger] bounds_view(v@, parts@)[k] == trim(
            raw[k],
        ) by {
            if k < i {
                assert(bounds_view(v@, parts@)[k] == bounds_view(v@, old_parts)[k]);
            }
        }
        i = i + 1;
    }
    let ghost tp = shortcut_parts(t);
    assert(bounds_view(v@, parts@) =~= tp);
    if parts.len() < 2 {
        return Err(String::from_str("보조 키와 일반 키를 함께 입력해 주세요."));
    }
    let mut j: usize = 0;
    while j < parts.len()
        invariant
            j <= parts@.len(),
            bounds_view(v@, parts@) == tp,
            forall|k: int| 0 <= k < parts@.len() ==> (#[trigger] parts@[k]).0 <= parts@[k].1 <= v@.len(),
            forall|k: int| 0 <= k < j ==> (#[trigger] tp[k]).len() != 0,
        decreases parts@.len() - j,
    {
        let (p, q) = parts[j];
        assert(tp[j as int] == v@.subrange(p as int, q as int));
        if p == q {
            assert(tp[j as int].len() == 0);
            return Err(String::from_str("보조 키와 일반 키를 함께 입력해 주세요."));
        }
        j = j + 1;
    }
    let words = modifier_words();
    let n = parts.len();
    let mut k: usize = 0;
    while k + 1 < n
        invariant
            n == parts@.len(),
            n >= 2,
            k + 1 <= n,
            bounds_view(v@, parts@) == tp,
            forall|m: int| 0 <= m < parts@.len() ==> (#[trigger] parts@[m]).0 <= parts@[m].1 <= v@.len(),
            words@.len() == modifier_names().len(),
            forall|m: int| 0 <= m < words@.len() ==> (#[trigger] words@[m])@ == modifier_names()[m],
            forall|m: int| 0 <= m < k ==> is_modifier(#[trigger] tp[m]),
        decreases n - k,
    {
        let (p, q) = parts[k];
        assert(tp[k as int] == v@.subrange(p as int, q as int));
        if !range_is_modifier(&v, p, q, &words) {
            assert(!is_modifier(tp[k as int]));
            return Err(String::from_str("지원하는 단축키 조합을 입력해 주세요."));
        }
        k = k + 1;
    }
    let (p, q) = parts[n - 1];
    assert(tp[n - 1] == v@.subrange(p as int, q as int));
    assert(tp.last() == tp[n - 1]);
    if range_is_modifier(&v, p, q, &words) {
        return Err(String::from_str("지원하는 단축키 조합을 입력해 주세요."));
    }
    Ok(())
}

} // verus!
