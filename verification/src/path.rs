//! File names and extensions of path text, the way the operating system
//! splits a path: `/` separates components everywhere, `\` too on Windows.
//! Drive and UNC prefixes get no special treatment; they only matter for a
//! path that has nothing but a prefix, which never names a copied file.

use vstd::prelude::*;
use vstd::string::*;
use crate::text::chars_of;

verus! {

broadcast use vstd::string::group_string_axioms;

/// `c` separates path components.
pub open spec fn is_path_separator(c: char, windows: bool) -> bool {
    c == '/' || (windows && c == '\\')
}

/// What follows the last separator of `p`.
pub open spec fn last_component(p: Seq<char>, windows: bool) -> Seq<char>
    decreases p.len(),
{
    if p.len() == 0 {
        p
    } else if is_path_separator(p.last(), windows) {
        Seq::empty()
    } else {
        last_component(p.drop_last(), windows).push(p.last())
    }
}

/// The file name of path text: its last component once trailing separators
/// and `.` components are dropped; none for an empty path, a root, a lone
/// `.` or a path that ends in `..`.
pub open spec fn file_name_of(p: Seq<char>, windows: bool) -> Option<Seq<char>>
    decreases p.len(),
{
    if p.len() == 0 {
        None
    } else if is_path_separator(p.last(), windows) {
        file_name_of(p.drop_last(), windows)
    } else {
        let c = last_component(p, windows);
        if c == seq!['.'] {
            if c.len() == p.len() {
                None
            } else {
                file_name_of(p.drop_last(), windows)
            }
        } else if c == seq!['.', '.'] {
            None
        } else {
            Some(c)
        }
    }
}

/// What follows the last `.` of a file name.
pub open spec fn after_last_dot(n: Seq<char>) -> Seq<char>
    decreases n.len(),
{
    if n.len() == 0 {
        n
    } else if n.last() == '.' {
        Seq::empty()
    } else {
        after_last_dot(n.drop_last()).push(n.last())
    }
}

/// The extension of a file name: what follows its last `.`, when that dot
/// has something before it.
pub open spec fn extension_of(n: Seq<char>) -> Option<Seq<char>> {
    let a = after_last_dot(n);
    if a.len() + 1 >= n.len() {
        None
    } else {
        Some(a)
    }
}

/// The extension of the file that path text names, if any.
pub open spec fn path_extension_spec(p: Seq<char>, windows: bool) -> Option<Seq<char>> {
    match file_name_of(p, windows) {
        Some(n) => extension_of(n),
        None => None,
    }
}

proof fn lemma_component_suffix(p: Seq<char>, j: int, windows: bool)
    requires
        0 <= j <= p.len(),
        forall|k: int| j <= k < p.len() ==> !is_path_separator(#[trigger] p[k], windows),
        j == 0 || is_path_separator(p[j - 1], windows),
    ensures
        last_component(p, windows) == p.subrange(j, p.len() as int),
    decreases p.len(),
{
    if p.len() == j {
        if j > 0 {
            assert(p.last() == p[j - 1]);
        }
    } else {
        let t = p.drop_last();
        lemma_component_suffix(t, j, windows);
        assert(t.subrange(j, t.len() as int).push(p.last()) =~= p.subrange(j, p.len() as int));
    }
}

proof fn lemma_dot_suffix(n: Seq<char>, j: int)
    requires
        0 <= j <= n.len(),
        forall|k: int| j <= k < n.len() ==> #[trigger] n[k] != '.',
        j == 0 || n[j - 1] == '.',
    ensures
        after_last_dot(n) == n.subrange(j, n.len() as int),
    decreases n.len(),
{
    if n.len() == j {
        if j > 0 {
            assert(n.last() == n[j - 1]);
        }
    } else {
        let t = n.drop_last();
        lemma_dot_suffix(t, j);
        assert(t.subrange(j, t.len() as int).push(n.last()) =~= n.subrange(j, n.len() as int));
    }
}

fn separator(c: char, windows: bool) -> (r: bool)
    ensures
        r == is_path_separator(c, windows),
{
    c == '/' || (windows && c == '\\')
}

/// The extension of the file that `path` names (`Path::extension`).
pub fn path_extension(path: &str, windows: bool) -> (r: Option<String>)
    ensures
        match path_extension_spec(path@, windows) {
            Some(e) => r matches Some(s) && s@ == e,
            None => r is None,
        },
{
    let v = chars_of(path);
    let mut end = v.len();
    let mut start: usize = 0;
    assert(v@.subrange(0, end as int) =~= v@);
    loop
        invariant
            end <= v@.len(),
            v@ == path@,
            file_name_of(v@, windows) == file_name_of(v@.subrange(0, end as int), windows),
        ensures
            file_name_of(v@, windows) == (if start < end { Some(v@.subrange(start as int, end as int)) } else { None::<Seq<char>> }),
            start <= end <= v@.len(),
        decreases end,
    {
        let ghost p = v@.subrange(0, end as int);
        if end == 0 {
            start = 0;
            break;
        }
        if separator(v[end - 1], windows) {
            assert(p.drop_last() =~= v@.subrange(0, end - 1));
            end = end - 1;
        } else {
            let mut j = end;
            while j > 0 && !separator(v[j - 1], windows)
                invariant
                    j <= end <= v@.len(),
                    forall|k: int| j <= k < end ==> !is_path_separator(#[trigger] v@[k], windows),
                decreases j,
            {
                j = j - 1;
            }
            proof {
                assert forall|k: int| j <= k < p.len() implies !is_path_separator(#[trigger] p[k], windows) by {
                    assert(p[k] == v@[k]);
                }
                if j > 0 {
                    assert(p[j - 1] == v@[j - 1]);
                }
                lemma_component_suffix(p, j as int, windows);
                assert(p.subrange(j as int, p.len() as int) =~= v@.subrange(j as int, end as int));
            }
            let n = end - j;
            if n == 1 && v[j] == '.' {
                assert(v@.subrange(j as int, end as int) =~= seq!['.']);
                if j == 0 {
                    start = end;
                    break;
                }
                assert(p.drop_last() =~= v@.subrange(0, end - 1));
                end = end - 1;
            } else if n == 2 && v[j] == '.' && v[j + 1] == '.' {
                assert(v@.subrange(j as int, end as int) =~= seq!['.', '.']);
                start = end;
                break;
            } else {
                assert(v@.subrange(j as int, end as int) != seq!['.']) by {
                    if n == 1 {
                        assert(v@.subrange(j as int, end as int)[0] == v@[j as int]);
                    }
                }
                assert(v@.subrange(j as int, end as int) != seq!['.', '.']) by {
                    if n == 2 {
                        assert(v@.subrange(j as int, end as int)[0] == v@[j as int]);
                        assert(v@.subrange(j as int, end as int)[1] == v@[j + 1]);
                    }
                }
                start = j;
                break;
            }
        }
    }
    if start >= end {
        return None;
    }
    let ghost name = v@.subrange(start as int, end as int);
    let mut d = end;
    while d > start && v[d - 1] != '.'
        invariant
            start <= d <= end <= v@.len(),
            forall|k: int| d <= k < end ==> #[trigger] v@[k] != '.',
        decreases d,
    {
        d = d - 1;
    }
    proof {
        let j = d - start;
        assert forall|k: int| j <= k < name.len() implies #[trigger] name[k] != '.' by {
            assert(name[k] == v@[start + k]);
        }
        if j > 0 {
            assert(name[j - 1] == v@[d - 1]);
        }
        lemma_dot_suffix(name, j);
        assert(name.subrange(j, name.len() as int) =~= v@.subrange(d as int, end as int));
    }
    if d <= start + 1 {
        return None;
    }
    Some(String::from_str(path.substring_char(d, end)))
}

} // verus!
