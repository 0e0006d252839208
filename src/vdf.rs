//! The Steam library manifest (`libraryfolders.vdf`): finding the library
//! roots it lists, and the game directory under each root.

use vstd::prelude::*;
use crate::text::{
    collapse_escapes, collapse_double_backslashes, lower_of, lowercase, starts_with_seq,
    starts_with_str,
};

verus! {

/// The lines of a text, as `str::lines` splits them.
pub uninterp spec fn lines_of(s: Seq<char>) -> Seq<Seq<char>>;

/// A string without its leading and trailing whitespace, as `str::trim` gives it.
pub uninterp spec fn trim_of(s: Seq<char>) -> Seq<char>;

pub open spec fn string_views(v: Seq<String>) -> Seq<Seq<char>> {
    v.map_values(|s: String| s@)
}

/// Relies on `str::lines`: the lines of `s`, each without its line ending.
#[verifier::external_body]
fn split_lines(s: &str) -> (r: Vec<String>)
    ensures
        string_views(r@) == lines_of(s@),
{
    s.lines().map(|l| l.to_string()).collect()
}

/// Relies on `str::trim`: `s` without leading and trailing whitespace.
#[verifier::external_body]
fn trim(s: &str) -> (r: String)
    ensures
        r@ == trim_of(s@),
{
    s.trim().to_string()
}

/// The positions of the double-quote characters in `s`, in increasing order.
pub open spec fn quote_positions(s: Seq<char>) -> Seq<int>
    decreases s.len(),
{
    if s.len() == 0 {
        Seq::empty()
    } else {
        let q = quote_positions(s.drop_last());
        if s.last() == '"' {
            q.push(s.len() - 1)
        } else {
            q
        }
    }
}

/// The value of a `"key"  "value"` line: the text between the last two
/// quotes, where the line holds at least two quoted tokens and that text is
/// not empty.
pub open spec fn vdf_value(line: Seq<char>) -> Option<Seq<char>> {
    let q = quote_positions(line);
    if q.len() >= 4 && q[q.len() - 2] + 1 < q[q.len() - 1] {
        Some(line.subrange(q[q.len() - 2] + 1, q[q.len() - 1]))
    } else {
        None
    }
}

/// The value of a manifest line: the text between its last two quote
/// characters, where it holds at least two quoted tokens and that text is not
/// empty.
pub fn extract_vdf_value(line: &str) -> (r: Option<String>)
    ensures
        r.is_some() == vdf_value(line@).is_some(),
        r.is_some() ==> r.unwrap()@ == vdf_value(line@).unwrap(),
{
    let n = line.unicode_len();
    let mut count: usize = 0;
    let mut last: usize = 0;
    let mut prev: usize = 0;
    let mut i: usize = 0;
    while i < n
        invariant
            n == line@.len(),
            i <= n,
            count == quote_positions(line@.subrange(0, i as int)).len(),
            count >= 1 ==> last == quote_positions(line@.subrange(0, i as int))[count - 1],
            count >= 2 ==> prev == quote_positions(line@.subrange(0, i as int))[count - 2],
            count <= i,
            count >= 1 ==> last < i,
            count >= 2 ==> prev < last,
        decreases n - i,
    {
        assert(line@.subrange(0, i + 1).drop_last() =~= line@.subrange(0, i as int));
        if line.get_char(i) == '"' {
            prev = last;
            last = i;
            count = count + 1;
        }
        i = i + 1;
    }
    assert(line@.subrange(0, n as int) =~= line@);
    if count >= 4 && prev + 1 < last {
        Some(String::from_str(line.substring_char(prev + 1, last)))
    } else {
        None
    }
}

/// The double-quoted key that marks a library root line.
pub open spec fn path_token() -> Seq<char> {
    seq!['"', 'p', 'a', 't', 'h', '"']
}

/// The library root that one manifest line declares, if any.
pub open spec fn line_root(line: Seq<char>) -> Option<Seq<char>> {
    let t = trim_of(line);
    if starts_with_seq(t, path_token()) && vdf_value(t).is_some() {
        Some(collapse_escapes(vdf_value(t).unwrap()))
    } else {
        None
    }
}

/// Some root of `roots` equals `r` once both are lower-cased.
pub open spec fn known_root(roots: Seq<Seq<char>>, r: Seq<char>) -> bool {
    exists|k: int| 0 <= k < roots.len() && lower_of(roots[k]) == lower_of(r)
}

/// The roots after reading `lines` in order, starting from `init`: each new
/// root is added unless it is already known, ignoring case.
pub open spec fn roots_after(init: Seq<Seq<char>>, lines: Seq<Seq<char>>) -> Seq<Seq<char>>
    decreases lines.len(),
{
    if lines.len() == 0 {
        init
    } else {
        let before = roots_after(init, lines.drop_last());
        match line_root(lines.last()) {
            Some(r) => if known_root(before, r) {
                before
            } else {
                before.push(r)
            },
            None => before,
        }
    }
}

/// All library roots: the primary one, then those the manifest adds.
pub open spec fn library_roots_spec(primary: Seq<char>, manifest: Option<Seq<char>>) -> Seq<
    Seq<char>,
> {
    match manifest {
        Some(m) => roots_after(seq![primary], lines_of(m)),
        None => seq![primary],
    }
}

/// The library root declared by one manifest line, if it declares one.
pub fn parse_root_line(line: &str) -> (r: Option<String>)
    ensures
        r.is_some() == line_root(line@).is_some(),
        r.is_some() ==> r.unwrap()@ == line_root(line@).unwrap(),
{
    let t = trim(line);
    let key = "\"path\"";
    proof {
        reveal_strlit("\"path\"");
        assert(key@ =~= path_token());
    }
    if !starts_with_str(t.as_str(), key) {
        return None;
    }
    match extract_vdf_value(t.as_str()) {
        Some(v) => Some(collapse_double_backslashes(v.as_str())),
        None => None,
    }
}

/// The library roots: `primary` first, then each root that the manifest text
/// lists and that is not already known (compared without regard to case).
pub fn library_roots(primary: &str, manifest: Option<&str>) -> (r: Vec<String>)
    ensures
        string_views(r@) == library_roots_spec(primary@, match manifest {
            Some(m) => Some(m@),
            None => None,
        }),
{
    let mut roots: Vec<String> = Vec::new();
    let mut lowered: Vec<String> = Vec::new();
    roots.push(String::from_str(primary));
    lowered.push(lowercase(primary));
    assert(string_views(roots@) =~= seq![primary@]);
    let content = match manifest {
        Some(m) => m,
        None => {
            return roots;
        },
    };
    let lines = split_lines(content);
    let ghost all = lines_of(content@);
    let mut i: usize = 0;
    while i < lines.len()
        invariant
            string_views(lines@) == all,
            i <= lines.len(),
            roots@.len() == lowered@.len(),
            string_views(roots@) == roots_after(seq![primary@], all.subrange(0, i as int)),
            forall|k: int| 0 <= k < roots@.len() ==> lowered@[k]@ == lower_of(#[trigger] roots@[k]@),
        decreases lines.len() - i,
    {
        let ghost before = string_views(roots@);
        assert(all.subrange(0, i + 1).drop_last() =~= all.subrange(0, i as int));
        assert(all[i as int] == lines@[i as int]@);
        if let Some(root) = parse_root_line(lines[i].as_str()) {
            let low = lowercase(root.as_str());
            let mut found = false;
            let mut k: usize = 0;
            while k < lowered.len()
                invariant
                    k <= lowered@.len(),
                    roots@.len() == lowered@.len(),
                    before == string_views(roots@),
                    low@ == lower_of(root@),
                    forall|j: int| 0 <= j < roots@.len() ==> lowered@[j]@ == lower_of(#[trigger] roots@[j]@),
                    found <==> exists|j: int| 0 <= j < k && lowered@[j]@ == low@,
                decreases lowered@.len() - k,
            {
                if lowered[k] == low {
                    found = true;
                }
                k = k + 1;
            }
            assert(found <==> known_root(before, root@)) by {
                if found {
                    let j = choose|j: int| 0 <= j < k && lowered@[j]@ == low@;
                    assert(lower_of(before[j]) == lower_of(root@));
                }
                if known_root(before, root@) {
                    let j = choose|j: int| 0 <= j < before.len() && lower_of(before[j]) == lower_of(root@);
                    assert(lowered@[j]@ == low@);
                }
            }
            if !found {
                roots.push(root);
                lowered.push(low);
                assert(string_views(roots@) =~= before.push(root@));
            }
        }
        i = i + 1;
    }
    assert(all.subrange(0, i as int) =~= all);
    roots
}

} // verus!
