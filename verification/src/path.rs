//! File paths as text: the final component and its extension, as the
//! standard library's `Path` reads them on Unix.

use vstd::prelude::*;
use crate::text::{chars_of, last_index_of, lemma_last_index_of, string_from_chars};

verus! {

/// The final component of a path: the last `/`-separated segment that is
/// neither empty nor `.`; none when that segment is `..` or there is none.
/// This is `Path::file_name` (which drops empty and `.` components).
pub open spec fn path_file_name(path: Seq<char>) -> Option<Seq<char>>
    decreases path.len(),
{
    match last_index_of(path, '/') {
        None => if path.len() == 0 || path == seq!['.'] || path == seq!['.', '.'] {
            None
        } else {
            Some(path)
        },
        Some(i) => {
            proof {
                lemma_last_index_of(path, '/');
            }
            let seg = path.skip(i + 1);
            if seg.len() == 0 || seg == seq!['.'] {
                path_file_name(path.take(i))
            } else if seg == seq!['.', '.'] {
                None
            } else {
                Some(seg)
            }
        },
    }
}

/// The extension of a file name: what follows its last dot, unless that
/// dot is its first character (a hidden file) or there is none. This is
/// `Path::extension` applied to a final component.
pub open spec fn name_extension(name: Seq<char>) -> Option<Seq<char>> {
    match last_index_of(name, '.') {
        Some(i) => if i > 0 {
            Some(name.skip(i + 1))
        } else {
            None
        },
        None => None,
    }
}

/// The extension of a path's final component (`Path::extension`).
pub open spec fn path_extension(path: Seq<char>) -> Option<Seq<char>> {
    match path_file_name(path) {
        Some(name) => name_extension(name),
        None => None,
    }
}

/// The range of the final component among the first `end` characters.
fn name_range(cs: &Vec<char>, end: usize) -> (r: Option<(usize, usize)>)
    requires
        end <= cs@.len(),
    ensures
        match path_file_name(cs@.take(end as int)) {
            None => r is None,
            Some(seg) => r matches Some(ab) && ab.0 <= ab.1 <= end && cs@.subrange(
                ab.0 as int,
                ab.1 as int,
            ) == seg,
        },
    decreases end,
{
    let mut k: usize = end;
    while k > 0 && cs[k - 1] != '/'
        invariant
            k <= end <= cs@.len(),
            last_index_of(cs@.take(end as int), '/') == last_index_of(cs@.take(k as int), '/'),
        decreases k,
    {
        assert(cs@.take(k as int).drop_last() =~= cs@.take(k - 1));
        k = k - 1;
    }
    let ghost path = cs@.take(end as int);
    let len = end - k;
    let is_empty = len == 0;
    let is_dot = len == 1 && cs[k] == '.';
    let is_dotdot = len == 2 && cs[k] == '.' && cs[k + 1] == '.';
    let ghost seg = cs@.subrange(k as int, end as int);
    assert(is_dot == (seg == seq!['.'])) by {
        assert(seg.len() == len);
        if seg == seq!['.'] {
            assert(seg[0] == '.');
        }
        if len == 1 {
            assert(seg.len() == 1 && seg[0] == cs@[k as int]);
            if cs@[k as int] == '.' {
                assert(seg =~= seq!['.']);
            }
        }
    }
    assert(is_dotdot == (seg == seq!['.', '.'])) by {
        assert(seg.len() == len);
        if seg == seq!['.', '.'] {
            assert(seg[0] == '.' && seg[1] == '.');
        }
        if len == 2 {
            assert(seg[0] == cs@[k as int] && seg[1] == cs@[k + 1]);
            if cs@[k as int] == '.' && cs@[k + 1] == '.' {
                assert(seg =~= seq!['.', '.']);
            }
        }
    }
    if k == 0 {
        assert(last_index_of(cs@.take(0), '/') is None);
        assert(seg =~= path);
        if is_empty || is_dot || is_dotdot {
            None
        } else {
            Some((0, end))
        }
    } else {
        assert(cs@.take(k as int).last() == '/');
        assert(last_index_of(path, '/') == Some(k - 1));
        assert(path.skip(k as int) =~= seg);
        assert(path.take(k - 1) =~= cs@.take(k - 1));
        if is_empty || is_dot {
            name_range(cs, k - 1)
        } else if is_dotdot {
            None
        } else {
            Some((k, end))
        }
    }
}

fn slice_chars(cs: &Vec<char>, a: usize, b: usize) -> (r: Vec<char>)
    requires
        a <= b <= cs@.len(),
    ensures
        r@ == cs@.subrange(a as int, b as int),
{
    let mut r: Vec<char> = Vec::new();
    let mut i: usize = a;
    while i < b
        invariant
            a <= i <= b <= cs@.len(),
            r@ == cs@.subrange(a as int, i as int),
        decreases b - i,
    {
        r.push(cs[i]);
        i = i + 1;
        assert(r@ =~= cs@.subrange(a as int, i as int));
    }
    r
}

/// The final component of a path (empty when there is none).
pub fn file_name_of(path: &str) -> (r: String)
    ensures
        r@ == match path_file_name(path@) {
            Some(n) => n,
            None => Seq::<char>::empty(),
        },
{
    let cs = chars_of(path);
    assert(cs@.take(cs@.len() as int) =~= path@);
    match name_range(&cs, cs.len()) {
        Some((a, b)) => string_from_chars(slice_chars(&cs, a, b).as_slice()),
        None => String::new(),
    }
}

/// The position of the last occurrence of `c` in `cs`.
fn last_char_index(cs: &Vec<char>, c: char) -> (r: Option<usize>)
    ensures
        r matches Some(i) ==> last_index_of(cs@, c) == Some(i as int) && i < cs@.len(),
        r is None ==> last_index_of(cs@, c) is None,
{
    let n = cs.len();
    let mut k: usize = n;
    assert(cs@.take(n as int) =~= cs@);
    while k > 0 && cs[k - 1] != c
        invariant
            k <= n == cs@.len(),
            last_index_of(cs@, c) == last_index_of(cs@.take(k as int), c),
        decreases k,
    {
        assert(cs@.take(k as int).drop_last() =~= cs@.take(k - 1));
        k = k - 1;
    }
    if k == 0 {
        assert(last_index_of(cs@.take(0), c) is None);
        None
    } else {
        assert(cs@.take(k as int).last() == c);
        Some(k - 1)
    }
}

/// The extension of a path's final component, if it has one.
pub fn extension_of(path: &str) -> (r: Option<String>)
    ensures
        r matches Some(e) ==> path_extension(path@) == Some(e@),
        r is None ==> path_extension(path@) is None,
{
    let cs = chars_of(path);
    assert(cs@.take(cs@.len() as int) =~= path@);
    let (a, b) = match name_range(&cs, cs.len()) {
        None => return None,
        Some(ab) => ab,
    };
    let name = slice_chars(&cs, a, b);
    match last_char_index(&name, '.') {
        Some(i) => if i > 0 {
            let ext = slice_chars(&name, i + 1, name.len());
            assert(ext@ =~= name@.skip(i + 1));
            Some(string_from_chars(ext.as_slice()))
        } else {
            None
        },
        None => None,
    }
}

} // verus!
