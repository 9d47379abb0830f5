//! Paths as text: separators, the final component, the extension and
//! joining, for Unix-style paths and for Windows-style paths.
use vstd::prelude::*;
use crate::text::{push_char, push_chars, slice_chars};

verus! {

/// `c` separates path components (`/`, and on Windows also `\`).
pub open spec fn is_sep(c: char, windows: bool) -> bool {
    c == '/' || (windows && c == '\\')
}

/// The position of the last separator in `s`, or -1.
pub open spec fn last_sep(s: Seq<char>, windows: bool) -> int
    decreases s.len(),
{
    if s.len() == 0 {
        -1
    } else if is_sep(s.last(), windows) {
        s.len() - 1
    } else {
        last_sep(s.drop_last(), windows)
    }
}

/// The final normal component of a path (`Path::file_name`): trailing
/// separators and `.` components are skipped; a final `..`, a bare root or
/// an empty path has none.
pub open spec fn file_name(s: Seq<char>, windows: bool) -> Option<Seq<char>>
    decreases s.len(),
{
    if s.len() == 0 {
        None
    } else if is_sep(s.last(), windows) {
        file_name(s.drop_last(), windows)
    } else {
        let k = last_sep(s, windows);
        proof {
            lemma_last_sep(s, windows);
        }
        let seg = s.subrange(k + 1, s.len() as int);
        if seg == seq!['.'] {
            if k < 0 {
                None
            } else {
                file_name(s.subrange(0, k), windows)
            }
        } else if seg == seq!['.', '.'] {
            None
        } else {
            Some(seg)
        }
    }
}

/// The position of the last `.` in `s`, or -1.
pub open spec fn last_dot(s: Seq<char>) -> int
    decreases s.len(),
{
    if s.len() == 0 {
        -1
    } else if s.last() == '.' {
        s.len() - 1
    } else {
        last_dot(s.drop_last())
    }
}

/// The extension of a file name (`Path::extension`): what follows the last
/// `.`, where that dot is not the name's first character.
pub open spec fn name_extension(name: Seq<char>) -> Option<Seq<char>> {
    let k = last_dot(name);
    if k > 0 {
        Some(name.subrange(k + 1, name.len() as int))
    } else {
        None
    }
}

/// The extension of a path's final component.
pub open spec fn extension(s: Seq<char>, windows: bool) -> Option<Seq<char>> {
    match file_name(s, windows) {
        Some(n) => name_extension(n),
        None => None,
    }
}

/// `base` joined with the relative path `name` (`Path::join`): a separator is
/// inserted unless `base` is empty or already ends with one.
pub open spec fn join(base: Seq<char>, name: Seq<char>, windows: bool) -> Seq<char> {
    if base.len() == 0 || is_sep(base.last(), windows) {
        base + name
    } else {
        base.push(if windows { '\\' } else { '/' }) + name
    }
}

pub proof fn lemma_last_sep(s: Seq<char>, windows: bool)
    ensures
        -1 <= last_sep(s, windows) < s.len(),
        last_sep(s, windows) >= 0 ==> is_sep(s[last_sep(s, windows)], windows),
        forall|j: int| last_sep(s, windows) < j < s.len() ==> !is_sep(#[trigger] s[j], windows),
    decreases s.len(),
{
    if s.len() > 0 && !is_sep(s.last(), windows) {
        lemma_last_sep(s.drop_last(), windows);
        assert forall|j: int| last_sep(s, windows) < j < s.len() implies !is_sep(#[trigger] s[j], windows) by {
            if j < s.len() - 1 {
                assert(s[j] == s.drop_last()[j]);
            }
        }
    }
}

pub proof fn lemma_last_dot(s: Seq<char>)
    ensures
        -1 <= last_dot(s) < s.len(),
        last_dot(s) >= 0 ==> s[last_dot(s)] == '.',
        forall|j: int| last_dot(s) < j < s.len() ==> #[trigger] s[j] != '.',
    decreases s.len(),
{
    if s.len() > 0 && s.last() != '.' {
        lemma_last_dot(s.drop_last());
        assert forall|j: int| last_dot(s) < j < s.len() implies #[trigger] s[j] != '.' by {
            if j < s.len() - 1 {
                assert(s[j] == s.drop_last()[j]);
            }
        }
    }
}

/// The position of the last separator in `s`, if any.
pub fn find_last_sep(s: &[char], windows: bool) -> (res: Option<usize>)
    ensures
        match res {
            Some(k) => k as int == last_sep(s@, windows),
            None => last_sep(s@, windows) == -1,
        },
{
    let mut i = s.len();
    proof {
        assert(s@.subrange(0, i as int) =~= s@);
    }
    while i > 0
        invariant
            i <= s.len(),
            last_sep(s@, windows) == last_sep(s@.subrange(0, i as int), windows),
        decreases i,
    {
        let c = s[i - 1];
        proof {
            assert(s@.subrange(0, i as int).drop_last() =~= s@.subrange(0, i - 1));
        }
        if c == '/' || (windows && c == '\\') {
            return Some(i - 1);
        }
        i = i - 1;
    }
    None
}

/// The position of the last `.` in `s`, if any.
pub fn find_last_dot(s: &[char]) -> (res: Option<usize>)
    ensures
        match res {
            Some(k) => k as int == last_dot(s@),
            None => last_dot(s@) == -1,
        },
{
    let mut i = s.len();
    proof {
        assert(s@.subrange(0, i as int) =~= s@);
    }
    while i > 0
        invariant
            i <= s.len(),
            last_dot(s@) == last_dot(s@.subrange(0, i as int)),
        decreases i,
    {
        proof {
            assert(s@.subrange(0, i as int).drop_last() =~= s@.subrange(0, i - 1));
        }
        if s[i - 1] == '.' {
            return Some(i - 1);
        }
        i = i - 1;
    }
    None
}

/// The final normal component of a path.
pub fn file_name_of(s: &[char], windows: bool) -> (res: Option<Vec<char>>)
    ensures
        match res {
            Some(v) => file_name(s@, windows) == Some(v@),
            None => file_name(s@, windows) is None,
        },
{
    let mut end = s.len();
    proof {
        assert(s@.subrange(0, end as int) =~= s@);
    }
    loop
        invariant
            end <= s.len(),
            file_name(s@, windows) == file_name(s@.subrange(0, end as int), windows),
        decreases end,
    {
        let ghost cur = s@.subrange(0, end as int);
        if end == 0 {
            return None;
        }
        let c = s[end - 1];
        proof {
            assert(cur.drop_last() =~= s@.subrange(0, end - 1));
        }
        if c == '/' || (windows && c == '\\') {
            end = end - 1;
        } else {
            let head = slice_chars(s, 0, end);
            assert(head@ == cur);
            let k = find_last_sep(head.as_slice(), windows);
            proof {
                lemma_last_sep(cur, windows);
            }
            let start: usize = match k {
                Some(k) => k + 1,
                None => 0,
            };
            let seg = slice_chars(s, start, end);
            proof {
                assert(seg@ =~= cur.subrange(last_sep(cur, windows) + 1, cur.len() as int));
            }
            if seg.len() == 1 && seg[0] == '.' {
                proof {
                    assert(seg@ =~= seq!['.']);
                }
                match k {
                    None => {
                        return None;
                    },
                    Some(k) => {
                        proof {
                            assert(cur.subrange(0, k as int) =~= s@.subrange(0, k as int));
                        }
                        end = k;
                    },
                }
            } else if seg.len() == 2 && seg[0] == '.' && seg[1] == '.' {
                proof {
                    assert(seg@ =~= seq!['.', '.']);
                }
                return None;
            } else {
                proof {
                    assert(seg@ != seq!['.']);
                    assert(seg@ != seq!['.', '.']);
                }
                return Some(seg);
            }
        }
    }
}

/// The extension of a file name.
pub fn name_extension_of(name: &[char]) -> (res: Option<Vec<char>>)
    ensures
        match res {
            Some(v) => name_extension(name@) == Some(v@),
            None => name_extension(name@) is None,
        },
{
    proof {
        lemma_last_dot(name@);
    }
    match find_last_dot(name) {
        Some(k) => {
            let n = name.len();
            if k > 0 {
                assert(k < n);
                Some(slice_chars(name, k + 1, n))
            } else {
                None
            }
        },
        None => None,
    }
}

/// The extension of a path's final component.
pub fn extension_of(s: &[char], windows: bool) -> (res: Option<Vec<char>>)
    ensures
        match res {
            Some(v) => extension(s@, windows) == Some(v@),
            None => extension(s@, windows) is None,
        },
{
    match file_name_of(s, windows) {
        Some(n) => name_extension_of(n.as_slice()),
        None => None,
    }
}

/// `base` joined with the relative path `name`.
pub fn join_path(base: &str, name: &str, windows: bool) -> (res: String)
    ensures
        res@ == join(base@, name@, windows),
{
    let b = crate::text::chars_of(base);
    let mut r = crate::text::owned(base);
    if b.len() > 0 {
        let c = b[b.len() - 1];
        if !(c == '/' || (windows && c == '\\')) {
            push_char(&mut r, if windows { '\\' } else { '/' });
        }
    }
    let n = crate::text::chars_of(name);
    push_chars(&mut r, n.as_slice());
    r
}

} // verus!
