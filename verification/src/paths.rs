//! Unix path operations on path strings: final component, extension and join,
//! as `std::path::Path` defines them.
use vstd::prelude::*;
use crate::text::{chars_of, string_from, append_chars};

verus! {

/// Index of the last `c` in `s`, or -1.
pub open spec fn last_index_of(s: Seq<char>, c: char) -> int
    decreases s.len(),
{
    if s.len() == 0 {
        -1
    } else if s.last() == c {
        s.len() - 1
    } else {
        last_index_of(s.drop_last(), c)
    }
}

pub proof fn lemma_last_index_of(s: Seq<char>, c: char)
    ensures
        -1 <= last_index_of(s, c) < s.len(),
        last_index_of(s, c) >= 0 ==> s[last_index_of(s, c)] == c,
        forall|m: int| last_index_of(s, c) < m < s.len() ==> s[m] != c,
    decreases s.len(),
{
    if s.len() > 0 && s.last() != c {
        lemma_last_index_of(s.drop_last(), c);
        assert forall|m: int| last_index_of(s, c) < m < s.len() implies s[m] != c by {
            if m < s.len() - 1 {
                assert(s.drop_last()[m] == s[m]);
            }
        }
    }
}

/// `Path::file_name`: the last component of the path, when it is a normal
/// component (not the root, `.` or `..`); empty components and `.`
/// components are skipped.
pub open spec fn file_name_of(p: Seq<char>) -> Option<Seq<char>>
    decreases p.len(),
{
    let k = last_index_of(p, '/');
    proof {
        lemma_last_index_of(p, '/');
    }
    let seg = p.subrange(k + 1, p.len() as int);
    if seg.len() == 0 || seg == seq!['.'] {
        if k >= 0 {
            file_name_of(p.subrange(0, k))
        } else {
            None
        }
    } else if seg == seq!['.', '.'] {
        None
    } else {
        Some(seg)
    }
}

/// `Path::extension`: what follows the last `.` of the file name, unless the
/// name has no `.` or its only `.` is its first character.
pub open spec fn extension_of(p: Seq<char>) -> Option<Seq<char>> {
    match file_name_of(p) {
        None => None,
        Some(name) => {
            let k = last_index_of(name, '.');
            if k <= 0 {
                None
            } else {
                Some(name.subrange(k + 1, name.len() as int))
            }
        },
    }
}

/// `Path::join` on Unix: an absolute `p` replaces `base`; otherwise `p` is
/// appended, with a `/` between when `base` is non-empty and does not end
/// with one.
pub open spec fn join_path(base: Seq<char>, p: Seq<char>) -> Seq<char> {
    if p.len() > 0 && p[0] == '/' {
        p
    } else if base.len() > 0 && base.last() != '/' {
        base + seq!['/'] + p
    } else {
        base + p
    }
}

/// Position of the last `c` in `s[..end]`.
pub fn rfind_char(s: &Vec<char>, c: char, end: usize) -> (r: Option<usize>)
    requires
        end <= s.len(),
    ensures
        match r {
            Some(k) => k < end && k as int == last_index_of(s@.subrange(0, end as int), c),
            None => last_index_of(s@.subrange(0, end as int), c) == -1,
        },
{
    let mut j: usize = end;
    while j > 0 && s[j - 1] != c
        invariant
            j <= end <= s.len(),
            last_index_of(s@.subrange(0, end as int), c) == last_index_of(
                s@.subrange(0, j as int),
                c,
            ),
        decreases j,
    {
        assert(s@.subrange(0, j as int).drop_last() =~= s@.subrange(0, j - 1));
        j = j - 1;
    }
    if j == 0 {
        assert(s@.subrange(0, 0).len() == 0);
        None
    } else {
        Some(j - 1)
    }
}

/// Character bounds of the file name of `p` within `p`.
pub fn file_name_bounds(p: &Vec<char>) -> (r: Option<(usize, usize)>)
    ensures
        match r {
            Some((a, b)) => a <= b <= p.len() && file_name_of(p@) == Some(
                p@.subrange(a as int, b as int),
            ),
            None => file_name_of(p@) is None,
        },
{
    let mut end: usize = p.len();
    assert(p@.subrange(0, end as int) =~= p@);
    loop
        invariant
            end <= p.len(),
            file_name_of(p@) == file_name_of(p@.subrange(0, end as int)),
        decreases end,
    {
        let ghost q = p@.subrange(0, end as int);
        let k = rfind_char(p, '/', end);
        proof {
            lemma_last_index_of(q, '/');
        }
        let start: usize = match k {
            Some(k) => k + 1,
            None => 0,
        };
        let ghost seg = q.subrange(start as int, end as int);
        assert(seg =~= p@.subrange(start as int, end as int));
        let len = end - start;
        if len == 0 || (len == 1 && p[start] == '.') {
            assert(len == 1 ==> seg =~= seq!['.']);
            match k {
                Some(k) => {
                    assert(q.subrange(0, k as int) =~= p@.subrange(0, k as int));
                    end = k;
                },
                None => {
                    return None;
                },
            }
        } else if len == 2 && p[start] == '.' && p[start + 1] == '.' {
            assert(seg =~= seq!['.', '.']);
            return None;
        } else {
            assert(seg.len() > 0 ==> seg[0] == p@[start as int]);
            assert(seg.len() > 1 ==> seg[1] == p@[start + 1]);
            assert(len == 1 ==> seg != seq!['.']);
            assert(len == 2 ==> seg != seq!['.', '.']);
            return Some((start, end));
        }
    }
}

/// `Path::file_name` followed by `to_str`.
pub fn file_name(path: &str) -> (r: Option<String>)
    ensures
        match r {
            Some(n) => file_name_of(path@) == Some(n@),
            None => file_name_of(path@) is None,
        },
{
    let p = chars_of(path);
    match file_name_bounds(&p) {
        Some((a, b)) => {
            let v = crate::text::sub_vec(&p, a, b);
            Some(string_from(v.as_slice()))
        },
        None => None,
    }
}

/// `Path::extension` followed by `to_str`.
pub fn extension(path: &str) -> (r: Option<String>)
    ensures
        match r {
            Some(e) => extension_of(path@) == Some(e@),
            None => extension_of(path@) is None,
        },
{
    match file_name(path) {
        None => None,
        Some(name) => {
            let n = chars_of(name.as_str());
            let k = rfind_char(&n, '.', n.len());
            assert(n@.subrange(0, n.len() as int) =~= n@);
            match k {
                Some(k) => {
                    if k == 0 {
                        None
                    } else {
                        let v = crate::text::sub_vec(&n, k + 1, n.len());
                        Some(string_from(v.as_slice()))
                    }
                },
                None => None,
            }
        },
    }
}

/// `Path::join` of two path strings.
pub fn join(base: &str, p: &str) -> (r: String)
    ensures
        r@ == join_path(base@, p@),
{
    let b = chars_of(base);
    let q = chars_of(p);
    let mut out: Vec<char> = Vec::new();
    if q.len() > 0 && q[0] == '/' {
        append_chars(&mut out, &q);
    } else {
        append_chars(&mut out, &b);
        if b.len() > 0 && b[b.len() - 1] != '/' {
            out.push('/');
        }
        append_chars(&mut out, &q);
    }
    assert(out@ =~= join_path(base@, p@));
    string_from(out.as_slice())
}


/// Whether `std::path::Path` orders path `a` before path `b` (component-wise order).
pub uninterp spec fn path_lt(a: Seq<char>, b: Seq<char>) -> bool;

/// Whether `std::path::Path` considers the paths equal (same components).
pub uninterp spec fn path_eq(a: Seq<char>, b: Seq<char>) -> bool;

/// `Path::new(a) < Path::new(b)`. `Path`'s order is a total order (`Ord`),
/// so `a < b` excludes `b < a`, and is transitive: whatever comes before `a`
/// comes before `b`, and whatever comes after `b` comes after `a`; and any
/// path comes after `a` or before `b` (it cannot lie between them without
/// being comparable to both).
#[verifier::external_body]
pub(crate) fn path_precedes(a: &str, b: &str) -> (r: bool)
    ensures
        r == path_lt(a@, b@),
        r ==> !path_lt(b@, a@),
        r ==> forall|c: Seq<char>| #[trigger] path_lt(c, a@) ==> path_lt(c, b@),
        r ==> forall|c: Seq<char>| #[trigger] path_lt(b@, c) ==> path_lt(a@, c),
        r ==> forall|c: Seq<char>|
            #![trigger path_lt(a@, c)]
            #![trigger path_lt(c, b@)]
            path_lt(a@, c) || path_lt(c, b@),
{
    std::path::Path::new(a) < std::path::Path::new(b)
}

/// `Path::new(a) == Path::new(b)`; equal strings are equal paths.
#[verifier::external_body]
pub(crate) fn same_path(a: &str, b: &str) -> (r: bool)
    ensures
        r == path_eq(a@, b@),
        a@ == b@ ==> r,
{
    std::path::Path::new(a) == std::path::Path::new(b)
}

} // verus!
