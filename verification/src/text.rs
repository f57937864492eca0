//! Character-level string utilities with exact specifications.
use vstd::prelude::*;

verus! {

/// The characters of `s`, in order.
pub(crate) fn chars_of(s: &str) -> (v: Vec<char>)
    ensures
        v@ == s@,
{
    broadcast use vstd::string::axiom_spec_iter;

    let mut v: Vec<char> = Vec::new();
    for c in it: s.chars()
        invariant
            v@ == it.seq().take(it.index() as int),
    {
        v.push(c);
    }
    v
}

/// Builds a `String` from a slice of characters (`collect` into `String`).
#[verifier::external_body]
pub(crate) fn string_from(chars: &[char]) -> (s: String)
    ensures
        s@ == chars@,
{
    chars.iter().collect()
}

/// Unicode `White_Space` property, as used by `char::is_whitespace`.
pub open spec fn is_ws(c: char) -> bool {
    ||| ('\u{9}' <= c && c <= '\u{d}')
    ||| c == ' '
    ||| c == '\u{85}'
    ||| c == '\u{a0}'
    ||| c == '\u{1680}'
    ||| ('\u{2000}' <= c && c <= '\u{200a}')
    ||| c == '\u{2028}'
    ||| c == '\u{2029}'
    ||| c == '\u{202f}'
    ||| c == '\u{205f}'
    ||| c == '\u{3000}'
}

pub fn is_whitespace(c: char) -> (r: bool)
    ensures
        r == is_ws(c),
{
    ('\u{9}' <= c && c <= '\u{d}') || c == ' ' || c == '\u{85}' || c == '\u{a0}' || c == '\u{1680}'
        || ('\u{2000}' <= c && c <= '\u{200a}') || c == '\u{2028}' || c == '\u{2029}' || c
        == '\u{202f}' || c == '\u{205f}' || c == '\u{3000}'
}


/// Character classes stripped by the trimming functions.
#[derive(Clone, Copy, Debug, PartialEq, Eq)]
pub enum CharClass {
    /// `char::is_whitespace`.
    Whitespace,
    /// The separators `-`, `.`, `_` and space stripped from parsed names.
    NameSeparator,
    /// The digit `0`.
    Zero,
}

pub open spec fn in_class(k: CharClass, c: char) -> bool {
    match k {
        CharClass::Whitespace => is_ws(c),
        CharClass::NameSeparator => c == '-' || c == '.' || c == '_' || c == ' ',
        CharClass::Zero => c == '0',
    }
}

pub fn class_contains(k: CharClass, c: char) -> (r: bool)
    ensures
        r == in_class(k, c),
{
    match k {
        CharClass::Whitespace => is_whitespace(c),
        CharClass::NameSeparator => c == '-' || c == '.' || c == '_' || c == ' ',
        CharClass::Zero => c == '0',
    }
}

/// `s` without its leading characters of class `k`.
pub open spec fn trim_start(s: Seq<char>, k: CharClass) -> Seq<char>
    decreases s.len(),
{
    if s.len() > 0 && in_class(k, s[0]) {
        trim_start(s.drop_first(), k)
    } else {
        s
    }
}

/// `s` without its trailing characters of class `k`.
pub open spec fn trim_end(s: Seq<char>, k: CharClass) -> Seq<char>
    decreases s.len(),
{
    if s.len() > 0 && in_class(k, s.last()) {
        trim_end(s.drop_last(), k)
    } else {
        s
    }
}

/// `s` without leading and trailing characters of class `k` (`str::trim_matches`).
pub open spec fn trim(s: Seq<char>, k: CharClass) -> Seq<char> {
    trim_end(trim_start(s, k), k)
}

/// Copies `s[from..to]` into a new vector.
pub fn sub_vec(s: &Vec<char>, from: usize, to: usize) -> (r: Vec<char>)
    requires
        from <= to <= s.len(),
    ensures
        r@ == s@.subrange(from as int, to as int),
{
    let mut r: Vec<char> = Vec::new();
    let mut i: usize = from;
    while i < to
        invariant
            from <= i <= to <= s.len(),
            r@ == s@.subrange(from as int, i as int),
        decreases to - i,
    {
        r.push(s[i]);
        i = i + 1;
        assert(r@ =~= s@.subrange(from as int, i as int));
    }
    r
}

/// Bounds of the part of `s` left after trimming characters of class `k`.
pub fn trim_bounds(s: &Vec<char>, k: CharClass) -> (r: (usize, usize))
    ensures
        r.0 <= r.1 <= s.len(),
        s@.subrange(r.0 as int, r.1 as int) == trim(s@, k),
{
    let len = s.len();
    let mut i: usize = 0;
    assert(s@.subrange(0, len as int) =~= s@);
    while i < len && class_contains(k, s[i])
        invariant
            i <= len == s.len(),
            trim_start(s@, k) == trim_start(s@.subrange(i as int, len as int), k),
        decreases len - i,
    {
        assert(s@.subrange(i as int, len as int).drop_first() =~= s@.subrange(i + 1, len as int));
        i = i + 1;
    }
    assert(trim_start(s@, k) == s@.subrange(i as int, len as int));
    let mut j: usize = len;
    while j > i && class_contains(k, s[j - 1])
        invariant
            i <= j <= len == s.len(),
            trim(s@, k) == trim_end(s@.subrange(i as int, j as int), k),
        decreases j - i,
    {
        assert(s@.subrange(i as int, j as int).drop_last() =~= s@.subrange(i as int, j - 1));
        j = j - 1;
    }
    (i, j)
}

/// `str::trim_matches` over a class of characters.
pub fn trim_chars(s: &Vec<char>, k: CharClass) -> (r: Vec<char>)
    ensures
        r@ == trim(s@, k),
{
    let (a, b) = trim_bounds(s, k);
    sub_vec(s, a, b)
}

/// `str::trim`.
pub fn trim_string(s: &str) -> (r: String)
    ensures
        r@ == trim(s@, CharClass::Whitespace),
{
    let v = chars_of(s);
    let t = trim_chars(&v, CharClass::Whitespace);
    string_from(t.as_slice())
}


/// Whether `pat` occurs in `s` at position `i`.
pub open spec fn occurs_at(s: Seq<char>, pat: Seq<char>, i: int) -> bool {
    0 <= i && i + pat.len() <= s.len() && s.subrange(i, i + pat.len()) == pat
}

pub fn matches_at(s: &Vec<char>, i: usize, pat: &Vec<char>) -> (r: bool)
    ensures
        r == occurs_at(s@, pat@, i as int),
{
    if i > s.len() || pat.len() > s.len() - i {
        return false;
    }
    let mut k: usize = 0;
    while k < pat.len()
        invariant
            i + pat.len() <= s.len(),
            k <= pat.len(),
            forall|m: int| 0 <= m < k ==> s@[i + m] == pat@[m],
        decreases pat.len() - k,
    {
        if s[i + k] != pat[k] {
            assert(s@.subrange(i as int, i + pat.len())[k as int] != pat@[k as int]);
            return false;
        }
        k = k + 1;
    }
    assert(s@.subrange(i as int, i + pat.len()) =~= pat@);
    true
}

/// Left-to-right, non-overlapping replacement of `pat` by `rep` in `s[i..]`.
pub open spec fn replace_from(s: Seq<char>, pat: Seq<char>, rep: Seq<char>, i: int) -> Seq<char>
    decreases s.len() - i,
{
    if i < 0 || i >= s.len() {
        Seq::empty()
    } else if pat.len() == 0 || i + pat.len() > s.len() {
        s.subrange(i, s.len() as int)
    } else if occurs_at(s, pat, i) {
        rep + replace_from(s, pat, rep, i + pat.len())
    } else {
        seq![s[i]] + replace_from(s, pat, rep, i + 1)
    }
}

/// `str::replace` for a non-empty pattern.
pub open spec fn replace_all(s: Seq<char>, pat: Seq<char>, rep: Seq<char>) -> Seq<char> {
    replace_from(s, pat, rep, 0)
}

pub fn replace_chars(s: &Vec<char>, pat: &Vec<char>, rep: &Vec<char>) -> (r: Vec<char>)
    requires
        pat.len() > 0,
    ensures
        r@ == replace_all(s@, pat@, rep@),
{
    let mut out: Vec<char> = Vec::new();
    let mut i: usize = 0;
    let len = s.len();
    while i < len && pat.len() <= len - i
        invariant
            len == s.len(),
            i <= len,
            pat.len() > 0,
            replace_all(s@, pat@, rep@) == out@ + replace_from(s@, pat@, rep@, i as int),
        decreases len - i,
    {
        if matches_at(s, i, pat) {
            let mut k: usize = 0;
            let ghost before = out@;
            while k < rep.len()
                invariant
                    k <= rep.len(),
                    out@ == before + rep@.subrange(0, k as int),
                decreases rep.len() - k,
            {
                out.push(rep[k]);
                k = k + 1;
                assert(out@ =~= before + rep@.subrange(0, k as int));
            }
            assert(rep@.subrange(0, rep.len() as int) =~= rep@);
            assert(out@ + replace_from(s@, pat@, rep@, i + pat.len()) =~= before + (rep@
                + replace_from(s@, pat@, rep@, i + pat.len())));
            i = i + pat.len();
        } else {
            let ghost before = out@;
            out.push(s[i]);
            assert(out@ + replace_from(s@, pat@, rep@, i + 1) =~= before + (seq![s@[i as int]]
                + replace_from(s@, pat@, rep@, i + 1)));
            i = i + 1;
        }
    }
    let ghost before = out@;
    let mut k: usize = i;
    while k < len
        invariant
            i <= k <= len == s.len(),
            out@ == before + s@.subrange(i as int, k as int),
        decreases len - k,
    {
        out.push(s[k]);
        k = k + 1;
        assert(out@ =~= before + s@.subrange(i as int, k as int));
    }
    assert(i >= len ==> replace_from(s@, pat@, rep@, i as int) =~= s@.subrange(i as int, len as int));
    out
}

/// `str::replace` over strings, for a non-empty pattern.
pub fn replace_string(s: &str, pat: &str, rep: &str) -> (r: String)
    requires
        pat@.len() > 0,
    ensures
        r@ == replace_all(s@, pat@, rep@),
{
    let sv = chars_of(s);
    let pv = chars_of(pat);
    let rv = chars_of(rep);
    let out = replace_chars(&sv, &pv, &rv);
    string_from(out.as_slice())
}


/// Index of the first `c` in `s` at or after `p`, or `s.len()` when there is none.
pub open spec fn find_from(s: Seq<char>, c: char, p: int) -> int
    decreases s.len() - p,
{
    if p < 0 || p >= s.len() {
        s.len() as int
    } else if s[p] == c {
        p
    } else {
        find_from(s, c, p + 1)
    }
}

pub proof fn lemma_find_from(s: Seq<char>, c: char, p: int)
    requires
        0 <= p <= s.len(),
    ensures
        p <= find_from(s, c, p) <= s.len(),
        find_from(s, c, p) < s.len() ==> s[find_from(s, c, p)] == c,
        forall|m: int| p <= m < find_from(s, c, p) ==> s[m] != c,
    decreases s.len() - p,
{
    if p < s.len() && s[p] != c {
        lemma_find_from(s, c, p + 1);
    }
}

/// Position of the first `c` in `s[from..]`, as `find_from` gives it.
pub fn find_char_from(s: &Vec<char>, c: char, from: usize) -> (r: usize)
    requires
        from <= s.len(),
    ensures
        r == find_from(s@, c, from as int),
{
    let mut j: usize = from;
    while j < s.len() && s[j] != c
        invariant
            from <= j <= s.len(),
            find_from(s@, c, from as int) == find_from(s@, c, j as int),
        decreases s.len() - j,
    {
        j = j + 1;
    }
    j
}

/// Index into `s` where `trim_start(s, k)` begins.
pub fn trim_start_index(s: &Vec<char>, k: CharClass) -> (i: usize)
    ensures
        i <= s.len(),
        s@.subrange(i as int, s.len() as int) == trim_start(s@, k),
{
    let len = s.len();
    let mut i: usize = 0;
    assert(s@.subrange(0, len as int) =~= s@);
    while i < len && class_contains(k, s[i])
        invariant
            i <= len == s.len(),
            trim_start(s@, k) == trim_start(s@.subrange(i as int, len as int), k),
        decreases len - i,
    {
        assert(s@.subrange(i as int, len as int).drop_first() =~= s@.subrange(i + 1, len as int));
        i = i + 1;
    }
    i
}

/// Appends all of `src` to `dst`.
pub fn append_chars(dst: &mut Vec<char>, src: &Vec<char>)
    ensures
        final(dst)@ == old(dst)@ + src@,
{
    let mut k: usize = 0;
    let ghost before = dst@;
    while k < src.len()
        invariant
            k <= src.len(),
            dst@ == before + src@.subrange(0, k as int),
        decreases src.len() - k,
    {
        dst.push(src[k]);
        k = k + 1;
        assert(dst@ =~= before + src@.subrange(0, k as int));
    }
    assert(src@.subrange(0, src.len() as int) =~= src@);
}

/// `s` right-aligned in a field of `width` characters filled with `fill`.
pub open spec fn pad_left(s: Seq<char>, width: nat, fill: char) -> Seq<char> {
    if s.len() >= width {
        s
    } else {
        Seq::new((width - s.len()) as nat, |i: int| fill) + s
    }
}

pub fn pad_left_chars(s: &Vec<char>, width: usize, fill: char) -> (r: Vec<char>)
    ensures
        r@ == pad_left(s@, width as nat, fill),
{
    let mut r: Vec<char> = Vec::new();
    if s.len() < width {
        let n = width - s.len();
        let mut k: usize = 0;
        while k < n
            invariant
                k <= n,
                r@ == Seq::new(k as nat, |i: int| fill),
            decreases n - k,
        {
            r.push(fill);
            k = k + 1;
            assert(r@ =~= Seq::new(k as nat, |i: int| fill));
        }
    }
    append_chars(&mut r, s);
    assert(r@ =~= pad_left(s@, width as nat, fill));
    r
}

} // verus!
