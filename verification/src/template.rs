//! Path templates: `{var}` and `{var:spec}` substitution.
use vstd::prelude::*;
use crate::text::{
    CharClass, chars_of, string_from, sub_vec, trim_start, trim_start_index, find_from,
    lemma_find_from, find_char_from, append_chars, pad_left, pad_left_chars,
};
use crate::number::{parse_unsigned, parse_signed, signed_decimal, parse_usize, parse_i64, decimal_i64};

verus! {

/// The variables a template is rendered with; a later `insert` of a name
/// replaces the value of an earlier one.
pub struct Vars {
    entries: Vec<(String, String)>,
}

/// The map that a list of assignments builds, later assignments winning.
pub open spec fn assignments_map(s: Seq<(String, String)>) -> Map<Seq<char>, Seq<char>>
    decreases s.len(),
{
    if s.len() == 0 {
        Map::empty()
    } else {
        assignments_map(s.drop_last()).insert(s.last().0@, s.last().1@)
    }
}

proof fn lemma_assignments_suffix(s: Seq<(String, String)>, j: int, k: Seq<char>)
    requires
        0 <= j <= s.len(),
        forall|m: int| j <= m < s.len() ==> (#[trigger] s[m]).0@ != k,
    ensures
        assignments_map(s).contains_key(k) == assignments_map(s.subrange(0, j)).contains_key(k),
        assignments_map(s).contains_key(k) ==> assignments_map(s)[k] == assignments_map(
            s.subrange(0, j),
        )[k],
    decreases s.len(),
{
    if s.len() == j {
        assert(s.subrange(0, j) =~= s);
    } else {
        assert(s.drop_last().subrange(0, j) =~= s.subrange(0, j));
        lemma_assignments_suffix(s.drop_last(), j, k);
    }
}

impl View for Vars {
    type V = Map<Seq<char>, Seq<char>>;

    closed spec fn view(&self) -> Map<Seq<char>, Seq<char>> {
        assignments_map(self.entries@)
    }
}

impl Vars {
    pub fn new() -> (r: Vars)
        ensures
            r@ == Map::<Seq<char>, Seq<char>>::empty(),
    {
        Vars { entries: Vec::new() }
    }

    /// Sets `name` to `value`.
    pub fn insert(&mut self, name: String, value: String)
        ensures
            final(self)@ == old(self)@.insert(name@, value@),
    {
        let ghost before = self.entries@;
        self.entries.push((name, value));
        assert(self.entries@.drop_last() =~= before);
    }

    /// The value of `name`, if it has one.
    pub fn get(&self, name: &String) -> (r: Option<&String>)
        ensures
            r is Some <==> self@.contains_key(name@),
            r matches Some(v) ==> v@ == self@[name@],
    {
        let mut j: usize = self.entries.len();
        while j > 0
            invariant
                j <= self.entries.len(),
                forall|m: int| j <= m < self.entries.len() ==> (#[trigger] self.entries@[m]).0@
                    != name@,
            decreases j,
        {
            if self.entries[j - 1].0 == *name {
                proof {
                    lemma_assignments_suffix(self.entries@, j as int, name@);
                    assert(self.entries@.subrange(0, j as int).drop_last() =~= self.entries@.subrange(
                        0,
                        j - 1,
                    ));
                }
                return Some(&self.entries[j - 1].1);
            }
            j = j - 1;
        }
        proof {
            lemma_assignments_suffix(self.entries@, 0, name@);
            assert(self.entries@.subrange(0, 0) =~= Seq::<(String, String)>::empty());
        }
        None
    }
}

/// Why a template could not be rendered.
#[derive(Clone, Debug, PartialEq, Eq)]
pub enum TemplateError {
    /// A `{` without a matching `}`; holds the whole template.
    UnclosedBrace(String),
}

impl TemplateError {
    /// The text of the error, as the application shows it.
    pub fn message(&self) -> (r: String)
        ensures
            r@ == template_error_text(*self),
    {
        match self {
            TemplateError::UnclosedBrace(t) => {
                let s = String::from_str("Unclosed `{` in template: ");
                s.concat(t.as_str())
            },
        }
    }
}

pub open spec fn template_error_text(e: TemplateError) -> Seq<char> {
    match e {
        TemplateError::UnclosedBrace(t) => "Unclosed `{` in template: "@ + t@,
    }
}

/// What a `{name:spec}` token with format spec `spec` makes of `value`: a
/// spec `[0]<width>` right-aligns in `width` characters; a value that parses
/// as an `i64` is written in decimal and, with a leading `0` in the spec,
/// padded with zeros; a width that is zero or not a number leaves `value`
/// unchanged.
pub open spec fn apply_format(value: Seq<char>, spec: Seq<char>) -> Seq<char> {
    let zero_pad = spec.len() > 0 && spec[0] == '0';
    match parse_unsigned(trim_start(spec, CharClass::Zero)) {
        Some(w) => if 0 < w && w <= usize::MAX {
            match parse_signed(value) {
                Some(n) => if i64::MIN <= n <= i64::MAX {
                    pad_left(signed_decimal(n), w, if zero_pad { '0' } else { ' ' })
                } else {
                    pad_left(value, w, ' ')
                },
                None => pad_left(value, w, ' '),
            }
        } else {
            value
        },
        None => value,
    }
}

/// What a token (the text between `{` and `}`) is replaced by.
pub open spec fn token_value(token: Seq<char>, vars: Map<Seq<char>, Seq<char>>) -> Seq<char> {
    let c = find_from(token, ':', 0);
    let name = token.subrange(0, c);
    let value = if vars.contains_key(name) { vars[name] } else { Seq::empty() };
    if c < token.len() {
        apply_format(value, token.subrange(c + 1, token.len() as int))
    } else {
        value
    }
}

pub open spec fn prepend(a: Seq<char>, r: Option<Seq<char>>) -> Option<Seq<char>> {
    match r {
        Some(x) => Some(a + x),
        None => None,
    }
}

/// Rendering of `t[p..]`: `{{` and `}}` stand for `{` and `}`, `{token}` is
/// replaced by its value, and a `{` without a later `}` fails.
pub open spec fn render_from(t: Seq<char>, vars: Map<Seq<char>, Seq<char>>, p: int) -> Option<
    Seq<char>,
>
    decreases t.len() - p,
{
    if p < 0 || p >= t.len() {
        Some(Seq::empty())
    } else if t[p] == '{' {
        if p + 1 < t.len() && t[p + 1] == '{' {
            prepend(seq!['{'], render_from(t, vars, p + 2))
        } else {
            let j = find_from(t, '}', p + 1);
            proof {
                lemma_find_from(t, '}', p + 1);
            }
            if j >= t.len() {
                None
            } else {
                prepend(token_value(t.subrange(p + 1, j), vars), render_from(t, vars, j + 1))
            }
        }
    } else if t[p] == '}' && p + 1 < t.len() && t[p + 1] == '}' {
        prepend(seq!['}'], render_from(t, vars, p + 2))
    } else {
        prepend(seq![t[p]], render_from(t, vars, p + 1))
    }
}

/// The rendering of template `t`, or `None` when a `{` is not closed.
pub open spec fn render_spec(t: Seq<char>, vars: Map<Seq<char>, Seq<char>>) -> Option<Seq<char>> {
    render_from(t, vars, 0)
}

/// Applies a format spec (`02`, `3`, ...) to a value.
pub fn apply_spec(value: &Vec<char>, spec: &Vec<char>) -> (r: Vec<char>)
    ensures
        r@ == apply_format(value@, spec@),
{
    let zero_pad = spec.len() > 0 && spec[0] == '0';
    let start = trim_start_index(spec, CharClass::Zero);
    let width_str = sub_vec(spec, start, spec.len());
    let width = match parse_usize(&width_str) {
        Some(w) => {
            if w > 0 {
                w
            } else {
                return sub_vec(value, 0, value.len());
            }
        },
        None => {
            assert(value@.subrange(0, value@.len() as int) =~= value@);
            return sub_vec(value, 0, value.len());
        },
    };
    match parse_i64(value) {
        Some(n) => {
            let digits = decimal_i64(n);
            pad_left_chars(&digits, width, if zero_pad { '0' } else { ' ' })
        },
        None => pad_left_chars(value, width, ' '),
    }
}

/// Renders `template`, substituting `{var}` and `{var:spec}` tokens; `{{`
/// and `}}` stand for literal braces, and a variable without a value is
/// replaced by the empty string.
pub fn render(template: &str, vars: &Vars) -> (r: Result<String, TemplateError>)
    ensures
        match r {
            Ok(s) => render_spec(template@, vars@) == Some(s@),
            Err(e) => render_spec(template@, vars@) is None && e == TemplateError::UnclosedBrace(
                e->0,
            ) && e->0@ == template@,
        },
{
    let t = chars_of(template);
    let n = t.len();
    let mut out: Vec<char> = Vec::new();
    let mut i: usize = 0;
    while i < n
        invariant
            n == t.len(),
            t@ == template@,
            i <= n + 1,
            render_spec(t@, vars@) == prepend(out@, render_from(t@, vars@, i as int)),
        decreases n - i,
    {
        let c = t[i];
        let ghost before = out@;
        if c == '{' {
            if i + 1 < n && t[i + 1] == '{' {
                out.push('{');
                assert(before + (seq!['{'] + render_from(t@, vars@, i + 2)->0) =~= out@
                    + render_from(t@, vars@, i + 2)->0);
                i = i + 2;
                continue ;
            }
            let j = find_char_from(&t, '}', i + 1);
            proof {
                lemma_find_from(t@, '}', i + 1);
            }
            if j >= n {
                return Err(TemplateError::UnclosedBrace(string_from(t.as_slice())));
            }
            let token = sub_vec(&t, i + 1, j);
            let value = token_text(&token, vars);
            append_chars(&mut out, &value);
            assert(before + (value@ + render_from(t@, vars@, j + 1)->0) =~= out@ + render_from(
                t@,
                vars@,
                j + 1,
            )->0);
            i = j + 1;
        } else if c == '}' && i + 1 < n && t[i + 1] == '}' {
            out.push('}');
            assert(before + (seq!['}'] + render_from(t@, vars@, i + 2)->0) =~= out@
                + render_from(t@, vars@, i + 2)->0);
            i = i + 2;
        } else {
            out.push(c);
            assert(before + (seq![c] + render_from(t@, vars@, i + 1)->0) =~= out@ + render_from(
                t@,
                vars@,
                i + 1,
            )->0);
            i = i + 1;
        }
    }
    assert(out@ + Seq::<char>::empty() =~= out@);
    Ok(string_from(out.as_slice()))
}

/// The value a token stands for.
fn token_text(token: &Vec<char>, vars: &Vars) -> (r: Vec<char>)
    ensures
        r@ == token_value(token@, vars@),
{
    let c = find_char_from(token, ':', 0);
    proof {
        lemma_find_from(token@, ':', 0);
    }
    let name_chars = sub_vec(token, 0, c);
    let name = string_from(name_chars.as_slice());
    let value: Vec<char> = match vars.get(&name) {
        Some(v) => chars_of(v.as_str()),
        None => Vec::new(),
    };
    if c < token.len() {
        let spec = sub_vec(token, c + 1, token.len());
        apply_spec(&value, &spec)
    } else {
        value
    }
}

} // verus!
