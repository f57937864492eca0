//! Compiled regular expressions (through the `regex` crate), kept together
//! with the pattern text they were compiled from.
use vstd::prelude::*;

verus! {

#[verifier::external_type_specification]
#[verifier::external_body]
pub struct ExRegex(regex::Regex);

#[verifier::external_type_specification]
#[verifier::external_body]
pub struct ExRegexError(regex::Error);

/// Whether `regex::Regex::new` accepts `pattern` (it rejects invalid syntax
/// and patterns over its default size limit).
pub uninterp spec fn regex_compiles(pattern: Seq<char>) -> bool;

/// What `regex::Regex::is_match` answers for the regex of `pattern` on `haystack`.
pub uninterp spec fn regex_finds(pattern: Seq<char>, haystack: Seq<char>) -> bool;

/// The text of the capture group named `group` in the leftmost-first match of
/// the regex of `pattern` in `haystack` (`captures` then `Captures::name`);
/// `None` when there is no match or the group took no part in it.
pub uninterp spec fn regex_group(pattern: Seq<char>, haystack: Seq<char>, group: Seq<char>) -> Option<Seq<char>>;

/// `regex::Regex::new`: succeeds exactly on the patterns the crate accepts.
#[verifier::external_body]
fn regex_new(pattern: &str) -> (r: Result<regex::Regex, regex::Error>)
    ensures
        r is Ok <==> regex_compiles(pattern@),
{
    regex::Regex::new(pattern)
}

/// The `Display` text of a `regex::Error`; nothing is claimed of its content.
#[verifier::external_body]
fn regex_error_text(e: &regex::Error) -> String {
    e.to_string()
}

/// A pattern that failed to compile, with the crate's explanation.
#[derive(Clone, Debug, PartialEq, Eq)]
pub struct PatternError {
    pub pattern: String,
    pub message: String,
}

/// A regular expression together with its pattern text. Its fields are
/// private and only `compile` builds one, so `regex` is always the
/// compilation of `source`.
pub struct CompiledPattern {
    source: String,
    regex: regex::Regex,
}

impl View for CompiledPattern {
    type V = Seq<char>;

    closed spec fn view(&self) -> Seq<char> {
        self.source@
    }
}

/// `regex::Regex::is_match` on the compiled form of `p`.
#[verifier::external_body]
fn pattern_is_match(p: &CompiledPattern, haystack: &str) -> (r: bool)
    ensures
        r == regex_finds(p@, haystack@),
{
    p.regex.is_match(haystack)
}

/// `regex::Regex::captures` followed by `Captures::name(group)` on the
/// compiled form of `p`, the match converted to an owned string.
#[verifier::external_body]
fn pattern_group(p: &CompiledPattern, haystack: &str, group: &str) -> (r: Option<String>)
    ensures
        match r {
            Some(s) => regex_group(p@, haystack@, group@) == Some(s@),
            None => regex_group(p@, haystack@, group@) is None,
        },
{
    p.regex.captures(haystack).and_then(|c| c.name(group).map(|m| m.as_str().to_string()))
}

impl CompiledPattern {
    /// Compiles `pattern`.
    pub fn compile(pattern: &str) -> (r: Result<CompiledPattern, PatternError>)
        ensures
            match r {
                Ok(c) => regex_compiles(pattern@) && c@ == pattern@,
                Err(e) => !regex_compiles(pattern@) && e.pattern@ == pattern@,
            },
    {
        match regex_new(pattern) {
            Ok(re) => Ok(CompiledPattern { source: String::from_str(pattern), regex: re }),
            Err(e) => Err(PatternError {
                pattern: String::from_str(pattern),
                message: regex_error_text(&e),
            }),
        }
    }

    /// Whether the pattern matches somewhere in `haystack`.
    pub fn is_match(&self, haystack: &str) -> (r: bool)
        ensures
            r == regex_finds(self@, haystack@),
    {
        pattern_is_match(self, haystack)
    }

    /// The text of the named capture group in the first match.
    pub fn group(&self, haystack: &str, group: &str) -> (r: Option<String>)
        ensures
            match r {
                Some(s) => regex_group(self@, haystack@, group@) == Some(s@),
                None => regex_group(self@, haystack@, group@) is None,
            },
    {
        pattern_group(self, haystack, group)
    }
}

} // verus!
