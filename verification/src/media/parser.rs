//! Extraction of metadata from movie and episode file names.
use vstd::prelude::*;
use crate::config::{MoviePatterns, TvPatterns};
use crate::media::{ParsedMetadata, MetaView, empty_meta, opt_view};
use crate::media::pattern::{CompiledPattern, PatternError, regex_compiles, regex_finds, regex_group};
use crate::paths::{last_index_of, rfind_char};
use crate::text::{
    CharClass, trim, replace_all, chars_of, string_from, sub_vec, trim_chars, replace_chars,
};

verus! {

/// Parses movie file names with the configured patterns, first match wins.
pub struct MovieParser {
    patterns: Vec<CompiledPattern>,
}

/// Parses episode file names with the configured patterns, first match wins.
pub struct TvParser {
    patterns: Vec<CompiledPattern>,
}

pub open spec fn sources(ps: Seq<CompiledPattern>) -> Seq<Seq<char>> {
    ps.map_values(|p: CompiledPattern| p@)
}

pub open spec fn string_views(ps: Seq<String>) -> Seq<Seq<char>> {
    ps.map_values(|p: String| p@)
}

impl View for MovieParser {
    type V = Seq<Seq<char>>;

    closed spec fn view(&self) -> Seq<Seq<char>> {
        sources(self.patterns@)
    }
}

impl View for TvParser {
    type V = Seq<Seq<char>>;

    closed spec fn view(&self) -> Seq<Seq<char>> {
        sources(self.patterns@)
    }
}

/// What compiling a list of patterns gives: all of them when each compiles,
/// else the first that does not.
pub open spec fn patterns_compile(ps: Seq<Seq<char>>) -> bool {
    forall|i: int| 0 <= i < ps.len() ==> regex_compiles(#[trigger] ps[i])
}

pub open spec fn first_bad_pattern(ps: Seq<Seq<char>>, e: PatternError) -> bool {
    exists|i: int|
        0 <= i < ps.len() && !regex_compiles(#[trigger] ps[i]) && e.pattern@ == ps[i] && (forall|
            j: int,
        | 0 <= j < i ==> regex_compiles(#[trigger] ps[j]))
}

fn compile_patterns(patterns: &Vec<String>) -> (r: Result<Vec<CompiledPattern>, PatternError>)
    ensures
        match r {
            Ok(v) => patterns_compile(string_views(patterns@)) && sources(v@) == string_views(
                patterns@,
            ),
            Err(e) => first_bad_pattern(string_views(patterns@), e),
        },
{
    let mut out: Vec<CompiledPattern> = Vec::new();
    let mut i: usize = 0;
    while i < patterns.len()
        invariant
            i <= patterns.len(),
            sources(out@) == string_views(patterns@).subrange(0, i as int),
            forall|j: int| 0 <= j < i ==> regex_compiles(#[trigger] string_views(patterns@)[j]),
        decreases patterns.len() - i,
    {
        match CompiledPattern::compile(patterns[i].as_str()) {
            Ok(c) => {
                let ghost before = out@;
                let ghost cv = c@;
                out.push(c);
                assert(sources(out@) =~= sources(before).push(cv));
                assert(string_views(patterns@).subrange(0, i + 1) =~= string_views(
                    patterns@,
                ).subrange(0, i as int).push(patterns@[i as int]@));
            },
            Err(e) => {
                assert(string_views(patterns@)[i as int] == patterns@[i as int]@);
                return Err(e);
            },
        }
        i = i + 1;
    }
    assert(string_views(patterns@).subrange(0, i as int) =~= string_views(patterns@));
    Ok(out)
}

/// The file name without its last `.xxx` segment (a leading `.` is kept).
pub open spec fn strip_extension_spec(f: Seq<char>) -> Seq<char> {
    let k = last_index_of(f, '.');
    if k > 0 {
        f.subrange(0, k)
    } else {
        f
    }
}

/// Dots and underscores turned into spaces.
pub open spec fn normalize_spec(s: Seq<char>) -> Seq<char> {
    replace_all(replace_all(s, seq!['.'], seq![' ']), seq!['_'], seq![' '])
}

/// A name with surrounding whitespace, dashes, dots and underscores removed.
pub open spec fn clean_name_spec(s: Seq<char>) -> Seq<char> {
    trim(trim(s, CharClass::Whitespace), CharClass::NameSeparator)
}

/// The text the patterns are matched against.
pub open spec fn match_text(filename: Seq<char>) -> Seq<char> {
    normalize_spec(strip_extension_spec(filename))
}

/// Index of the first pattern at or after `i` that matches `hay`, or `ps.len()`.
pub open spec fn first_match(ps: Seq<Seq<char>>, hay: Seq<char>, i: int) -> int
    decreases ps.len() - i,
{
    if i < 0 || i >= ps.len() {
        ps.len() as int
    } else if regex_finds(ps[i], hay) {
        i
    } else {
        first_match(ps, hay, i + 1)
    }
}

pub open spec fn map_clean(o: Option<Seq<char>>) -> Option<Seq<char>> {
    match o {
        Some(s) => Some(clean_name_spec(s)),
        None => None,
    }
}

pub open spec fn map_trim(o: Option<Seq<char>>) -> Option<Seq<char>> {
    match o {
        Some(s) => Some(trim(s, CharClass::Whitespace)),
        None => None,
    }
}

pub open spec fn map_clean_nonempty(o: Option<Seq<char>>) -> Option<Seq<char>> {
    match o {
        Some(s) => if clean_name_spec(s).len() > 0 {
            Some(clean_name_spec(s))
        } else {
            None
        },
        None => None,
    }
}

/// Metadata of a movie file name: title and year from the groups `title`
/// and `year` of the first pattern that matches.
pub open spec fn movie_parse_spec(ps: Seq<Seq<char>>, filename: Seq<char>) -> Option<MetaView> {
    let hay = match_text(filename);
    let i = first_match(ps, hay, 0);
    if 0 <= i < ps.len() {
        Some(
            MetaView {
                title: map_clean(regex_group(ps[i], hay, "title"@)),
                year: map_trim(regex_group(ps[i], hay, "year"@)),
                ..empty_meta()
            },
        )
    } else {
        None
    }
}

/// Metadata of an episode file name: show, season, episode and episode title
/// from the groups `show`, `season`, `episode` and `title` of the first
/// pattern that matches; an empty title counts as none.
pub open spec fn tv_parse_spec(ps: Seq<Seq<char>>, filename: Seq<char>) -> Option<MetaView> {
    let hay = match_text(filename);
    let i = first_match(ps, hay, 0);
    if 0 <= i < ps.len() {
        Some(
            MetaView {
                show: map_clean(regex_group(ps[i], hay, "show"@)),
                season: map_trim(regex_group(ps[i], hay, "season"@)),
                episode: map_trim(regex_group(ps[i], hay, "episode"@)),
                episode_title: map_clean_nonempty(regex_group(ps[i], hay, "title"@)),
                ..empty_meta()
            },
        )
    } else {
        None
    }
}

/// Remove the file extension (last `.xxx` segment).
pub fn strip_extension(filename: &str) -> (r: String)
    ensures
        r@ == strip_extension_spec(filename@),
{
    let f = chars_of(filename);
    assert(f@.subrange(0, f.len() as int) =~= f@);
    match rfind_char(&f, '.', f.len()) {
        Some(pos) => {
            if pos > 0 {
                let v = sub_vec(&f, 0, pos);
                string_from(v.as_slice())
            } else {
                String::from_str(filename)
            }
        },
        None => String::from_str(filename),
    }
}

/// Replace dots and underscores with spaces to normalize common filename styles.
/// E.g. "The.Matrix.1999.1080p" → "The Matrix 1999 1080p"
pub fn normalize_separators(s: &str) -> (r: String)
    ensures
        r@ == normalize_spec(s@),
{
    let v = chars_of(s);
    let mut dot: Vec<char> = Vec::new();
    dot.push('.');
    let mut under: Vec<char> = Vec::new();
    under.push('_');
    let mut space: Vec<char> = Vec::new();
    space.push(' ');
    assert(dot@ =~= seq!['.']);
    assert(under@ =~= seq!['_']);
    assert(space@ =~= seq![' ']);
    let a = replace_chars(&v, &dot, &space);
    let b = replace_chars(&a, &under, &space);
    string_from(b.as_slice())
}

/// Trim whitespace and trailing/leading separator characters.
pub fn clean_name(s: &str) -> (r: String)
    ensures
        r@ == clean_name_spec(s@),
{
    let v = chars_of(s);
    let a = trim_chars(&v, CharClass::Whitespace);
    let b = trim_chars(&a, CharClass::NameSeparator);
    string_from(b.as_slice())
}

fn clean_opt(o: Option<String>) -> (r: Option<String>)
    ensures
        opt_view(r) == map_clean(opt_view(o)),
{
    match o {
        Some(s) => Some(clean_name(s.as_str())),
        None => None,
    }
}

fn trim_opt(o: Option<String>) -> (r: Option<String>)
    ensures
        opt_view(r) == map_trim(opt_view(o)),
{
    match o {
        Some(s) => Some(crate::text::trim_string(s.as_str())),
        None => None,
    }
}

fn clean_nonempty_opt(o: Option<String>) -> (r: Option<String>)
    ensures
        opt_view(r) == map_clean_nonempty(opt_view(o)),
{
    match o {
        Some(s) => {
            let c = clean_name(s.as_str());
            if c.as_str().is_empty() {
                None
            } else {
                Some(c)
            }
        },
        None => None,
    }
}

/// Index of the first pattern that matches `hay`.
fn find_first_match(patterns: &Vec<CompiledPattern>, hay: &str) -> (r: usize)
    ensures
        r as int == first_match(sources(patterns@), hay@, 0),
{
    let mut i: usize = 0;
    while i < patterns.len()
        invariant
            i <= patterns.len(),
            first_match(sources(patterns@), hay@, 0) == first_match(
                sources(patterns@),
                hay@,
                i as int,
            ),
        decreases patterns.len() - i,
    {
        if patterns[i].is_match(hay) {
            return i;
        }
        i = i + 1;
    }
    i
}

impl MovieParser {
    /// Compiles the configured movie patterns.
    pub fn new(config: &MoviePatterns) -> (r: Result<Self, PatternError>)
        ensures
            match r {
                Ok(p) => patterns_compile(string_views(config.input_patterns@)) && p@
                    == string_views(config.input_patterns@),
                Err(e) => first_bad_pattern(string_views(config.input_patterns@), e),
            },
    {
        let patterns = compile_patterns(&config.input_patterns)?;
        Ok(Self { patterns })
    }

    /// Metadata of a movie file name, or `None` when no pattern matches.
    pub fn parse(&self, filename: &str) -> (r: Option<ParsedMetadata>)
        ensures
            match r {
                Some(m) => movie_parse_spec(self@, filename@) == Some(m@),
                None => movie_parse_spec(self@, filename@) is None,
            },
    {
        let stem = strip_extension(filename);
        let normalized = normalize_separators(stem.as_str());
        let i = find_first_match(&self.patterns, normalized.as_str());
        if i < self.patterns.len() {
            let p = &self.patterns[i];
            let title = clean_opt(p.group(normalized.as_str(), "title"));
            let year = trim_opt(p.group(normalized.as_str(), "year"));
            let mut meta = ParsedMetadata::default();
            meta.title = title;
            meta.year = year;
            Some(meta)
        } else {
            None
        }
    }
}

impl TvParser {
    /// Compiles the configured episode patterns.
    pub fn new(config: &TvPatterns) -> (r: Result<Self, PatternError>)
        ensures
            match r {
                Ok(p) => patterns_compile(string_views(config.input_patterns@)) && p@
                    == string_views(config.input_patterns@),
                Err(e) => first_bad_pattern(string_views(config.input_patterns@), e),
            },
    {
        let patterns = compile_patterns(&config.input_patterns)?;
        Ok(Self { patterns })
    }

    /// Metadata of an episode file name, or `None` when no pattern matches.
    pub fn parse(&self, filename: &str) -> (r: Option<ParsedMetadata>)
        ensures
            match r {
                Some(m) => tv_parse_spec(self@, filename@) == Some(m@),
                None => tv_parse_spec(self@, filename@) is None,
            },
    {
        let stem = strip_extension(filename);
        let normalized = normalize_separators(stem.as_str());
        let i = find_first_match(&self.patterns, normalized.as_str());
        if i < self.patterns.len() {
            let p = &self.patterns[i];
            let show = clean_opt(p.group(normalized.as_str(), "show"));
            let season = trim_opt(p.group(normalized.as_str(), "season"));
            let episode = trim_opt(p.group(normalized.as_str(), "episode"));
            let episode_title = clean_nonempty_opt(p.group(normalized.as_str(), "title"));
            let mut meta = ParsedMetadata::default();
            meta.show = show;
            meta.season = season;
            meta.episode = episode;
            meta.episode_title = episode_title;
            Some(meta)
        } else {
            None
        }
    }
}

} // verus!
