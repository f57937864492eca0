//! The path a media file should have, computed from the configured templates.
use vstd::prelude::*;
use crate::config::Config;
use crate::media::{MediaFile, MediaType, MetaView, FileView, effective_meta, opt_view};
use crate::paths::{extension_of, join_path, extension, join};
use crate::template::{Vars, TemplateError, render, render_spec};
use crate::text::{CharClass, trim, replace_all, chars_of, string_from, trim_chars, replace_chars};

verus! {

/// The templates of the path of a media file.
#[derive(Clone, Copy, Debug, PartialEq, Eq, Structural)]
pub enum PathTemplate {
    MovieDirectory,
    MovieFile,
    ShowDirectory,
    SeasonDirectory,
    EpisodeFile,
    EpisodeFileNoTitle,
}

/// A template of the path that could not be rendered.
#[derive(Clone, Debug, PartialEq, Eq)]
pub struct RenderFailure {
    pub template: PathTemplate,
    pub cause: TemplateError,
}

pub open spec fn render_failure_text(t: PathTemplate) -> Seq<char> {
    match t {
        PathTemplate::MovieDirectory => "Failed to render movie directory_template"@,
        PathTemplate::MovieFile => "Failed to render movie file_template"@,
        PathTemplate::ShowDirectory => "Failed to render show_directory_template"@,
        PathTemplate::SeasonDirectory => "Failed to render season_directory_template"@,
        PathTemplate::EpisodeFile => "Failed to render episode_file_template"@,
        PathTemplate::EpisodeFileNoTitle => "Failed to render episode_file_template_no_title"@,
    }
}

impl RenderFailure {
    /// The text of the failure, as the application shows it.
    pub fn message(&self) -> (r: String)
        ensures
            r@ == render_failure_text(self.template),
    {
        match self.template {
            PathTemplate::MovieDirectory => String::from_str(
                "Failed to render movie directory_template",
            ),
            PathTemplate::MovieFile => String::from_str("Failed to render movie file_template"),
            PathTemplate::ShowDirectory => String::from_str(
                "Failed to render show_directory_template",
            ),
            PathTemplate::SeasonDirectory => String::from_str(
                "Failed to render season_directory_template",
            ),
            PathTemplate::EpisodeFile => String::from_str("Failed to render episode_file_template"),
            PathTemplate::EpisodeFileNoTitle => String::from_str(
                "Failed to render episode_file_template_no_title",
            ),
        }
    }
}

/// The extension of the path with its dot, or nothing.
pub open spec fn ext_text(path: Seq<char>) -> Seq<char> {
    match extension_of(path) {
        Some(e) => seq!['.'] + e,
        None => Seq::empty(),
    }
}

pub open spec fn or_empty(o: Option<Seq<char>>) -> Seq<char> {
    match o {
        Some(s) => s,
        None => Seq::empty(),
    }
}

/// `s` without ` ()` and `()` artifacts of absent variables, trimmed.
pub open spec fn clean_parens_spec(s: Seq<char>) -> Seq<char> {
    trim(
        replace_all(replace_all(s, seq![' ', '(', ')'], Seq::empty()), seq!['(', ')'], Seq::empty()),
        CharClass::Whitespace,
    )
}

pub open spec fn movie_vars(meta: MetaView, ext: Seq<char>) -> Map<Seq<char>, Seq<char>> {
    Map::empty().insert("title"@, or_empty(meta.title)).insert("year"@, or_empty(meta.year)).insert(
        "ext"@,
        ext,
    )
}

pub open spec fn tv_vars(meta: MetaView, ext: Seq<char>) -> Map<Seq<char>, Seq<char>> {
    Map::empty().insert("show"@, or_empty(meta.show)).insert(
        "show_year"@,
        or_empty(meta.show_year),
    ).insert("season"@, or_empty(meta.season)).insert("episode"@, or_empty(meta.episode)).insert(
        "title"@,
        or_empty(meta.episode_title),
    ).insert("ext"@, ext)
}

/// The proposed path of a movie under `root`.
pub open spec fn movie_path_spec(root: Seq<char>, meta: MetaView, ext: Seq<char>, config: Config) -> Result<
    Option<Seq<char>>,
    PathTemplate,
> {
    if meta.title is None || meta.year is None {
        Ok(None)
    } else {
        let vars = movie_vars(meta, ext);
        match render_spec(config.patterns.movies.directory_template@, vars) {
            None => Err(PathTemplate::MovieDirectory),
            Some(dir) => match render_spec(config.patterns.movies.file_template@, vars) {
                None => Err(PathTemplate::MovieFile),
                Some(name) => Ok(Some(join_path(join_path(root, dir), name))),
            },
        }
    }
}

/// The proposed path of an episode under `root`.
pub open spec fn tv_path_spec(root: Seq<char>, meta: MetaView, ext: Seq<char>, config: Config) -> Result<
    Option<Seq<char>>,
    PathTemplate,
> {
    if meta.show is None || meta.season is None || meta.episode is None {
        Ok(None)
    } else {
        let vars = tv_vars(meta, ext);
        let tv = config.patterns.tv_shows;
        match render_spec(tv.show_directory_template@, vars) {
            None => Err(PathTemplate::ShowDirectory),
            Some(show_dir) => match render_spec(tv.season_directory_template@, vars) {
                None => Err(PathTemplate::SeasonDirectory),
                Some(season_dir) => {
                    let (tpl, which) = if meta.episode_title is Some {
                        (tv.episode_file_template@, PathTemplate::EpisodeFile)
                    } else {
                        (tv.episode_file_template_no_title@, PathTemplate::EpisodeFileNoTitle)
                    };
                    match render_spec(tpl, vars) {
                        None => Err(which),
                        Some(name) => Ok(
                            Some(
                                join_path(
                                    join_path(join_path(root, clean_parens_spec(show_dir)), season_dir),
                                    clean_parens_spec(name),
                                ),
                            ),
                        ),
                    }
                },
            },
        }
    }
}

/// The desired path of a file: `Ok(None)` when its metadata is incomplete or
/// the root of its kind is not set, an error when a template does not render.
pub open spec fn proposed_path_spec(f: FileView, config: Config) -> Result<
    Option<Seq<char>>,
    PathTemplate,
> {
    match effective_meta(f) {
        None => Ok(None),
        Some(meta) => {
            let ext = ext_text(f.path);
            match f.media_type {
                MediaType::Movie => match config.roots.movies {
                    None => Ok(None),
                    Some(root) => movie_path_spec(root@, meta, ext, config),
                },
                MediaType::TvEpisode => match config.roots.tv_shows {
                    None => Ok(None),
                    Some(root) => tv_path_spec(root@, meta, ext, config),
                },
            }
        },
    }
}

fn or_empty_string(o: &Option<String>) -> (r: String)
    ensures
        r@ == or_empty(opt_view(*o)),
{
    match o {
        Some(s) => s.clone(),
        None => String::new(),
    }
}

/// Remove empty-parenthesis artifacts left when a template variable is absent.
/// e.g. `"Show Name ()"` → `"Show Name"` when `show_year` is not yet known.
pub fn clean_empty_parens(s: String) -> (r: String)
    ensures
        r@ == clean_parens_spec(s@),
{
    let v = chars_of(s.as_str());
    let mut p1: Vec<char> = Vec::new();
    p1.push(' ');
    p1.push('(');
    p1.push(')');
    let mut p2: Vec<char> = Vec::new();
    p2.push('(');
    p2.push(')');
    let empty: Vec<char> = Vec::new();
    assert(p1@ =~= seq![' ', '(', ')']);
    assert(p2@ =~= seq!['(', ')']);
    assert(empty@ =~= Seq::<char>::empty());
    let a = replace_chars(&v, &p1, &empty);
    let b = replace_chars(&a, &p2, &empty);
    let c = trim_chars(&b, CharClass::Whitespace);
    string_from(c.as_slice())
}

fn render_or(template: &str, vars: &Vars, which: PathTemplate) -> (r: Result<String, RenderFailure>)
    ensures
        match r {
            Ok(s) => render_spec(template@, vars@) == Some(s@),
            Err(e) => render_spec(template@, vars@) is None && e.template == which,
        },
{
    match render(template, vars) {
        Ok(s) => Ok(s),
        Err(e) => Err(RenderFailure { template: which, cause: e }),
    }
}

fn movie_path(root: &String, meta: &crate::media::ParsedMetadata, ext: String, config: &Config) -> (r:
    Result<Option<String>, RenderFailure>)
    ensures
        match r {
            Ok(o) => movie_path_spec(root@, meta@, ext@, *config) == Ok::<
                Option<Seq<char>>,
                PathTemplate,
            >(opt_view(o)),
            Err(e) => movie_path_spec(root@, meta@, ext@, *config) == Err::<
                Option<Seq<char>>,
                PathTemplate,
            >(e.template),
        },
{
    if meta.title.is_none() || meta.year.is_none() {
        return Ok(None);
    }
    let ghost ev = ext@;
    let mut vars = Vars::new();
    vars.insert(String::from_str("title"), or_empty_string(&meta.title));
    vars.insert(String::from_str("year"), or_empty_string(&meta.year));
    vars.insert(String::from_str("ext"), ext);
    assert(vars@ =~= movie_vars(meta@, ev));
    let dir_name = render_or(config.patterns.movies.directory_template.as_str(), &vars, PathTemplate::MovieDirectory)?;
    let file_name = render_or(config.patterns.movies.file_template.as_str(), &vars, PathTemplate::MovieFile)?;
    let d = join(root.as_str(), dir_name.as_str());
    Ok(Some(join(d.as_str(), file_name.as_str())))
}

fn tv_path(root: &String, meta: &crate::media::ParsedMetadata, ext: String, config: &Config) -> (r:
    Result<Option<String>, RenderFailure>)
    ensures
        match r {
            Ok(o) => tv_path_spec(root@, meta@, ext@, *config) == Ok::<
                Option<Seq<char>>,
                PathTemplate,
            >(opt_view(o)),
            Err(e) => tv_path_spec(root@, meta@, ext@, *config) == Err::<
                Option<Seq<char>>,
                PathTemplate,
            >(e.template),
        },
{
    if meta.show.is_none() || meta.season.is_none() || meta.episode.is_none() {
        return Ok(None);
    }
    let ghost ev = ext@;
    let mut vars = Vars::new();
    vars.insert(String::from_str("show"), or_empty_string(&meta.show));
    vars.insert(String::from_str("show_year"), or_empty_string(&meta.show_year));
    vars.insert(String::from_str("season"), or_empty_string(&meta.season));
    vars.insert(String::from_str("episode"), or_empty_string(&meta.episode));
    vars.insert(String::from_str("title"), or_empty_string(&meta.episode_title));
    vars.insert(String::from_str("ext"), ext);
    assert(vars@ =~= tv_vars(meta@, ev));
    let tv = &config.patterns.tv_shows;
    let show_dir = clean_empty_parens(
        render_or(tv.show_directory_template.as_str(), &vars, PathTemplate::ShowDirectory)?,
    );
    let season_dir = render_or(tv.season_directory_template.as_str(), &vars, PathTemplate::SeasonDirectory)?;
    let rendered = if meta.episode_title.is_some() {
        render_or(tv.episode_file_template.as_str(), &vars, PathTemplate::EpisodeFile)?
    } else {
        render_or(tv.episode_file_template_no_title.as_str(), &vars, PathTemplate::EpisodeFileNoTitle)?
    };
    let file_name = clean_empty_parens(rendered);
    let a = join(root.as_str(), show_dir.as_str());
    let b = join(a.as_str(), season_dir.as_str());
    Ok(Some(join(b.as_str(), file_name.as_str())))
}

/// Compute the desired absolute path for a `MediaFile` based on config templates.
///
/// Returns `Ok(None)` when metadata is incomplete (API lookup needed).
pub fn compute_proposed_path(file: &MediaFile, config: &Config) -> (r: Result<Option<String>, RenderFailure>)
    ensures
        match r {
            Ok(o) => proposed_path_spec(file@, *config) == Ok::<Option<Seq<char>>, PathTemplate>(
                opt_view(o),
            ),
            Err(e) => proposed_path_spec(file@, *config) == Err::<Option<Seq<char>>, PathTemplate>(
                e.template,
            ),
        },
{
    let meta = match file.effective_metadata() {
        Some(m) => m,
        None => return Ok(None),
    };
    let ext = match extension(file.path.as_str()) {
        Some(e) => String::from_str(".").concat(e.as_str()),
        None => String::new(),
    };
    proof {
        reveal_strlit(".");
        assert(ext@ =~= ext_text(file@.path));
    }
    match file.media_type {
        MediaType::Movie => match config.roots.movies.as_ref() {
            Some(root) => movie_path(root, meta, ext, config),
            None => Ok(None),
        },
        MediaType::TvEpisode => match config.roots.tv_shows.as_ref() {
            Some(root) => tv_path(root, meta, ext, config),
            None => Ok(None),
        },
    }
}

} // verus!
