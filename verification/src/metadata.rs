//! The decisions of metadata resolution: whether and which service to ask
//! about a file, what to take from the answer, and how the answers of the
//! services are read.
use vstd::prelude::*;
use crate::config::Config;
use crate::media::{MediaFile, MediaType, ParsedMetadata, MetaView, FileView, opt_view, copy_opt};
use crate::number::{parse_unsigned, parse_u32};
use crate::text::{chars_of, string_from, sub_vec, find_from, find_char_from, lemma_find_from};

verus! {

/// Which metadata services have a key.
#[derive(Clone, Copy, Debug, PartialEq, Eq, Structural)]
pub struct Services {
    pub tmdb: bool,
    pub tvdb: bool,
}

/// The services whose key is set.
pub fn services(config: &Config) -> (r: Services)
    ensures
        r.tmdb == (config.api.tmdb_api_key@.len() > 0),
        r.tvdb == (config.api.tvdb_api_key@.len() > 0),
{
    Services {
        tmdb: !config.api.tmdb_api_key.as_str().is_empty(),
        tvdb: !config.api.tvdb_api_key.as_str().is_empty(),
    }
}

/// What to do to resolve the metadata of a file.
pub enum LookupPlan {
    /// Nothing was parsed from the file name: there is no metadata.
    NoMetadata,
    /// The parsed metadata is final as it stands.
    Final(ParsedMetadata),
    /// Search TMDB for the movie `title` (and `year` when known), then `merge_movie`.
    Movie { meta: ParsedMetadata, title: String, year: Option<String> },
    /// Ask TVDB for the episode, then `merge_tvdb_episode`.
    TvdbEpisode { meta: ParsedMetadata, show: String, season: u32, episode: u32 },
    /// Ask TMDB for the episode, then `merge_tmdb_episode`.
    TmdbEpisode { meta: ParsedMetadata, show: String, season: u32, episode: u32 },
}

pub enum PlanView {
    NoMetadata,
    Final(MetaView),
    Movie { meta: MetaView, title: Seq<char>, year: Option<Seq<char>> },
    TvdbEpisode { meta: MetaView, show: Seq<char>, season: u32, episode: u32 },
    TmdbEpisode { meta: MetaView, show: Seq<char>, season: u32, episode: u32 },
}

impl View for LookupPlan {
    type V = PlanView;

    open spec fn view(&self) -> PlanView {
        match self {
            LookupPlan::NoMetadata => PlanView::NoMetadata,
            LookupPlan::Final(m) => PlanView::Final(m@),
            LookupPlan::Movie { meta, title, year } => PlanView::Movie {
                meta: meta@,
                title: title@,
                year: opt_view(*year),
            },
            LookupPlan::TvdbEpisode { meta, show, season, episode } => PlanView::TvdbEpisode {
                meta: meta@,
                show: show@,
                season: *season,
                episode: *episode,
            },
            LookupPlan::TmdbEpisode { meta, show, season, episode } => PlanView::TmdbEpisode {
                meta: meta@,
                show: show@,
                season: *season,
                episode: *episode,
            },
        }
    }
}

/// A season or episode number: its value when it parses as a `u32`, else 0.
pub open spec fn number_or_zero(s: Seq<char>) -> u32 {
    match parse_unsigned(s) {
        Some(v) => if v <= u32::MAX {
            v as u32
        } else {
            0
        },
        None => 0,
    }
}

/// The plan for a file: a movie without both title and year is searched on
/// TMDB; an episode missing any of its fields (episode title and show year
/// included) is asked of TVDB when it has a key and the show, season and
/// episode are known, else of TMDB on the same condition.
pub open spec fn plan_spec(f: FileView, s: Services) -> PlanView {
    match f.parsed {
        None => PlanView::NoMetadata,
        Some(m) => match f.media_type {
            MediaType::Movie => if m.title is Some && m.year is Some {
                PlanView::Final(m)
            } else if s.tmdb {
                PlanView::Movie {
                    meta: m,
                    title: match m.title {
                        Some(t) => t,
                        None => Seq::empty(),
                    },
                    year: m.year,
                }
            } else {
                PlanView::Final(m)
            },
            MediaType::TvEpisode => if m.show is Some && m.season is Some && m.episode is Some
                && m.episode_title is Some && m.show_year is Some {
                PlanView::Final(m)
            } else if m.show is Some && m.season is Some && m.episode is Some && (s.tvdb
                || s.tmdb) {
                let show = m.show->0;
                let season = number_or_zero(m.season->0);
                let episode = number_or_zero(m.episode->0);
                if s.tvdb {
                    PlanView::TvdbEpisode { meta: m, show, season, episode }
                } else {
                    PlanView::TmdbEpisode { meta: m, show, season, episode }
                }
            } else {
                PlanView::Final(m)
            },
        },
    }
}

fn number_or_zero_of(s: &String) -> (r: u32)
    ensures
        r == number_or_zero(s@),
{
    let v = chars_of(s.as_str());
    match parse_u32(&v) {
        Some(n) => n,
        None => 0,
    }
}

/// Decides how to resolve the metadata of `file` with the services at hand.
pub fn plan_lookup(file: &MediaFile, services: Services) -> (r: LookupPlan)
    ensures
        r@ == plan_spec(file@, services),
{
    let meta = match &file.parsed_metadata {
        Some(p) => p.duplicate(),
        None => return LookupPlan::NoMetadata,
    };
    match file.media_type {
        MediaType::Movie => {
            // If we already have both title and year, return immediately.
            if meta.movie_complete() {
                LookupPlan::Final(meta)
            } else if services.tmdb {
                let title = match &meta.title {
                    Some(t) => t.clone(),
                    None => String::new(),
                };
                let year = copy_opt(&meta.year);
                LookupPlan::Movie { meta, title, year }
            } else {
                LookupPlan::Final(meta)
            }
        },
        MediaType::TvEpisode => {
            // Skip the API only when every field — including show_year — is already present.
            if meta.tv_complete() && meta.episode_title.is_some() && meta.show_year.is_some() {
                return LookupPlan::Final(meta);
            }
            if !(services.tvdb || services.tmdb) {
                return LookupPlan::Final(meta);
            }
            let (show, season, episode) = match (&meta.show, &meta.season, &meta.episode) {
                (Some(show), Some(season), Some(episode)) => (
                    show.clone(),
                    number_or_zero_of(season),
                    number_or_zero_of(episode),
                ),
                _ => return LookupPlan::Final(meta),
            };
            if services.tvdb {
                LookupPlan::TvdbEpisode { meta, show, season, episode }
            } else {
                LookupPlan::TmdbEpisode { meta, show, season, episode }
            }
        },
    }
}

pub open spec fn fill(mine: Option<Seq<char>>, theirs: Option<Seq<char>>) -> Option<Seq<char>> {
    match mine {
        Some(x) => Some(x),
        None => theirs,
    }
}

fn fill_opt(mine: Option<String>, theirs: &Option<String>) -> (r: Option<String>)
    ensures
        opt_view(r) == fill(opt_view(mine), opt_view(*theirs)),
{
    match mine {
        Some(x) => Some(x),
        None => copy_opt(theirs),
    }
}

/// A movie's metadata completed by a search result: missing title and year
/// are taken from it.
pub open spec fn merge_movie_spec(m: MetaView, found: Option<MetaView>) -> MetaView {
    match found {
        Some(a) => MetaView { title: fill(m.title, a.title), year: fill(m.year, a.year), ..m },
        None => m,
    }
}

/// An episode's metadata completed by a TVDB answer: missing episode title
/// and show year are taken from it, and its show name, when it has one,
/// replaces the parsed one.
pub open spec fn merge_tvdb_spec(m: MetaView, found: Option<MetaView>) -> MetaView {
    match found {
        Some(a) => MetaView {
            episode_title: fill(m.episode_title, a.episode_title),
            show_year: fill(m.show_year, a.show_year),
            show: fill(a.show, m.show),
            ..m
        },
        None => m,
    }
}

/// An episode's metadata completed by a TMDB answer: missing episode title
/// and show year are taken from it.
pub open spec fn merge_tmdb_spec(m: MetaView, found: Option<MetaView>) -> MetaView {
    match found {
        Some(a) => MetaView {
            episode_title: fill(m.episode_title, a.episode_title),
            show_year: fill(m.show_year, a.show_year),
            ..m
        },
        None => m,
    }
}

pub open spec fn opt_meta(o: Option<ParsedMetadata>) -> Option<MetaView> {
    match o {
        Some(m) => Some(m@),
        None => None,
    }
}

/// Fills in the missing fields of a movie from a search result (`None` when
/// the search failed or found nothing).
pub fn merge_movie(meta: ParsedMetadata, found: Option<ParsedMetadata>) -> (r: ParsedMetadata)
    ensures
        r@ == merge_movie_spec(meta@, opt_meta(found)),
{
    match found {
        Some(api) => {
            let mut m = meta;
            m.title = fill_opt(m.title, &api.title);
            m.year = fill_opt(m.year, &api.year);
            m
        },
        None => meta,
    }
}

/// Fills in an episode from a TVDB answer (`None` when the lookup failed or
/// found nothing).
pub fn merge_tvdb_episode(meta: ParsedMetadata, found: Option<ParsedMetadata>) -> (r: ParsedMetadata)
    ensures
        r@ == merge_tvdb_spec(meta@, opt_meta(found)),
{
    match found {
        Some(api) => {
            let mut m = meta;
            m.episode_title = fill_opt(m.episode_title, &api.episode_title);
            m.show_year = fill_opt(m.show_year, &api.show_year);
            if let Some(canonical_show) = &api.show {
                m.show = Some(canonical_show.clone());
            }
            m
        },
        None => meta,
    }
}

/// Fills in an episode from a TMDB answer (`None` when the lookup failed or
/// found nothing).
pub fn merge_tmdb_episode(meta: ParsedMetadata, found: Option<ParsedMetadata>) -> (r: ParsedMetadata)
    ensures
        r@ == merge_tmdb_spec(meta@, opt_meta(found)),
{
    match found {
        Some(api) => {
            let mut m = meta;
            m.episode_title = fill_opt(m.episode_title, &api.episode_title);
            m.show_year = fill_opt(m.show_year, &api.show_year);
            m
        },
        None => meta,
    }
}

/// The part of a date before its first `-` (the whole date when it has none).
pub open spec fn year_part(d: Seq<char>) -> Seq<char> {
    d.subrange(0, find_from(d, '-', 0))
}

fn year_of(d: &String) -> (r: String)
    ensures
        r@ == year_part(d@),
{
    let v = chars_of(d.as_str());
    let k = find_char_from(&v, '-', 0);
    proof {
        lemma_find_from(v@, '-', 0);
    }
    let y = sub_vec(&v, 0, k);
    string_from(y.as_slice())
}

pub open spec fn non_empty_spec(o: Option<Seq<char>>) -> Option<Seq<char>> {
    match o {
        Some(s) => if s.len() > 0 {
            Some(s)
        } else {
            None
        },
        None => None,
    }
}

/// The string when there is one and it is not empty.
pub fn non_empty(o: Option<String>) -> (r: Option<String>)
    ensures
        opt_view(r) == non_empty_spec(opt_view(o)),
{
    match o {
        Some(s) => if s.as_str().is_empty() {
            None
        } else {
            Some(s)
        },
        None => None,
    }
}

/// The metadata of a movie search hit: its title, and the year of its
/// release date.
pub open spec fn movie_hit_spec(title: Seq<char>, release_date: Option<Seq<char>>) -> MetaView {
    MetaView {
        title: Some(title),
        year: match release_date {
            Some(d) => Some(year_part(d)),
            None => None,
        },
        ..crate::media::empty_meta()
    }
}

/// The metadata of a TMDB movie search result: its title, and the year of
/// its release date.
pub fn movie_search_result(title: String, release_date: Option<String>) -> (r: ParsedMetadata)
    ensures
        r@ == movie_hit_spec(title@, opt_view(release_date)),
{
    let mut m = ParsedMetadata::default();
    m.year = match &release_date {
        Some(d) => Some(year_of(d)),
        None => None,
    };
    m.title = Some(title);
    m
}

/// The best match of a TMDB movie search, whose results (title and release
/// date of each) come best first: the first result, none when there is none.
pub fn best_movie(results: Vec<(String, Option<String>)>) -> (r: Option<ParsedMetadata>)
    ensures
        match r {
            Some(m) => results@.len() > 0 && m@ == movie_hit_spec(
                results@[0].0@,
                opt_view(results@[0].1),
            ),
            None => results@.len() == 0,
        },
{
    let mut results = results;
    if results.len() == 0 {
        None
    } else {
        let (title, release_date) = results.remove(0);
        Some(movie_search_result(title, release_date))
    }
}

/// The premiere year of a series from its first air date: the year part,
/// unless empty.
pub open spec fn premiere_spec(first_air_date: Option<Seq<char>>) -> Option<Seq<char>> {
    non_empty_spec(
        match first_air_date {
            Some(d) => Some(year_part(d)),
            None => None,
        },
    )
}

/// The premiere year of a TMDB series: the year of its first air date, unless empty.
pub fn premiere_year(first_air_date: Option<String>) -> (r: Option<String>)
    ensures
        opt_view(r) == premiere_spec(opt_view(first_air_date)),
{
    match &first_air_date {
        Some(d) => non_empty(Some(year_of(d))),
        None => None,
    }
}

/// The best-matching series of a TMDB series search, whose results (id and
/// first air date of each) come best first: the id and premiere year of the
/// first result, none when there is none.
pub fn tmdb_series(results: Vec<(u64, Option<String>)>) -> (r: Option<(u64, Option<String>)>)
    ensures
        match r {
            Some(p) => results@.len() > 0 && p.0 == results@[0].0 && opt_view(p.1)
                == premiere_spec(opt_view(results@[0].1)),
            None => results@.len() == 0,
        },
{
    let mut results = results;
    if results.len() == 0 {
        None
    } else {
        let (id, first_air_date) = results.remove(0);
        Some((id, premiere_year(first_air_date)))
    }
}

/// The best-matching series of a TVDB search, whose results (id and year of
/// each) come best first: the id of the first result and its year unless
/// empty, none when there is none.
pub fn tvdb_series(results: Vec<(u64, Option<String>)>) -> (r: Option<(u64, Option<String>)>)
    ensures
        match r {
            Some(p) => results@.len() > 0 && p.0 == results@[0].0 && opt_view(p.1)
                == non_empty_spec(opt_view(results@[0].1)),
            None => results@.len() == 0,
        },
{
    let mut results = results;
    if results.len() == 0 {
        None
    } else {
        let (id, year) = results.remove(0);
        Some((id, non_empty(year)))
    }
}

/// The metadata of a TMDB episode: its name, and the show's premiere year.
pub fn tmdb_episode_result(name: String, show_year: Option<String>) -> (r: ParsedMetadata)
    ensures
        r@ == (MetaView {
            episode_title: Some(name@),
            show_year: opt_view(show_year),
            ..crate::media::empty_meta()
        }),
{
    let mut m = ParsedMetadata::default();
    m.episode_title = Some(name);
    m.show_year = show_year;
    m
}

/// The metadata of a TVDB episode query, from the names of the episodes it
/// found: the name of the first (unless missing or empty), and the show's
/// premiere year.
pub fn tvdb_episode_result(episode_names: Vec<Option<String>>, show_year: Option<String>) -> (r:
    ParsedMetadata)
    ensures
        r@ == (MetaView {
            episode_title: if episode_names@.len() > 0 {
                non_empty_spec(opt_view(episode_names@[0]))
            } else {
                None
            },
            show_year: opt_view(show_year),
            ..crate::media::empty_meta()
        }),
{
    let mut names = episode_names;
    let first = if names.len() == 0 {
        None
    } else {
        names.remove(0)
    };
    let mut m = ParsedMetadata::default();
    m.episode_title = non_empty(first);
    m.show_year = show_year;
    m
}

} // verus!
