//! Configuration: media roots, filename patterns, path templates, API keys.
use vstd::prelude::*;

verus! {

/// The whole configuration.
#[derive(Clone, Debug)]
pub struct Config {
    pub roots: Roots,
    pub patterns: Patterns,
    pub api: ApiConfig,
    pub ui: UiConfig,
}

/// The media roots; each may be unset.
#[derive(Clone, Debug, Default)]
pub struct Roots {
    pub movies: Option<String>,
    pub tv_shows: Option<String>,
}

#[derive(Clone, Debug)]
pub struct Patterns {
    pub movies: MoviePatterns,
    pub tv_shows: TvPatterns,
}

/// Regular expressions that recognise movie file names, and the templates
/// of the directory and file name a movie is renamed to.
#[derive(Clone, Debug)]
pub struct MoviePatterns {
    pub input_patterns: Vec<String>,
    pub directory_template: String,
    pub file_template: String,
}

/// Regular expressions that recognise episode file names, and the templates
/// of the show directory, season directory and episode file name.
#[derive(Clone, Debug)]
pub struct TvPatterns {
    pub input_patterns: Vec<String>,
    pub show_directory_template: String,
    pub season_directory_template: String,
    pub episode_file_template: String,
    pub episode_file_template_no_title: String,
}

/// Metadata API keys; an empty key means the service is not used.
#[derive(Clone, Debug)]
pub struct ApiConfig {
    pub tmdb_api_key: String,
    pub tvdb_api_key: String,
    pub enable_api_fallback: bool,
}

impl Default for ApiConfig {
    fn default() -> (r: Self)
        ensures
            r.tmdb_api_key@ == Seq::<char>::empty(),
            r.tvdb_api_key@ == Seq::<char>::empty(),
            r.enable_api_fallback,
    {
        ApiConfig {
            tmdb_api_key: String::new(),
            tvdb_api_key: String::new(),
            enable_api_fallback: default_true(),
        }
    }
}

/// The value `enable_api_fallback` takes when the configuration leaves it out.
pub fn default_true() -> (r: bool)
    ensures
        r,
{
    true
}

#[derive(Clone, Debug)]
pub struct UiConfig {
    pub browser_height: u16,
}

/// The value `browser_height` takes when the configuration leaves it out.
pub fn default_browser_height() -> (r: u16)
    ensures
        r == 20,
{
    20
}

impl Default for UiConfig {
    fn default() -> (r: Self)
        ensures
            r.browser_height == 20,
    {
        UiConfig { browser_height: default_browser_height() }
    }
}

impl Config {
    /// Whether metadata lookups are on: fallback enabled and at least one key set.
    pub open spec fn api_enabled_spec(&self) -> bool {
        self.api.enable_api_fallback && (self.api.tmdb_api_key@.len() > 0
            || self.api.tvdb_api_key@.len() > 0)
    }

    /// True if at least one API key is set and fallback is enabled.
    pub fn api_enabled(&self) -> (r: bool)
        ensures
            r == self.api_enabled_spec(),
    {
        self.api.enable_api_fallback && (!self.api.tmdb_api_key.as_str().is_empty()
            || !self.api.tvdb_api_key.as_str().is_empty())
    }
}

} // verus!
