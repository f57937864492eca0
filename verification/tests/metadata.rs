use nas_normlzr::config::{ApiConfig, Config, MoviePatterns, Patterns, Roots, TvPatterns, UiConfig};
use nas_normlzr::metadata::{
    best_movie, merge_movie, merge_tmdb_episode, merge_tvdb_episode, movie_search_result,
    non_empty, plan_lookup, premiere_year, services, tmdb_episode_result, tmdb_series,
    tvdb_episode_result, tvdb_series, LookupPlan, Services,
};
use nas_normlzr::config::{default_browser_height, default_true};
use nas_normlzr::media::{MediaFile, MediaType, ParsedMetadata};

fn s(x: &str) -> Option<String> {
    Some(x.to_string())
}

fn episode(show: Option<String>, season: Option<String>, episode: Option<String>) -> MediaFile {
    let mut f = MediaFile::new("/d/x.mkv".to_string(), MediaType::TvEpisode);
    let mut m = ParsedMetadata::default();
    m.show = show;
    m.season = season;
    m.episode = episode;
    f.parsed_metadata = Some(m);
    f
}

#[test]
fn movie_plans() {
    let mut f = MediaFile::new("/d/x.mkv".to_string(), MediaType::Movie);
    let both = Services { tmdb: true, tvdb: true };
    assert!(matches!(plan_lookup(&f, both), LookupPlan::NoMetadata));
    let mut m = ParsedMetadata::default();
    m.title = s("Alien");
    f.parsed_metadata = Some(m.clone());
    match plan_lookup(&f, both) {
        LookupPlan::Movie { title, year, .. } => {
            assert_eq!(title, "Alien");
            assert_eq!(year, None);
        }
        _ => panic!("expected a movie search"),
    }
    assert!(matches!(plan_lookup(&f, Services { tmdb: false, tvdb: true }), LookupPlan::Final(_)));
    m.year = s("1979");
    f.parsed_metadata = Some(m);
    assert!(matches!(plan_lookup(&f, both), LookupPlan::Final(_)));
}

#[test]
fn episode_plans() {
    let f = episode(s("Show"), s("01"), s("x3"));
    match plan_lookup(&f, Services { tmdb: true, tvdb: true }) {
        LookupPlan::TvdbEpisode { show, season, episode, .. } => {
            assert_eq!(show, "Show");
            assert_eq!(season, 1);
            assert_eq!(episode, 0);
        }
        _ => panic!("expected TVDB"),
    }
    assert!(matches!(
        plan_lookup(&f, Services { tmdb: true, tvdb: false }),
        LookupPlan::TmdbEpisode { season: 1, .. }
    ));
    assert!(matches!(plan_lookup(&f, Services { tmdb: false, tvdb: false }), LookupPlan::Final(_)));
    let g = episode(s("Show"), None, s("3"));
    assert!(matches!(plan_lookup(&g, Services { tmdb: true, tvdb: true }), LookupPlan::Final(_)));
}

#[test]
fn merges_fill_only_missing_fields() {
    let mut m = ParsedMetadata::default();
    m.title = s("Alien");
    let found = movie_search_result("Alien!".to_string(), s("1979-05-25"));
    assert_eq!(found.year, s("1979"));
    let r = merge_movie(m.clone(), Some(found));
    assert_eq!(r.title, s("Alien"));
    assert_eq!(r.year, s("1979"));
    assert_eq!(merge_movie(m.clone(), None), m);

    let mut e = ParsedMetadata::default();
    e.show = s("breaking bad");
    e.episode_title = s("Pilot");
    let mut api = tvdb_episode_result(vec![s("Other")], s("2008"));
    api.show = s("Breaking Bad");
    let r = merge_tvdb_episode(e.clone(), Some(api.clone()));
    assert_eq!(r.show, s("Breaking Bad"));
    assert_eq!(r.episode_title, s("Pilot"));
    assert_eq!(r.show_year, s("2008"));
    let r = merge_tmdb_episode(e.clone(), Some(api));
    assert_eq!(r.show, s("breaking bad"));
    assert_eq!(r.show_year, s("2008"));
}

#[test]
fn service_answers() {
    assert_eq!(movie_search_result("T".to_string(), s("")).year, s(""));
    assert_eq!(movie_search_result("T".to_string(), None).year, None);
    assert_eq!(premiere_year(s("2008-01-20")), s("2008"));
    assert_eq!(premiere_year(s("")), None);
    assert_eq!(premiere_year(s("-01")), None);
    assert_eq!(non_empty(s("")), None);
    assert_eq!(non_empty(s("x")), s("x"));
    assert_eq!(tvdb_episode_result(vec![s("")], None).episode_title, None);
    assert_eq!(tvdb_episode_result(vec![], s("2008")).episode_title, None);
    assert_eq!(tvdb_episode_result(vec![None, s("Second")], None).episode_title, None);
    assert_eq!(tvdb_episode_result(vec![s("First"), s("Second")], None).episode_title, s("First"));
    assert_eq!(tmdb_episode_result("Pilot".to_string(), s("2008")).episode_title, s("Pilot"));
}

#[test]
fn services_and_defaults() {
    let c = Config {
        roots: Roots::default(),
        patterns: Patterns {
            movies: MoviePatterns { input_patterns: vec![], directory_template: String::new(), file_template: String::new() },
            tv_shows: TvPatterns {
                input_patterns: vec![],
                show_directory_template: String::new(),
                season_directory_template: String::new(),
                episode_file_template: String::new(),
                episode_file_template_no_title: String::new(),
            },
        },
        api: ApiConfig::default(),
        ui: UiConfig::default(),
    };
    assert_eq!(services(&c), Services { tmdb: false, tvdb: false });
    assert!(!c.api_enabled());
    assert!(c.api.enable_api_fallback);
    assert_eq!(c.ui.browser_height, 20);
    assert!(default_true());
    assert_eq!(default_browser_height(), 20);
}

#[test]
fn first_search_results_are_taken() {
    assert_eq!(best_movie(vec![]), None);
    let m = best_movie(vec![
        ("Alien".to_string(), s("1979-05-25")),
        ("Aliens".to_string(), s("1986-07-18")),
    ])
    .unwrap();
    assert_eq!(m.title, s("Alien"));
    assert_eq!(m.year, s("1979"));
    assert_eq!(tmdb_series(vec![]), None);
    assert_eq!(tmdb_series(vec![(7, s("2008-01-20")), (9, s("2010-01-01"))]), Some((7, s("2008"))));
    assert_eq!(tmdb_series(vec![(7, s(""))]), Some((7, None)));
    assert_eq!(tvdb_series(vec![]), None);
    assert_eq!(tvdb_series(vec![(81189, s("2008")), (1, s("1999"))]), Some((81189, s("2008"))));
    assert_eq!(tvdb_series(vec![(81189, s(""))]), Some((81189, None)));
}
