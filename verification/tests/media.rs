use nas_normlzr::config::{ApiConfig, Config, MoviePatterns, Patterns, Roots, TvPatterns, UiConfig};
use nas_normlzr::media::renamer::{clean_empty_parens, compute_proposed_path, PathTemplate};
use nas_normlzr::media::parser::{MovieParser, TvParser};
use nas_normlzr::media::scanner::{is_video_file, scan_all, scan_directory, scan_listings, sort_by_path, NameParser};
use nas_normlzr::media::{MediaFile, MediaType, ParsedMetadata, RenameStatus};
use nas_normlzr::paths::{extension, file_name, join};

fn config() -> Config {
    Config {
        roots: Roots {
            movies: Some("/media/movies".to_string()),
            tv_shows: Some("/media/tv".to_string()),
        },
        patterns: Patterns {
            movies: MoviePatterns {
                input_patterns: vec![
                    r"(?i)(?P<title>.+?)\s*[\(\[]\s*(?P<year>\d{4})\s*[\)\]]".to_string(),
                    r"(?i)(?P<title>.+?)\s+(?P<year>\d{4})(?:\s|$)".to_string(),
                ],
                directory_template: "{title} ({year})".to_string(),
                file_template: "{title} ({year}){ext}".to_string(),
            },
            tv_shows: TvPatterns {
                input_patterns: vec![
                    r"(?i)(?P<show>.+?)\s+[Ss](?P<season>\d{1,2})[Ee](?P<episode>\d{1,2})(?:\s+(?P<title>.+))?".to_string(),
                ],
                show_directory_template: "{show} ({show_year})".to_string(),
                season_directory_template: "Season {season:02}".to_string(),
                episode_file_template: "{show} - S{season:02}E{episode:02} - {title}{ext}".to_string(),
                episode_file_template_no_title: "{show} - S{season:02}E{episode:02}{ext}".to_string(),
            },
        },
        api: ApiConfig { tmdb_api_key: String::new(), tvdb_api_key: String::new(), enable_api_fallback: true },
        ui: UiConfig { browser_height: 20 },
    }
}

fn movie_meta(title: &str, year: &str) -> ParsedMetadata {
    let mut m = ParsedMetadata::default();
    m.title = Some(title.to_string());
    m.year = Some(year.to_string());
    m
}

#[test]
fn movie_path_from_templates() {
    let mut f = MediaFile::new("/dl/Alien (1979).mkv".to_string(), MediaType::Movie);
    f.parsed_metadata = Some(movie_meta("Alien", "1979"));
    let p = compute_proposed_path(&f, &config()).unwrap();
    assert_eq!(p.as_deref(), Some("/media/movies/Alien (1979)/Alien (1979).mkv"));
}

#[test]
fn resolved_metadata_wins() {
    let mut f = MediaFile::new("/dl/x.mkv".to_string(), MediaType::Movie);
    f.parsed_metadata = Some(movie_meta("Alien", "1979"));
    f.resolved_metadata = Some(movie_meta("Aliens", "1986"));
    assert_eq!(f.effective_metadata().unwrap().title.as_deref(), Some("Aliens"));
    let p = compute_proposed_path(&f, &config()).unwrap();
    assert_eq!(p.as_deref(), Some("/media/movies/Aliens (1986)/Aliens (1986).mkv"));
}

#[test]
fn episode_path_cleans_empty_parens() {
    let mut f = MediaFile::new("/dl/Breaking.Bad.S01E03.Pilot.mkv".to_string(), MediaType::TvEpisode);
    let mut m = ParsedMetadata::default();
    m.show = Some("Breaking Bad".to_string());
    m.season = Some("01".to_string());
    m.episode = Some("3".to_string());
    m.episode_title = Some("Pilot".to_string());
    f.parsed_metadata = Some(m.clone());
    let p = compute_proposed_path(&f, &config()).unwrap();
    assert_eq!(
        p.as_deref(),
        Some("/media/tv/Breaking Bad/Season 01/Breaking Bad - S01E03 - Pilot.mkv")
    );
    m.episode_title = None;
    m.show_year = Some("2008".to_string());
    f.parsed_metadata = Some(m);
    let p = compute_proposed_path(&f, &config()).unwrap();
    assert_eq!(p.as_deref(), Some("/media/tv/Breaking Bad (2008)/Season 01/Breaking Bad - S01E03.mkv"));
}

#[test]
fn incomplete_metadata_has_no_path() {
    let mut f = MediaFile::new("/dl/x.mkv".to_string(), MediaType::Movie);
    assert_eq!(compute_proposed_path(&f, &config()).unwrap(), None);
    let mut m = ParsedMetadata::default();
    m.title = Some("Alien".to_string());
    f.parsed_metadata = Some(m);
    assert_eq!(compute_proposed_path(&f, &config()).unwrap(), None);
    let mut c = config();
    c.roots.movies = None;
    f.parsed_metadata = Some(movie_meta("Alien", "1979"));
    assert_eq!(compute_proposed_path(&f, &c).unwrap(), None);
}

#[test]
fn failing_template_is_reported() {
    let mut c = config();
    c.patterns.movies.file_template = "{title".to_string();
    let mut f = MediaFile::new("/dl/x.mkv".to_string(), MediaType::Movie);
    f.parsed_metadata = Some(movie_meta("Alien", "1979"));
    let e = compute_proposed_path(&f, &c).unwrap_err();
    assert_eq!(e.template, PathTemplate::MovieFile);
    assert_eq!(e.message(), "Failed to render movie file_template");
}

#[test]
fn clean_parens() {
    assert_eq!(clean_empty_parens("Show Name ()".to_string()), "Show Name");
    assert_eq!(clean_empty_parens("()Show".to_string()), "Show");
    assert_eq!(clean_empty_parens("Show (2008)".to_string()), "Show (2008)");
}

#[test]
fn path_operations() {
    assert_eq!(file_name("/a/b/c.mkv").as_deref(), Some("c.mkv"));
    assert_eq!(file_name("/a/b/").as_deref(), Some("b"));
    assert_eq!(file_name("a/.").as_deref(), Some("a"));
    assert_eq!(file_name("/a/.."), None);
    assert_eq!(file_name("/"), None);
    assert_eq!(extension("/a/b.tar.gz").as_deref(), Some("gz"));
    assert_eq!(extension("/a/.hidden"), None);
    assert_eq!(extension("/a/file."), Some(String::new()));
    assert_eq!(extension("/a/noext"), None);
    assert_eq!(join("/root", "dir"), "/root/dir");
    assert_eq!(join("/root/", "dir"), "/root/dir");
    assert_eq!(join("/root", "/abs"), "/abs");
    assert_eq!(join("/root", ""), "/root/");
    assert_eq!(join("", "x"), "x");
}

#[test]
fn media_file_basics() {
    let mut f = MediaFile::new("/a/b/Alien.mkv".to_string(), MediaType::Movie);
    assert_eq!(f.status, RenameStatus::Pending);
    assert_eq!(f.display_name(), "Alien.mkv");
    assert!(!f.needs_rename());
    f.proposed_path = Some("/a/b/Alien.mkv".to_string());
    assert!(!f.needs_rename());
    f.proposed_path = Some("/a//b/./Alien.mkv".to_string());
    assert!(!f.needs_rename());
    f.proposed_path = Some("/m/Alien.mkv".to_string());
    assert!(f.needs_rename());
    assert_eq!(MediaFile::new("/".to_string(), MediaType::Movie).display_name(), "<unknown>");
    assert_eq!(RenameStatus::AlreadyCorrect.label(), "ok");
    assert_eq!(RenameStatus::Error("x".to_string()).label(), "error");
    assert_eq!(RenameStatus::LoadingMetadata.label(), "loading");
    let m = movie_meta("A", "1");
    assert!(m.movie_complete());
    assert!(!m.tv_complete());
}

#[test]
fn video_extensions() {
    assert!(is_video_file("/a/b.mkv"));
    assert!(is_video_file("/a/b.MKV"));
    assert!(is_video_file("/a/b.M2TS"));
    assert!(!is_video_file("/a/b.srt"));
    assert!(!is_video_file("/a/mkv"));
    assert!(!is_video_file("/a/.mkv"));
}

#[test]
fn scan_sorts_and_classifies() {
    let movies = vec![
        "/media/movies/zz/The.Matrix.1999.mkv".to_string(),
        "/media/movies/Alien (1979)/Alien (1979).mkv".to_string(),
        "/media/movies/notes.txt".to_string(),
        "/media/movies/a/Unparsable.avi".to_string(),
    ];
    let tv = vec!["/media/tv/Breaking.Bad.S01E03.Pilot.mkv".to_string()];
    let files = scan_all(&config(), Some(movies), Some(tv)).unwrap();
    let paths: Vec<&str> = files.iter().map(|f| f.path.as_str()).collect();
    assert_eq!(
        paths,
        vec![
            "/media/movies/Alien (1979)/Alien (1979).mkv",
            "/media/movies/a/Unparsable.avi",
            "/media/movies/zz/The.Matrix.1999.mkv",
            "/media/tv/Breaking.Bad.S01E03.Pilot.mkv",
        ]
    );
    assert_eq!(files[0].status, RenameStatus::AlreadyCorrect);
    assert_eq!(files[0].proposed_path, None);
    assert_eq!(files[1].status, RenameStatus::LoadingMetadata);
    assert_eq!(files[2].status, RenameStatus::Pending);
    assert_eq!(
        files[2].proposed_path.as_deref(),
        Some("/media/movies/The Matrix (1999)/The Matrix (1999).mkv")
    );
    assert_eq!(files[3].status, RenameStatus::Pending);
}

#[test]
fn scan_with_api_waits_for_episodes() {
    let mut c = config();
    c.api.tvdb_api_key = "key".to_string();
    assert!(c.api_enabled());
    let tv = vec!["/media/tv/Breaking.Bad.S01E03.Pilot.mkv".to_string()];
    let files = scan_all(&c, None, Some(tv)).unwrap();
    assert_eq!(files.len(), 1);
    assert_eq!(files[0].status, RenameStatus::LoadingMetadata);
    assert_eq!(
        files[0].proposed_path.as_deref(),
        Some("/media/tv/Breaking Bad/Season 01/Breaking Bad - S01E03 - Pilot.mkv")
    );
    c.api.enable_api_fallback = false;
    assert!(!c.api_enabled());
}

#[test]
fn scan_skips_unset_roots_and_reports_bad_patterns() {
    let mut c = config();
    c.roots.movies = None;
    let files = scan_all(&c, Some(vec!["/x/Alien (1979).mkv".to_string()]), None).unwrap();
    assert!(files.is_empty());
    c.patterns.tv_shows.input_patterns = vec!["(".to_string()];
    let e = scan_all(&c, None, None).unwrap_err();
    assert_eq!(e.pattern, "(");
}

#[test]
fn render_error_becomes_status() {
    let mut c = config();
    c.patterns.movies.directory_template = "{title".to_string();
    let files = scan_all(&c, Some(vec!["/x/Alien (1979).mkv".to_string()]), None).unwrap();
    assert_eq!(
        files[0].status,
        RenameStatus::Error("Failed to render movie directory_template".to_string())
    );
}

#[test]
fn scan_directory_keeps_listing_order() {
    let c = config();
    let parser = MovieParser::new(&c.patterns.movies).unwrap();
    let paths = vec![
        "/media/movies/zz/The.Matrix.1999.mkv".to_string(),
        "/media/movies/readme.txt".to_string(),
        "/media/movies/Alien (1979)/Alien (1979).mkv".to_string(),
    ];
    let mut out = Vec::new();
    scan_directory(&paths, &NameParser::Movie(&parser), &c, &mut out);
    let got: Vec<&str> = out.iter().map(|f| f.path.as_str()).collect();
    assert_eq!(
        got,
        vec!["/media/movies/zz/The.Matrix.1999.mkv", "/media/movies/Alien (1979)/Alien (1979).mkv"]
    );
    assert_eq!(out[0].parsed_metadata.as_ref().unwrap().title.as_deref(), Some("The Matrix"));
}

#[test]
fn sorting_orders_by_path_components() {
    let files = vec![
        MediaFile::new("/m/b/x.mkv".to_string(), MediaType::Movie),
        MediaFile::new("/m/a b/x.mkv".to_string(), MediaType::Movie),
        MediaFile::new("/m/a/z.mkv".to_string(), MediaType::Movie),
        MediaFile::new("/m/a/y.mkv".to_string(), MediaType::Movie),
    ];
    let sorted = sort_by_path(&files);
    let got: Vec<&str> = sorted.iter().map(|f| f.path.as_str()).collect();
    // `Path` compares component by component: "a" comes before "a b".
    assert_eq!(got, vec!["/m/a/y.mkv", "/m/a/z.mkv", "/m/a b/x.mkv", "/m/b/x.mkv"]);
}

#[test]
fn scan_listings_matches_scan_all() {
    let c = config();
    let mp = MovieParser::new(&c.patterns.movies).unwrap();
    let tp = TvParser::new(&c.patterns.tv_shows).unwrap();
    let movies = vec!["/media/movies/zz/The.Matrix.1999.mkv".to_string(), "/media/movies/a/Alien (1979).mkv".to_string()];
    let tv = vec!["/media/tv/Breaking.Bad.S01E03.Pilot.mkv".to_string()];
    let a = scan_listings(&mp, &tp, &c, Some(movies.clone()), Some(tv.clone()));
    let b = scan_all(&c, Some(movies), Some(tv)).unwrap();
    let pa: Vec<&str> = a.iter().map(|f| f.path.as_str()).collect();
    let pb: Vec<&str> = b.iter().map(|f| f.path.as_str()).collect();
    assert_eq!(pa, pb);
    assert_eq!(pa[0], "/media/movies/a/Alien (1979).mkv");
}

#[test]
fn sorting_keeps_equal_paths_in_order() {
    // `/m//a.mkv` and `/m/a.mkv` are the same path to `Path`.
    let files = vec![
        MediaFile::new("/m/b.mkv".to_string(), MediaType::Movie),
        MediaFile::new("/m//a.mkv".to_string(), MediaType::Movie),
        MediaFile::new("/m/a.mkv".to_string(), MediaType::TvEpisode),
    ];
    let sorted = sort_by_path(&files);
    let got: Vec<&str> = sorted.iter().map(|f| f.path.as_str()).collect();
    assert_eq!(got, vec!["/m//a.mkv", "/m/a.mkv", "/m/b.mkv"]);
    let reversed = vec![files[2].clone(), files[1].clone(), files[0].clone()];
    let sorted = sort_by_path(&reversed);
    let got: Vec<&str> = sorted.iter().map(|f| f.path.as_str()).collect();
    assert_eq!(got, vec!["/m/a.mkv", "/m//a.mkv", "/m/b.mkv"]);
}
