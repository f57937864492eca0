use nas_normlzr::config::{MoviePatterns, TvPatterns};
use nas_normlzr::media::parser::{
    clean_name, normalize_separators, strip_extension, MovieParser, TvParser,
};

fn default_movie_patterns() -> MoviePatterns {
    MoviePatterns {
        input_patterns: vec![
            r"(?i)(?P<title>.+?)\s*[\(\[]\s*(?P<year>\d{4})\s*[\)\]]".to_string(),
            r"(?i)(?P<title>.+?)\s+(?P<year>\d{4})(?:\s|$)".to_string(),
            r"(?P<title>.+)".to_string(),
        ],
        directory_template: String::new(),
        file_template: String::new(),
    }
}

fn tv_patterns() -> TvPatterns {
    TvPatterns {
        input_patterns: vec![
            r"(?i)(?P<show>.+?)\s+[Ss](?P<season>\d{1,2})[Ee](?P<episode>\d{1,2})(?:\s+(?P<title>.+))?".to_string(),
        ],
        show_directory_template: String::new(),
        season_directory_template: String::new(),
        episode_file_template: String::new(),
        episode_file_template_no_title: String::new(),
    }
}

#[test]
fn parse_movie_with_parenthesis_year() {
    let parser = MovieParser::new(&default_movie_patterns()).unwrap();
    let meta = parser.parse("Alien (1979).mkv").unwrap();
    assert_eq!(meta.title.as_deref(), Some("Alien"));
    assert_eq!(meta.year.as_deref(), Some("1979"));
}

#[test]
fn parse_movie_dot_separated() {
    let parser = MovieParser::new(&default_movie_patterns()).unwrap();
    let meta = parser.parse("The.Matrix.1999.1080p.BluRay.mkv").unwrap();
    assert_eq!(meta.title.as_deref(), Some("The Matrix"));
    assert_eq!(meta.year.as_deref(), Some("1999"));
}

#[test]
fn parse_tv_sxxexx() {
    let parser = TvParser::new(&tv_patterns()).unwrap();
    let meta = parser.parse("Breaking.Bad.S01E03.Pilot.mkv").unwrap();
    assert_eq!(meta.show.as_deref(), Some("Breaking Bad"));
    assert_eq!(meta.season.as_deref(), Some("01"));
    assert_eq!(meta.episode.as_deref(), Some("03"));
}

#[test]
fn parse_tv_title_and_no_title() {
    let parser = TvParser::new(&tv_patterns()).unwrap();
    let meta = parser.parse("Breaking.Bad.S01E03.Pilot.mkv").unwrap();
    assert_eq!(meta.episode_title.as_deref(), Some("Pilot"));
    let meta = parser.parse("Breaking_Bad_S01E03.mkv").unwrap();
    assert_eq!(meta.episode_title, None);
    assert_eq!(meta.title, None);
    assert!(parser.parse("random.mkv").is_none());
}

#[test]
fn movie_fallback_pattern_takes_whole_name() {
    let parser = MovieParser::new(&default_movie_patterns()).unwrap();
    let meta = parser.parse("Some_Home_Video.mp4").unwrap();
    assert_eq!(meta.title.as_deref(), Some("Some Home Video"));
    assert_eq!(meta.year, None);
}

#[test]
fn no_pattern_matches() {
    let p = MoviePatterns {
        input_patterns: vec![r"^(?P<title>\d+)$".to_string()],
        directory_template: String::new(),
        file_template: String::new(),
    };
    let parser = MovieParser::new(&p).unwrap();
    assert!(parser.parse("Alien.mkv").is_none());
    assert_eq!(parser.parse("1234.mkv").unwrap().title.as_deref(), Some("1234"));
}

#[test]
fn invalid_pattern_is_reported() {
    let p = MoviePatterns {
        input_patterns: vec![r"(?P<title>.+)".to_string(), r"foo(bar".to_string(), r"(".to_string()],
        directory_template: String::new(),
        file_template: String::new(),
    };
    let e = MovieParser::new(&p).err().unwrap();
    assert_eq!(e.pattern, "foo(bar");
    assert!(!e.message.is_empty());
}

#[test]
fn file_name_helpers() {
    assert_eq!(strip_extension("Alien (1979).mkv"), "Alien (1979)");
    assert_eq!(strip_extension("a.b.c"), "a.b");
    assert_eq!(strip_extension(".hidden"), ".hidden");
    assert_eq!(strip_extension("noext"), "noext");
    assert_eq!(normalize_separators("The.Matrix_1999"), "The Matrix 1999");
    assert_eq!(clean_name("  - The Matrix._ "), "The Matrix");
    assert_eq!(clean_name("\t-x-\n"), "x");
}
