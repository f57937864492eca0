use nas_normlzr::app::{lookup_outcome, App, AppMsg, AppState, Command, Key, KeyCode, PathField};
use nas_normlzr::config::{ApiConfig, Config, MoviePatterns, Patterns, Roots, TvPatterns, UiConfig};
use nas_normlzr::media::{MediaFile, MediaType, ParsedMetadata, RenameStatus};

fn config() -> Config {
    Config {
        roots: Roots { movies: Some("/m".to_string()), tv_shows: None },
        patterns: Patterns {
            movies: MoviePatterns {
                input_patterns: vec![],
                directory_template: "{title} ({year})".to_string(),
                file_template: "{title} ({year}){ext}".to_string(),
            },
            tv_shows: TvPatterns {
                input_patterns: vec![],
                show_directory_template: String::new(),
                season_directory_template: String::new(),
                episode_file_template: String::new(),
                episode_file_template_no_title: String::new(),
            },
        },
        api: ApiConfig { tmdb_api_key: String::new(), tvdb_api_key: String::new(), enable_api_fallback: true },
        ui: UiConfig { browser_height: 20 },
    }
}

fn key(c: char) -> Key {
    Key { code: KeyCode::Char(c), ctrl: false }
}

fn code(k: KeyCode) -> Key {
    Key { code: k, ctrl: false }
}

fn file(path: &str, status: RenameStatus, proposed: Option<&str>) -> MediaFile {
    let mut f = MediaFile::new(path.to_string(), MediaType::Movie);
    f.status = status;
    f.proposed_path = proposed.map(|s| s.to_string());
    f
}

fn browsing_app() -> App {
    let mut app = App::new(config(), false);
    let files = vec![
        file("/d/a.mkv", RenameStatus::Pending, Some("/m/a.mkv")),
        file("/d/b.mkv", RenameStatus::Pending, Some("/m/b.mkv")),
        file("/d/c.mkv", RenameStatus::AlreadyCorrect, None),
    ];
    let cmd = app.handle_msg(AppMsg::ScanComplete(files));
    assert!(matches!(cmd, Command::Nothing));
    app
}

#[test]
fn new_app_is_scanning() {
    let app = App::new(config(), true);
    assert_eq!(app.state, AppState::Scanning);
    assert_eq!(app.status_msg, "Scanning…");
    assert!(app.dry_run);
}

#[test]
fn scan_complete_moves_to_browsing() {
    let app = browsing_app();
    assert_eq!(app.state, AppState::Browsing);
    assert_eq!(app.status_msg, "Found 3 files. [a] approve  [s] skip  [R] run renames");
    assert_eq!(app.pending_count(), 2);
    assert_eq!(app.approved_count(), 0);
}

#[test]
fn scan_error_message() {
    let mut app = App::new(config(), false);
    app.handle_msg(AppMsg::ScanError("boom".to_string()));
    assert_eq!(app.state, AppState::Browsing);
    assert_eq!(app.status_msg, "Scan error: boom");
}

#[test]
fn navigation_stays_in_list() {
    let mut app = browsing_app();
    app.handle_key(code(KeyCode::Up));
    assert_eq!(app.selected_idx, 0);
    for _ in 0..5 {
        app.handle_key(key('j'));
    }
    assert_eq!(app.selected_idx, 2);
    app.handle_key(key('k'));
    assert_eq!(app.selected_idx, 1);
    app.handle_key(code(KeyCode::Enter));
    assert_eq!(app.state, AppState::Previewing);
    app.handle_key(code(KeyCode::Enter));
    assert_eq!(app.state, AppState::Browsing);
}

#[test]
fn approve_and_skip_selected() {
    let mut app = browsing_app();
    app.handle_key(key('a'));
    assert_eq!(app.files[0].status, RenameStatus::Approved);
    app.handle_key(key('s'));
    assert_eq!(app.files[0].status, RenameStatus::Skipped);
    app.handle_key(key('a'));
    assert_eq!(app.files[0].status, RenameStatus::Approved);
    app.selected_idx = 2;
    app.handle_key(key('a'));
    assert_eq!(app.files[2].status, RenameStatus::AlreadyCorrect);
}

#[test]
fn approve_all_and_skip_all() {
    let mut app = browsing_app();
    app.handle_key(key('A'));
    assert_eq!(app.pending_count(), 0);
    assert_eq!(app.approved_count(), 2);
    assert_eq!(app.status_msg, "All pending renames approved. Press [R] to execute.");
    let mut app = browsing_app();
    app.handle_key(key('S'));
    assert_eq!(app.pending_count(), 0);
    assert_eq!(app.approved_count(), 0);
    assert_eq!(app.status_msg, "All pending renames skipped.");
}

#[test]
fn rename_run_progress() {
    let mut app = browsing_app();
    let cmd = app.handle_key(key('R'));
    assert!(matches!(cmd, Command::Nothing));
    assert_eq!(app.status_msg, "No approved renames. Press [a] to approve files first.");
    app.handle_key(key('A'));
    let cmd = app.handle_key(key('R'));
    let jobs = match cmd {
        Command::Rename(j) => j,
        _ => panic!("expected renames"),
    };
    assert_eq!(jobs.len(), 2);
    assert_eq!(jobs[1].idx, 1);
    assert_eq!(jobs[1].from, "/d/b.mkv");
    assert_eq!(jobs[1].to, "/m/b.mkv");
    assert_eq!(app.state, AppState::Renaming { completed: 0, total: 2 });
    assert_eq!(app.status_msg, "Renaming 0 / 2…");
    app.handle_msg(AppMsg::RenameComplete { idx: 0 });
    assert_eq!(app.state, AppState::Renaming { completed: 1, total: 2 });
    assert_eq!(app.status_msg, "Renaming 1 / 2…");
    app.handle_msg(AppMsg::RenameFailed { idx: 1, error: "denied".to_string() });
    assert_eq!(app.state, AppState::Done);
    assert_eq!(app.status_msg, "Done! 1 renamed, 1 errors. Press [q] to quit.");
    assert!(matches!(app.handle_key(code(KeyCode::Enter)), Command::Quit));
}

#[test]
fn quitting() {
    let mut app = App::new(config(), false);
    assert!(matches!(app.handle_key(key('x')), Command::Nothing));
    assert!(matches!(app.handle_key(key('q')), Command::Quit));
    let mut app = browsing_app();
    assert!(matches!(app.handle_key(code(KeyCode::Esc)), Command::Quit));
    assert!(matches!(app.handle_key(Key { code: KeyCode::Char('c'), ctrl: true }), Command::Quit));
}

#[test]
fn path_editor() {
    let mut app = browsing_app();
    app.handle_key(key('p'));
    assert_eq!(
        app.state,
        AppState::EditingPaths { movies: "/m".to_string(), tv_shows: String::new(), active: PathField::Movies }
    );
    app.handle_key(key('x'));
    app.handle_key(code(KeyCode::Backspace));
    app.handle_key(code(KeyCode::Backspace));
    app.handle_key(code(KeyCode::Tab));
    for c in " /tv ".chars() {
        app.handle_key(key(c));
    }
    assert_eq!(
        app.state,
        AppState::EditingPaths { movies: "/".to_string(), tv_shows: " /tv ".to_string(), active: PathField::TvShows }
    );
    app.handle_key(code(KeyCode::Tab));
    app.handle_key(code(KeyCode::Backspace));
    let cmd = app.handle_key(code(KeyCode::Enter));
    assert!(matches!(cmd, Command::Scan));
    assert_eq!(app.config.roots.movies, None);
    assert_eq!(app.config.roots.tv_shows.as_deref(), Some("/tv"));
    assert_eq!(app.state, AppState::Scanning);
    assert!(app.files.is_empty());
    assert_eq!(app.status_msg, "Scanning…");
}

#[test]
fn path_editor_escape_keeps_roots() {
    let mut app = browsing_app();
    app.handle_key(key('p'));
    app.handle_key(key('z'));
    app.handle_key(code(KeyCode::Esc));
    assert_eq!(app.state, AppState::Browsing);
    assert_eq!(app.config.roots.movies.as_deref(), Some("/m"));
}

#[test]
fn rescan_resets() {
    let mut app = browsing_app();
    app.handle_key(key('j'));
    let cmd = app.handle_key(key('r'));
    assert!(matches!(cmd, Command::Scan));
    assert_eq!(app.selected_idx, 0);
    assert!(app.files.is_empty());
}

#[test]
fn metadata_messages() {
    let mut c = config();
    c.api.tmdb_api_key = "k".to_string();
    let mut app = App::new(c, false);
    let files = vec![
        file("/d/a.mkv", RenameStatus::LoadingMetadata, None),
        file("/d/b.mkv", RenameStatus::Pending, Some("/m/b.mkv")),
        file("/m/c.mkv", RenameStatus::LoadingMetadata, None),
    ];
    let cmd = app.handle_msg(AppMsg::ScanComplete(files));
    let targets = match cmd {
        Command::LookupMetadata(t) => t,
        _ => panic!("expected lookups"),
    };
    let idxs: Vec<usize> = targets.iter().map(|t| t.0).collect();
    assert_eq!(idxs, vec![0, 2]);
    let mut meta = ParsedMetadata::default();
    meta.title = Some("A".to_string());
    app.handle_msg(AppMsg::MetadataResolved { idx: 0, metadata: meta.clone(), proposed_path: "/m/A.mkv".to_string() });
    assert_eq!(app.files[0].status, RenameStatus::Pending);
    assert_eq!(app.files[0].resolved_metadata, Some(meta.clone()));
    app.handle_msg(AppMsg::MetadataResolved { idx: 2, metadata: meta, proposed_path: "/m/c.mkv".to_string() });
    assert_eq!(app.files[2].status, RenameStatus::AlreadyCorrect);
    app.handle_msg(AppMsg::MetadataFailed { idx: 1, error: "No metadata found".to_string() });
    assert_eq!(app.files[1].status, RenameStatus::Error("No metadata found".to_string()));
    app.handle_msg(AppMsg::MetadataFailed { idx: 9, error: "x".to_string() });
    assert_eq!(app.files.len(), 3);
}

#[test]
fn lookup_outcomes() {
    let f = file("/d/Alien.mkv", RenameStatus::LoadingMetadata, None);
    let mut meta = ParsedMetadata::default();
    meta.title = Some("Alien".to_string());
    meta.year = Some("1979".to_string());
    match lookup_outcome(4, &f, Ok(Some(meta.clone())), &config()) {
        AppMsg::MetadataResolved { idx, metadata, proposed_path } => {
            assert_eq!(idx, 4);
            assert_eq!(metadata, meta);
            assert_eq!(proposed_path, "/m/Alien (1979)/Alien (1979).mkv");
        }
        _ => panic!("expected resolved"),
    }
    let mut partial = ParsedMetadata::default();
    partial.title = Some("Alien".to_string());
    match lookup_outcome(4, &f, Ok(Some(partial)), &config()) {
        AppMsg::MetadataFailed { error, .. } => assert_eq!(error, "Could not compute path after API lookup"),
        _ => panic!("expected failure"),
    }
    match lookup_outcome(4, &f, Ok(None), &config()) {
        AppMsg::MetadataFailed { error, .. } => assert_eq!(error, "No metadata found"),
        _ => panic!("expected failure"),
    }
    match lookup_outcome(4, &f, Err("net".to_string()), &config()) {
        AppMsg::MetadataFailed { error, .. } => assert_eq!(error, "net"),
        _ => panic!("expected failure"),
    }
}
