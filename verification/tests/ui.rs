use nas_normlzr::app::{AppState, PathField};
use nas_normlzr::media::{MediaFile, MediaType, ParsedMetadata, RenameStatus};
use nas_normlzr::number::usize_to_string;
use nas_normlzr::ui::{
    centered_popup, hints_for_state, metadata_fields, metadata_lines, metadata_source,
    popup_fits, proposed_placeholder, state_label, title_bar, truncate_name, Area,
};

#[test]
fn hints() {
    let h = hints_for_state(&AppState::Scanning);
    assert_eq!(h.len(), 1);
    assert_eq!((h[0].key, h[0].desc), ("q", "quit"));
    assert_eq!(hints_for_state(&AppState::Browsing).len(), 11);
    assert_eq!(hints_for_state(&AppState::Previewing)[2].desc, "back");
    let e = AppState::EditingPaths { movies: String::new(), tv_shows: String::new(), active: PathField::Movies };
    assert_eq!(hints_for_state(&e)[1].desc, "apply & scan");
    assert_eq!(hints_for_state(&AppState::Done)[0].key, "q/Enter");
}

#[test]
fn labels() {
    assert_eq!(state_label(&AppState::Renaming { completed: 3, total: 10 }), " | Renaming 3/10");
    assert_eq!(state_label(&AppState::Previewing), " | Preview");
    assert_eq!(usize_to_string(0), "0");
    assert_eq!(usize_to_string(1234567), "1234567");
}

#[test]
fn truncation() {
    assert_eq!(truncate_name("abcdef", 4), "abc…");
    assert_eq!(truncate_name("abc", 3), "abc");
    assert_eq!(truncate_name("abc", 0), "…");
}

#[test]
fn metadata_panel() {
    let mut f = MediaFile::new("/x.mkv".to_string(), MediaType::TvEpisode);
    assert_eq!(metadata_source(&f), "none");
    assert!(metadata_fields(&f).is_empty());
    let mut m = ParsedMetadata::default();
    m.show = Some("S".to_string());
    f.parsed_metadata = Some(m);
    assert_eq!(metadata_source(&f), "filename");
    let fields = metadata_fields(&f);
    assert_eq!(fields.len(), 5);
    assert_eq!(fields[0], ("show", Some("S".to_string())));
    assert_eq!(fields[1], ("show year", None));
    assert_eq!(proposed_placeholder(&RenameStatus::Error("e".to_string())), "Error: e");
    assert_eq!(proposed_placeholder(&RenameStatus::Pending), "No proposed path — check config or parsing.");
}

#[test]
fn metadata_panel_lines() {
    let mut f = MediaFile::new("/x.mkv".to_string(), MediaType::Movie);
    let lines = metadata_lines(&f);
    assert_eq!(lines.len(), 2);
    assert_eq!((lines[0].label.as_str(), lines[0].value.as_str()), ("Source: ", "none"));
    assert_eq!((lines[1].label.as_str(), lines[1].value.as_str()), ("status: ", "pending"));
    let mut m = ParsedMetadata::default();
    m.title = Some("Alien".to_string());
    f.parsed_metadata = Some(m);
    f.status = RenameStatus::LoadingMetadata;
    let lines = metadata_lines(&f);
    assert_eq!(lines.len(), 4);
    assert_eq!((lines[0].label.as_str(), lines[0].value.as_str()), ("Source: ", "filename"));
    assert_eq!((lines[1].label.as_str(), lines[1].value.as_str(), lines[1].missing), ("title: ", "Alien", false));
    assert_eq!((lines[2].label.as_str(), lines[2].value.as_str(), lines[2].missing), ("year: ", "—", true));
    assert_eq!((lines[3].label.as_str(), lines[3].value.as_str()), ("status: ", "loading"));
}

#[test]
fn title_bar_texts() {
    assert_eq!(title_bar(false, &AppState::Browsing), ("  nas_normlzr", "", " | Browsing".to_string()));
    assert_eq!(
        title_bar(true, &AppState::Renaming { completed: 1, total: 2 }),
        ("  nas_normlzr", " [DRY RUN]", " | Renaming 1/2".to_string())
    );
}

#[test]
fn popup_is_centred() {
    let area = Area { x: 0, y: 0, width: 100, height: 40 };
    assert!(popup_fits(64, 12, area));
    assert_eq!(centered_popup(64, 12, area), Area { x: 18, y: 14, width: 64, height: 12 });
    let small = Area { x: 5, y: 2, width: 30, height: 8 };
    assert_eq!(centered_popup(64, 12, small), Area { x: 5, y: 2, width: 30, height: 8 });
    assert!(!popup_fits(0, 0, Area { x: 65300, y: 0, width: 1000, height: 0 }));
}

#[test]
fn popup_is_cut_to_the_screen_range() {
    let area = Area { x: 65000, y: 0, width: 1000, height: 40 };
    assert!(popup_fits(800, 10, area));
    assert_eq!(centered_popup(800, 10, area), Area { x: 65100, y: 15, width: 435, height: 10 });
    assert_eq!(Area::new(65530, 65535, 10, 3), Area { x: 65530, y: 65535, width: 5, height: 0 });
}
