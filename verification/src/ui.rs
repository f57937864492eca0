//! What the screens show, as text: key hints, labels, truncated names and
//! metadata lines. Drawing them is the terminal front end's work.
use vstd::prelude::*;
use crate::app::{AppState, StateView};
use crate::media::{MediaFile, MediaType, RenameStatus, StatusView, MetaView, effective_meta, opt_view, copy_opt, status_label, FileView};
use crate::number::{decimal, usize_to_string};
use crate::text::{chars_of, string_from, sub_vec};

verus! {

/// Key hint: label + description.
#[derive(Clone, Copy, Debug, PartialEq, Eq)]
pub struct Hint {
    pub key: &'static str,
    pub desc: &'static str,
}

pub open spec fn hint_views(h: Seq<Hint>) -> Seq<(Seq<char>, Seq<char>)> {
    h.map_values(|x: Hint| (x.key@, x.desc@))
}

/// The key hints of each screen.
pub open spec fn hints_spec(s: StateView) -> Seq<(Seq<char>, Seq<char>)> {
    match s {
        StateView::Scanning => seq![("q"@, "quit"@)],
        StateView::Browsing => seq![
            ("Tab"@, "switch tab"@),
            ("j/k"@, "navigate"@),
            ("Enter"@, "preview"@),
            ("a"@, "approve"@),
            ("s"@, "skip"@),
            ("A"@, "approve all"@),
            ("S"@, "skip all"@),
            ("R"@, "run renames"@),
            ("r"@, "rescan"@),
            ("p"@, "set paths"@),
            ("q"@, "quit"@),
        ],
        StateView::Previewing => seq![
            ("Tab"@, "switch tab"@),
            ("j/k"@, "navigate"@),
            ("Enter"@, "back"@),
            ("a"@, "approve"@),
            ("s"@, "skip"@),
            ("A"@, "approve all"@),
            ("R"@, "run renames"@),
            ("p"@, "set paths"@),
            ("q"@, "quit"@),
        ],
        StateView::EditingPaths { .. } => seq![
            ("Tab"@, "switch field"@),
            ("Enter"@, "apply & scan"@),
            ("Esc"@, "cancel"@),
        ],
        StateView::Renaming { .. } => seq![("q"@, "quit"@)],
        StateView::Done => seq![("q/Enter"@, "quit"@)],
    }
}

fn push_hint(v: &mut Vec<Hint>, key: &'static str, desc: &'static str)
    ensures
        hint_views(final(v)@) == hint_views(old(v)@).push((key@, desc@)),
{
    let ghost before = v@;
    v.push(Hint { key, desc });
    assert(hint_views(v@) =~= hint_views(before).push((key@, desc@)));
}

/// The key hints shown in the status bar for a screen.
pub fn hints_for_state(state: &AppState) -> (r: Vec<Hint>)
    ensures
        hint_views(r@) == hints_spec(state@),
{
    let mut v: Vec<Hint> = Vec::new();
    assert(hint_views(v@) =~= Seq::empty());
    match state {
        AppState::Scanning => {
            push_hint(&mut v, "q", "quit");
        },
        AppState::Browsing => {
            push_hint(&mut v, "Tab", "switch tab");
            push_hint(&mut v, "j/k", "navigate");
            push_hint(&mut v, "Enter", "preview");
            push_hint(&mut v, "a", "approve");
            push_hint(&mut v, "s", "skip");
            push_hint(&mut v, "A", "approve all");
            push_hint(&mut v, "S", "skip all");
            push_hint(&mut v, "R", "run renames");
            push_hint(&mut v, "r", "rescan");
            push_hint(&mut v, "p", "set paths");
            push_hint(&mut v, "q", "quit");
        },
        AppState::Previewing => {
            push_hint(&mut v, "Tab", "switch tab");
            push_hint(&mut v, "j/k", "navigate");
            push_hint(&mut v, "Enter", "back");
            push_hint(&mut v, "a", "approve");
            push_hint(&mut v, "s", "skip");
            push_hint(&mut v, "A", "approve all");
            push_hint(&mut v, "R", "run renames");
            push_hint(&mut v, "p", "set paths");
            push_hint(&mut v, "q", "quit");
        },
        AppState::EditingPaths { .. } => {
            push_hint(&mut v, "Tab", "switch field");
            push_hint(&mut v, "Enter", "apply & scan");
            push_hint(&mut v, "Esc", "cancel");
        },
        AppState::Renaming { .. } => {
            push_hint(&mut v, "q", "quit");
        },
        AppState::Done => {
            push_hint(&mut v, "q/Enter", "quit");
        },
    }
    assert(hint_views(v@) =~= hints_spec(state@));
    v
}

/// The state part of the title bar.
pub open spec fn state_label_spec(s: StateView) -> Seq<char> {
    match s {
        StateView::Scanning => " | Scanning…"@,
        StateView::Browsing => " | Browsing"@,
        StateView::Previewing => " | Preview"@,
        StateView::Renaming { completed, total } => " | Renaming "@ + decimal(completed as nat)
            + "/"@ + decimal(total as nat),
        StateView::Done => " | Done"@,
        StateView::EditingPaths { .. } => " | Set Paths"@,
    }
}

pub fn state_label(state: &AppState) -> (r: String)
    ensures
        r@ == state_label_spec(state@),
{
    match state {
        AppState::Scanning => String::from_str(" | Scanning…"),
        AppState::Browsing => String::from_str(" | Browsing"),
        AppState::Previewing => String::from_str(" | Preview"),
        AppState::Renaming { completed, total } => {
            let s = String::from_str(" | Renaming ");
            let c = usize_to_string(*completed);
            let t = usize_to_string(*total);
            let s = s.concat(c.as_str());
            let s = s.concat("/");
            s.concat(t.as_str())
        },
        AppState::Done => String::from_str(" | Done"),
        AppState::EditingPaths { .. } => String::from_str(" | Set Paths"),
    }
}

/// A name cut to at most `max` characters: longer names keep their first
/// `max - 1` characters (none when `max` is 0) followed by `…`.
pub open spec fn truncate_spec(name: Seq<char>, max: nat) -> Seq<char> {
    if name.len() > max {
        name.subrange(0, if max > 0 { max - 1 } else { 0 }) + seq!['…']
    } else {
        name
    }
}

/// Truncate a file name to fit a panel of the given width in characters.
pub fn truncate_name(name: &str, max: usize) -> (r: String)
    ensures
        r@ == truncate_spec(name@, max as nat),
{
    let v = chars_of(name);
    if v.len() > max {
        let keep = if max > 0 { max - 1 } else { 0 };
        let mut w = sub_vec(&v, 0, keep);
        w.push('…');
        string_from(w.as_slice())
    } else {
        String::from_str(name)
    }
}

/// Where the metadata shown comes from.
pub open spec fn source_spec(resolved: bool, parsed: bool) -> Seq<char> {
    if resolved {
        "API"@
    } else if parsed {
        "filename"@
    } else {
        "none"@
    }
}

pub fn metadata_source(file: &MediaFile) -> (r: &'static str)
    ensures
        r@ == source_spec(file.resolved_metadata is Some, file.parsed_metadata is Some),
{
    if file.resolved_metadata.is_some() {
        "API"
    } else if file.parsed_metadata.is_some() {
        "filename"
    } else {
        "none"
    }
}

/// The labelled metadata fields shown for a file of the given kind.
pub open spec fn fields_spec(mt: MediaType, m: MetaView) -> Seq<(Seq<char>, Option<Seq<char>>)> {
    match mt {
        MediaType::Movie => seq![("title"@, m.title), ("year"@, m.year)],
        MediaType::TvEpisode => seq![
            ("show"@, m.show),
            ("show year"@, m.show_year),
            ("season"@, m.season),
            ("episode"@, m.episode),
            ("episode title"@, m.episode_title),
        ],
    }
}

pub open spec fn field_views(v: Seq<(&'static str, Option<String>)>) -> Seq<(Seq<char>, Option<Seq<char>>)> {
    v.map_values(|p: (&'static str, Option<String>)| (p.0@, opt_view(p.1)))
}

fn push_field(v: &mut Vec<(&'static str, Option<String>)>, label: &'static str, value: &Option<String>)
    ensures
        field_views(final(v)@) == field_views(old(v)@).push((label@, opt_view(*value))),
{
    let ghost before = v@;
    v.push((label, copy_opt(value)));
    assert(field_views(v@) =~= field_views(before).push((label@, opt_view(*value))));
}

/// The metadata fields of a file's effective metadata, empty when it has none.
pub fn metadata_fields(file: &MediaFile) -> (r: Vec<(&'static str, Option<String>)>)
    ensures
        field_views(r@) == match effective_meta(file@) {
            Some(m) => fields_spec(file.media_type, m),
            None => Seq::empty(),
        },
{
    let mut v: Vec<(&'static str, Option<String>)> = Vec::new();
    assert(field_views(v@) =~= Seq::empty());
    if let Some(meta) = file.effective_metadata() {
        match file.media_type {
            MediaType::Movie => {
                push_field(&mut v, "title", &meta.title);
                push_field(&mut v, "year", &meta.year);
            },
            MediaType::TvEpisode => {
                push_field(&mut v, "show", &meta.show);
                push_field(&mut v, "show year", &meta.show_year);
                push_field(&mut v, "season", &meta.season);
                push_field(&mut v, "episode", &meta.episode);
                push_field(&mut v, "episode title", &meta.episode_title);
            },
        }
        assert(field_views(v@) =~= fields_spec(file.media_type, meta@));
    }
    v
}

/// What the preview shows in place of a missing proposed path.
pub open spec fn placeholder_spec(s: StatusView) -> Seq<char> {
    match s {
        StatusView::LoadingMetadata => "Loading metadata from API…"@,
        StatusView::Error(e) => "Error: "@ + e,
        StatusView::AlreadyCorrect => "Path is already correct."@,
        _ => "No proposed path — check config or parsing."@,
    }
}

pub fn proposed_placeholder(status: &RenameStatus) -> (r: String)
    ensures
        r@ == placeholder_spec(status@),
{
    match status {
        RenameStatus::LoadingMetadata => String::from_str("Loading metadata from API…"),
        RenameStatus::Error(e) => String::from_str("Error: ").concat(e.as_str()),
        RenameStatus::AlreadyCorrect => String::from_str("Path is already correct."),
        _ => String::from_str("No proposed path — check config or parsing."),
    }
}

/// The three parts of the title bar: the program name, the dry-run tag
/// (empty unless this is a dry run) and the label of the screen.
pub open spec fn title_spec(dry_run: bool, s: StateView) -> (Seq<char>, Seq<char>, Seq<char>) {
    ("  nas_normlzr"@, if dry_run { " [DRY RUN]"@ } else { ""@ }, state_label_spec(s))
}

/// The texts of the title bar, in order.
pub fn title_bar(dry_run: bool, state: &AppState) -> (r: (&'static str, &'static str, String))
    ensures
        (r.0@, r.1@, r.2@) == title_spec(dry_run, state@),
{
    let tag = if dry_run { " [DRY RUN]" } else { "" };
    ("  nas_normlzr", tag, state_label(state))
}

/// A line of the metadata panel: the label text, the value text, and
/// whether the value is missing (then shown as a dash).
pub struct PanelLine {
    pub label: String,
    pub value: String,
    pub missing: bool,
}

pub open spec fn panel_line_view(l: PanelLine) -> (Seq<char>, Seq<char>, bool) {
    (l.label@, l.value@, l.missing)
}

/// The panel line of a labelled field: `<label>: ` and the value, or a dash
/// when the value is missing.
pub open spec fn field_line_spec(f: (Seq<char>, Option<Seq<char>>)) -> (Seq<char>, Seq<char>, bool) {
    (
        f.0 + ": "@,
        match f.1 {
            Some(v) => v,
            None => "—"@,
        },
        f.1 is None,
    )
}

/// The lines of the metadata panel of a file: where its metadata comes
/// from, one line per field of its effective metadata (none when it has
/// none), and its status.
pub open spec fn panel_spec(f: FileView) -> Seq<(Seq<char>, Seq<char>, bool)> {
    seq![("Source: "@, source_spec(f.resolved is Some, f.parsed is Some), false)]
        + match effective_meta(f) {
        Some(m) => fields_spec(f.media_type, m),
        None => Seq::empty(),
    }.map_values(|x: (Seq<char>, Option<Seq<char>>)| field_line_spec(x)) + seq![
        ("status: "@, status_label(f.status), false),
    ]
}

/// The lines of the metadata panel shown in the preview of a file.
pub fn metadata_lines(file: &MediaFile) -> (r: Vec<PanelLine>)
    ensures
        r@.map_values(|l: PanelLine| panel_line_view(l)) == panel_spec(file@),
{
    let ghost fields_view = match effective_meta(file@) {
        Some(m) => fields_spec(file.media_type, m),
        None => Seq::<(Seq<char>, Option<Seq<char>>)>::empty(),
    };
    let mut v: Vec<PanelLine> = Vec::new();
    v.push(
        PanelLine {
            label: String::from_str("Source: "),
            value: String::from_str(metadata_source(file)),
            missing: false,
        },
    );
    let fields = metadata_fields(file);
    let mut i: usize = 0;
    proof {
        assert(v@.map_values(|l: PanelLine| panel_line_view(l)) =~= seq![
            ("Source: "@, source_spec(file@.resolved is Some, file@.parsed is Some), false),
        ] + fields_view.subrange(0, 0).map_values(
            |x: (Seq<char>, Option<Seq<char>>)| field_line_spec(x),
        ));
    }
    while i < fields.len()
        invariant
            i <= fields.len(),
            field_views(fields@) == fields_view,
            v@.map_values(|l: PanelLine| panel_line_view(l)) == seq![
                ("Source: "@, source_spec(file@.resolved is Some, file@.parsed is Some), false),
            ] + fields_view.subrange(0, i as int).map_values(
                |x: (Seq<char>, Option<Seq<char>>)| field_line_spec(x),
            ),
        decreases fields.len() - i,
    {
        let ghost before = v@;
        let label = String::from_str(fields[i].0).concat(": ");
        let (value, missing) = match &fields[i].1 {
            Some(s) => (String::from_str(s.as_str()), false),
            None => (String::from_str("—"), true),
        };
        v.push(PanelLine { label, value, missing });
        proof {
            assert(fields_view[i as int] == (fields@[i as int].0@, opt_view(fields@[i as int].1)));
            assert(fields_view.subrange(0, i + 1) =~= fields_view.subrange(0, i as int).push(
                fields_view[i as int],
            ));
            assert(v@.map_values(|l: PanelLine| panel_line_view(l)) =~= before.map_values(
                |l: PanelLine| panel_line_view(l),
            ).push(field_line_spec(fields_view[i as int])));
        }
        i = i + 1;
    }
    let ghost middle = v@;
    v.push(
        PanelLine {
            label: String::from_str("status: "),
            value: String::from_str(file.status.label()),
            missing: false,
        },
    );
    proof {
        assert(fields_view.subrange(0, i as int) =~= fields_view);
        assert(v@.map_values(|l: PanelLine| panel_line_view(l)) =~= middle.map_values(
            |l: PanelLine| panel_line_view(l),
        ).push(("status: "@, status_label(file@.status), false)));
        assert(v@.map_values(|l: PanelLine| panel_line_view(l)) =~= panel_spec(file@));
    }
    v
}

/// A rectangle of the screen: its top-left corner and its size.
#[derive(Clone, Copy, Debug, PartialEq, Eq, Structural)]
pub struct Area {
    pub x: u16,
    pub y: u16,
    pub width: u16,
    pub height: u16,
}

/// Half of what is left of `len` after `want` (nothing when `want` is larger).
pub open spec fn margin(len: u16, want: u16) -> int {
    (if len > want { len - want } else { 0int }) / 2
}

/// Whether a popup of the given size can be centred in `area` without its
/// corner leaving the range of `u16`.
pub open spec fn popup_fits_spec(width: u16, height: u16, area: Area) -> bool {
    area.x + margin(area.width, width) <= u16::MAX && area.y + margin(area.height, height)
        <= u16::MAX
}

/// A rectangle at (`x`, `y`) of the given size, with the width and height
/// cut so that its right and bottom edges stay within `u16` (as
/// `ratatui::layout::Rect::new` builds it).
pub open spec fn area_spec(x: u16, y: u16, width: u16, height: u16) -> Area {
    Area {
        x,
        y,
        width: if width > u16::MAX - x { (u16::MAX - x) as u16 } else { width },
        height: if height > u16::MAX - y { (u16::MAX - y) as u16 } else { height },
    }
}

impl Area {
    /// The rectangle at (`x`, `y`) of the given size, its width and height
    /// cut to keep its edges within `u16`.
    pub fn new(x: u16, y: u16, width: u16, height: u16) -> (r: Area)
        ensures
            r == area_spec(x, y, width, height),
    {
        let max_width = u16::MAX - x;
        let max_height = u16::MAX - y;
        Area {
            x,
            y,
            width: if width > max_width { max_width } else { width },
            height: if height > max_height { max_height } else { height },
        }
    }
}

/// A rectangle of the given size centred in `area`, cut to `area`'s size
/// and then to the range of `u16`.
pub open spec fn centered_spec(width: u16, height: u16, area: Area) -> Area {
    area_spec(
        (area.x + margin(area.width, width)) as u16,
        (area.y + margin(area.height, height)) as u16,
        if width < area.width { width } else { area.width },
        if height < area.height { height } else { area.height },
    )
}

/// Whether `centered_popup` can place the popup.
pub fn popup_fits(width: u16, height: u16, area: Area) -> (r: bool)
    ensures
        r == popup_fits_spec(width, height, area),
{
    let mx: u32 = (if area.width > width { area.width - width } else { 0 }) as u32 / 2;
    let my: u32 = (if area.height > height { area.height - height } else { 0 }) as u32 / 2;
    area.x as u32 + mx <= 0xffff && area.y as u32 + my <= 0xffff
}

/// A rectangle of the given size centred in `area` (cut to `area`'s size and
/// to the range of `u16`).
pub fn centered_popup(width: u16, height: u16, area: Area) -> (r: Area)
    requires
        popup_fits_spec(width, height, area),
    ensures
        r == centered_spec(width, height, area),
{
    let x = area.x + area.width.saturating_sub(width) / 2;
    let y = area.y + area.height.saturating_sub(height) / 2;
    Area::new(
        x,
        y,
        if width < area.width { width } else { area.width },
        if height < area.height { height } else { area.height },
    )
}

} // verus!
