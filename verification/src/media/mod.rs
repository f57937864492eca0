//! Media files, their metadata and rename status.
use vstd::prelude::*;
use crate::paths::{file_name_of, file_name_bounds, path_eq, same_path};
use crate::text::chars_of;
use vstd::string::StrSliceExecFns;

pub mod pattern;
pub mod parser;
pub mod renamer;
pub mod scanner;

verus! {

/// Kind of media a file holds.
#[derive(Clone, Copy, Debug, PartialEq, Eq, Structural)]
pub enum MediaType {
    Movie,
    TvEpisode,
}

/// Where a file stands in the rename workflow.
#[derive(Clone, Debug, PartialEq, Eq)]
pub enum RenameStatus {
    /// Proposed path computed; waiting for user decision.
    Pending,
    /// User approved; waiting to be executed.
    Approved,
    /// User skipped.
    Skipped,
    /// Rename executed successfully.
    Done,
    /// Current path already matches the desired pattern.
    AlreadyCorrect,
    /// Waiting for API metadata response.
    LoadingMetadata,
    /// Rename failed (message included).
    Error(String),
}

/// `RenameStatus` with the error message as characters.
pub enum StatusView {
    Pending,
    Approved,
    Skipped,
    Done,
    AlreadyCorrect,
    LoadingMetadata,
    Error(Seq<char>),
}

impl View for RenameStatus {
    type V = StatusView;

    open spec fn view(&self) -> StatusView {
        match self {
            RenameStatus::Pending => StatusView::Pending,
            RenameStatus::Approved => StatusView::Approved,
            RenameStatus::Skipped => StatusView::Skipped,
            RenameStatus::Done => StatusView::Done,
            RenameStatus::AlreadyCorrect => StatusView::AlreadyCorrect,
            RenameStatus::LoadingMetadata => StatusView::LoadingMetadata,
            RenameStatus::Error(m) => StatusView::Error(m@),
        }
    }
}

/// The short label of a status.
pub open spec fn status_label(s: StatusView) -> Seq<char> {
    match s {
        StatusView::Pending => "pending"@,
        StatusView::Approved => "approved"@,
        StatusView::Skipped => "skipped"@,
        StatusView::Done => "done"@,
        StatusView::AlreadyCorrect => "ok"@,
        StatusView::LoadingMetadata => "loading"@,
        StatusView::Error(_) => "error"@,
    }
}

impl RenameStatus {
    pub fn label(&self) -> (r: &str)
        ensures
            r@ == status_label(self@),
    {
        match self {
            RenameStatus::Pending => "pending",
            RenameStatus::Approved => "approved",
            RenameStatus::Skipped => "skipped",
            RenameStatus::Done => "done",
            RenameStatus::AlreadyCorrect => "ok",
            RenameStatus::LoadingMetadata => "loading",
            RenameStatus::Error(_) => "error",
        }
    }

    /// A copy of this status.
    pub fn duplicate(&self) -> (r: RenameStatus)
        ensures
            r@ == self@,
    {
        match self {
            RenameStatus::Pending => RenameStatus::Pending,
            RenameStatus::Approved => RenameStatus::Approved,
            RenameStatus::Skipped => RenameStatus::Skipped,
            RenameStatus::Done => RenameStatus::Done,
            RenameStatus::AlreadyCorrect => RenameStatus::AlreadyCorrect,
            RenameStatus::LoadingMetadata => RenameStatus::LoadingMetadata,
            RenameStatus::Error(m) => RenameStatus::Error(m.clone()),
        }
    }
}

pub open spec fn opt_view(o: Option<String>) -> Option<Seq<char>> {
    match o {
        Some(s) => Some(s@),
        None => None,
    }
}

/// A copy of an optional string.
pub fn copy_opt(o: &Option<String>) -> (r: Option<String>)
    ensures
        opt_view(r) == opt_view(*o),
{
    match o {
        Some(s) => Some(s.clone()),
        None => None,
    }
}

/// Parsed/resolved metadata for a media file.
#[derive(Clone, Debug, PartialEq, Eq)]
pub struct ParsedMetadata {
    // Movie fields
    pub title: Option<String>,
    pub year: Option<String>,
    // TV fields
    pub show: Option<String>,
    /// Year the show first aired — fetched from API for Plex-compliant directory names.
    pub show_year: Option<String>,
    pub season: Option<String>,
    pub episode: Option<String>,
    pub episode_title: Option<String>,
}

/// `ParsedMetadata` with its strings as characters.
pub struct MetaView {
    pub title: Option<Seq<char>>,
    pub year: Option<Seq<char>>,
    pub show: Option<Seq<char>>,
    pub show_year: Option<Seq<char>>,
    pub season: Option<Seq<char>>,
    pub episode: Option<Seq<char>>,
    pub episode_title: Option<Seq<char>>,
}

impl View for ParsedMetadata {
    type V = MetaView;

    open spec fn view(&self) -> MetaView {
        MetaView {
            title: opt_view(self.title),
            year: opt_view(self.year),
            show: opt_view(self.show),
            show_year: opt_view(self.show_year),
            season: opt_view(self.season),
            episode: opt_view(self.episode),
            episode_title: opt_view(self.episode_title),
        }
    }
}

/// Metadata with no field set.
pub open spec fn empty_meta() -> MetaView {
    MetaView {
        title: None,
        year: None,
        show: None,
        show_year: None,
        season: None,
        episode: None,
        episode_title: None,
    }
}

impl Default for ParsedMetadata {
    fn default() -> (r: Self)
        ensures
            r@ == empty_meta(),
    {
        ParsedMetadata {
            title: None,
            year: None,
            show: None,
            show_year: None,
            season: None,
            episode: None,
            episode_title: None,
        }
    }
}

impl ParsedMetadata {
    /// True if all fields required for a movie rename are present.
    pub fn movie_complete(&self) -> (r: bool)
        ensures
            r == (self.title is Some && self.year is Some),
    {
        self.title.is_some() && self.year.is_some()
    }

    /// True if all fields required for a TV rename are present (episode title optional).
    pub fn tv_complete(&self) -> (r: bool)
        ensures
            r == (self.show is Some && self.season is Some && self.episode is Some),
    {
        self.show.is_some() && self.season.is_some() && self.episode.is_some()
    }

    /// A copy of this metadata.
    pub fn duplicate(&self) -> (r: ParsedMetadata)
        ensures
            r@ == self@,
    {
        ParsedMetadata {
            title: copy_opt(&self.title),
            year: copy_opt(&self.year),
            show: copy_opt(&self.show),
            show_year: copy_opt(&self.show_year),
            season: copy_opt(&self.season),
            episode: copy_opt(&self.episode),
            episode_title: copy_opt(&self.episode_title),
        }
    }
}

pub open spec fn opt_meta_view(o: Option<ParsedMetadata>) -> Option<MetaView> {
    match o {
        Some(m) => Some(m@),
        None => None,
    }
}

/// A media file found under one of the roots.
#[derive(Clone, Debug)]
pub struct MediaFile {
    pub path: String,
    pub media_type: MediaType,
    /// Metadata extracted directly from the filename.
    pub parsed_metadata: Option<ParsedMetadata>,
    /// Final metadata (may be enriched by API).
    pub resolved_metadata: Option<ParsedMetadata>,
    /// The proposed new absolute path after rename.
    pub proposed_path: Option<String>,
    pub status: RenameStatus,
}

/// `MediaFile` with its strings as characters.
pub struct FileView {
    pub path: Seq<char>,
    pub media_type: MediaType,
    pub parsed: Option<MetaView>,
    pub resolved: Option<MetaView>,
    pub proposed: Option<Seq<char>>,
    pub status: StatusView,
}

impl View for MediaFile {
    type V = FileView;

    open spec fn view(&self) -> FileView {
        FileView {
            path: self.path@,
            media_type: self.media_type,
            parsed: opt_meta_view(self.parsed_metadata),
            resolved: opt_meta_view(self.resolved_metadata),
            proposed: opt_view(self.proposed_path),
            status: self.status@,
        }
    }
}

/// The metadata a file is renamed by: the resolved metadata when there is
/// some, else the metadata parsed from the file name.
pub open spec fn effective_meta(f: FileView) -> Option<MetaView> {
    match f.resolved {
        Some(m) => Some(m),
        None => f.parsed,
    }
}

/// Whether the file would move: it has a proposed path that is not the same
/// path as its own.
pub open spec fn needs_rename_spec(f: FileView) -> bool {
    match f.proposed {
        Some(p) => !path_eq(p, f.path),
        None => false,
    }
}

pub open spec fn display_name_spec(path: Seq<char>) -> Seq<char> {
    match file_name_of(path) {
        Some(n) => n,
        None => "<unknown>"@,
    }
}

impl MediaFile {
    pub fn new(path: String, media_type: MediaType) -> (r: Self)
        ensures
            r@ == (FileView {
                path: path@,
                media_type,
                parsed: None,
                resolved: None,
                proposed: None,
                status: StatusView::Pending,
            }),
    {
        Self {
            path,
            media_type,
            parsed_metadata: None,
            resolved_metadata: None,
            proposed_path: None,
            status: RenameStatus::Pending,
        }
    }

    /// The file name of the path, or `<unknown>`.
    pub fn display_name(&self) -> (r: &str)
        ensures
            r@ == display_name_spec(self.path@),
    {
        let p = chars_of(self.path.as_str());
        match file_name_bounds(&p) {
            Some((a, b)) => self.path.as_str().substring_char(a, b),
            None => "<unknown>",
        }
    }

    /// True if the proposed path differs from the current path.
    pub fn needs_rename(&self) -> (r: bool)
        ensures
            r == needs_rename_spec(self@),
    {
        match &self.proposed_path {
            Some(proposed) => !same_path(proposed.as_str(), self.path.as_str()),
            None => false,
        }
    }

    /// Returns the effective metadata: resolved first, then parsed.
    pub fn effective_metadata(&self) -> (r: Option<&ParsedMetadata>)
        ensures
            match r {
                Some(m) => effective_meta(self@) == Some(m@),
                None => effective_meta(self@) is None,
            },
    {
        match &self.resolved_metadata {
            Some(m) => Some(m),
            None => self.parsed_metadata.as_ref(),
        }
    }

    /// A copy of this file record.
    pub fn duplicate(&self) -> (r: MediaFile)
        ensures
            r@ == self@,
    {
        MediaFile {
            path: self.path.clone(),
            media_type: self.media_type,
            parsed_metadata: match &self.parsed_metadata {
                Some(m) => Some(m.duplicate()),
                None => None,
            },
            resolved_metadata: match &self.resolved_metadata {
                Some(m) => Some(m.duplicate()),
                None => None,
            },
            proposed_path: copy_opt(&self.proposed_path),
            status: self.status.duplicate(),
        }
    }
}

} // verus!
