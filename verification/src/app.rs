//! The renamer's state machine: what each key press and each message from
//! the background work does to the application state, and which work it
//! starts next.
use vstd::prelude::*;
use crate::config::Config;
use crate::media::{MediaFile, RenameStatus, ParsedMetadata, FileView, StatusView, needs_rename_spec, opt_view};
use crate::media::scanner::views;
use crate::number::{decimal, usize_to_string};
use crate::text::{CharClass, trim, chars_of, string_from, trim_chars, sub_vec};

verus! {

/// The root being edited in the path editor.
#[derive(Clone, Copy, Debug, PartialEq, Eq, Structural)]
pub enum PathField {
    Movies,
    TvShows,
}

/// The screen the application is on.
#[derive(Clone, Debug, PartialEq, Eq)]
pub enum AppState {
    Scanning,
    Browsing,
    Previewing,
    Renaming { completed: usize, total: usize },
    Done,
    /// Path editor popup — edits both roots before rescanning.
    EditingPaths { movies: String, tv_shows: String, active: PathField },
}

/// `AppState` with the edited roots as characters.
pub enum StateView {
    Scanning,
    Browsing,
    Previewing,
    Renaming { completed: usize, total: usize },
    Done,
    EditingPaths { movies: Seq<char>, tv_shows: Seq<char>, active: PathField },
}

impl View for AppState {
    type V = StateView;

    open spec fn view(&self) -> StateView {
        match self {
            AppState::Scanning => StateView::Scanning,
            AppState::Browsing => StateView::Browsing,
            AppState::Previewing => StateView::Previewing,
            AppState::Renaming { completed, total } => StateView::Renaming {
                completed: *completed,
                total: *total,
            },
            AppState::Done => StateView::Done,
            AppState::EditingPaths { movies, tv_shows, active } => StateView::EditingPaths {
                movies: movies@,
                tv_shows: tv_shows@,
                active: *active,
            },
        }
    }
}

/// Messages from the background work (scan, lookups, renames) to the state machine.
pub enum AppMsg {
    ScanComplete(Vec<MediaFile>),
    ScanError(String),
    MetadataResolved { idx: usize, metadata: ParsedMetadata, proposed_path: String },
    MetadataFailed { idx: usize, error: String },
    RenameComplete { idx: usize },
    RenameFailed { idx: usize, error: String },
}

/// The key of a key press.
#[derive(Clone, Copy, Debug, PartialEq, Eq, Structural)]
pub enum KeyCode {
    Char(char),
    Enter,
    Esc,
    Tab,
    Backspace,
    Up,
    Down,
    Other,
}

/// A key press, with whether Control was held.
#[derive(Clone, Copy, Debug, PartialEq, Eq, Structural)]
pub struct Key {
    pub code: KeyCode,
    pub ctrl: bool,
}

/// A rename to perform: move the file at `from` (the file at index `idx`) to `to`.
#[derive(Clone, Debug, PartialEq, Eq)]
pub struct RenameJob {
    pub idx: usize,
    pub from: String,
    pub to: String,
}

pub struct JobView {
    pub idx: usize,
    pub from: Seq<char>,
    pub to: Seq<char>,
}

impl View for RenameJob {
    type V = JobView;

    open spec fn view(&self) -> JobView {
        JobView { idx: self.idx, from: self.from@, to: self.to@ }
    }
}

/// The work a step asks the caller to do next.
pub enum Command {
    Nothing,
    Quit,
    /// Scan the configured roots.
    Scan,
    /// Look up metadata for these files (index and copy of each).
    LookupMetadata(Vec<(usize, MediaFile)>),
    /// Perform these renames in order.
    Rename(Vec<RenameJob>),
}

pub enum CommandView {
    Nothing,
    Quit,
    Scan,
    LookupMetadata(Seq<(usize, FileView)>),
    Rename(Seq<JobView>),
}

impl View for Command {
    type V = CommandView;

    open spec fn view(&self) -> CommandView {
        match self {
            Command::Nothing => CommandView::Nothing,
            Command::Quit => CommandView::Quit,
            Command::Scan => CommandView::Scan,
            Command::LookupMetadata(v) => CommandView::LookupMetadata(
                v@.map_values(|p: (usize, MediaFile)| (p.0, p.1@)),
            ),
            Command::Rename(v) => CommandView::Rename(v@.map_values(|j: RenameJob| j@)),
        }
    }
}

/// The application state.
pub struct App {
    pub state: AppState,
    pub config: Config,
    pub files: Vec<MediaFile>,
    pub selected_idx: usize,
    pub scroll_offset: usize,
    pub status_msg: String,
    pub dry_run: bool,
}

/// The application state, with strings as characters; of the configuration
/// only the roots, which the path editor changes.
pub struct AppView {
    pub state: StateView,
    pub files: Seq<FileView>,
    pub selected_idx: usize,
    pub scroll_offset: usize,
    pub status_msg: Seq<char>,
    pub dry_run: bool,
    pub movies_root: Option<Seq<char>>,
    pub tv_root: Option<Seq<char>>,
}

impl View for App {
    type V = AppView;

    open spec fn view(&self) -> AppView {
        AppView {
            state: self.state@,
            files: views(self.files@),
            selected_idx: self.selected_idx,
            scroll_offset: self.scroll_offset,
            status_msg: self.status_msg@,
            dry_run: self.dry_run,
            movies_root: opt_view(self.config.roots.movies),
            tv_root: opt_view(self.config.roots.tv_shows),
        }
    }
}

// ── Counting ─────────────────────────────────────────────────────────────────
/// The statuses the application counts.
pub enum StatusKind {
    Pending,
    Approved,
    Done,
    Error,
}

pub open spec fn has_kind(s: StatusView, k: StatusKind) -> bool {
    match k {
        StatusKind::Pending => s is Pending,
        StatusKind::Approved => s is Approved,
        StatusKind::Done => s is Done,
        StatusKind::Error => s is Error,
    }
}

/// Number of files whose status is of kind `k`.
pub open spec fn count_kind(s: Seq<FileView>, k: StatusKind) -> nat
    decreases s.len(),
{
    if s.len() == 0 {
        0
    } else {
        count_kind(s.drop_last(), k) + if has_kind(s.last().status, k) {
            1nat
        } else {
            0nat
        }
    }
}

proof fn lemma_count_bound(s: Seq<FileView>, k: StatusKind)
    ensures
        count_kind(s, k) <= s.len(),
    decreases s.len(),
{
    if s.len() > 0 {
        lemma_count_bound(s.drop_last(), k);
    }
}

fn is_kind(s: &RenameStatus, k: &StatusKind) -> (r: bool)
    ensures
        r == has_kind(s@, *k),
{
    match k {
        StatusKind::Pending => matches!(s, RenameStatus::Pending),
        StatusKind::Approved => matches!(s, RenameStatus::Approved),
        StatusKind::Done => matches!(s, RenameStatus::Done),
        StatusKind::Error => matches!(s, RenameStatus::Error(_)),
    }
}

fn count_files(files: &Vec<MediaFile>, k: StatusKind) -> (r: usize)
    ensures
        r == count_kind(views(files@), k),
{
    let mut n: usize = 0;
    let mut i: usize = 0;
    while i < files.len()
        invariant
            i <= files.len(),
            n == count_kind(views(files@).subrange(0, i as int), k),
        decreases files.len() - i,
    {
        proof {
            assert(views(files@).subrange(0, i + 1).drop_last() =~= views(files@).subrange(
                0,
                i as int,
            ));
            lemma_count_bound(views(files@).subrange(0, i as int), k);
        }
        if is_kind(&files[i].status, &k) {
            n = n + 1;
        }
        i = i + 1;
    }
    assert(views(files@).subrange(0, i as int) =~= views(files@));
    n
}

// ── Per-file updates ─────────────────────────────────────────────────────────
pub open spec fn with_status(f: FileView, s: StatusView) -> FileView {
    FileView { status: s, ..f }
}

/// Approving: a pending or skipped file becomes approved.
pub open spec fn approve_one(f: FileView) -> FileView {
    if f.status is Pending || f.status is Skipped {
        with_status(f, StatusView::Approved)
    } else {
        f
    }
}

/// Skipping: a pending or approved file becomes skipped.
pub open spec fn skip_one(f: FileView) -> FileView {
    if f.status is Pending || f.status is Approved {
        with_status(f, StatusView::Skipped)
    } else {
        f
    }
}

/// A pending file takes status `s`; others are unchanged.
pub open spec fn settle_pending(f: FileView, s: StatusView) -> FileView {
    if f.status is Pending {
        with_status(f, s)
    } else {
        f
    }
}

pub open spec fn settle_all(files: Seq<FileView>, s: StatusView) -> Seq<FileView> {
    Seq::new(files.len(), |i: int| settle_pending(files[i], s))
}

/// `files` with every pending file given status `status`.
fn settle_pending_files(files: &mut Vec<MediaFile>, status: &RenameStatus)
    requires
        status@ is Approved || status@ is Skipped,
    ensures
        views(final(files)@) == settle_all(views(old(files)@), status@),
{
    let ghost before = views(files@);
    let mut i: usize = 0;
    while i < files.len()
        invariant
            i <= files.len() == before.len(),
            status@ is Approved || status@ is Skipped,
            forall|j: int| 0 <= j < i ==> views(files@)[j] == settle_pending(before[j], status@),
            forall|j: int| i <= j < files.len() ==> views(files@)[j] == before[j],
        decreases files.len() - i,
    {
        let ghost prev = files@;
        if matches!(files[i].status, RenameStatus::Pending) {
            files[i].status = status.duplicate();
            assert(files@.len() == prev.len());
            assert(files@[i as int]@ == with_status(prev[i as int]@, status@));
            assert(forall|j: int| 0 <= j < files.len() && j != i ==> files@[j] == prev[j]);
        }
        assert(views(files@)[i as int] == settle_pending(before[i as int], status@));
        assert forall|j: int| 0 <= j < i + 1 implies views(files@)[j] == settle_pending(
            before[j],
            status@,
        ) by {
            if j < i {
                assert(views(prev)[j] == settle_pending(before[j], status@));
                assert(files@[j] == prev[j]);
            }
        }
        assert forall|j: int| i + 1 <= j < files.len() implies views(files@)[j] == before[j] by {
            assert(views(prev)[j] == before[j]);
            assert(files@[j] == prev[j]);
        }
        i = i + 1;
    }
    assert(views(files@) =~= settle_all(before, status@));
}

// ── Messages ─────────────────────────────────────────────────────────────────
pub open spec fn scanning_msg() -> Seq<char> {
    "Scanning…"@
}

pub open spec fn found_msg(n: nat) -> Seq<char> {
    "Found "@ + decimal(n) + " files. [a] approve  [s] skip  [R] run renames"@
}

pub open spec fn scan_error_msg(e: Seq<char>) -> Seq<char> {
    "Scan error: "@ + e
}

pub open spec fn renaming_msg(done: nat, total: nat) -> Seq<char> {
    "Renaming "@ + decimal(done) + " / "@ + decimal(total) + "…"@
}

pub open spec fn done_msg(renamed: nat, errors: nat) -> Seq<char> {
    "Done! "@ + decimal(renamed) + " renamed, "@ + decimal(errors) + " errors. Press [q] to quit."@
}

pub open spec fn approved_all_msg() -> Seq<char> {
    "All pending renames approved. Press [R] to execute."@
}

pub open spec fn skipped_all_msg() -> Seq<char> {
    "All pending renames skipped."@
}

pub open spec fn nothing_approved_msg() -> Seq<char> {
    "No approved renames. Press [a] to approve files first."@
}

fn make_found_msg(n: usize) -> (r: String)
    ensures
        r@ == found_msg(n as nat),
{
    let s = String::from_str("Found ");
    let d = usize_to_string(n);
    let s = s.concat(d.as_str());
    s.concat(" files. [a] approve  [s] skip  [R] run renames")
}

fn make_renaming_msg(done: usize, total: usize) -> (r: String)
    ensures
        r@ == renaming_msg(done as nat, total as nat),
{
    let s = String::from_str("Renaming ");
    let d = usize_to_string(done);
    let t = usize_to_string(total);
    let s = s.concat(d.as_str());
    let s = s.concat(" / ");
    let s = s.concat(t.as_str());
    s.concat("…")
}

fn make_done_msg(renamed: usize, errors: usize) -> (r: String)
    ensures
        r@ == done_msg(renamed as nat, errors as nat),
{
    let s = String::from_str("Done! ");
    let a = usize_to_string(renamed);
    let b = usize_to_string(errors);
    let s = s.concat(a.as_str());
    let s = s.concat(" renamed, ");
    let s = s.concat(b.as_str());
    s.concat(" errors. Press [q] to quit.")
}


/// Gives file `i` status `status`, leaving the other files as they are.
fn set_status(files: &mut Vec<MediaFile>, i: usize, status: RenameStatus)
    requires
        i < old(files).len(),
    ensures
        views(final(files)@) == views(old(files)@).update(
            i as int,
            with_status(old(files)@[i as int]@, status@),
        ),
{
    let ghost prev = files@;
    files[i].status = status;
    assert(views(files@) =~= views(prev).update(i as int, with_status(prev[i as int]@, status@)));
}

/// Jobs for the approved files among the first `n` that have a proposed path.
pub open spec fn jobs_upto(files: Seq<FileView>, n: int) -> Seq<JobView>
    decreases n,
{
    if n <= 0 || n > files.len() {
        Seq::empty()
    } else {
        let rest = jobs_upto(files, n - 1);
        let f = files[n - 1];
        if f.status is Approved && f.proposed is Some {
            rest.push(JobView { idx: (n - 1) as usize, from: f.path, to: f.proposed->0 })
        } else {
            rest
        }
    }
}

/// The files among the first `n` that wait for metadata, with their indices.
pub open spec fn lookups_upto(files: Seq<FileView>, n: int) -> Seq<(usize, FileView)>
    decreases n,
{
    if n <= 0 || n > files.len() {
        Seq::empty()
    } else {
        let rest = lookups_upto(files, n - 1);
        let f = files[n - 1];
        if f.status is LoadingMetadata {
            rest.push(((n - 1) as usize, f))
        } else {
            rest
        }
    }
}

pub open spec fn or_empty(o: Option<Seq<char>>) -> Seq<char> {
    match o {
        Some(s) => s,
        None => Seq::empty(),
    }
}

/// A root typed in the path editor: unset when blank, else trimmed.
pub open spec fn root_input(s: Seq<char>) -> Option<Seq<char>> {
    if trim(s, CharClass::Whitespace).len() == 0 {
        None
    } else {
        Some(trim(s, CharClass::Whitespace))
    }
}

pub open spec fn drop_last_char(s: Seq<char>) -> Seq<char> {
    if s.len() > 0 {
        s.drop_last()
    } else {
        s
    }
}

pub open spec fn wf_view(v: AppView) -> bool {
    &&& (v.state matches StateView::Renaming { completed, total } ==> completed < total)
    &&& v.selected_idx < usize::MAX
}

pub open spec fn scanning_reset(v: AppView) -> AppView {
    AppView {
        state: StateView::Scanning,
        files: Seq::empty(),
        selected_idx: 0,
        scroll_offset: 0,
        status_msg: scanning_msg(),
        ..v
    }
}

pub open spec fn select_next_spec(v: AppView) -> AppView {
    if v.files.len() > 0 {
        AppView {
            selected_idx: if v.selected_idx + 1 < v.files.len() - 1 {
                (v.selected_idx + 1) as usize
            } else {
                (v.files.len() - 1) as usize
            },
            ..v
        }
    } else {
        v
    }
}

pub open spec fn select_prev_spec(v: AppView) -> AppView {
    AppView { selected_idx: if v.selected_idx > 0 { (v.selected_idx - 1) as usize } else { 0 }, ..v }
}

pub open spec fn approve_selected_spec(v: AppView) -> AppView {
    if v.selected_idx < v.files.len() {
        AppView {
            files: v.files.update(v.selected_idx as int, approve_one(v.files[v.selected_idx as int])),
            ..v
        }
    } else {
        v
    }
}

pub open spec fn skip_selected_spec(v: AppView) -> AppView {
    if v.selected_idx < v.files.len() {
        AppView {
            files: v.files.update(v.selected_idx as int, skip_one(v.files[v.selected_idx as int])),
            ..v
        }
    } else {
        v
    }
}

pub open spec fn approve_all_spec(v: AppView) -> AppView {
    AppView {
        files: settle_all(v.files, StatusView::Approved),
        status_msg: approved_all_msg(),
        ..v
    }
}

pub open spec fn skip_all_spec(v: AppView) -> AppView {
    AppView { files: settle_all(v.files, StatusView::Skipped), status_msg: skipped_all_msg(), ..v }
}

/// Starting the approved renames: with none approved, only a message; else
/// the renaming screen and the jobs of the approved files.
pub open spec fn start_rename_spec(v: AppView) -> (AppView, CommandView) {
    let total = count_kind(v.files, StatusKind::Approved);
    if total == 0 {
        (AppView { status_msg: nothing_approved_msg(), ..v }, CommandView::Nothing)
    } else {
        (
            AppView {
                state: StateView::Renaming { completed: 0, total: total as usize },
                status_msg: renaming_msg(0, total),
                ..v
            },
            CommandView::Rename(jobs_upto(v.files, v.files.len() as int)),
        )
    }
}

pub open spec fn edit_paths_spec(v: AppView) -> AppView {
    AppView {
        state: StateView::EditingPaths {
            movies: or_empty(v.movies_root),
            tv_shows: or_empty(v.tv_root),
            active: PathField::Movies,
        },
        ..v
    }
}

/// What a key press does in the browser and preview screens.
pub open spec fn browse_key_step(v: AppView, code: KeyCode) -> (AppView, CommandView) {
    match code {
        KeyCode::Char('q') | KeyCode::Esc => (v, CommandView::Quit),
        KeyCode::Down | KeyCode::Char('j') => (select_next_spec(v), CommandView::Nothing),
        KeyCode::Up | KeyCode::Char('k') => (select_prev_spec(v), CommandView::Nothing),
        KeyCode::Enter => (
            AppView {
                state: if v.state is Browsing {
                    StateView::Previewing
                } else {
                    StateView::Browsing
                },
                ..v
            },
            CommandView::Nothing,
        ),
        KeyCode::Char('a') => (approve_selected_spec(v), CommandView::Nothing),
        KeyCode::Char('s') => (skip_selected_spec(v), CommandView::Nothing),
        KeyCode::Char('A') => (approve_all_spec(v), CommandView::Nothing),
        KeyCode::Char('S') => (skip_all_spec(v), CommandView::Nothing),
        KeyCode::Char('R') => start_rename_spec(v),
        KeyCode::Char('r') => (scanning_reset(v), CommandView::Scan),
        KeyCode::Char('p') => (edit_paths_spec(v), CommandView::Nothing),
        _ => (v, CommandView::Nothing),
    }
}

/// What a key press does in the path editor.
pub open spec fn edit_key_step(
    v: AppView,
    movies: Seq<char>,
    tv_shows: Seq<char>,
    active: PathField,
    code: KeyCode,
) -> (AppView, CommandView) {
    match code {
        KeyCode::Esc => (AppView { state: StateView::Browsing, ..v }, CommandView::Nothing),
        KeyCode::Tab => (
            AppView {
                state: StateView::EditingPaths {
                    movies,
                    tv_shows,
                    active: if active == PathField::Movies {
                        PathField::TvShows
                    } else {
                        PathField::Movies
                    },
                },
                ..v
            },
            CommandView::Nothing,
        ),
        KeyCode::Enter => (
            scanning_reset(
                AppView { movies_root: root_input(movies), tv_root: root_input(tv_shows), ..v },
            ),
            CommandView::Scan,
        ),
        KeyCode::Backspace => (
            AppView {
                state: if active == PathField::Movies {
                    StateView::EditingPaths { movies: drop_last_char(movies), tv_shows, active }
                } else {
                    StateView::EditingPaths { movies, tv_shows: drop_last_char(tv_shows), active }
                },
                ..v
            },
            CommandView::Nothing,
        ),
        KeyCode::Char(c) => (
            AppView {
                state: if active == PathField::Movies {
                    StateView::EditingPaths { movies: movies.push(c), tv_shows, active }
                } else {
                    StateView::EditingPaths { movies, tv_shows: tv_shows.push(c), active }
                },
                ..v
            },
            CommandView::Nothing,
        ),
        _ => (v, CommandView::Nothing),
    }
}

/// What a key press does: Ctrl-C always quits; otherwise it depends on the screen.
pub open spec fn key_step(v: AppView, key: Key) -> (AppView, CommandView) {
    if key.ctrl && key.code == KeyCode::Char('c') {
        (v, CommandView::Quit)
    } else {
        match v.state {
            StateView::Scanning => if key.code == KeyCode::Char('q') {
                (v, CommandView::Quit)
            } else {
                (v, CommandView::Nothing)
            },
            StateView::Browsing | StateView::Previewing => browse_key_step(v, key.code),
            StateView::EditingPaths { movies, tv_shows, active } => edit_key_step(
                v,
                movies,
                tv_shows,
                active,
                key.code,
            ),
            StateView::Renaming { .. } => if key.code == KeyCode::Char('q') {
                (v, CommandView::Quit)
            } else {
                (v, CommandView::Nothing)
            },
            StateView::Done => if key.code == KeyCode::Char('q') || key.code == KeyCode::Enter
                || key.code == KeyCode::Esc {
                (v, CommandView::Quit)
            } else {
                (v, CommandView::Nothing)
            },
        }
    }
}

/// One rename finished: count it; when all are, the summary of the run.
pub open spec fn advance_spec(v: AppView) -> AppView {
    match v.state {
        StateView::Renaming { completed, total } => {
            let done = completed + 1;
            if done >= total {
                AppView {
                    state: StateView::Done,
                    status_msg: done_msg(
                        count_kind(v.files, StatusKind::Done),
                        count_kind(v.files, StatusKind::Error),
                    ),
                    ..v
                }
            } else {
                AppView {
                    state: StateView::Renaming { completed: done as usize, total },
                    status_msg: renaming_msg(done as nat, total as nat),
                    ..v
                }
            }
        },
        _ => v,
    }
}

/// File `idx` (when there is one) given status `s`.
pub open spec fn status_at(v: AppView, idx: usize, s: StatusView) -> AppView {
    if idx < v.files.len() {
        AppView { files: v.files.update(idx as int, with_status(v.files[idx as int], s)), ..v }
    } else {
        v
    }
}

/// A file given its looked-up metadata and the path computed from it: pending
/// when that path is not the file's own, else already correct.
pub open spec fn resolved_file(f: FileView, meta: crate::media::MetaView, proposed: Seq<char>) -> FileView {
    let g = FileView { resolved: Some(meta), proposed: Some(proposed), ..f };
    with_status(
        g,
        if needs_rename_spec(g) {
            StatusView::Pending
        } else {
            StatusView::AlreadyCorrect
        },
    )
}

/// What a message from the background work does.
pub open spec fn msg_step(v: AppView, msg: AppMsg, api_enabled: bool) -> (AppView, CommandView) {
    match msg {
        AppMsg::ScanComplete(fs) => {
            let nv = AppView {
                files: views(fs@),
                state: StateView::Browsing,
                status_msg: found_msg(fs.len() as nat),
                ..v
            };
            (
                nv,
                if api_enabled {
                    CommandView::LookupMetadata(lookups_upto(nv.files, nv.files.len() as int))
                } else {
                    CommandView::Nothing
                },
            )
        },
        AppMsg::ScanError(e) => (
            AppView { state: StateView::Browsing, status_msg: scan_error_msg(e@), ..v },
            CommandView::Nothing,
        ),
        AppMsg::MetadataResolved { idx, metadata, proposed_path } => (
            if idx < v.files.len() {
                AppView {
                    files: v.files.update(
                        idx as int,
                        resolved_file(v.files[idx as int], metadata@, proposed_path@),
                    ),
                    ..v
                }
            } else {
                v
            },
            CommandView::Nothing,
        ),
        AppMsg::MetadataFailed { idx, error } => (
            status_at(v, idx, StatusView::Error(error@)),
            CommandView::Nothing,
        ),
        AppMsg::RenameComplete { idx } => (
            advance_spec(status_at(v, idx, StatusView::Done)),
            CommandView::Nothing,
        ),
        AppMsg::RenameFailed { idx, error } => (
            advance_spec(status_at(v, idx, StatusView::Error(error@))),
            CommandView::Nothing,
        ),
    }
}


fn root_from_input(s: &String) -> (r: Option<String>)
    ensures
        opt_view(r) == root_input(s@),
{
    let v = chars_of(s.as_str());
    let t = trim_chars(&v, CharClass::Whitespace);
    if t.len() == 0 {
        None
    } else {
        Some(string_from(t.as_slice()))
    }
}

fn with_char(s: &String, c: char) -> (r: String)
    ensures
        r@ == s@.push(c),
{
    let mut v = chars_of(s.as_str());
    v.push(c);
    string_from(v.as_slice())
}

fn without_last_char(s: &String) -> (r: String)
    ensures
        r@ == drop_last_char(s@),
{
    let v = chars_of(s.as_str());
    if v.len() == 0 {
        s.clone()
    } else {
        let w = sub_vec(&v, 0, v.len() - 1);
        assert(w@ =~= s@.drop_last());
        string_from(w.as_slice())
    }
}

impl App {
    /// The invariant the state machine keeps: a rename run has not yet
    /// counted all its renames, and the selection can still move down.
    pub open spec fn wf(&self) -> bool {
        wf_view(self@)
    }

    /// The parts of the configuration no step changes.
    pub open spec fn same_settings(&self, other: &App) -> bool {
        &&& self.config.patterns == other.config.patterns
        &&& self.config.api == other.config.api
        &&& self.config.ui == other.config.ui
    }

    /// A new application, scanning.
    pub fn new(config: Config, dry_run: bool) -> (r: App)
        ensures
            r@ == (AppView {
                state: StateView::Scanning,
                files: Seq::empty(),
                selected_idx: 0,
                scroll_offset: 0,
                status_msg: scanning_msg(),
                dry_run,
                movies_root: opt_view(config.roots.movies),
                tv_root: opt_view(config.roots.tv_shows),
            }),
            r.config == config,
            r.wf(),
    {
        let files: Vec<MediaFile> = Vec::new();
        let r = App {
            state: AppState::Scanning,
            config,
            files,
            selected_idx: 0,
            scroll_offset: 0,
            status_msg: String::from_str("Scanning…"),
            dry_run,
        };
        assert(views(r.files@) =~= Seq::<FileView>::empty());
        r
    }

    fn select_next(&mut self)
        requires
            old(self).wf(),
        ensures
            final(self)@ == select_next_spec(old(self)@),
            final(self).config == old(self).config,
            final(self).wf(),
    {
        if !self.files.is_empty() {
            let n = self.selected_idx + 1;
            let m = self.files.len() - 1;
            self.selected_idx = if n < m { n } else { m };
        }
    }

    fn select_prev(&mut self)
        requires
            old(self).wf(),
        ensures
            final(self).wf(),
            final(self)@ == select_prev_spec(old(self)@),
            final(self).config == old(self).config,
    {
        self.selected_idx = if self.selected_idx > 0 { self.selected_idx - 1 } else { 0 };
    }

    fn approve_selected(&mut self)
        requires
            old(self).wf(),
        ensures
            final(self).wf(),
            final(self)@ == approve_selected_spec(old(self)@),
            final(self).config == old(self).config,
    {
        let i = self.selected_idx;
        if i < self.files.len() {
            if matches!(self.files[i].status, RenameStatus::Pending | RenameStatus::Skipped) {
                set_status(&mut self.files, i, RenameStatus::Approved);
            } else {
                assert(views(self.files@).update(i as int, views(self.files@)[i as int]) =~= views(
                    self.files@,
                ));
            }
        }
    }

    fn skip_selected(&mut self)
        requires
            old(self).wf(),
        ensures
            final(self).wf(),
            final(self)@ == skip_selected_spec(old(self)@),
            final(self).config == old(self).config,
    {
        let i = self.selected_idx;
        if i < self.files.len() {
            if matches!(self.files[i].status, RenameStatus::Pending | RenameStatus::Approved) {
                set_status(&mut self.files, i, RenameStatus::Skipped);
            } else {
                assert(views(self.files@).update(i as int, views(self.files@)[i as int]) =~= views(
                    self.files@,
                ));
            }
        }
    }

    fn approve_all(&mut self)
        requires
            old(self).wf(),
        ensures
            final(self).wf(),
            final(self)@ == approve_all_spec(old(self)@),
            final(self).config == old(self).config,
    {
        settle_pending_files(&mut self.files, &RenameStatus::Approved);
        self.status_msg = String::from_str("All pending renames approved. Press [R] to execute.");
    }

    fn skip_all(&mut self)
        requires
            old(self).wf(),
        ensures
            final(self).wf(),
            final(self)@ == skip_all_spec(old(self)@),
            final(self).config == old(self).config,
    {
        settle_pending_files(&mut self.files, &RenameStatus::Skipped);
        self.status_msg = String::from_str("All pending renames skipped.");
    }

    fn rename_jobs(&self) -> (r: Vec<RenameJob>)
        ensures
            r@.map_values(|j: RenameJob| j@) == jobs_upto(self@.files, self@.files.len() as int),
    {
        let mut jobs: Vec<RenameJob> = Vec::new();
        let mut i: usize = 0;
        while i < self.files.len()
            invariant
                i <= self.files.len(),
                jobs@.map_values(|j: RenameJob| j@) == jobs_upto(views(self.files@), i as int),
            decreases self.files.len() - i,
        {
            let ghost before = jobs@;
            let f = &self.files[i];
            if matches!(f.status, RenameStatus::Approved) {
                match &f.proposed_path {
                    Some(p) => {
                        jobs.push(RenameJob { idx: i, from: f.path.clone(), to: p.clone() });
                        assert(jobs@.map_values(|j: RenameJob| j@) =~= before.map_values(
                            |j: RenameJob| j@,
                        ).push(JobView { idx: i, from: f.path@, to: p@ }));
                    },
                    None => {},
                }
            }
            i = i + 1;
        }
        jobs
    }

    fn start_rename_approved(&mut self) -> (r: Command)
        requires
            old(self).wf(),
        ensures
            (final(self)@, r@) == start_rename_spec(old(self)@),
            final(self).config == old(self).config,
            final(self).wf(),
    {
        let total = count_files(&self.files, StatusKind::Approved);
        if total == 0 {
            self.status_msg = String::from_str(
                "No approved renames. Press [a] to approve files first.",
            );
            return Command::Nothing;
        }
        self.state = AppState::Renaming { completed: 0, total };
        self.status_msg = make_renaming_msg(0, total);
        let jobs = self.rename_jobs();
        Command::Rename(jobs)
    }

    fn reset_for_scan(&mut self)
        requires
            old(self).wf(),
        ensures
            final(self).wf(),
            final(self)@ == scanning_reset(old(self)@),
            final(self).config == old(self).config,
    {
        self.state = AppState::Scanning;
        self.files = Vec::new();
        self.selected_idx = 0;
        self.scroll_offset = 0;
        self.status_msg = String::from_str("Scanning…");
        assert(views(self.files@) =~= Seq::<FileView>::empty());
    }

    fn browse_key(&mut self, code: KeyCode) -> (r: Command)
        requires
            old(self).wf(),
            old(self).state is Browsing || old(self).state is Previewing,
        ensures
            (final(self)@, r@) == browse_key_step(old(self)@, code),
            final(self).config == old(self).config,
            final(self).wf(),
    {
        if code == KeyCode::Char('q') || code == KeyCode::Esc {
            return Command::Quit;
        }
        match code {
            KeyCode::Down | KeyCode::Char('j') => {
                self.select_next();
                Command::Nothing
            },
            KeyCode::Up | KeyCode::Char('k') => {
                self.select_prev();
                Command::Nothing
            },
            KeyCode::Enter => {
                self.state = if matches!(self.state, AppState::Browsing) {
                    AppState::Previewing
                } else {
                    AppState::Browsing
                };
                Command::Nothing
            },
            KeyCode::Char('a') => {
                self.approve_selected();
                Command::Nothing
            },
            KeyCode::Char('s') => {
                self.skip_selected();
                Command::Nothing
            },
            KeyCode::Char('A') => {
                self.approve_all();
                Command::Nothing
            },
            KeyCode::Char('S') => {
                self.skip_all();
                Command::Nothing
            },
            KeyCode::Char('R') => self.start_rename_approved(),
            KeyCode::Char('r') => {
                self.reset_for_scan();
                Command::Scan
            },
            KeyCode::Char('p') => {
                let movies = match &self.config.roots.movies {
                    Some(p) => p.clone(),
                    None => String::new(),
                };
                let tv_shows = match &self.config.roots.tv_shows {
                    Some(p) => p.clone(),
                    None => String::new(),
                };
                self.state = AppState::EditingPaths { movies, tv_shows, active: PathField::Movies };
                Command::Nothing
            },
            _ => Command::Nothing,
        }
    }

    fn edit_key(&mut self, movies: String, tv_shows: String, active: PathField, code: KeyCode) -> (r:
        Command)
        requires
            old(self).wf(),
        ensures
            (final(self)@, r@) == edit_key_step(old(self)@, movies@, tv_shows@, active, code),
            final(self).same_settings(old(self)),
            final(self).wf(),
    {
        match code {
            KeyCode::Esc => {
                self.state = AppState::Browsing;
                Command::Nothing
            },
            KeyCode::Tab => {
                let next = if active == PathField::Movies {
                    PathField::TvShows
                } else {
                    PathField::Movies
                };
                self.state = AppState::EditingPaths { movies, tv_shows, active: next };
                Command::Nothing
            },
            KeyCode::Enter => {
                self.config.roots.movies = root_from_input(&movies);
                self.config.roots.tv_shows = root_from_input(&tv_shows);
                self.reset_for_scan();
                Command::Scan
            },
            KeyCode::Backspace => {
                match active {
                    PathField::Movies => {
                        let m = without_last_char(&movies);
                        self.state = AppState::EditingPaths { movies: m, tv_shows, active };
                    },
                    PathField::TvShows => {
                        let t = without_last_char(&tv_shows);
                        self.state = AppState::EditingPaths { movies, tv_shows: t, active };
                    },
                }
                Command::Nothing
            },
            KeyCode::Char(c) => {
                match active {
                    PathField::Movies => {
                        let m = with_char(&movies, c);
                        self.state = AppState::EditingPaths { movies: m, tv_shows, active };
                    },
                    PathField::TvShows => {
                        let t = with_char(&tv_shows, c);
                        self.state = AppState::EditingPaths { movies, tv_shows: t, active };
                    },
                }
                Command::Nothing
            },
            _ => Command::Nothing,
        }
    }

    /// Handles a key press; the command says what to do next.
    pub fn handle_key(&mut self, key: Key) -> (r: Command)
        requires
            old(self).wf(),
        ensures
            (final(self)@, r@) == key_step(old(self)@, key),
            final(self).same_settings(old(self)),
            final(self).wf(),
    {
        // Ctrl-C always quits.
        if key.ctrl && key.code == KeyCode::Char('c') {
            return Command::Quit;
        }
        match &self.state {
            AppState::Scanning => {
                if key.code == KeyCode::Char('q') {
                    Command::Quit
                } else {
                    Command::Nothing
                }
            },
            AppState::Browsing | AppState::Previewing => self.browse_key(key.code),
            AppState::EditingPaths { movies, tv_shows, active } => {
                let m = movies.clone();
                let t = tv_shows.clone();
                let a = *active;
                self.edit_key(m, t, a, key.code)
            },
            AppState::Renaming { .. } => {
                if key.code == KeyCode::Char('q') {
                    Command::Quit
                } else {
                    Command::Nothing
                }
            },
            AppState::Done => {
                if key.code == KeyCode::Char('q') || key.code == KeyCode::Enter || key.code
                    == KeyCode::Esc {
                    Command::Quit
                } else {
                    Command::Nothing
                }
            },
        }
    }

    /// Number of files approved for renaming.
    pub fn approved_count(&self) -> (r: usize)
        ensures
            r == count_kind(self@.files, StatusKind::Approved),
    {
        count_files(&self.files, StatusKind::Approved)
    }

    /// Number of files waiting for a decision.
    pub fn pending_count(&self) -> (r: usize)
        ensures
            r == count_kind(self@.files, StatusKind::Pending),
    {
        count_files(&self.files, StatusKind::Pending)
    }

    fn advance_rename_progress(&mut self)
        requires
            old(self).wf(),
        ensures
            final(self)@ == advance_spec(old(self)@),
            final(self).config == old(self).config,
            final(self).wf(),
    {
        let (completed, total) = match &self.state {
            AppState::Renaming { completed, total } => (*completed, *total),
            _ => {
                return ;
            },
        };
        let done = completed + 1;
        self.status_msg = make_renaming_msg(done, total);
        if done >= total {
            self.state = AppState::Done;
            let errors = count_files(&self.files, StatusKind::Error);
            let renamed = count_files(&self.files, StatusKind::Done);
            self.status_msg = make_done_msg(renamed, errors);
        } else {
            self.state = AppState::Renaming { completed: done, total };
        }
    }

    fn lookup_targets(&self) -> (r: Vec<(usize, MediaFile)>)
        ensures
            r@.map_values(|p: (usize, MediaFile)| (p.0, p.1@)) == lookups_upto(
                self@.files,
                self@.files.len() as int,
            ),
    {
        let mut out: Vec<(usize, MediaFile)> = Vec::new();
        let mut i: usize = 0;
        while i < self.files.len()
            invariant
                i <= self.files.len(),
                out@.map_values(|p: (usize, MediaFile)| (p.0, p.1@)) == lookups_upto(
                    views(self.files@),
                    i as int,
                ),
            decreases self.files.len() - i,
        {
            let ghost before = out@;
            if matches!(self.files[i].status, RenameStatus::LoadingMetadata) {
                let f = self.files[i].duplicate();
                let ghost fv = f@;
                out.push((i, f));
                assert(out@.map_values(|p: (usize, MediaFile)| (p.0, p.1@)) =~= before.map_values(
                    |p: (usize, MediaFile)| (p.0, p.1@),
                ).push((i, fv)));
            }
            i = i + 1;
        }
        out
    }

    fn mark_resolved(&mut self, idx: usize, metadata: ParsedMetadata, proposed_path: String)
        requires
            old(self).wf(),
        ensures
            final(self)@ == (if idx < old(self)@.files.len() {
                AppView {
                    files: old(self)@.files.update(
                        idx as int,
                        resolved_file(old(self)@.files[idx as int], metadata@, proposed_path@),
                    ),
                    ..old(self)@
                }
            } else {
                old(self)@
            }),
            final(self).config == old(self).config,
            final(self).wf(),
    {
        if idx < self.files.len() {
            let ghost prev = self.files@;
            let ghost g = resolved_file(views(prev)[idx as int], metadata@, proposed_path@);
            self.files[idx].resolved_metadata = Some(metadata);
            self.files[idx].proposed_path = Some(proposed_path);
            let needs = self.files[idx].needs_rename();
            self.files[idx].status = if needs {
                RenameStatus::Pending
            } else {
                RenameStatus::AlreadyCorrect
            };
            assert(self.files@[idx as int]@ == g);
            assert(views(self.files@) =~= views(prev).update(idx as int, g));
        }
    }

    /// Handles a message from the background work; the command says what to do next.
    pub fn handle_msg(&mut self, msg: AppMsg) -> (r: Command)
        requires
            old(self).wf(),
        ensures
            (final(self)@, r@) == msg_step(old(self)@, msg, old(self).config.api_enabled_spec()),
            final(self).config == old(self).config,
            final(self).wf(),
    {
        match msg {
            AppMsg::ScanComplete(files) => {
                let count = files.len();
                self.files = files;
                self.state = AppState::Browsing;
                self.status_msg = make_found_msg(count);
                // Kick off API lookups for files that need them.
                if self.config.api_enabled() {
                    Command::LookupMetadata(self.lookup_targets())
                } else {
                    Command::Nothing
                }
            },
            AppMsg::ScanError(e) => {
                self.state = AppState::Browsing;
                self.status_msg = String::from_str("Scan error: ").concat(e.as_str());
                Command::Nothing
            },
            AppMsg::MetadataResolved { idx, metadata, proposed_path } => {
                self.mark_resolved(idx, metadata, proposed_path);
                Command::Nothing
            },
            AppMsg::MetadataFailed { idx, error } => {
                if idx < self.files.len() {
                    set_status(&mut self.files, idx, RenameStatus::Error(error));
                }
                Command::Nothing
            },
            AppMsg::RenameComplete { idx } => {
                if idx < self.files.len() {
                    set_status(&mut self.files, idx, RenameStatus::Done);
                }
                self.advance_rename_progress();
                Command::Nothing
            },
            AppMsg::RenameFailed { idx, error } => {
                if idx < self.files.len() {
                    set_status(&mut self.files, idx, RenameStatus::Error(error));
                }
                self.advance_rename_progress();
                Command::Nothing
            },
        }
    }
}


/// The message that the metadata lookup of file `idx` ends with: the
/// looked-up metadata and the path computed from it, or why there is none.
pub open spec fn lookup_outcome_spec(
    idx: usize,
    file: FileView,
    result: Result<Option<crate::media::MetaView>, Seq<char>>,
    config: Config,
    r: AppMsg,
) -> bool {
    match result {
        Ok(Some(meta)) => {
            let enriched = FileView { resolved: Some(meta), ..file };
            match crate::media::renamer::proposed_path_spec(enriched, config) {
                Ok(Some(p)) => r matches AppMsg::MetadataResolved { idx: i, metadata, proposed_path }
                    && i == idx && metadata@ == meta && proposed_path@ == p,
                _ => r matches AppMsg::MetadataFailed { idx: i, error } && i == idx && error@
                    == "Could not compute path after API lookup"@,
            }
        },
        Ok(None) => r matches AppMsg::MetadataFailed { idx: i, error } && i == idx && error@
            == "No metadata found"@,
        Err(e) => r matches AppMsg::MetadataFailed { idx: i, error } && i == idx && error@ == e,
    }
}

pub open spec fn result_view(r: Result<Option<ParsedMetadata>, String>) -> Result<
    Option<crate::media::MetaView>,
    Seq<char>,
> {
    match r {
        Ok(Some(m)) => Ok(Some(m@)),
        Ok(None) => Ok(None),
        Err(e) => Err(e@),
    }
}

/// Turns the result of looking up the metadata of file `idx` into the
/// message for the state machine, recomputing the proposed path with the
/// looked-up metadata.
pub fn lookup_outcome(
    idx: usize,
    file: &MediaFile,
    result: Result<Option<ParsedMetadata>, String>,
    config: &Config,
) -> (r: AppMsg)
    ensures
        lookup_outcome_spec(idx, file@, result_view(result), *config, r),
{
    match result {
        Ok(Some(meta)) => {
            let mut enriched = file.duplicate();
            enriched.resolved_metadata = Some(meta.duplicate());
            match crate::media::renamer::compute_proposed_path(&enriched, config) {
                Ok(Some(proposed)) => AppMsg::MetadataResolved {
                    idx,
                    metadata: meta,
                    proposed_path: proposed,
                },
                _ => AppMsg::MetadataFailed {
                    idx,
                    error: String::from_str("Could not compute path after API lookup"),
                },
            }
        },
        Ok(None) => AppMsg::MetadataFailed { idx, error: String::from_str("No metadata found") },
        Err(e) => AppMsg::MetadataFailed { idx, error: e },
    }
}

} // verus!
