//! Properties of the library as a whole, over the specifications its
//! functions are proved against.
use vstd::prelude::*;
use crate::app::{
    AppView, StateView, Key, KeyCode, CommandView, PathField, StatusKind, JobView, key_step,
    count_kind, settle_all, settle_pending, approve_all_spec, skip_all_spec, start_rename_spec,
    jobs_upto, advance_spec, select_next_spec, wf_view, drop_last_char,
};
use crate::media::{FileView, StatusView, MetaView, MediaType, effective_meta};
use crate::media::renamer::proposed_path_spec;
use crate::metadata::{
    Services, PlanView, plan_spec, merge_movie_spec, merge_tvdb_spec, merge_tmdb_spec,
};
use crate::config::Config;
use crate::template::{render_spec, render_from, token_value, apply_format, prepend};
use crate::text::{find_from, lemma_find_from, pad_left, CharClass, trim_start, replace_all, replace_from, occurs_at};
use crate::number::{decimal, digits_value, all_digits, is_digit, digit_of, digit_char, parse_unsigned, parse_signed, signed_decimal};
use crate::media::parser::normalize_spec;
use crate::media::scanner::{is_video_spec, lowercase, scanned_roots};
use crate::media::renamer::{clean_parens_spec, tv_path_spec, tv_vars};
use crate::app::{msg_step, AppMsg};
use crate::paths::{extension_of, join_path};
use crate::text::{is_ws, trim, trim_end};

verus! {

// ── Rename workflow ──────────────────────────────────────────────────────────

proof fn lemma_settle_counts(s: Seq<FileView>, st: StatusView)
    requires
        st is Approved || st is Skipped,
    ensures
        count_kind(settle_all(s, st), StatusKind::Pending) == 0,
        st is Approved ==> count_kind(settle_all(s, st), StatusKind::Approved) == count_kind(
            s,
            StatusKind::Approved,
        ) + count_kind(s, StatusKind::Pending),
        st is Skipped ==> count_kind(settle_all(s, st), StatusKind::Approved) == count_kind(
            s,
            StatusKind::Approved,
        ),
    decreases s.len(),
{
    if s.len() > 0 {
        lemma_settle_counts(s.drop_last(), st);
        assert(settle_all(s, st).drop_last() =~= settle_all(s.drop_last(), st));
    }
}

/// Approving all leaves no file pending, and every file that was pending is
/// now counted among the approved ones.
pub proof fn law_approve_all_settles_pending(v: AppView)
    ensures
        count_kind(approve_all_spec(v).files, StatusKind::Pending) == 0,
        count_kind(approve_all_spec(v).files, StatusKind::Approved) == count_kind(
            v.files,
            StatusKind::Approved,
        ) + count_kind(v.files, StatusKind::Pending),
{
    lemma_settle_counts(v.files, StatusView::Approved);
}

/// Skipping all leaves no file pending and approves nothing.
pub proof fn law_skip_all_settles_pending(v: AppView)
    ensures
        count_kind(skip_all_spec(v).files, StatusKind::Pending) == 0,
        count_kind(skip_all_spec(v).files, StatusKind::Approved) == count_kind(
            v.files,
            StatusKind::Approved,
        ),
{
    lemma_settle_counts(v.files, StatusView::Skipped);
}

/// Approving all changes only pending files.
pub proof fn law_approve_all_touches_only_pending(v: AppView, i: int)
    requires
        0 <= i < v.files.len(),
        !(v.files[i].status is Pending),
    ensures
        approve_all_spec(v).files[i] == v.files[i],
{
}

/// Ctrl-C quits from every screen and changes nothing.
pub proof fn law_ctrl_c_quits(v: AppView, key: Key)
    requires
        key.ctrl,
        key.code == KeyCode::Char('c'),
    ensures
        key_step(v, key) == (v, CommandView::Quit),
{
}

/// Leaving the path editor with Esc keeps the configured roots.
pub proof fn law_escape_keeps_roots(v: AppView, key: Key)
    requires
        v.state is EditingPaths,
        key.code == KeyCode::Esc,
    ensures
        key_step(v, key).0.movies_root == v.movies_root,
        key_step(v, key).0.tv_root == v.tv_root,
        key_step(v, key).0.state == StateView::Browsing || key_step(v, key).1 == CommandView::Quit,
{
}

/// In the path editor, Tab twice comes back to the same field.
pub proof fn law_tab_twice_returns(v: AppView)
    requires
        v.state is EditingPaths,
    ensures
        ({
            let tab = Key { code: KeyCode::Tab, ctrl: false };
            key_step(key_step(v, tab).0, tab).0 == v
        }),
{
}

/// In the path editor, typing a character and then Backspace restores the
/// field being edited.
pub proof fn law_backspace_undoes_typing(v: AppView, c: char)
    requires
        v.state is EditingPaths,
    ensures
        ({
            let typed = key_step(v, Key { code: KeyCode::Char(c), ctrl: false }).0;
            key_step(typed, Key { code: KeyCode::Backspace, ctrl: false }).0 == v
        }),
{
    if let StateView::EditingPaths { movies, tv_shows, active } = v.state {
        assert(drop_last_char(movies.push(c)) =~= movies);
        assert(drop_last_char(tv_shows.push(c)) =~= tv_shows);
    }
}

/// Moving the selection down never leaves the list.
pub proof fn law_select_next_stays_in_list(v: AppView)
    requires
        v.files.len() > 0,
    ensures
        select_next_spec(v).selected_idx < v.files.len(),
{
}

proof fn lemma_jobs_are_approved(files: Seq<FileView>, n: int)
    requires
        0 <= n <= files.len() <= usize::MAX,
    ensures
        forall|k: int|
            0 <= k < jobs_upto(files, n).len() ==> {
                let j = #[trigger] jobs_upto(files, n)[k];
                &&& j.idx < n
                &&& files[j.idx as int].status is Approved
                &&& files[j.idx as int].path == j.from
                &&& files[j.idx as int].proposed == Some(j.to)
            },
    decreases n,
{
    if n > 0 {
        lemma_jobs_are_approved(files, n - 1);
        let rest = jobs_upto(files, n - 1);
        assert forall|k: int| 0 <= k < jobs_upto(files, n).len() implies {
            let j = #[trigger] jobs_upto(files, n)[k];
            &&& j.idx < n
            &&& files[j.idx as int].status is Approved
            &&& files[j.idx as int].path == j.from
            &&& files[j.idx as int].proposed == Some(j.to)
        } by {
            if k < rest.len() {
                assert(jobs_upto(files, n)[k] == rest[k]);
            }
        }
    }
}

/// A rename run only moves approved files, each from its path to its
/// proposed path, and starts only when some file is approved.
pub proof fn law_renames_only_approved(v: AppView)
    requires
        v.files.len() <= usize::MAX,
    ensures
        ({
            let (nv, cmd) = start_rename_spec(v);
            &&& (count_kind(v.files, StatusKind::Approved) == 0 <==> cmd == CommandView::Nothing)
            &&& (cmd matches CommandView::Rename(jobs) ==> forall|k: int|
                0 <= k < jobs.len() ==> {
                    let j = #[trigger] jobs[k];
                    &&& j.idx < v.files.len()
                    &&& v.files[j.idx as int].status is Approved
                    &&& v.files[j.idx as int].path == j.from
                    &&& v.files[j.idx as int].proposed == Some(j.to)
                })
        }),
{
    lemma_jobs_are_approved(v.files, v.files.len() as int);
}

/// The report of the last rename of a run ends the run.
pub proof fn law_last_rename_ends_run(v: AppView)
    requires
        v.state matches StateView::Renaming { completed, total } && completed + 1 == total,
    ensures
        advance_spec(v).state == StateView::Done,
{
}

/// Counting a rename keeps the state machine's invariant.
pub proof fn law_progress_keeps_invariant(v: AppView)
    requires
        wf_view(v),
    ensures
        wf_view(advance_spec(v)),
{
}

// ── Metadata ─────────────────────────────────────────────────────────────────

/// A movie whose title and year were both parsed is never looked up, and an
/// episode with every field present neither.
pub proof fn law_complete_metadata_is_final(f: FileView, s: Services)
    requires
        f.parsed matches Some(m) && (if f.media_type == MediaType::Movie {
            m.title is Some && m.year is Some
        } else {
            m.show is Some && m.season is Some && m.episode is Some && m.episode_title is Some
                && m.show_year is Some
        }),
    ensures
        plan_spec(f, s) == PlanView::Final(f.parsed->0),
{
}

/// What the file name gave is kept by the lookups: a movie keeps its title
/// and year, an episode its season, episode, episode title and show year;
/// only a TVDB answer may replace the show name.
pub proof fn law_lookups_keep_parsed_fields(m: MetaView, found: Option<MetaView>)
    ensures
        m.title is Some ==> merge_movie_spec(m, found).title == m.title,
        m.year is Some ==> merge_movie_spec(m, found).year == m.year,
        merge_tvdb_spec(m, found).season == m.season,
        merge_tvdb_spec(m, found).episode == m.episode,
        m.episode_title is Some ==> merge_tvdb_spec(m, found).episode_title == m.episode_title,
        m.show_year is Some ==> merge_tvdb_spec(m, found).show_year == m.show_year,
        merge_tmdb_spec(m, found).show == m.show,
        merge_tmdb_spec(m, found).season == m.season,
        merge_tmdb_spec(m, found).episode == m.episode,
        m.episode_title is Some ==> merge_tmdb_spec(m, found).episode_title == m.episode_title,
        m.show_year is Some ==> merge_tmdb_spec(m, found).show_year == m.show_year,
{
}

// ── Proposed paths ───────────────────────────────────────────────────────────

/// Metadata that lacks what a path needs gives no proposed path (the file
/// waits for an API lookup): a movie without title or year, an episode
/// without show, season or episode, or a file without any metadata.
pub proof fn law_incomplete_metadata_gives_no_path(f: FileView, config: Config)
    requires
        match effective_meta(f) {
            None => true,
            Some(m) => if f.media_type == MediaType::Movie {
                m.title is None || m.year is None
            } else {
                m.show is None || m.season is None || m.episode is None
            },
        },
    ensures
        proposed_path_spec(f, config) == Ok::<Option<Seq<char>>, crate::media::renamer::PathTemplate>(None),
{
}


// ── Templates ────────────────────────────────────────────────────────────────

proof fn lemma_render_plain(t: Seq<char>, vars: Map<Seq<char>, Seq<char>>, p: int)
    requires
        0 <= p <= t.len(),
        forall|i: int| p <= i < t.len() ==> t[i] != '{' && t[i] != '}',
    ensures
        render_from(t, vars, p) == Some(t.subrange(p, t.len() as int)),
    decreases t.len() - p,
{
    if p < t.len() {
        lemma_render_plain(t, vars, p + 1);
        assert(seq![t[p]] + t.subrange(p + 1, t.len() as int) =~= t.subrange(p, t.len() as int));
    } else {
        assert(t.subrange(p, t.len() as int) =~= Seq::<char>::empty());
    }
}

/// A template without braces renders to itself.
pub proof fn law_plain_text_renders_unchanged(t: Seq<char>, vars: Map<Seq<char>, Seq<char>>)
    requires
        forall|i: int| 0 <= i < t.len() ==> t[i] != '{' && t[i] != '}',
    ensures
        render_spec(t, vars) == Some(t),
{
    lemma_render_plain(t, vars, 0);
    assert(t.subrange(0, t.len() as int) =~= t);
}

proof fn lemma_find_exact(s: Seq<char>, c: char, p: int, k: int)
    requires
        0 <= p <= k < s.len(),
        s[k] == c,
        forall|m: int| p <= m < k ==> s[m] != c,
    ensures
        find_from(s, c, p) == k,
    decreases k - p,
{
    if p < k {
        lemma_find_exact(s, c, p + 1, k);
    }
}

proof fn lemma_find_absent(s: Seq<char>, c: char, p: int)
    requires
        0 <= p <= s.len(),
        forall|m: int| p <= m < s.len() ==> s[m] != c,
    ensures
        find_from(s, c, p) == s.len(),
    decreases s.len() - p,
{
    if p < s.len() {
        lemma_find_absent(s, c, p + 1);
    }
}

/// `{name}` renders to the value of `name`, and to nothing when `name` has
/// no value.
pub proof fn law_variable_renders_value(name: Seq<char>, vars: Map<Seq<char>, Seq<char>>)
    requires
        forall|i: int| 0 <= i < name.len() ==> name[i] != '}' && name[i] != ':',
        name.len() > 0 ==> name[0] != '{',
    ensures
        render_spec(seq!['{'] + name + seq!['}'], vars) == Some(
            if vars.contains_key(name) {
                vars[name]
            } else {
                Seq::<char>::empty()
            },
        ),
{
    let t = seq!['{'] + name + seq!['}'];
    let k: int = name.len() as int + 1;
    assert(t[k] == '}');
    assert forall|m: int| 1 <= m < k implies t[m] != '}' by {
        assert(t[m] == name[m - 1]);
    }
    lemma_find_exact(t, '}', 1, k);
    assert(t.subrange(1, k) =~= name);
    lemma_find_absent(name, ':', 0);
    assert(name.subrange(0, name.len() as int) =~= name);
    assert(render_from(t, vars, k + 1) == Some(Seq::<char>::empty()));
    let value = if vars.contains_key(name) { vars[name] } else { Seq::<char>::empty() };
    assert(token_value(name, vars) == value);
    assert(value + Seq::<char>::empty() =~= value);
    if name.len() == 0 {
        assert(t[1] == '}');
    } else {
        assert(t[1] == name[0]);
    }
}

proof fn lemma_decimal(n: nat)
    ensures
        decimal(n).len() > 0,
        all_digits(decimal(n)),
        digits_value(decimal(n)) == n,
        n > 0 ==> decimal(n)[0] != '0',
    decreases n,
{
    if n < 10 {
        let d = decimal(n);
        assert(d.drop_last() =~= Seq::<char>::empty());
        assert(digits_value(d.drop_last()) == 0);
        assert(d.last() == digit_char(n));
        assert(digit_of(digit_char(n)) == n);
    } else {
        lemma_decimal(n / 10);
        let d = decimal(n);
        assert(d.drop_last() =~= decimal(n / 10));
        assert(digit_of(digit_char(n % 10)) == n % 10);
        assert(d.last() == digit_char(n % 10));
        assert(digits_value(d) == digits_value(decimal(n / 10)) * 10 + n % 10);
        assert((n / 10) * 10 + n % 10 == n);
        assert(d[0] == decimal(n / 10)[0]);
        assert forall|i: int| 0 <= i < d.len() implies is_digit(#[trigger] d[i]) by {
            if i < d.len() - 1 {
                assert(d[i] == decimal(n / 10)[i]);
            }
        }
    }
}

/// A number written in decimal parses back to itself.
pub proof fn law_decimal_parses_back(n: nat)
    ensures
        parse_unsigned(decimal(n)) == Some(n),
        parse_signed(decimal(n)) == Some(n as int),
{
    lemma_decimal(n);
    assert(decimal(n)[0] != '-' && decimal(n)[0] != '+') by {
        assert(is_digit(decimal(n)[0]));
    }
}

/// A format spec `0<width>` pads a number with zeros to `width` digits
/// (e.g. `{season:02}` of `1` is `01`).
pub proof fn law_zero_padding(n: nat, w: nat)
    requires
        0 < w <= usize::MAX,
        n <= i64::MAX,
    ensures
        apply_format(decimal(n), seq!['0'] + decimal(w)) == pad_left(decimal(n), w, '0'),
{
    law_decimal_parses_back(n);
    law_decimal_parses_back(w);
    lemma_decimal(w);
    let spec = seq!['0'] + decimal(w);
    assert(spec.drop_first() =~= decimal(w));
    assert(trim_start(decimal(w), CharClass::Zero) == decimal(w));
    assert(trim_start(spec, CharClass::Zero) == decimal(w));
}

/// `s` with every brace doubled.
pub open spec fn escape_braces(s: Seq<char>) -> Seq<char>
    decreases s.len(),
{
    if s.len() == 0 {
        Seq::empty()
    } else {
        let c = s[0];
        (if c == '{' {
            seq!['{', '{']
        } else if c == '}' {
            seq!['}', '}']
        } else {
            seq![c]
        }) + escape_braces(s.drop_first())
    }
}

proof fn lemma_find_shift(pre: Seq<char>, y: Seq<char>, c: char, q: int)
    requires
        0 <= q <= y.len(),
    ensures
        find_from(pre + y, c, pre.len() + q) == pre.len() + find_from(y, c, q),
    decreases y.len() - q,
{
    if q < y.len() {
        assert((pre + y)[pre.len() + q] == y[q]);
        lemma_find_shift(pre, y, c, q + 1);
    }
}

proof fn lemma_render_shift(pre: Seq<char>, y: Seq<char>, vars: Map<Seq<char>, Seq<char>>, q: int)
    requires
        0 <= q <= y.len(),
    ensures
        render_from(pre + y, vars, pre.len() + q) == render_from(y, vars, q),
    decreases y.len() - q,
{
    let t = pre + y;
    let p = pre.len() + q;
    if q < y.len() {
        assert(t[p] == y[q]);
        if q + 1 < y.len() {
            assert(t[p + 1] == y[q + 1]);
        }
        if y[q] == '{' && !(q + 1 < y.len() && y[q + 1] == '{') {
            lemma_find_shift(pre, y, '}', q + 1);
            lemma_find_from(y, '}', q + 1);
            let j = find_from(y, '}', q + 1);
            if j < y.len() {
                assert(t.subrange(p + 1, pre.len() + j) =~= y.subrange(q + 1, j));
                lemma_render_shift(pre, y, vars, j + 1);
            }
        } else if y[q] == '{' || (y[q] == '}' && q + 1 < y.len() && y[q + 1] == '}') {
            lemma_render_shift(pre, y, vars, q + 2);
        } else {
            lemma_render_shift(pre, y, vars, q + 1);
        }
    }
}

/// Doubling the braces of a text gives a template that renders to the text.
pub proof fn law_escaped_braces_render_to_text(s: Seq<char>, vars: Map<Seq<char>, Seq<char>>)
    ensures
        render_spec(escape_braces(s), vars) == Some(s),
    decreases s.len(),
{
    if s.len() == 0 {
    } else {
        let c = s[0];
        let rest = escape_braces(s.drop_first());
        law_escaped_braces_render_to_text(s.drop_first(), vars);
        let head = if c == '{' {
            seq!['{', '{']
        } else if c == '}' {
            seq!['}', '}']
        } else {
            seq![c]
        };
        let t = head + rest;
        assert(escape_braces(s) == t);
        lemma_render_shift(head, rest, vars, 0);
        assert(render_from(rest, vars, 0) == Some(s.drop_first()));
        assert(t[0] == head[0]);
        if c == '{' || c == '}' {
            assert(t[1] == head[1]);
        }
        assert(seq![c] + s.drop_first() =~= s);
    }
}

// ── File names ───────────────────────────────────────────────────────────────

proof fn lemma_replace_char(s: Seq<char>, a: char, b: char, i: int)
    requires
        0 <= i <= s.len(),
    ensures
        replace_from(s, seq![a], seq![b], i) =~= Seq::new(
            (s.len() - i) as nat,
            |k: int| if s[i + k] == a { b } else { s[i + k] },
        ),
    decreases s.len() - i,
{
    if i < s.len() {
        lemma_replace_char(s, a, b, i + 1);
        if s[i] == a {
            assert(s.subrange(i, i + 1) =~= seq![a]);
        } else {
            assert(s.subrange(i, i + 1)[0] != a);
            assert(!occurs_at(s, seq![a], i));
        }
    }
}

/// Normalizing separators turns every `.` and `_` into a space and leaves
/// every other character, and the length, as they are.
pub proof fn law_normalize_separators(s: Seq<char>)
    ensures
        normalize_spec(s).len() == s.len(),
        forall|i: int|
            0 <= i < s.len() ==> #[trigger] normalize_spec(s)[i] == if s[i] == '.' || s[i] == '_' {
                ' '
            } else {
                s[i]
            },
{
    lemma_replace_char(s, '.', ' ', 0);
    let a = replace_all(s, seq!['.'], seq![' ']);
    lemma_replace_char(a, '_', ' ', 0);
}


// ── Scanning ─────────────────────────────────────────────────────────────────

/// A path whose extension, lower-cased, is mkv, mp4, avi, mov, m4v, wmv,
/// flv, ts, m2ts or vob is a video file.
pub proof fn law_video_extensions(p: Seq<char>, e: Seq<char>)
    requires
        extension_of(p) == Some(e),
        lowercase(e) == "mkv"@ || lowercase(e) == "mp4"@ || lowercase(e) == "avi"@ || lowercase(e)
            == "mov"@ || lowercase(e) == "m4v"@ || lowercase(e) == "wmv"@ || lowercase(e) == "flv"@
            || lowercase(e) == "ts"@ || lowercase(e) == "m2ts"@ || lowercase(e) == "vob"@,
    ensures
        is_video_spec(p),
{
}

/// A movie root listing one video file scans to exactly one record, for that
/// file.
pub proof fn law_scan_keeps_video_file(
    config: Config,
    movie_pats: Seq<Seq<char>>,
    tv_pats: Seq<Seq<char>>,
    listing: Vec<String>,
    e: Seq<char>,
)
    requires
        config.roots.movies is Some,
        listing@.len() == 1,
        extension_of(listing@[0]@) == Some(e),
        lowercase(e) == "mkv"@ || lowercase(e) == "mp4"@ || lowercase(e) == "avi"@ || lowercase(e)
            == "mov"@ || lowercase(e) == "m4v"@ || lowercase(e) == "wmv"@ || lowercase(e) == "flv"@
            || lowercase(e) == "ts"@ || lowercase(e) == "m2ts"@ || lowercase(e) == "vob"@,
    ensures
        scanned_roots(&config, movie_pats, tv_pats, Some(listing), None).len() == 1,
        scanned_roots(&config, movie_pats, tv_pats, Some(listing), None)[0].path == listing@[0]@,
        scanned_roots(&config, movie_pats, tv_pats, Some(listing), None)[0].media_type
            == MediaType::Movie,
{
    law_video_extensions(listing@[0]@, e);
    assert(listing@.drop_last() =~= Seq::<String>::empty());
    let r = scanned_roots(&config, movie_pats, tv_pats, Some(listing), None);
    let m = crate::media::scanner::scan_spec(listing@, MediaType::Movie, movie_pats, config);
    assert(crate::media::scanner::scan_spec(listing@.drop_last(), MediaType::Movie, movie_pats, config)
        =~= Seq::<FileView>::empty());
    assert(listing@.last() == listing@[0]);
    assert(m =~= seq![
        crate::media::scanner::scanned_file(listing@[0]@, MediaType::Movie, movie_pats, config),
    ]);
    assert(r =~= m + Seq::<FileView>::empty());
}

// ── Reviewing files ──────────────────────────────────────────────────────────

/// In the browser or preview, `s` skips the selected file when it is pending
/// or approved, and changes no other file.
pub proof fn law_skip_selected(v: AppView, i: int)
    requires
        v.state is Browsing || v.state is Previewing,
        v.selected_idx < v.files.len(),
        v.files[v.selected_idx as int].status is Pending || v.files[v.selected_idx
            as int].status is Approved,
        0 <= i < v.files.len(),
    ensures
        ({
            let r = key_step(v, Key { code: KeyCode::Char('s'), ctrl: false }).0;
            &&& r.files.len() == v.files.len()
            &&& r.files[v.selected_idx as int].status == StatusView::Skipped
            &&& r.files[v.selected_idx as int].path == v.files[v.selected_idx as int].path
            &&& (i != v.selected_idx ==> r.files[i] == v.files[i])
        }),
{
}

/// In the browser or preview, `a` approves the selected file when it is
/// pending or skipped, and changes no other file.
pub proof fn law_approve_selected(v: AppView, i: int)
    requires
        v.state is Browsing || v.state is Previewing,
        v.selected_idx < v.files.len(),
        v.files[v.selected_idx as int].status is Pending || v.files[v.selected_idx
            as int].status is Skipped,
        0 <= i < v.files.len(),
    ensures
        ({
            let r = key_step(v, Key { code: KeyCode::Char('a'), ctrl: false }).0;
            &&& r.files.len() == v.files.len()
            &&& r.files[v.selected_idx as int].status == StatusView::Approved
            &&& r.files[v.selected_idx as int].path == v.files[v.selected_idx as int].path
            &&& (i != v.selected_idx ==> r.files[i] == v.files[i])
        }),
{
}

// ── Rename summary ───────────────────────────────────────────────────────────

proof fn lemma_count_is_filter(s: Seq<FileView>, k: StatusKind)
    ensures
        k is Done ==> count_kind(s, k) == s.filter(|f: FileView| f.status is Done).len(),
        k is Error ==> count_kind(s, k) == s.filter(|f: FileView| f.status is Error).len(),
    decreases s.len(),
{
    reveal_with_fuel(Seq::filter, 1);
    if s.len() > 0 {
        lemma_count_is_filter(s.drop_last(), k);
    }
}

/// The report of the last rename of a run ends it with the summary
/// "Done! R renamed, E errors. Press [q] to quit.", where R counts the files
/// now renamed and E the files now in error.
pub proof fn law_run_summary(v: AppView, msg: AppMsg, api_enabled: bool)
    requires
        wf_view(v),
        v.state matches StateView::Renaming { completed, total } && completed + 1 == total,
        msg is RenameComplete || msg is RenameFailed,
    ensures
        ({
            let r = msg_step(v, msg, api_enabled).0;
            &&& r.state == StateView::Done
            &&& r.status_msg == "Done! "@ + decimal(
                r.files.filter(|f: FileView| f.status is Done).len(),
            ) + " renamed, "@ + decimal(r.files.filter(|f: FileView| f.status is Error).len())
                + " errors. Press [q] to quit."@
        }),
{
    let r = msg_step(v, msg, api_enabled).0;
    lemma_count_is_filter(r.files, StatusKind::Done);
    lemma_count_is_filter(r.files, StatusKind::Error);
}

// ── Episode paths ────────────────────────────────────────────────────────────

/// The file name of an episode's proposed path is its rendered template with
/// the empty parentheses an absent variable leaves taken out: the path is
/// the root, the cleaned show directory, the season directory and the
/// cleaned file name.
pub proof fn law_episode_name_is_cleaned(
    root: Seq<char>,
    meta: MetaView,
    ext: Seq<char>,
    config: Config,
    show_dir: Seq<char>,
    season_dir: Seq<char>,
    name: Seq<char>,
)
    requires
        meta.show is Some && meta.season is Some && meta.episode is Some,
        render_spec(config.patterns.tv_shows.show_directory_template@, tv_vars(meta, ext)) == Some(
            show_dir,
        ),
        render_spec(config.patterns.tv_shows.season_directory_template@, tv_vars(meta, ext))
            == Some(season_dir),
        render_spec(
            if meta.episode_title is Some {
                config.patterns.tv_shows.episode_file_template@
            } else {
                config.patterns.tv_shows.episode_file_template_no_title@
            },
            tv_vars(meta, ext),
        ) == Some(name),
    ensures
        tv_path_spec(root, meta, ext, config) == Ok::<Option<Seq<char>>, crate::media::renamer::PathTemplate>(
            Some(
                join_path(
                    join_path(join_path(root, clean_parens_spec(show_dir)), season_dir),
                    clean_parens_spec(name),
                ),
            ),
        ),
{
}

pub open spec fn no_parens(s: Seq<char>) -> bool {
    forall|i: int| 0 <= i < s.len() ==> #[trigger] s[i] != '(' && s[i] != ')'
}

/// Replacing from `i` copies everything up to `k` when the pattern occurs
/// nowhere in between.
proof fn lemma_replace_skip(s: Seq<char>, pat: Seq<char>, rep: Seq<char>, i: int, k: int)
    requires
        0 <= i <= k <= s.len(),
        pat.len() > 0,
        forall|j: int| i <= j < k ==> !#[trigger] occurs_at(s, pat, j),
    ensures
        replace_from(s, pat, rep, i) == s.subrange(i, k) + replace_from(s, pat, rep, k),
    decreases k - i,
{
    if i == k {
        assert(s.subrange(i, k) =~= Seq::<char>::empty());
        assert(s.subrange(i, k) + replace_from(s, pat, rep, k) =~= replace_from(s, pat, rep, k));
    } else if i + pat.len() > s.len() {
        if k < s.len() {
            assert(k + pat.len() > s.len());
        }
        assert(s.subrange(i, s.len() as int) =~= s.subrange(i, k) + s.subrange(k, s.len() as int));
    } else {
        assert(!occurs_at(s, pat, i));
        lemma_replace_skip(s, pat, rep, i + 1, k);
        assert(seq![s[i]] + (s.subrange(i + 1, k) + replace_from(s, pat, rep, k)) =~= s.subrange(
            i,
            k,
        ) + replace_from(s, pat, rep, k));
    }
}

/// A text without parentheses is left as it is by replacing a pattern that
/// holds one.
proof fn lemma_replace_no_parens(s: Seq<char>, pat: Seq<char>, rep: Seq<char>, c: int)
    requires
        no_parens(s),
        0 <= c < pat.len(),
        pat[c] == '(',
    ensures
        replace_all(s, pat, rep) == s,
{
    assert forall|j: int| 0 <= j < s.len() implies !#[trigger] occurs_at(s, pat, j) by {
        if occurs_at(s, pat, j) {
            assert(s.subrange(j, j + pat.len())[c] == s[j + c]);
        }
    }
    lemma_replace_skip(s, pat, rep, 0, s.len() as int);
    assert(s.subrange(0, s.len() as int) + Seq::<char>::empty() =~= s);
}

/// Empty parentheses with a space before them are removed from a name: for
/// texts `a` and `b` without parentheses, `a ()b` is cleaned to `ab` (when
/// `ab` neither starts nor ends with whitespace).
pub proof fn law_empty_parens_removed(a: Seq<char>, b: Seq<char>)
    requires
        no_parens(a),
        no_parens(b),
        (a + b).len() > 0 ==> !is_ws((a + b)[0]) && !is_ws((a + b).last()),
    ensures
        clean_parens_spec(a + " ()"@ + b) == a + b,
{
    let s = a + " ()"@ + b;
    let p1 = seq![' ', '(', ')'];
    let p2 = seq!['(', ')'];
    let e = Seq::<char>::empty();
    assert(" ()"@ =~= p1) by {
        reveal_strlit(" ()");
    }
    let n = a.len() as int;
    assert forall|j: int| 0 <= j < n implies !#[trigger] occurs_at(s, p1, j) by {
        if occurs_at(s, p1, j) {
            assert(s.subrange(j, j + 3)[1] == s[j + 1]);
            if j + 1 < n {
                assert(s[j + 1] == a[j + 1]);
            }
        }
    }
    lemma_replace_skip(s, p1, e, 0, n);
    assert(s.subrange(n, n + 3) =~= p1);
    assert(occurs_at(s, p1, n));
    assert forall|j: int| n + 3 <= j < s.len() implies !#[trigger] occurs_at(s, p1, j) by {
        if occurs_at(s, p1, j) {
            assert(s.subrange(j, j + 3)[1] == s[j + 1]);
            assert(s[j + 1] == b[j + 1 - n - 3]);
        }
    }
    lemma_replace_skip(s, p1, e, n + 3, s.len() as int);
    assert(s.subrange(0, n) =~= a);
    assert(s.subrange(n + 3, s.len() as int) =~= b);
    assert(replace_from(s, p1, e, s.len() as int) =~= e);
    assert(replace_from(s, p1, e, n) == e + replace_from(s, p1, e, n + 3));
    assert(replace_all(s, p1, e) =~= a + b);
    assert(no_parens(a + b)) by {
        assert forall|i: int| 0 <= i < (a + b).len() implies #[trigger] (a + b)[i] != '(' && (a
            + b)[i] != ')' by {
            if i < a.len() {
                assert((a + b)[i] == a[i]);
            } else {
                assert((a + b)[i] == b[i - a.len()]);
            }
        }
    }
    lemma_replace_no_parens(a + b, p2, e, 0);
    let t = a + b;
    if t.len() > 0 {
        assert(trim_start(t, CharClass::Whitespace) == t);
        assert(trim_end(t, CharClass::Whitespace) == t);
    } else {
        assert(trim_start(t, CharClass::Whitespace) == t);
        assert(trim_end(t, CharClass::Whitespace) == t);
    }
}

// ── Metadata lookups ─────────────────────────────────────────────────────────

/// An answer fills what the parsed metadata lacks: a movie's missing title
/// and year, an episode's missing episode title and show year (from TVDB or
/// TMDB) are the answer's.
pub proof fn law_lookups_fill_missing_fields(m: MetaView, a: MetaView)
    ensures
        m.title is None ==> merge_movie_spec(m, Some(a)).title == a.title,
        m.year is None ==> merge_movie_spec(m, Some(a)).year == a.year,
        m.episode_title is None ==> merge_tvdb_spec(m, Some(a)).episode_title == a.episode_title,
        m.show_year is None ==> merge_tvdb_spec(m, Some(a)).show_year == a.show_year,
        a.show is Some ==> merge_tvdb_spec(m, Some(a)).show == a.show,
        m.episode_title is None ==> merge_tmdb_spec(m, Some(a)).episode_title == a.episode_title,
        m.show_year is None ==> merge_tmdb_spec(m, Some(a)).show_year == a.show_year,
{
}

} // verus!
