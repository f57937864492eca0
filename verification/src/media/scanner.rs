//! Turning the files found under the media roots into `MediaFile`s.
use vstd::prelude::*;
use crate::config::Config;
use crate::media::{MediaFile, MediaType, RenameStatus, FileView, StatusView, MetaView, opt_meta_view};
use crate::media::parser::{
    MovieParser, TvParser, movie_parse_spec, tv_parse_spec, string_views, patterns_compile,
    first_bad_pattern,
};
use crate::media::pattern::PatternError;
use crate::media::renamer::{compute_proposed_path, proposed_path_spec, render_failure_text, or_empty};
use crate::paths::{extension_of, file_name_of, path_lt, path_eq, path_precedes, same_path, extension, file_name};

verus! {

/// `str::to_lowercase` of a string.
pub uninterp spec fn lowercase(s: Seq<char>) -> Seq<char>;

/// `str::to_lowercase` (Unicode lower-case mapping).
#[verifier::external_body]
fn to_lowercase(s: &str) -> (r: String)
    ensures
        r@ == lowercase(s@),
{
    s.to_lowercase()
}

/// Video file extensions we recognise.
pub open spec fn is_video_ext(e: Seq<char>) -> bool {
    ||| e == "mkv"@
    ||| e == "mp4"@
    ||| e == "avi"@
    ||| e == "mov"@
    ||| e == "m4v"@
    ||| e == "wmv"@
    ||| e == "flv"@
    ||| e == "ts"@
    ||| e == "m2ts"@
    ||| e == "vob"@
}

/// A path whose lower-cased extension is a video extension.
pub open spec fn is_video_spec(p: Seq<char>) -> bool {
    match extension_of(p) {
        Some(e) => is_video_ext(lowercase(e)),
        None => false,
    }
}

pub fn is_video_file(path: &str) -> (r: bool)
    ensures
        r == is_video_spec(path@),
{
    match extension(path) {
        None => false,
        Some(e) => {
            let l = to_lowercase(e.as_str());
            l == String::from_str("mkv") || l == String::from_str("mp4") || l == String::from_str(
                "avi",
            ) || l == String::from_str("mov") || l == String::from_str("m4v") || l
                == String::from_str("wmv") || l == String::from_str("flv") || l == String::from_str(
                "ts",
            ) || l == String::from_str("m2ts") || l == String::from_str("vob")
        },
    }
}

/// The parser of one kind of media.
pub enum NameParser<'a> {
    Movie(&'a MovieParser),
    Tv(&'a TvParser),
}

/// Metadata of a file name under the patterns of its kind of media.
pub open spec fn parse_for(mt: MediaType, pats: Seq<Seq<char>>, filename: Seq<char>) -> Option<
    MetaView,
> {
    match mt {
        MediaType::Movie => movie_parse_spec(pats, filename),
        MediaType::TvEpisode => tv_parse_spec(pats, filename),
    }
}

impl<'a> View for NameParser<'a> {
    type V = (MediaType, Seq<Seq<char>>);

    open spec fn view(&self) -> (MediaType, Seq<Seq<char>>) {
        match self {
            NameParser::Movie(p) => (MediaType::Movie, p@),
            NameParser::Tv(p) => (MediaType::TvEpisode, p@),
        }
    }
}

impl<'a> NameParser<'a> {
    pub fn media_type(&self) -> (r: MediaType)
        ensures
            r == self@.0,
    {
        match self {
            NameParser::Movie(_) => MediaType::Movie,
            NameParser::Tv(_) => MediaType::TvEpisode,
        }
    }

    pub fn parse(&self, filename: &str) -> (r: Option<crate::media::ParsedMetadata>)
        ensures
            opt_meta_view(r) == parse_for(self@.0, self@.1, filename@),
    {
        match self {
            NameParser::Movie(p) => p.parse(filename),
            NameParser::Tv(p) => p.parse(filename),
        }
    }
}

/// The record of a video file found at `path`: its parsed metadata, and its
/// proposed path and status. Episodes wait for the API when lookups are on;
/// otherwise a computed path that is the same path gives `AlreadyCorrect`,
/// another path `Pending`, no path `LoadingMetadata`, and a failed template
/// `Error`.
pub open spec fn scanned_file(path: Seq<char>, mt: MediaType, pats: Seq<Seq<char>>, config: Config) -> FileView {
    let parsed = parse_for(mt, pats, or_empty(file_name_of(path)));
    let base = FileView {
        path,
        media_type: mt,
        parsed,
        resolved: None,
        proposed: None,
        status: StatusView::Pending,
    };
    let pp = proposed_path_spec(base, config);
    if mt == MediaType::TvEpisode && config.api_enabled_spec() {
        FileView {
            proposed: match pp {
                Ok(Some(q)) => Some(q),
                _ => None,
            },
            status: StatusView::LoadingMetadata,
            ..base
        }
    } else {
        match pp {
            Ok(Some(q)) => if path_eq(q, path) {
                FileView { status: StatusView::AlreadyCorrect, ..base }
            } else {
                FileView { proposed: Some(q), status: StatusView::Pending, ..base }
            },
            Ok(None) => FileView { status: StatusView::LoadingMetadata, ..base },
            Err(t) => FileView { status: StatusView::Error(render_failure_text(t)), ..base },
        }
    }
}

/// The records of the video files among `paths`, in order.
pub open spec fn scan_spec(paths: Seq<String>, mt: MediaType, pats: Seq<Seq<char>>, config: Config) -> Seq<
    FileView,
>
    decreases paths.len(),
{
    if paths.len() == 0 {
        Seq::empty()
    } else {
        let rest = scan_spec(paths.drop_last(), mt, pats, config);
        if is_video_spec(paths.last()@) {
            rest.push(scanned_file(paths.last()@, mt, pats, config))
        } else {
            rest
        }
    }
}

pub open spec fn views(s: Seq<MediaFile>) -> Seq<FileView> {
    s.map_values(|f: MediaFile| f@)
}

/// The path of the file at `j` does not come before that of the file at `i`.
pub open spec fn in_order(s: Seq<FileView>, i: int, j: int) -> bool {
    !path_lt(s[j].path, s[i].path)
}

/// No file's path comes before the path of a file listed earlier.
pub open spec fn sorted_by_path(s: Seq<FileView>) -> bool {
    forall|i: int, j: int| 0 <= i < j < s.len() ==> #[trigger] in_order(s, i, j)
}

/// The record of the file at `path`.
pub fn scan_entry(path: &String, parser: &NameParser, config: &Config) -> (r: MediaFile)
    ensures
        r@ == scanned_file(path@, parser@.0, parser@.1, *config),
{
    let media_type = parser.media_type();
    let name = file_name(path.as_str());
    let filename = match name {
        Some(n) => n,
        None => String::new(),
    };
    let parsed = parser.parse(filename.as_str());
    let mut file = MediaFile::new(path.clone(), media_type);
    file.parsed_metadata = parsed;
    if media_type == MediaType::TvEpisode && config.api_enabled() {
        match compute_proposed_path(&file, config) {
            Ok(Some(proposed)) => {
                file.proposed_path = Some(proposed);
            },
            _ => {},
        }
        file.status = RenameStatus::LoadingMetadata;
    } else {
        match compute_proposed_path(&file, config) {
            Ok(Some(proposed)) => {
                if same_path(proposed.as_str(), file.path.as_str()) {
                    file.status = RenameStatus::AlreadyCorrect;
                } else {
                    file.proposed_path = Some(proposed);
                    file.status = RenameStatus::Pending;
                }
            },
            Ok(None) => {
                file.status = RenameStatus::LoadingMetadata;
            },
            Err(e) => {
                file.status = RenameStatus::Error(e.message());
            },
        }
    }
    file
}

/// Inserting `x` at a position where no earlier path comes after it and no
/// later path comes before it keeps the sequence sorted.
proof fn lemma_insert_keeps_sorted(s: Seq<FileView>, p: int, x: FileView)
    requires
        0 <= p <= s.len(),
        sorted_by_path(s),
        forall|i: int| 0 <= i < p ==> !path_lt(x.path, #[trigger] s[i].path),
        forall|j: int| p <= j < s.len() ==> !path_lt(#[trigger] s[j].path, x.path),
    ensures
        sorted_by_path(s.insert(p, x)),
{
    let t = s.insert(p, x);
    assert forall|i: int, j: int| 0 <= i < j < t.len() implies #[trigger] in_order(t, i, j) by {
        if j < p {
            assert(in_order(s, i, j));
        } else if j == p {
            assert(t[i] == s[i]);
        } else if i < p {
            assert(in_order(s, i, j - 1));
            assert(t[i] == s[i] && t[j] == s[j - 1]);
        } else if i == p {
            assert(t[j] == s[j - 1]);
        } else {
            assert(in_order(s, i - 1, j - 1));
            assert(t[i] == s[i - 1] && t[j] == s[j - 1]);
        }
    }
}

/// Inserts `f` after every file whose path does not come after its own,
/// before the first file whose path comes after it; returns where.
pub fn insert_sorted(out: &mut Vec<MediaFile>, f: MediaFile) -> (p: usize)
    requires
        sorted_by_path(views(old(out)@)),
    ensures
        p <= old(out)@.len(),
        views(final(out)@) == views(old(out)@).insert(p as int, f@),
        forall|m: int| 0 <= m < p ==> !path_lt(f@.path, #[trigger] views(old(out)@)[m].path),
        forall|j: int|
            p <= j < old(out)@.len() ==> path_lt(f@.path, #[trigger] views(old(out)@)[j].path),
        sorted_by_path(views(final(out)@)),
        views(final(out)@).to_multiset() == views(old(out)@).to_multiset().insert(f@),
{
    let ghost before = views(out@);
    let ghost fv = f@;
    let mut p: usize = 0;
    let mut later: bool = false;
    while !later && p < out.len()
        invariant
            p <= out.len(),
            views(out@) == before,
            fv == f@,
            sorted_by_path(before),
            forall|m: int| 0 <= m < p ==> !path_lt(fv.path, #[trigger] before[m].path),
            later ==> p < out.len() && path_lt(fv.path, before[p as int].path) && !path_lt(
                before[p as int].path,
                fv.path,
            ) && (forall|c: Seq<char>|
                #[trigger] path_lt(c, fv.path) ==> path_lt(c, before[p as int].path)) && (forall|
                c: Seq<char>,
            |
                #![trigger path_lt(fv.path, c)]
                #![trigger path_lt(c, before[p as int].path)]
                path_lt(fv.path, c) || path_lt(c, before[p as int].path)),
        decreases out.len() - p + (if later { 0int } else { 1int }),
    {
        assert(before[p as int] == out@[p as int]@);
        if path_precedes(f.path.as_str(), out[p].path.as_str()) {
            later = true;
        } else {
            p = p + 1;
        }
    }
    proof {
        assert forall|j: int| p <= j < before.len() implies !path_lt(
            #[trigger] before[j].path,
            fv.path,
        ) && path_lt(fv.path, before[j].path) by {
            if j > p {
                assert(in_order(before, p as int, j));
                assert(path_lt(fv.path, before[j].path) || path_lt(before[j].path, before[p as int].path));
            }
        }
        lemma_insert_keeps_sorted(before, p as int, fv);
        vstd::seq_lib::to_multiset_insert(before, p as int, fv);
    }
    out.insert(p, f);
    assert(views(out@) =~= before.insert(p as int, fv));
    p
}

/// `perm` says where each file of `r` stands in `s`: `r` holds each file of
/// `s` once, and files with equal paths (neither before the other) keep the
/// order they have in `s`.
pub open spec fn stable_perm(r: Seq<FileView>, s: Seq<FileView>, perm: Seq<int>) -> bool {
    &&& r.len() == s.len()
    &&& perm.len() == r.len()
    &&& forall|k: int| 0 <= k < r.len() ==> 0 <= #[trigger] perm[k] < s.len() && r[k] == s[perm[k]]
    &&& forall|k: int, l: int| 0 <= k < l < r.len() ==> #[trigger] perm[k] != #[trigger] perm[l]
    &&& forall|k: int, l: int|
        0 <= k < l < r.len() && !path_lt(r[k].path, r[l].path) && !path_lt(r[l].path, r[k].path)
            ==> #[trigger] perm[k] < #[trigger] perm[l]
}

/// `r` is `s` ordered by path, files with equal paths in the order of `s`
/// (a stable sort).
pub open spec fn stably_sorted_from(r: Seq<FileView>, s: Seq<FileView>) -> bool {
    &&& sorted_by_path(r)
    &&& exists|perm: Seq<int>| stable_perm(r, s, perm)
}

/// Inserting the next file of `s` at a position before which no path comes
/// after it and from which every path comes after it keeps the order stable.
proof fn lemma_stable_insert(
    r: Seq<FileView>,
    s: Seq<FileView>,
    perm: Seq<int>,
    p: int,
    x: FileView,
)
    requires
        stable_perm(r, s, perm),
        0 <= p <= r.len(),
        forall|j: int| p <= j < r.len() ==> path_lt(x.path, #[trigger] r[j].path),
    ensures
        stable_perm(r.insert(p, x), s.push(x), perm.insert(p, s.len() as int)),
{
    let r2 = r.insert(p, x);
    let s2 = s.push(x);
    let n = s.len() as int;
    let q = perm.insert(p, n);
    assert forall|k: int| 0 <= k < r2.len() implies 0 <= #[trigger] q[k] < s2.len() && r2[k]
        == s2[q[k]] by {
        if k < p {
            assert(q[k] == perm[k] && r2[k] == r[k]);
        } else if k > p {
            assert(q[k] == perm[k - 1] && r2[k] == r[k - 1]);
        }
    }
    assert forall|k: int, l: int| 0 <= k < l < r2.len() implies #[trigger] q[k] != #[trigger] q[l] by {
        if k < p && l < p {
            assert(perm[k] != perm[l]);
        } else if k > p && l > p {
            assert(perm[k - 1] != perm[l - 1]);
        } else if k < p && l > p {
            assert(perm[k] != perm[l - 1]);
        } else if k == p {
            assert(q[l] == perm[l - 1]);
        } else {
            assert(q[k] == perm[k]);
        }
    }
    assert forall|k: int, l: int|
        0 <= k < l < r2.len() && !path_lt(r2[k].path, r2[l].path) && !path_lt(
            r2[l].path,
            r2[k].path,
        ) implies #[trigger] q[k] < #[trigger] q[l] by {
        if k < p && l < p {
            assert(perm[k] < perm[l]);
        } else if k > p && l > p {
            assert(r2[k] == r[k - 1] && r2[l] == r[l - 1]);
            assert(perm[k - 1] < perm[l - 1]);
        } else if k < p && l > p {
            assert(r2[k] == r[k] && r2[l] == r[l - 1]);
            assert(perm[k] < perm[l - 1]);
        } else if k == p {
            assert(r2[l] == r[l - 1]);
            assert(path_lt(x.path, r[l - 1].path));
        } else {
            assert(q[k] == perm[k]);
        }
    }
}

/// The files ordered by path: each is inserted, in turn, after the files
/// already placed whose paths do not come after its own, so files with
/// equal paths keep their order.
pub fn sort_by_path(files: &Vec<MediaFile>) -> (r: Vec<MediaFile>)
    ensures
        stably_sorted_from(views(r@), views(files@)),
        views(r@).to_multiset() == views(files@).to_multiset(),
{
    let mut out: Vec<MediaFile> = Vec::new();
    let mut i: usize = 0;
    let ghost mut perm: Seq<int> = Seq::empty();
    proof {
        broadcast use vstd::seq_lib::group_to_multiset_ensures;

        assert(views(files@.subrange(0, 0)) =~= views(out@));
    }
    while i < files.len()
        invariant
            i <= files.len(),
            sorted_by_path(views(out@)),
            views(out@).to_multiset() == views(files@.subrange(0, i as int)).to_multiset(),
            stable_perm(views(out@), views(files@.subrange(0, i as int)), perm),
        decreases files.len() - i,
    {
        let ghost before = views(out@);
        let f = files[i].duplicate();
        let p = insert_sorted(&mut out, f);
        proof {
            broadcast use vstd::seq_lib::group_to_multiset_ensures;

            let s = views(files@.subrange(0, i as int));
            assert(views(files@.subrange(0, i + 1)) =~= s.push(files@[i as int]@));
            lemma_stable_insert(before, s, perm, p as int, files@[i as int]@);
            perm = perm.insert(p as int, i as int);
        }
        i = i + 1;
    }
    assert(files@.subrange(0, i as int) =~= files@);
    out
}

/// Appends the records of the video files among `paths` to `out`, in the
/// order of `paths`.
pub fn scan_directory(
    paths: &Vec<String>,
    parser: &NameParser,
    config: &Config,
    out: &mut Vec<MediaFile>,
)
    ensures
        views(final(out)@) == views(old(out)@) + scan_spec(paths@, parser@.0, parser@.1, *config),
{
    let ghost start = views(out@);
    let mut i: usize = 0;
    proof {
        assert(paths@.subrange(0, 0) =~= Seq::<String>::empty());
        assert(start + Seq::<FileView>::empty() =~= start);
    }
    while i < paths.len()
        invariant
            i <= paths.len(),
            views(out@) == start + scan_spec(paths@.subrange(0, i as int), parser@.0, parser@.1, *config),
        decreases paths.len() - i,
    {
        proof {
            assert(paths@.subrange(0, i + 1).drop_last() =~= paths@.subrange(0, i as int));
        }
        let ghost prev = scan_spec(paths@.subrange(0, i as int), parser@.0, parser@.1, *config);
        if is_video_file(paths[i].as_str()) {
            let file = scan_entry(&paths[i], parser, config);
            let ghost fv = file@;
            let ghost old_out = out@;
            out.push(file);
            proof {
                assert(views(out@) =~= views(old_out).push(fv));
                assert(views(out@) =~= start + prev.push(fv));
            }
        }
        i = i + 1;
    }
    assert(paths@.subrange(0, i as int) =~= paths@);
}

/// The records of the listed files of the movies root followed by those of
/// the TV root, each under the patterns of its kind; a root that is unset
/// or has no listing adds none.
pub open spec fn scanned_roots(
    config: &Config,
    movie_pats: Seq<Seq<char>>,
    tv_pats: Seq<Seq<char>>,
    movie_paths: Option<Vec<String>>,
    tv_paths: Option<Vec<String>>,
) -> Seq<FileView> {
    let m = match movie_paths {
        Some(ps) => if config.roots.movies is Some {
            scan_spec(ps@, MediaType::Movie, movie_pats, *config)
        } else {
            Seq::empty()
        },
        None => Seq::empty(),
    };
    let t = match tv_paths {
        Some(ps) => if config.roots.tv_shows is Some {
            scan_spec(ps@, MediaType::TvEpisode, tv_pats, *config)
        } else {
            Seq::empty()
        },
        None => Seq::empty(),
    };
    m + t
}

/// The records of the listed video files of both roots, sorted by path;
/// files with equal paths stay in listing order, movies before TV shows.
/// `movie_paths` and `tv_paths` are the files found under the movies and TV
/// roots (`None` when a root does not exist); a root that the configuration
/// leaves unset is not scanned.
pub fn scan_listings(
    movie_parser: &MovieParser,
    tv_parser: &TvParser,
    config: &Config,
    movie_paths: Option<Vec<String>>,
    tv_paths: Option<Vec<String>>,
) -> (r: Vec<MediaFile>)
    ensures
        stably_sorted_from(
            views(r@),
            scanned_roots(config, movie_parser@, tv_parser@, movie_paths, tv_paths),
        ),
        views(r@).to_multiset() == scanned_roots(
            config,
            movie_parser@,
            tv_parser@,
            movie_paths,
            tv_paths,
        ).to_multiset(),
{
    let mp = NameParser::Movie(movie_parser);
    let tp = NameParser::Tv(tv_parser);
    let mut files: Vec<MediaFile> = Vec::new();
    assert(views(files@) =~= Seq::<FileView>::empty());
    if config.roots.movies.is_some() {
        if let Some(paths) = &movie_paths {
            scan_directory(paths, &mp, config, &mut files);
        }
    }
    if config.roots.tv_shows.is_some() {
        if let Some(paths) = &tv_paths {
            scan_directory(paths, &tp, config, &mut files);
        }
    }
    assert(views(files@) =~= scanned_roots(config, movie_parser@, tv_parser@, movie_paths, tv_paths));
    sort_by_path(&files)
}

/// The records of the video files found under the configured roots, sorted
/// by path with equal paths in listing order (see `scan_listings`). Fails with the first pattern of the
/// configuration that does not compile, movie patterns first.
pub fn scan_all(config: &Config, movie_paths: Option<Vec<String>>, tv_paths: Option<Vec<String>>) -> (r:
    Result<Vec<MediaFile>, PatternError>)
    ensures
        match r {
            Ok(files) => {
                &&& patterns_compile(string_views(config.patterns.movies.input_patterns@))
                &&& patterns_compile(string_views(config.patterns.tv_shows.input_patterns@))
                &&& stably_sorted_from(
                    views(files@),
                    scanned_roots(
                        config,
                        string_views(config.patterns.movies.input_patterns@),
                        string_views(config.patterns.tv_shows.input_patterns@),
                        movie_paths,
                        tv_paths,
                    ),
                )
                &&& views(files@).to_multiset() == scanned_roots(
                    config,
                    string_views(config.patterns.movies.input_patterns@),
                    string_views(config.patterns.tv_shows.input_patterns@),
                    movie_paths,
                    tv_paths,
                ).to_multiset()
            },
            Err(e) => {
                ||| first_bad_pattern(string_views(config.patterns.movies.input_patterns@), e)
                ||| (patterns_compile(string_views(config.patterns.movies.input_patterns@))
                    && first_bad_pattern(string_views(config.patterns.tv_shows.input_patterns@), e))
            },
        },
{
    let movie_parser = match MovieParser::new(&config.patterns.movies) {
        Ok(p) => p,
        Err(e) => return Err(e),
    };
    let tv_parser = match TvParser::new(&config.patterns.tv_shows) {
        Ok(p) => p,
        Err(e) => return Err(e),
    };
    Ok(scan_listings(&movie_parser, &tv_parser, config, movie_paths, tv_paths))
}

} // verus!
