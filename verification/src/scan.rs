//! The tree traversal: walks a directory tree that the host read into plain
//! values, applies the inclusion filter, and collects a record for every
//! matching file together with a notice for every entry skipped over a
//! per-entry failure.
use vstd::prelude::*;
use vstd::string::StringExecFns;

use crate::filter::include_spec;
use crate::filter::should_include_file;
use crate::record::create_file_info;
use crate::record::file_info_spec;
use crate::record::FileInfo;
use crate::record::FileInfoModel;

verus! {

broadcast use vstd::std_specs::vec::axiom_vec_index_decreases;

/// Filesystem metadata of one file, as the host read it.
pub struct FileMeta {
    /// Byte length of the file.
    pub size: u64,
    /// Rendered modification time.
    pub modified: String,
}

/// One entry of a directory listing, as the host read it.
pub enum FsEntry {
    /// A regular file; `meta` is `None` when its metadata read failed.
    File { name: String, meta: Option<FileMeta> },
    /// A directory; `listing` is `None` when it could not be read.
    Dir { name: String, listing: Option<Vec<FsEntry>> },
}

/// What the scan's root path resolved to on the host.
pub enum ScanInput {
    /// The root path does not exist.
    Missing,
    /// The root path exists but is not a directory.
    NotADirectory,
    /// The root is a directory whose own listing could not be read.
    Unreadable,
    /// The root is a directory with these entries, in listing order.
    Directory(Vec<FsEntry>),
}

/// The only two fatal, whole-scan failures: anything else is a per-entry
/// failure and merely leaves a skip notice in the result.
#[derive(Clone, Copy, PartialEq, Eq, Structural, Debug)]
pub enum ScanError {
    /// The root path does not exist.
    NotFound,
    /// The root path is not a directory.
    NotADirectory,
}

/// Why one entry was left out of an otherwise successful scan.
#[derive(Clone, Copy, PartialEq, Eq, Structural, Debug)]
pub enum SkipReason {
    /// The file matched the filter but its metadata could not be read.
    Metadata,
    /// The subdirectory could not be read; its subtree is missing.
    UnreadableDir,
}

/// Notice for one skipped entry: the entry's path and the reason.
pub struct SkipNote {
    pub path: String,
    pub reason: SkipReason,
}

/// Mathematical image of a `SkipNote`.
pub struct SkipNoteModel {
    pub path: Seq<char>,
    pub reason: SkipReason,
}

impl View for SkipNote {
    type V = SkipNoteModel;

    open spec fn view(&self) -> SkipNoteModel {
        SkipNoteModel { path: self.path@, reason: self.reason }
    }
}

impl DeepView for SkipNote {
    type V = SkipNoteModel;

    open spec fn deep_view(&self) -> SkipNoteModel {
        self.view()
    }
}

/// A scan's outcome: records of the matched files in visiting order, and a
/// notice for every entry skipped over a per-entry failure.
pub struct ScanResult {
    pub files: Vec<FileInfo>,
    pub skipped: Vec<SkipNote>,
}

/// `dir` and `name` joined with the path separator.  The scan joins with
/// `/` on every platform; the host hands the root path in as a string and
/// reads the joined paths back verbatim.
pub open spec fn join(dir: Seq<char>, name: Seq<char>) -> Seq<char> {
    dir + seq!['/'] + name
}

/// Records collected from one entry of the directory at `dir`.
pub open spec fn entry_files(
    dir: Seq<char>,
    e: FsEntry,
    exts: Seq<Seq<char>>,
    recurse: bool,
) -> Seq<FileInfoModel>
    decreases e, 0int,
{
    match e {
        FsEntry::File { name, meta } => match meta {
            Some(m) => if include_spec(name@, exts) {
                seq![file_info_spec(join(dir, name@), m.size, m.modified@)]
            } else {
                Seq::empty()
            },
            None => Seq::empty(),
        },
        FsEntry::Dir { name, listing } => if recurse {
            match listing {
                Some(l) => list_files(join(dir, name@), l, exts, recurse, l.len() as int),
                None => Seq::empty(),
            }
        } else {
            Seq::empty()
        },
    }
}

/// Records collected from the first `n` entries of the directory at `dir`.
pub open spec fn list_files(
    dir: Seq<char>,
    v: Vec<FsEntry>,
    exts: Seq<Seq<char>>,
    recurse: bool,
    n: int,
) -> Seq<FileInfoModel>
    decreases v, n,
{
    if n <= 0 || n > v.len() {
        Seq::empty()
    } else {
        list_files(dir, v, exts, recurse, n - 1) + entry_files(dir, v[n - 1], exts, recurse)
    }
}

/// Skip notices produced by one entry of the directory at `dir`.
pub open spec fn entry_skips(
    dir: Seq<char>,
    e: FsEntry,
    exts: Seq<Seq<char>>,
    recurse: bool,
) -> Seq<SkipNoteModel>
    decreases e, 0int,
{
    match e {
        FsEntry::File { name, meta } => match meta {
            Some(_) => Seq::empty(),
            None => if include_spec(name@, exts) {
                seq![SkipNoteModel { path: join(dir, name@), reason: SkipReason::Metadata }]
            } else {
                Seq::empty()
            },
        },
        FsEntry::Dir { name, listing } => if recurse {
            match listing {
                Some(l) => list_skips(join(dir, name@), l, exts, recurse, l.len() as int),
                None => seq![
                    SkipNoteModel { path: join(dir, name@), reason: SkipReason::UnreadableDir },
                ],
            }
        } else {
            Seq::empty()
        },
    }
}

/// Skip notices produced by the first `n` entries of the directory at `dir`.
pub open spec fn list_skips(
    dir: Seq<char>,
    v: Vec<FsEntry>,
    exts: Seq<Seq<char>>,
    recurse: bool,
    n: int,
) -> Seq<SkipNoteModel>
    decreases v, n,
{
    if n <= 0 || n > v.len() {
        Seq::empty()
    } else {
        list_skips(dir, v, exts, recurse, n - 1) + entry_skips(dir, v[n - 1], exts, recurse)
    }
}

/// All records a scan of the directory at `dir` with entries `v` collects.
pub open spec fn scan_files_spec(
    dir: Seq<char>,
    v: Vec<FsEntry>,
    exts: Seq<Seq<char>>,
    recurse: bool,
) -> Seq<FileInfoModel> {
    list_files(dir, v, exts, recurse, v.len() as int)
}

/// All skip notices a scan of the directory at `dir` with entries `v`
/// produces.
pub open spec fn scan_skips_spec(
    dir: Seq<char>,
    v: Vec<FsEntry>,
    exts: Seq<Seq<char>>,
    recurse: bool,
) -> Seq<SkipNoteModel> {
    list_skips(dir, v, exts, recurse, v.len() as int)
}

/// Joins `dir` and `name` with the path separator.
fn join_path(dir: &str, name: &str) -> (r: String)
    ensures
        r@ == join(dir@, name@),
{
    let mut p = dir.to_owned();
    p.append("/");
    p.append(name);
    proof {
        reveal_strlit("/");
        assert(p@ =~= join(dir@, name@));
    }
    p
}

/// Visits one entry: appends the file's record when it matches and its
/// metadata is present, a skip notice when it fails, and walks into a
/// readable subdirectory when recursion is on.
fn scan_entry(
    dir: &str,
    e: &FsEntry,
    extensions: &Vec<String>,
    include_subdirs: bool,
    files: &mut Vec<FileInfo>,
    skipped: &mut Vec<SkipNote>,
)
    ensures
        final(files).deep_view() == old(files).deep_view() + entry_files(dir@, *e, extensions.deep_view(), include_subdirs),
        final(skipped).deep_view() == old(skipped).deep_view() + entry_skips(
            dir@,
            *e,
            extensions.deep_view(),
            include_subdirs,
        ),
    decreases *e, 0int,
{
    let ghost exts = extensions.deep_view();
    match e {
        FsEntry::File { name, meta } => {
            if should_include_file(name.as_str(), extensions) {
                match meta {
                    Some(m) => {
                        let p = join_path(dir, name.as_str());
                        let info = create_file_info(p.as_str(), m.size, m.modified.clone());
                        files.push(info);
                        proof {
                            assert(files.deep_view() =~= old(files).deep_view() + entry_files(
                                dir@,
                                *e,
                                exts,
                                include_subdirs,
                            ));
                            assert(skipped.deep_view() =~= old(skipped).deep_view() + entry_skips(
                                dir@,
                                *e,
                                exts,
                                include_subdirs,
                            ));
                        }
                    },
                    None => {
                        let p = join_path(dir, name.as_str());
                        skipped.push(SkipNote { path: p, reason: SkipReason::Metadata });
                        proof {
                            assert(files.deep_view() =~= old(files).deep_view() + entry_files(
                                dir@,
                                *e,
                                exts,
                                include_subdirs,
                            ));
                            assert(skipped.deep_view() =~= old(skipped).deep_view() + entry_skips(
                                dir@,
                                *e,
                                exts,
                                include_subdirs,
                            ));
                        }
                    },
                }
            } else {
                proof {
                    assert(files.deep_view() =~= old(files).deep_view() + entry_files(dir@, *e, exts, include_subdirs));
                    assert(skipped.deep_view() =~= old(skipped).deep_view() + entry_skips(
                        dir@,
                        *e,
                        exts,
                        include_subdirs,
                    ));
                }
            }
        },
        FsEntry::Dir { name, listing } => {
            if include_subdirs {
                match listing {
                    Some(l) => {
                        let p = join_path(dir, name.as_str());
                        scan_entries(p.as_str(), l, extensions, include_subdirs, files, skipped);
                    },
                    None => {
                        let p = join_path(dir, name.as_str());
                        skipped.push(SkipNote { path: p, reason: SkipReason::UnreadableDir });
                        proof {
                            assert(files.deep_view() =~= old(files).deep_view() + entry_files(
                                dir@,
                                *e,
                                exts,
                                include_subdirs,
                            ));
                            assert(skipped.deep_view() =~= old(skipped).deep_view() + entry_skips(
                                dir@,
                                *e,
                                exts,
                                include_subdirs,
                            ));
                        }
                    },
                }
            } else {
                proof {
                    assert(files.deep_view() =~= old(files).deep_view() + entry_files(dir@, *e, exts, include_subdirs));
                    assert(skipped.deep_view() =~= old(skipped).deep_view() + entry_skips(
                        dir@,
                        *e,
                        exts,
                        include_subdirs,
                    ));
                }
            }
        },
    }
}

/// Walks every entry of the directory at `dir` in listing order.
fn scan_entries(
    dir: &str,
    entries: &Vec<FsEntry>,
    extensions: &Vec<String>,
    include_subdirs: bool,
    files: &mut Vec<FileInfo>,
    skipped: &mut Vec<SkipNote>,
)
    ensures
        final(files).deep_view() == old(files).deep_view() + scan_files_spec(
            dir@,
            *entries,
            extensions.deep_view(),
            include_subdirs,
        ),
        final(skipped).deep_view() == old(skipped).deep_view() + scan_skips_spec(
            dir@,
            *entries,
            extensions.deep_view(),
            include_subdirs,
        ),
    decreases *entries, 1int,
{
    let ghost exts = extensions.deep_view();
    let mut i: usize = 0;
    while i < entries.len()
        invariant
            0 <= i <= entries.len(),
            exts == extensions.deep_view(),
            files.deep_view() == old(files).deep_view() + list_files(dir@, *entries, exts, include_subdirs, i as int),
            skipped.deep_view() == old(skipped).deep_view() + list_skips(dir@, *entries, exts, include_subdirs, i as int),
        decreases entries.len() - i,
    {
        scan_entry(dir, &entries[i], extensions, include_subdirs, files, skipped);
        proof {
            assert(files.deep_view() =~= old(files).deep_view() + list_files(
                dir@,
                *entries,
                exts,
                include_subdirs,
                i + 1,
            ));
            assert(skipped.deep_view() =~= old(skipped).deep_view() + list_skips(
                dir@,
                *entries,
                exts,
                include_subdirs,
                i + 1,
            ));
        }
        i += 1;
    }
}

/// Scans the directory the root path resolved to.  The host resolves the
/// root and reads the tree into plain values; the scan validates the root,
/// applies the filter, and collects the inventory in visiting order.  The
/// only two fatal failures — a missing root and a root that is no
/// directory — are returned as errors; every other failure, a root whose
/// own listing could not be read included, becomes a skip notice in an
/// otherwise successful result.
pub fn scan_directory(
    path: &str,
    input: ScanInput,
    extensions: &Vec<String>,
    include_subdirs: bool,
) -> (r: Result<ScanResult, ScanError>)
    ensures
        match input {
            ScanInput::Missing => r matches Err(e) && e == ScanError::NotFound,
            ScanInput::NotADirectory => r matches Err(e) && e == ScanError::NotADirectory,
            ScanInput::Unreadable => r matches Ok(res) && res.files.deep_view() == Seq::<
                FileInfoModel,
            >::empty() && res.skipped.deep_view() == seq![
                SkipNoteModel { path: path@, reason: SkipReason::UnreadableDir },
            ],
            ScanInput::Directory(entries) => r matches Ok(res) && res.files.deep_view() == scan_files_spec(
                path@,
                entries,
                extensions.deep_view(),
                include_subdirs,
            ) && res.skipped.deep_view() == scan_skips_spec(
                path@,
                entries,
                extensions.deep_view(),
                include_subdirs,
            ),
        },
{
    match input {
        ScanInput::Missing => Err(ScanError::NotFound),
        ScanInput::NotADirectory => Err(ScanError::NotADirectory),
        ScanInput::Unreadable => {
            // The root resolved to a directory, so the scan itself does not
            // fail: its one subtree is missing and leaves a skip notice.
            let files: Vec<FileInfo> = Vec::new();
            let mut skipped: Vec<SkipNote> = Vec::new();
            skipped.push(SkipNote { path: path.to_owned(), reason: SkipReason::UnreadableDir });
            proof {
                assert(files.deep_view() =~= Seq::<FileInfoModel>::empty());
                assert(skipped.deep_view() =~= seq![
                    SkipNoteModel { path: path@, reason: SkipReason::UnreadableDir },
                ]);
            }
            Ok(ScanResult { files, skipped })
        },
        ScanInput::Directory(entries) => {
            let mut files: Vec<FileInfo> = Vec::new();
            let mut skipped: Vec<SkipNote> = Vec::new();
            scan_entries(path, &entries, extensions, include_subdirs, &mut files, &mut skipped);
            proof {
                assert(files.deep_view() =~= scan_files_spec(
                    path@,
                    entries,
                    extensions.deep_view(),
                    include_subdirs,
                ));
                assert(skipped.deep_view() =~= scan_skips_spec(
                    path@,
                    entries,
                    extensions.deep_view(),
                    include_subdirs,
                ));
            }
            Ok(ScanResult { files, skipped })
        },
    }
}

/// The record one direct entry contributes on its own: a record for a
/// matching file whose metadata is present, nothing for any other entry.
pub open spec fn direct_match(dir: Seq<char>, exts: Seq<Seq<char>>, e: FsEntry) -> Option<
    FileInfoModel,
> {
    match e {
        FsEntry::File { name, meta } => match meta {
            Some(m) => if include_spec(name@, exts) {
                Some(file_info_spec(join(dir, name@), m.size, m.modified@))
            } else {
                None
            },
            None => None,
        },
        FsEntry::Dir { .. } => None,
    }
}

proof fn lemma_list_files_take(dir: Seq<char>, v: Vec<FsEntry>, exts: Seq<Seq<char>>, n: int)
    requires
        0 <= n <= v.len(),
    ensures
        list_files(dir, v, exts, false, n) == v@.take(n).filter_map(
            |e: FsEntry| direct_match(dir, exts, e),
        ),
    decreases n,
{
    let f = (|e: FsEntry| direct_match(dir, exts, e));
    if n == 0 {
        assert(v@.take(0).filter_map(f) =~= Seq::<FileInfoModel>::empty());
    } else {
        lemma_list_files_take(dir, v, exts, n - 1);
        v@.lemma_filter_map_take_succ(f, n - 1);
        let x = v[n - 1];
        assert(f(x) == direct_match(dir, exts, x));
        assert(entry_files(dir, x, exts, false) == (match f(x) {
            Some(r) => seq![r],
            None => Seq::<FileInfoModel>::empty(),
        })) by {
            match x {
                FsEntry::File { name, meta } => {
                    if meta is Some && include_spec(name@, exts) {
                    } else {
                        assert(entry_files(dir, x, exts, false) =~= Seq::<FileInfoModel>::empty());
                    }
                },
                FsEntry::Dir { .. } => {
                    assert(entry_files(dir, x, exts, false) =~= Seq::<FileInfoModel>::empty());
                },
            }
        }
        assert(list_files(dir, v, exts, false, n) =~= v@.take(n).filter_map(f));
    }
}

/// Law: with recursion off, a scan yields exactly one record for each
/// direct file entry that passes the filter and has metadata, in listing
/// order, and nothing for any other entry — in particular nothing from any
/// subdirectory.
pub proof fn lemma_scan_without_recursion(dir: Seq<char>, v: Vec<FsEntry>, exts: Seq<Seq<char>>)
    ensures
        scan_files_spec(dir, v, exts, false) == v@.filter_map(
            |e: FsEntry| direct_match(dir, exts, e),
        ),
{
    lemma_list_files_take(dir, v, exts, v.len() as int);
    assert(v@.take(v.len() as int) =~= v@);
}

/// The skip notice one direct entry contributes on its own with recursion
/// off: a notice for a matching file whose metadata read failed, nothing
/// for any other entry.
pub open spec fn direct_skip(dir: Seq<char>, exts: Seq<Seq<char>>, e: FsEntry) -> Option<
    SkipNoteModel,
> {
    match e {
        FsEntry::File { name, meta } => match meta {
            Some(_) => None,
            None => if include_spec(name@, exts) {
                Some(SkipNoteModel { path: join(dir, name@), reason: SkipReason::Metadata })
            } else {
                None
            },
        },
        FsEntry::Dir { .. } => None,
    }
}

proof fn lemma_list_skips_take(dir: Seq<char>, v: Vec<FsEntry>, exts: Seq<Seq<char>>, n: int)
    requires
        0 <= n <= v.len(),
    ensures
        list_skips(dir, v, exts, false, n) == v@.take(n).filter_map(
            |e: FsEntry| direct_skip(dir, exts, e),
        ),
    decreases n,
{
    let f = (|e: FsEntry| direct_skip(dir, exts, e));
    if n == 0 {
        assert(v@.take(0).filter_map(f) =~= Seq::<SkipNoteModel>::empty());
    } else {
        lemma_list_skips_take(dir, v, exts, n - 1);
        v@.lemma_filter_map_take_succ(f, n - 1);
        let x = v[n - 1];
        assert(f(x) == direct_skip(dir, exts, x));
        assert(entry_skips(dir, x, exts, false) == (match f(x) {
            Some(r) => seq![r],
            None => Seq::<SkipNoteModel>::empty(),
        })) by {
            match x {
                FsEntry::File { name, meta } => {
                    if meta is None && include_spec(name@, exts) {
                    } else {
                        assert(entry_skips(dir, x, exts, false) =~= Seq::<SkipNoteModel>::empty());
                    }
                },
                FsEntry::Dir { .. } => {
                    assert(entry_skips(dir, x, exts, false) =~= Seq::<SkipNoteModel>::empty());
                },
            }
        }
        assert(list_skips(dir, v, exts, false, n) =~= v@.take(n).filter_map(f));
    }
}

/// Law: with recursion off, the skip notices too come only from the direct
/// file entries — one notice for each matching file whose metadata read
/// failed, in listing order, and none from any subdirectory.
pub proof fn lemma_skips_without_recursion(dir: Seq<char>, v: Vec<FsEntry>, exts: Seq<Seq<char>>)
    ensures
        scan_skips_spec(dir, v, exts, false) == v@.filter_map(
            |e: FsEntry| direct_skip(dir, exts, e),
        ),
{
    lemma_list_skips_take(dir, v, exts, v.len() as int);
    assert(v@.take(v.len() as int) =~= v@);
}

/// Whether `inner` appears contiguously somewhere within `outer`.
pub open spec fn appears_within(outer: Seq<FileInfoModel>, inner: Seq<FileInfoModel>) -> bool {
    exists|a: Seq<FileInfoModel>, b: Seq<FileInfoModel>| outer == #[trigger] (a + inner + b)
}

proof fn lemma_list_files_split(
    dir: Seq<char>,
    v: Vec<FsEntry>,
    exts: Seq<Seq<char>>,
    recurse: bool,
    i: int,
    n: int,
)
    requires
        0 <= i < n <= v.len(),
    ensures
        appears_within(list_files(dir, v, exts, recurse, n), entry_files(dir, v[i], exts, recurse)),
    decreases n,
{
    let e = entry_files(dir, v[i], exts, recurse);
    if n == i + 1 {
        let a = list_files(dir, v, exts, recurse, i);
        let b = Seq::<FileInfoModel>::empty();
        assert(list_files(dir, v, exts, recurse, n) =~= a + e + b);
    } else {
        lemma_list_files_split(dir, v, exts, recurse, i, n - 1);
        let (a0, b0) = choose|a0: Seq<FileInfoModel>, b0: Seq<FileInfoModel>|
            list_files(dir, v, exts, recurse, n - 1) == #[trigger] (a0 + e + b0);
        assert(list_files(dir, v, exts, recurse, n) =~= a0 + e + (b0 + entry_files(
            dir,
            v[n - 1],
            exts,
            recurse,
        )));
    }
}

/// Law: each entry's own contribution appears contiguously, in listing
/// order, within the scan of its directory.
pub proof fn lemma_entry_contribution(
    dir: Seq<char>,
    v: Vec<FsEntry>,
    exts: Seq<Seq<char>>,
    recurse: bool,
    i: int,
)
    requires
        0 <= i < v.len(),
    ensures
        appears_within(
            scan_files_spec(dir, v, exts, recurse),
            entry_files(dir, v[i], exts, recurse),
        ),
{
    lemma_list_files_split(dir, v, exts, recurse, i, v.len() as int);
}

/// Law: with recursion on, no directly readable subdirectory is omitted —
/// the whole scan of its subtree appears contiguously within the scan of
/// its parent.
pub proof fn lemma_subdir_included(
    dir: Seq<char>,
    v: Vec<FsEntry>,
    exts: Seq<Seq<char>>,
    i: int,
    name: String,
    l: Vec<FsEntry>,
)
    requires
        0 <= i < v.len(),
        v[i] == (FsEntry::Dir { name, listing: Some(l) }),
    ensures
        appears_within(
            scan_files_spec(dir, v, exts, true),
            scan_files_spec(join(dir, name@), l, exts, true),
        ),
{
    lemma_entry_contribution(dir, v, exts, true, i);
    assert(entry_files(dir, v[i], exts, true) == scan_files_spec(join(dir, name@), l, exts, true));
}

/// Whether `r` is the record of some file that passed the inclusion
/// filter, wherever in the tree it stood.
pub open spec fn is_matched_record(r: FileInfoModel, exts: Seq<Seq<char>>) -> bool {
    exists|d: Seq<char>, name: Seq<char>, size: u64, m: Seq<char>|
        include_spec(name, exts) && r == #[trigger] file_info_spec(join(d, name), size, m)
}

proof fn lemma_entry_records_match(
    dir: Seq<char>,
    e: FsEntry,
    exts: Seq<Seq<char>>,
    recurse: bool,
    k: int,
)
    requires
        0 <= k < entry_files(dir, e, exts, recurse).len(),
    ensures
        is_matched_record(entry_files(dir, e, exts, recurse)[k], exts),
    decreases e, 0int,
{
    match e {
        FsEntry::File { name, meta } => {
            let m = meta->Some_0;
            assert(entry_files(dir, e, exts, recurse)[k] == file_info_spec(
                join(dir, name@),
                m.size,
                m.modified@,
            ));
        },
        FsEntry::Dir { name, listing } => {
            let l = listing->Some_0;
            lemma_list_records_match(join(dir, name@), l, exts, recurse, l.len() as int, k);
        },
    }
}

proof fn lemma_list_records_match(
    dir: Seq<char>,
    v: Vec<FsEntry>,
    exts: Seq<Seq<char>>,
    recurse: bool,
    n: int,
    k: int,
)
    requires
        0 <= n <= v.len(),
        0 <= k < list_files(dir, v, exts, recurse, n).len(),
    ensures
        is_matched_record(list_files(dir, v, exts, recurse, n)[k], exts),
    decreases v, n,
{
    let left = list_files(dir, v, exts, recurse, n - 1);
    if k < left.len() {
        lemma_list_records_match(dir, v, exts, recurse, n - 1, k);
    } else {
        lemma_entry_records_match(dir, v[n - 1], exts, recurse, k - left.len());
    }
}

/// Law: every record a scan collects is the record of some file that
/// passed the inclusion filter with its metadata present — a scan never
/// invents a record outside its request's filter.
pub proof fn lemma_scan_records_satisfy_filter(
    dir: Seq<char>,
    v: Vec<FsEntry>,
    exts: Seq<Seq<char>>,
    recurse: bool,
    k: int,
)
    requires
        0 <= k < scan_files_spec(dir, v, exts, recurse).len(),
    ensures
        is_matched_record(scan_files_spec(dir, v, exts, recurse)[k], exts),
{
    lemma_list_records_match(dir, v, exts, recurse, v.len() as int, k);
}

/// The subdirectory reached from the directory at `dir` with entries `v`
/// by following `steps`, each step the index of a readable subdirectory
/// entry: its joined path and its entries.  `None` when a step leads
/// nowhere.
pub open spec fn subtree_at(dir: Seq<char>, v: Vec<FsEntry>, steps: Seq<int>) -> Option<
    (Seq<char>, Vec<FsEntry>),
>
    decreases steps.len(),
{
    if steps.len() == 0 {
        Some((dir, v))
    } else {
        let i = steps[0];
        if 0 <= i < v.len() {
            match v[i] {
                FsEntry::Dir { name, listing } => match listing {
                    Some(l) => subtree_at(join(dir, name@), l, steps.drop_first()),
                    None => None,
                },
                FsEntry::File { .. } => None,
            }
        } else {
            None
        }
    }
}

proof fn lemma_appears_within_refl(s: Seq<FileInfoModel>)
    ensures
        appears_within(s, s),
{
    assert(s =~= Seq::<FileInfoModel>::empty() + s + Seq::<FileInfoModel>::empty());
}

proof fn lemma_appears_within_trans(
    outer: Seq<FileInfoModel>,
    mid: Seq<FileInfoModel>,
    inner: Seq<FileInfoModel>,
)
    requires
        appears_within(outer, mid),
        appears_within(mid, inner),
    ensures
        appears_within(outer, inner),
{
    let (a, b) = choose|a: Seq<FileInfoModel>, b: Seq<FileInfoModel>|
        outer == #[trigger] (a + mid + b);
    let (c, d) = choose|c: Seq<FileInfoModel>, d: Seq<FileInfoModel>|
        mid == #[trigger] (c + inner + d);
    assert(outer =~= (a + c) + inner + (d + b));
}

/// Law: with recursion on, no reachable subdirectory is omitted at any
/// depth — for every subdirectory reached through a chain of readable
/// listings, the whole scan of its subtree appears contiguously within
/// the scan of the root.
pub proof fn lemma_reachable_subtree_included(
    dir: Seq<char>,
    v: Vec<FsEntry>,
    exts: Seq<Seq<char>>,
    steps: Seq<int>,
)
    requires
        subtree_at(dir, v, steps) is Some,
    ensures
        appears_within(
            scan_files_spec(dir, v, exts, true),
            scan_files_spec(
                subtree_at(dir, v, steps)->Some_0.0,
                subtree_at(dir, v, steps)->Some_0.1,
                exts,
                true,
            ),
        ),
    decreases steps.len(),
{
    if steps.len() == 0 {
        lemma_appears_within_refl(scan_files_spec(dir, v, exts, true));
    } else {
        let i = steps[0];
        match v[i] {
            FsEntry::Dir { name, listing } => {
                let l = listing->Some_0;
                lemma_subdir_included(dir, v, exts, i, name, l);
                lemma_reachable_subtree_included(join(dir, name@), l, exts, steps.drop_first());
                lemma_appears_within_trans(
                    scan_files_spec(dir, v, exts, true),
                    scan_files_spec(join(dir, name@), l, exts, true),
                    scan_files_spec(
                        subtree_at(dir, v, steps)->Some_0.0,
                        subtree_at(dir, v, steps)->Some_0.1,
                        exts,
                        true,
                    ),
                );
            },
            FsEntry::File { .. } => {},
        }
    }
}

impl ScanError {
    /// The message shown for this failure at `path`.
    pub open spec fn message_spec(self, path: Seq<char>) -> Seq<char> {
        match self {
            ScanError::NotFound => "directory does not exist: "@ + path,
            ScanError::NotADirectory => "path is not a directory: "@ + path,
        }
    }

    /// Builds the human-readable message for this failure at `path`.
    pub fn message(&self, path: &str) -> (r: String)
        ensures
            r@ == self.message_spec(path@),
    {
        match self {
            ScanError::NotFound => String::from_str("directory does not exist: ").concat(path),
            ScanError::NotADirectory => String::from_str("path is not a directory: ").concat(path),
        }
    }
}

} // verus!
