//! The record a scan keeps for one matched file, and how its fields are
//! derived from the file's path and filesystem metadata.
use vstd::prelude::*;
use vstd::string::StrSliceExecFns;
use vstd::string::StringExecFns;

use crate::filter::extension_of;
use crate::text::after_last;
use crate::text::last_index_of;

verus! {

/// One matched file: descriptive metadata recorded during a scan.
#[derive(Clone)]
pub struct FileInfo {
    /// Base name of the file (final path component).
    pub name: String,
    /// Full path of the file as visited, `/`-joined.
    pub path: String,
    /// Byte length of the file.
    pub size: u64,
    /// Rendered modification time, as handed in by the metadata reader.
    pub modified: String,
    /// Extension of the file name; empty when the name has none.
    pub extension: String,
}

/// Mathematical image of a `FileInfo`.
pub struct FileInfoModel {
    pub name: Seq<char>,
    pub path: Seq<char>,
    pub size: u64,
    pub modified: Seq<char>,
    pub extension: Seq<char>,
}

impl View for FileInfo {
    type V = FileInfoModel;

    open spec fn view(&self) -> FileInfoModel {
        FileInfoModel {
            name: self.name@,
            path: self.path@,
            size: self.size,
            modified: self.modified@,
            extension: self.extension@,
        }
    }
}

impl DeepView for FileInfo {
    type V = FileInfoModel;

    open spec fn deep_view(&self) -> FileInfoModel {
        self.view()
    }
}

/// `path` with its trailing separators removed.
pub open spec fn strip_trailing_seps(path: Seq<char>) -> Seq<char>
    decreases path.len(),
{
    if path.len() > 0 && path.last() == '/' {
        strip_trailing_seps(path.drop_last())
    } else {
        path
    }
}

/// Final component of a path, trailing separators ignored: the characters
/// after the last remaining `/` (the whole stripped path when it has no
/// separator).
pub open spec fn base_name_of(path: Seq<char>) -> Seq<char> {
    let p = strip_trailing_seps(path);
    p.subrange(last_index_of(p, '/') + 1, p.len() as int)
}

/// Display name of the file at `path`: its final component, or the fixed
/// placeholder when the path has no usable final component (none at all,
/// or a bare `.` or `..`).
pub open spec fn display_name_of(path: Seq<char>) -> Seq<char> {
    let base = base_name_of(path);
    if base.len() == 0 || base == seq!['.'] || base == seq!['.', '.'] {
        "Unknown"@
    } else {
        base
    }
}

/// Extension recorded for the file at `path`: the extension of its final
/// component, or the empty string when it has none.
pub open spec fn extension_field_of(path: Seq<char>) -> Seq<char> {
    match extension_of(base_name_of(path)) {
        Some(e) => e,
        None => Seq::empty(),
    }
}

/// The record a scan keeps for the file at `path` with the given byte size
/// and rendered modification time.
pub open spec fn file_info_spec(path: Seq<char>, size: u64, modified: Seq<char>) -> FileInfoModel {
    FileInfoModel {
        name: display_name_of(path),
        path: path,
        size: size,
        modified: modified,
        extension: extension_field_of(path),
    }
}

/// A cut at `m` that leaves only separators behind it, and none right
/// before it, is where the trailing separators strip off.
proof fn lemma_strip_at(path: Seq<char>, m: int)
    requires
        0 <= m <= path.len(),
        forall|k: int| m <= k < path.len() ==> path[k] == '/',
        m > 0 ==> path[m - 1] != '/',
    ensures
        strip_trailing_seps(path) == path.subrange(0, m),
    decreases path.len(),
{
    if path.len() > 0 && path.last() == '/' {
        assert(m < path.len());
        assert forall|k: int| m <= k < path.drop_last().len() implies path.drop_last()[k]
            == '/' by {
            assert(path.drop_last()[k] == path[k]);
        }
        lemma_strip_at(path.drop_last(), m);
        assert(path.drop_last().subrange(0, m) =~= path.subrange(0, m));
    } else {
        assert(m == path.len());
        assert(path.subrange(0, m) =~= path);
    }
}

/// Builds the record for the file at `path`, deriving the display name and
/// the extension from the path's final component (trailing separators
/// ignored).
pub fn create_file_info(path: &str, size: u64, modified: String) -> (info: FileInfo)
    ensures
        info@ == file_info_spec(path@, size, modified@),
{
    let n = path.unicode_len();
    let mut m: usize = n;
    loop
        invariant
            0 <= m <= n,
            n == path@.len(),
            forall|k: int| m <= k < n ==> path@[k] == '/',
        ensures
            0 <= m <= n,
            n == path@.len(),
            forall|k: int| m <= k < n ==> path@[k] == '/',
            m > 0 ==> path@[m - 1] != '/',
        decreases m,
    {
        if m == 0 {
            break;
        }
        if path.get_char(m - 1) != '/' {
            break;
        }
        m -= 1;
    }
    proof {
        lemma_strip_at(path@, m as int);
    }
    let stripped = path.substring_char(0, m);
    assert(stripped@ == strip_trailing_seps(path@));

    let b = after_last(stripped, '/');
    let base = stripped.substring_char(b, m);
    assert(base@ == base_name_of(path@));

    let blen = base.unicode_len();
    let placeholder = blen == 0 || (blen == 1 && base.get_char(0) == '.') || (blen == 2
        && base.get_char(0) == '.' && base.get_char(1) == '.');
    proof {
        if blen == 1 && base@[0] == '.' {
            assert(base@ =~= seq!['.']);
        }
        if blen == 2 && base@[0] == '.' && base@[1] == '.' {
            assert(base@ =~= seq!['.', '.']);
        }
        if base@ == seq!['.'] || base@ == seq!['.', '.'] {
            assert(placeholder);
        }
    }
    let name = if placeholder {
        String::from_str("Unknown")
    } else {
        base.to_owned()
    };
    assert(name@ == display_name_of(path@));

    let d = after_last(base, '.');
    let extension = if d <= 1 {
        assert(extension_of(base@) is None);
        String::new()
    } else {
        base.substring_char(d, blen).to_owned()
    };
    proof {
        assert(extension@ =~= extension_field_of(path@));
    }

    FileInfo { name, path: path.to_owned(), size, modified, extension }
}

} // verus!
