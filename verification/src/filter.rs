//! The inclusion filter: decides from a file's name and the allowed
//! extension list whether the file belongs in a scan.
use vstd::prelude::*;
use vstd::string::StrSliceExecFns;
use vstd::string::StringExecFns;

use crate::text::after_last;
use crate::text::last_index_of;

verus! {

/// What `str::to_lowercase` returns: the Unicode lower-case form of the
/// characters, a function of the characters alone.
pub uninterp spec fn lower_of(s: Seq<char>) -> Seq<char>;

/// Relies on `str::to_lowercase` of std: the lower-case form of the
/// string, depending on its characters alone.
#[verifier::external_body]
fn lowercase(s: &str) -> (r: String)
    ensures
        r@ == lower_of(s@),
{
    s.to_lowercase()
}

/// The token that makes an allowed-extensions list match every file.
pub open spec fn wildcard() -> Seq<char> {
    seq!['*']
}

/// Whether the allowed-extensions list holds the wildcard token.
pub open spec fn has_wildcard(exts: Seq<Seq<char>>) -> bool {
    exists|i: int| 0 <= i < exts.len() && exts[i] == wildcard()
}

/// Extension of a file name: the characters after the last `.`, provided
/// that dot is not the leading character.  A name whose only dot leads, or
/// that has no dot at all, has no extension.
pub open spec fn extension_of(name: Seq<char>) -> Option<Seq<char>> {
    let d = last_index_of(name, '.');
    if d >= 1 {
        Some(name.subrange(d + 1, name.len() as int))
    } else {
        None
    }
}

/// Whether two character sequences are equal once both are lower-cased.
pub open spec fn matches_fold(a: Seq<char>, b: Seq<char>) -> bool {
    lower_of(a) == lower_of(b)
}

/// The inclusion filter: a file belongs in a scan when the allowed list
/// holds the wildcard, or when the file's extension matches some allowed
/// entry case-insensitively (both sides lower-cased).  A file without an
/// extension only passes the wildcard.
pub open spec fn include_spec(name: Seq<char>, exts: Seq<Seq<char>>) -> bool {
    has_wildcard(exts) || match extension_of(name) {
        Some(e) => exists|i: int| 0 <= i < exts.len() && matches_fold(e, exts[i]),
        None => false,
    }
}

/// Whether the file named `name` passes the allowed-extensions filter.
pub fn should_include_file(name: &str, extensions: &Vec<String>) -> (r: bool)
    ensures
        r == include_spec(name@, extensions.deep_view()),
{
    let ghost exts = extensions.deep_view();
    // A list holding the wildcard admits everything.
    let star = String::from_str("*");
    proof {
        reveal_strlit("*");
        assert(star@ == wildcard());
    }
    let mut i: usize = 0;
    while i < extensions.len()
        invariant
            0 <= i <= extensions.len(),
            star@ == wildcard(),
            exts == extensions.deep_view(),
            forall|k: int| 0 <= k < i ==> exts[k] != wildcard(),
        decreases extensions.len() - i,
    {
        if extensions[i] == star {
            assert(exts[i as int] == wildcard());
            return true;
        }
        i += 1;
    }
    assert(!has_wildcard(exts));

    // A missing or leading dot means the name has no extension, so without
    // the wildcard the file is excluded.
    let n = name.unicode_len();
    let j = after_last(name, '.');
    if j <= 1 {
        return false;
    }
    let ghost e = name@.subrange(j as int, n as int);
    assert(extension_of(name@) == Some(e));
    // Compare the lower-cased extension with each allowed entry.
    let ext = name.substring_char(j, n);
    let folded = lowercase(ext);
    let mut i2: usize = 0;
    while i2 < extensions.len()
        invariant
            extension_of(name@) == Some(e),
            folded@ == lower_of(e),
            !has_wildcard(exts),
            exts == extensions.deep_view(),
            0 <= i2 <= extensions.len(),
            forall|k: int| 0 <= k < i2 ==> !matches_fold(e, exts[k]),
        decreases extensions.len() - i2,
    {
        let allowed = lowercase(extensions[i2].as_str());
        if folded == allowed {
            assert(matches_fold(e, exts[i2 as int]));
            return true;
        }
        i2 += 1;
    }
    assert(!include_spec(name@, exts));
    false
}

/// Law: an allowed-extensions list holding the wildcard token includes
/// every file, whatever its name and whether or not it has an extension.
pub proof fn lemma_wildcard_includes_all(name: Seq<char>, exts: Seq<Seq<char>>)
    requires
        exists|i: int| 0 <= i < exts.len() && exts[i] == wildcard(),
    ensures
        include_spec(name, exts),
{
}

/// Law: without the wildcard, a file is included exactly when it has an
/// extension whose lower-case form equals the lower-case form of some
/// allowed entry; in particular a file without an extension is excluded.
pub proof fn lemma_filter_matches_extension(name: Seq<char>, exts: Seq<Seq<char>>)
    requires
        !has_wildcard(exts),
    ensures
        include_spec(name, exts) <==> (extension_of(name) matches Some(e) && exists|i: int|
            0 <= i < exts.len() && matches_fold(e, exts[i])),
        extension_of(name) is None ==> !include_spec(name, exts),
{
}

} // verus!
