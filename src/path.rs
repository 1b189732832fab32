//! File-name handling: extensions, as the host's path rules define them.

use vstd::prelude::*;
use crate::text::{ends_with, is_suffix};

verus! {

/// What `str::to_lowercase` makes of a string.
pub uninterp spec fn lowercase_of(s: Seq<char>) -> Seq<char>;

/// What `std::path::Path::extension` finds in a path: the text after the
/// last dot of its final component, if there is one.
pub uninterp spec fn extension_of(path: Seq<char>) -> Option<Seq<char>>;

/// What `std::path::Path::with_extension` makes of a path and an extension.
pub uninterp spec fn with_extension_of(path: Seq<char>, ext: Seq<char>) -> Seq<char>;

/// The view of an optional string.
pub open spec fn opt_view(o: Option<String>) -> Option<Seq<char>> {
    match o {
        Some(s) => Some(s@),
        None => None,
    }
}

/// Relies on `str::to_lowercase`: the result depends on the characters alone.
#[verifier::external_body]
fn to_lowercase(s: &str) -> (r: String)
    ensures
        r@ == lowercase_of(s@),
{
    s.to_lowercase()
}

/// Relies on `std::path::Path::extension`; the extension of a `str` path is
/// valid UTF-8, so the conversion loses nothing.
#[verifier::external_body]
pub(crate) fn path_extension(path: &str) -> (r: Option<String>)
    ensures
        opt_view(r) == extension_of(path@),
{
    std::path::Path::new(path).extension().map(|e| e.to_string_lossy().into_owned())
}

/// The text has no path separator.
pub open spec fn has_no_separator(s: Seq<char>) -> bool {
    forall|i: int| 0 <= i < s.len() ==> s[i] != '/'
}

/// The text has no dot.
pub open spec fn has_no_dot(s: Seq<char>) -> bool {
    forall|i: int| 0 <= i < s.len() ==> s[i] != '.'
}

/// Relies on `std::path::Path::with_extension` (through
/// `PathBuf::set_extension`): it panics on an extension with a path
/// separator; on a path with a file name it sets the extension to `ext`
/// (a path with an extension has a file name), of which only the part after
/// a last dot would show.
#[verifier::external_body]
pub(crate) fn path_with_extension(path: &str, ext: &str) -> (r: String)
    requires
        has_no_separator(ext@),
    ensures
        r@ == with_extension_of(path@, ext@),
        extension_of(path@) is Some && ext@.len() > 0 && has_no_dot(ext@) ==> extension_of(r@)
            == Some(ext@),
{
    std::path::Path::new(path).with_extension(ext).to_string_lossy().into_owned()
}

/// Tells whether `filename` ends with `ext_with_dot`, ignoring case.
pub fn has_extension(filename: &str, ext_with_dot: &str) -> (r: bool)
    ensures
        r == is_suffix(lowercase_of(filename@), lowercase_of(ext_with_dot@)),
{
    let ext_lower = to_lowercase(ext_with_dot);
    let name_lower = to_lowercase(filename);
    ends_with(name_lower.as_str(), ext_lower.as_str())
}

} // verus!
