//! Path handling that the library takes from `std::path`.
use vstd::prelude::*;

verus! {

/// The extension that `std::path::Path::extension` finds in a path. Which
/// characters separate path components depends on the build target; within one
/// build the result depends on the path alone.
pub uninterp spec fn extension_of(path: Seq<char>) -> Option<Seq<char>>;

/// The path that `std::path::Path::with_extension` builds from a path and an
/// extension, for the separators of the build target.
pub uninterp spec fn with_extension_of(path: Seq<char>, ext: Seq<char>) -> Seq<char>;

/// Relies on `std::path::Path::extension`: the part of the file name after its
/// last dot, if there is one. A `&str` path is valid UTF-8, so the text is kept exactly.
#[verifier::external_body]
pub(crate) fn extension(path: &str) -> (r: Option<String>)
    ensures
        r matches Some(e) ==> extension_of(path@) == Some(e@),
        r is None ==> extension_of(path@) is None,
{
    match std::path::Path::new(path).extension() {
        Some(e) => Some(e.to_string_lossy().into_owned()),
        None => None,
    }
}

/// Relies on `std::path::Path::with_extension` (through `PathBuf::set_extension`):
/// the same path with its extension replaced by `ext`. `set_extension` panics on
/// an extension that holds a path separator, so none is admitted. Where the path
/// had an extension and `ext` is a non-empty name without a dot, the new path's
/// extension is `ext`.
#[verifier::external_body]
pub(crate) fn with_extension(path: &str, ext: &str) -> (r: String)
    requires
        !ext@.contains('/'),
        !ext@.contains('\\'),
    ensures
        r@ == with_extension_of(path@, ext@),
        extension_of(path@) is Some && ext@.len() > 0 && !ext@.contains('.')
            ==> extension_of(r@) == Some(ext@),
{
    std::path::Path::new(path).with_extension(ext).to_string_lossy().into_owned()
}

} // verus!
