//! File-system paths, handled as text. Joining and the absolute-path test are
//! those of the standard library for the platform the crate is built for.
use vstd::prelude::*;

verus! {

/// `Path::join`: `part` appended to `base` with the platform's separator
/// (or `part` itself when it is absolute).
pub uninterp spec fn spec_path_join(base: Seq<char>, part: Seq<char>) -> Seq<char>;

/// `Path::is_absolute` for the platform the crate is built for.
pub uninterp spec fn spec_path_is_absolute(p: Seq<char>) -> bool;

/// `std::path::Path::join`, rendered back as text. The result is a function of
/// the two arguments only; how the parts are combined (separator, absolute
/// `part`) is left unsaid.
#[verifier::external_body]
pub(crate) fn path_join(base: &str, part: &str) -> (r: String)
    ensures
        r@ == spec_path_join(base@, part@),
{
    std::path::Path::new(base).join(part).to_string_lossy().into_owned()
}

/// `std::path::Path::is_absolute`. A text without `/`, `\\` and `:` has
/// neither a root nor a prefix on any platform, so it is never absolute; what
/// else counts as absolute (a root on Unix, a drive or UNC prefix with a root
/// on Windows) is left unsaid.
#[verifier::external_body]
pub(crate) fn path_is_absolute(p: &str) -> (r: bool)
    ensures
        r == spec_path_is_absolute(p@),
        !p@.contains('/') && !p@.contains('\\') && !p@.contains(':') ==> !r,
{
    std::path::Path::new(p).is_absolute()
}

/// `base` if it is set, else `fallback`: the directory a setting names, where
/// an empty setting means the default location.
pub open spec fn dir_or_default(base: Seq<char>, fallback: Seq<char>) -> Seq<char> {
    if base.len() == 0 {
        fallback
    } else {
        base
    }
}

/// `base` if it is set, else `fallback`.
pub fn dir_or_default_exec(base: &str, fallback: &str) -> (r: String)
    ensures
        r@ == dir_or_default(base@, fallback@),
{
    if base.unicode_len() == 0 {
        String::from_str(fallback)
    } else {
        String::from_str(base)
    }
}

} // verus!
