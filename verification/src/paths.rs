//! The path operations of the standard library that the rules rest on.
//!
//! Paths are held as text. What the standard library makes of a path is not
//! restated here: each operation has a name without a definition, a function
//! of this module makes the call, and all that is taken on trust is that the
//! call returns what the name stands for. The names mean what the standard
//! library does on the platform that the crate is built for. Every result is
//! a part of the arguments or made of them, so it is text where they are.

use std::path::Path;
use vstd::prelude::*;

verus! {

/// The final component of `path`, as `std::path::Path::file_name` reads it.
pub uninterp spec fn path_file_name(path: Seq<char>) -> Option<Seq<char>>;

/// `path` without its final component, as `std::path::Path::parent` reads it.
pub uninterp spec fn path_parent(path: Seq<char>) -> Option<Seq<char>>;

/// The final component of `path` without its extension, as
/// `std::path::Path::file_stem` reads it.
pub uninterp spec fn path_file_stem(path: Seq<char>) -> Option<Seq<char>>;

/// `base` with `part` adjoined, as `std::path::Path::join` builds it.
pub uninterp spec fn path_join(base: Seq<char>, part: Seq<char>) -> Seq<char>;

/// `path` with its final component replaced by `name`, as
/// `std::path::Path::with_file_name` builds it.
pub uninterp spec fn path_with_file_name(path: Seq<char>, name: Seq<char>) -> Seq<char>;

/// `path` with its extension replaced by `extension`, as
/// `std::path::Path::with_extension` builds it.
pub uninterp spec fn path_with_extension(path: Seq<char>, extension: Seq<char>) -> Seq<char>;

/// `true` when `text` holds a character that some platform reads as a path
/// separator.
pub open spec fn has_separator(text: Seq<char>) -> bool {
    text.contains('/') || text.contains('\\')
}

/// Calls `std::path::Path::file_name` on `path`. Trusted, not proved: the
/// call returns what `path_file_name` names, as text.
#[verifier::external_body]
pub(crate) fn file_name(path: &str) -> (r: Option<String>)
    ensures
        r.deep_view() == path_file_name(path@),
{
    Path::new(path).file_name().map(|name| name.to_string_lossy().into_owned())
}

/// Calls `std::path::Path::parent` on `path`. Trusted, not proved: the call
/// returns what `path_parent` names, as text.
#[verifier::external_body]
pub(crate) fn parent(path: &str) -> (r: Option<String>)
    ensures
        r.deep_view() == path_parent(path@),
{
    Path::new(path).parent().map(|folder| folder.to_string_lossy().into_owned())
}

/// Calls `std::path::Path::file_stem` on `path`. Trusted, not proved: the
/// call returns what `path_file_stem` names, as text.
#[verifier::external_body]
pub(crate) fn file_stem(path: &str) -> (r: Option<String>)
    ensures
        r.deep_view() == path_file_stem(path@),
{
    Path::new(path).file_stem().map(|stem| stem.to_string_lossy().into_owned())
}

/// Calls `std::path::Path::join` on `base` with `part`. Trusted, not proved:
/// the call returns what `path_join` names, as text.
#[verifier::external_body]
pub(crate) fn join(base: &str, part: &str) -> (r: String)
    ensures
        r@ == path_join(base@, part@),
{
    Path::new(base).join(part).to_string_lossy().into_owned()
}

/// Calls `std::path::Path::with_file_name` on `path` with `name`. Trusted,
/// not proved: the call returns what `path_with_file_name` names, as text.
#[verifier::external_body]
pub(crate) fn with_file_name(path: &str, name: &str) -> (r: String)
    ensures
        r@ == path_with_file_name(path@, name@),
{
    Path::new(path).with_file_name(name).to_string_lossy().into_owned()
}

/// Calls `std::path::Path::with_extension` on `path` with `extension`. The
/// call panics on an extension that holds a path separator, so such an
/// extension is not accepted. Trusted, not proved: the call returns what
/// `path_with_extension` names, as text.
#[verifier::external_body]
pub(crate) fn with_extension(path: &str, extension: &str) -> (r: String)
    requires
        !has_separator(extension@),
    ensures
        r@ == path_with_extension(path@, extension@),
{
    Path::new(path).with_extension(extension).to_string_lossy().into_owned()
}

} // verus!
