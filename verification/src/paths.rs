//! File paths, as far as the library has to take them apart and put them
//! together.
//!
//! Splitting a path into components and joining components is left to
//! `std::path`, which knows the separators and prefixes of the platform that
//! the library is built for. What `std::path` returns is given a name here,
//! and the contracts of the callers speak of these names. Splitting a file
//! name at its last dot is done, and proved, in this module.

use vstd::prelude::*;
use vstd::string::StrSliceExecFns;
use vstd::string::StringExecFns;

verus! {

/// The final component of `path` as `std::path::Path::file_name` gives it, or
/// `None` where it gives none.
pub uninterp spec fn path_file_name(path: Seq<char>) -> Option<Seq<char>>;

/// The path without its final component as `std::path::Path::parent` gives it,
/// or `None` where it gives none.
pub uninterp spec fn path_parent(path: Seq<char>) -> Option<Seq<char>>;

/// `path` extended by `name` as `std::path::Path::join` does it.
pub uninterp spec fn path_join(path: Seq<char>, name: Seq<char>) -> Seq<char>;

/// `path` with its extension set to `extension` as
/// `std::path::Path::with_extension` does it.
pub uninterp spec fn path_with_extension(path: Seq<char>, extension: Seq<char>) -> Seq<char>;

/// The contents of an optional string.
pub open spec fn option_text(text: Option<String>) -> Option<Seq<char>> {
    match text {
        Some(s) => Some(s@),
        None => None,
    }
}

/// Calls `std::path::Path::file_name` on `path`. The contract only gives the
/// result its name: the same path always has the same final component.
#[verifier::external_body]
pub(crate) fn file_name(path: &str) -> (name: Option<String>)
    ensures
        option_text(name) == path_file_name(path@),
{
    std::path::Path::new(path).file_name().map(|name| name.to_string_lossy().into_owned())
}

/// Calls `std::path::Path::parent` on `path`. The contract only gives the
/// result its name: the same path always has the same parent.
#[verifier::external_body]
pub(crate) fn parent(path: &str) -> (dir: Option<String>)
    ensures
        option_text(dir) == path_parent(path@),
{
    std::path::Path::new(path).parent().map(|dir| dir.to_string_lossy().into_owned())
}

/// Calls `std::path::Path::join` on `path` with `name`. The contract only
/// gives the result its name: the same two pieces always give the same path.
#[verifier::external_body]
pub(crate) fn join(path: &str, name: &str) -> (joined: String)
    ensures
        joined@ == path_join(path@, name@),
{
    std::path::Path::new(path).join(name).to_string_lossy().into_owned()
}

/// Whether `text` holds no character that separates the components of a
/// path on any platform.
pub open spec fn has_no_separator(text: Seq<char>) -> bool {
    forall|i: int| 0 <= i < text.len() ==> text[i] != '/' && text[i] != '\\'
}

/// Calls `std::path::Path::with_extension` on `path` with `extension`. The
/// contract only gives the result its name: the same path and extension
/// always give the same path. The function panics on an extension that
/// holds a path separator; `requires` leaves such an extension out.
#[verifier::external_body]
pub(crate) fn with_extension(path: &str, extension: &str) -> (changed: String)
    requires
        has_no_separator(extension@),
    ensures
        changed@ == path_with_extension(path@, extension@),
{
    std::path::Path::new(path).with_extension(extension).to_string_lossy().into_owned()
}

/// The position of the last dot of `name` that splits it into a stem and an
/// extension: a dot at the very beginning does not count, since a name like
/// `.profile` is all stem.
pub open spec fn extension_dot(name: Seq<char>) -> Option<int> {
    if exists|i: int| 0 <= i < name.len() && name[i] == '.' {
        let last = choose|i: int|
            0 <= i < name.len() && name[i] == '.' && forall|j: int|
                i < j < name.len() ==> name[j] != '.';
        if last > 0 {
            Some(last)
        } else {
            None
        }
    } else {
        None
    }
}

/// The part of a file name before the dot that starts its extension; the
/// whole name if it has no extension.
pub open spec fn stem_of(name: Seq<char>) -> Seq<char> {
    match extension_dot(name) {
        Some(dot) => name.subrange(0, dot),
        None => name,
    }
}

/// The part of a file name after the dot that starts its extension, if it
/// has one. The extension of `photo.` is empty; `photo` has none.
pub open spec fn extension_of(name: Seq<char>) -> Option<Seq<char>> {
    match extension_dot(name) {
        Some(dot) => Some(name.subrange(dot + 1, name.len() as int)),
        None => None,
    }
}

/// Index `dot` holds the last dot of `name`.
pub open spec fn is_last_dot(name: Seq<char>, dot: int) -> bool {
    &&& 0 <= dot < name.len()
    &&& name[dot] == '.'
    &&& forall|j: int| dot < j < name.len() ==> name[j] != '.'
}

/// The last dot of a name is where [`extension_dot`] finds it.
pub proof fn lemma_extension_dot(name: Seq<char>, dot: int)
    requires
        is_last_dot(name, dot),
    ensures
        extension_dot(name) == if dot > 0 {
            Some(dot)
        } else {
            None
        },
{
    let last = choose|i: int|
        0 <= i < name.len() && name[i] == '.' && forall|j: int|
            i < j < name.len() ==> name[j] != '.';
    assert(is_last_dot(name, last));
    if last < dot {
        assert(name[dot] != '.');
    } else if dot < last {
        assert(name[last] != '.');
    }
}

/// A file name, split at the dot that starts its extension.
#[derive(Debug, Clone, PartialEq, Eq)]
pub struct SplitName {
    pub stem: String,
    pub extension: Option<String>,
}

/// Splits a file name into stem and extension, as `file_stem` and
/// `extension` of `std::path::Path` are documented to do for the final
/// component of a path.
pub fn split_file_name(name: &str) -> (parts: SplitName)
    ensures
        parts.stem@ == stem_of(name@),
        option_text(parts.extension) == extension_of(name@),
{
    let len = name.unicode_len();
    let mut i: usize = len;
    while i > 0 && name.get_char(i - 1) != '.'
        invariant
            i <= len,
            len == name@.len(),
            forall|j: int| i <= j < len ==> name@[j] != '.',
        decreases i,
    {
        i -= 1;
    }
    if i > 1 {
        let dot: usize = i - 1;
        proof {
            lemma_extension_dot(name@, dot as int);
        }
        SplitName {
            stem: String::from_str(name.substring_char(0, dot)),
            extension: Some(String::from_str(name.substring_char(i, len))),
        }
    } else {
        proof {
            if i == 1 {
                lemma_extension_dot(name@, 0);
            }
        }
        SplitName { stem: String::from_str(name), extension: None }
    }
}

} // verus!
