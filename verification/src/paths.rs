//! File paths, held as text. The component rules of the platform come from
//! `std::path`; the extension and stem rules that `std::path` documents are
//! stated and computed here on top of the file name.
use std::path::Path;
use vstd::prelude::*;

verus! {

/// What `Path::file_name` gives for the path written as `path`: its last
/// component when that is a normal one (not `..`, not a root or prefix).
pub uninterp spec fn file_name_of(path: Seq<char>) -> Option<Seq<char>>;

/// What `Path::parent` gives for the path written as `path`, as text.
pub uninterp spec fn parent_of(path: Seq<char>) -> Option<Seq<char>>;

/// What `Path::join` gives for `base` joined with `tail`, as text.
pub uninterp spec fn joined_path(base: Seq<char>, tail: Seq<char>) -> Seq<char>;

/// What `PathBuf::set_extension` leaves in a path buffer holding `path`.
pub uninterp spec fn path_with_extension(path: Seq<char>, extension: Seq<char>) -> Seq<char>;

/// What `Path::eq` says of two paths: equal when their components are equal.
pub uninterp spec fn same_path(a: Seq<char>, b: Seq<char>) -> bool;

/// Calls `Path::file_name`. The name is part of the text of a `str` path, so
/// turning it back into text loses nothing.
#[verifier::external_body]
pub(crate) fn path_file_name(path: &str) -> (name: Option<String>)
    ensures
        match name {
            Some(n) => file_name_of(path@) == Some(n@),
            None => file_name_of(path@) is None,
        },
{
    match Path::new(path).file_name() {
        Some(name) => Some(name.to_string_lossy().into_owned()),
        None => None,
    }
}

/// Calls `Path::parent`.
#[verifier::external_body]
pub(crate) fn path_parent(path: &str) -> (parent: Option<String>)
    ensures
        match parent {
            Some(p) => parent_of(path@) == Some(p@),
            None => parent_of(path@) is None,
        },
{
    match Path::new(path).parent() {
        Some(parent) => Some(parent.to_string_lossy().into_owned()),
        None => None,
    }
}

/// Calls `Path::join`.
#[verifier::external_body]
pub(crate) fn path_join(base: &str, tail: &str) -> (joined: String)
    ensures
        joined@ == joined_path(base@, tail@),
{
    Path::new(base).join(tail).to_string_lossy().into_owned()
}

/// Whether `text` holds no path separator of any platform (`/` or `\\`).
pub open spec fn holds_no_separator(text: Seq<char>) -> bool {
    !text.contains('/') && !text.contains('\\')
}

/// Calls `PathBuf::set_extension` on a buffer holding `path`. That call
/// panics on an extension that holds a path separator, so such an extension
/// is not admitted. As its documentation says, a path without a file name is
/// left as it is, and otherwise the file name keeps its stem and takes the
/// new extension. What an empty extension leaves is not stated: the stem
/// alone, which is not always a file name (a stem `..`).
#[verifier::external_body]
pub(crate) fn path_set_extension(path: &str, extension: &str) -> (changed: String)
    requires
        holds_no_separator(extension@),
    ensures
        changed@ == path_with_extension(path@, extension@),
        file_name_of(path@) is None ==> changed@ == path@,
        extension@.len() > 0 ==> (file_name_of(path@) matches Some(name) ==> file_name_of(changed@) == Some(
            name_with_extension(name, extension@),
        )),
{
    let mut buffer = std::path::PathBuf::from(path);
    buffer.set_extension(extension);
    buffer.to_string_lossy().into_owned()
}

/// Calls `Path::eq`. The same text is always the same path.
#[verifier::external_body]
pub(crate) fn paths_equal(a: &str, b: &str) -> (equal: bool)
    ensures
        equal == same_path(a@, b@),
        a@ == b@ ==> equal,
{
    Path::new(a) == Path::new(b)
}

/// The position of the last `.` in `name`, or -1.
pub open spec fn last_dot(name: Seq<char>) -> int
    decreases name.len(),
{
    if name.len() == 0 {
        -1
    } else if name.last() == '.' {
        name.len() - 1
    } else {
        last_dot(name.drop_last())
    }
}

pub proof fn lemma_last_dot(name: Seq<char>)
    ensures
        -1 <= last_dot(name) < name.len(),
        last_dot(name) >= 0 ==> name[last_dot(name)] == '.',
        forall|i: int| last_dot(name) < i < name.len() ==> name[i] != '.',
    decreases name.len(),
{
    if name.len() > 0 && name.last() != '.' {
        lemma_last_dot(name.drop_last());
        assert forall|i: int| last_dot(name) < i < name.len() implies name[i] != '.' by {
            if i < name.len() - 1 {
                assert(name[i] == name.drop_last()[i]);
            }
        }
    }
}

/// Whether a file name splits into a stem and an extension: it has a `.`
/// that is not its first character.
pub open spec fn splits_at_dot(name: Seq<char>) -> bool {
    last_dot(name) > 0
}

/// The extension of a file name, as `Path::extension` documents it: none
/// without an embedded `.` or for a name like `.hidden`; otherwise what
/// follows the last `.`.
pub open spec fn extension_of_name(name: Seq<char>) -> Option<Seq<char>> {
    if splits_at_dot(name) {
        Some(name.subrange(last_dot(name) + 1, name.len() as int))
    } else {
        None
    }
}

/// The stem of a file name, as `Path::file_stem` documents it: the whole name
/// without an embedded `.` or for a name like `.hidden`; otherwise what comes
/// before the last `.`.
pub open spec fn stem_of_name(name: Seq<char>) -> Seq<char> {
    if splits_at_dot(name) {
        name.subrange(0, last_dot(name))
    } else {
        name
    }
}

/// The file name `name` has after its extension is set to `extension`, as
/// `PathBuf::set_extension` documents it: the stem is kept, and the
/// extension follows a `.` unless it is empty.
pub open spec fn name_with_extension(name: Seq<char>, extension: Seq<char>) -> Seq<char> {
    if extension.len() == 0 {
        stem_of_name(name)
    } else {
        stem_of_name(name) + seq!['.'] + extension
    }
}

/// A name made of a non-empty stem, a `.` and an extension without a `.`
/// has that extension.
pub proof fn lemma_extension_of_joined_name(stem: Seq<char>, extension: Seq<char>)
    requires
        stem.len() > 0,
        !extension.contains('.'),
    ensures
        extension_of_name(stem + seq!['.'] + extension) == Some(extension),
{
    let name = stem + seq!['.'] + extension;
    lemma_last_dot(name);
    let dot = stem.len() as int;
    assert(name[dot] == '.');
    if last_dot(name) > dot {
        assert(name[last_dot(name)] == extension[last_dot(name) - dot - 1]);
        assert(extension.contains(name[last_dot(name)]));
    }
    assert(last_dot(name) == dot);
    assert(name.subrange(dot + 1, name.len() as int) =~= extension);
}

/// The stem of a non-empty name is not empty.
pub proof fn lemma_stem_of_name_not_empty(name: Seq<char>)
    requires
        name.len() > 0,
    ensures
        stem_of_name(name).len() > 0,
{
    lemma_last_dot(name);
}

/// The extension of a path, as `Path::extension` gives it.
pub open spec fn path_extension_of(path: Seq<char>) -> Option<Seq<char>> {
    match file_name_of(path) {
        Some(name) => extension_of_name(name),
        None => None,
    }
}

/// The stem of a path, as `Path::file_stem` gives it.
pub open spec fn path_stem_of(path: Seq<char>) -> Option<Seq<char>> {
    match file_name_of(path) {
        Some(name) => Some(stem_of_name(name)),
        None => None,
    }
}

fn find_last_dot(name: &str) -> (dot: Option<usize>)
    ensures
        match dot {
            Some(i) => i == last_dot(name@),
            None => last_dot(name@) == -1,
        },
{
    let mut end = name.unicode_len();
    proof {
        assert(name@.subrange(0, end as int) == name@);
    }
    while end > 0
        invariant
            end <= name@.len(),
            last_dot(name@) == last_dot(name@.subrange(0, end as int)),
        decreases end,
    {
        let sub = Ghost(name@.subrange(0, end as int));
        if name.get_char(end - 1) == '.' {
            return Some(end - 1);
        }
        proof {
            assert(sub@.drop_last() == name@.subrange(0, end - 1));
        }
        end = end - 1;
    }
    None
}

/// The extension of the file name `name`.
pub fn name_extension(name: &str) -> (extension: Option<&str>)
    ensures
        match extension {
            Some(e) => extension_of_name(name@) == Some(e@),
            None => extension_of_name(name@) is None,
        },
{
    proof {
        lemma_last_dot(name@);
    }
    let len = name.unicode_len();
    match find_last_dot(name) {
        Some(dot) => if dot > 0 {
            Some(name.substring_char(dot + 1, len))
        } else {
            None
        },
        None => None,
    }
}

/// The stem of the file name `name`.
pub fn name_stem(name: &str) -> (stem: &str)
    ensures
        stem@ == stem_of_name(name@),
{
    proof {
        lemma_last_dot(name@);
    }
    match find_last_dot(name) {
        Some(dot) => if dot > 0 {
            name.substring_char(0, dot)
        } else {
            name.substring_char(0, name.unicode_len())
        },
        None => name.substring_char(0, name.unicode_len()),
    }
}

/// The extension of `path`, as `Path::extension` and then `OsStr::to_str` give it.
pub fn path_extension(path: &str) -> (extension: Option<String>)
    ensures
        match extension {
            Some(e) => path_extension_of(path@) == Some(e@),
            None => path_extension_of(path@) is None,
        },
{
    match path_file_name(path) {
        Some(name) => match name_extension(name.as_str()) {
            Some(extension) => Some(extension.to_owned()),
            None => None,
        },
        None => None,
    }
}

/// The stem of `path`, as `Path::file_stem` gives it.
pub fn path_file_stem(path: &str) -> (stem: Option<String>)
    ensures
        match stem {
            Some(s) => path_stem_of(path@) == Some(s@),
            None => path_stem_of(path@) is None,
        },
{
    match path_file_name(path) {
        Some(name) => Some(name_stem(name.as_str()).to_owned()),
        None => None,
    }
}

} // verus!
