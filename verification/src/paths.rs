//! File paths, held as text and taken apart with `std::path::Path`.

use vstd::prelude::*;

verus! {

/// The final component of a path as `Path::file_name` gives it (`None` where
/// the path ends in `..` or has no normal final component).
pub uninterp spec fn path_file_name(path: Seq<char>) -> Option<Seq<char>>;

/// The components of a path as `Path::components` yields them: `Some(name)`
/// for a normal component, `None` for a root, prefix, `.` or `..`.
pub uninterp spec fn path_components(path: Seq<char>) -> Seq<Option<Seq<char>>>;

/// The index of the last `.` in `name`, if any.
pub open spec fn last_dot(name: Seq<char>) -> Option<int>
    decreases name.len(),
{
    if name.len() == 0 {
        None
    } else if name.last() == '.' {
        Some(name.len() - 1)
    } else {
        last_dot(name.drop_last())
    }
}

/// The extension of a file name, as `Path::extension` documents it: `None`
/// where there is no `.`, or where the only `.` opens the name (and for the
/// name `..`); otherwise the part after the final `.`.
pub open spec fn name_extension(name: Seq<char>) -> Option<Seq<char>> {
    if name == seq!['.', '.'] {
        None
    } else {
        match last_dot(name) {
            Some(k) => if k == 0 {
                None
            } else {
                Some(name.subrange(k + 1, name.len() as int))
            },
            None => None,
        }
    }
}

/// The extension of a path: that of its file name.
pub open spec fn path_extension(path: Seq<char>) -> Option<Seq<char>> {
    match path_file_name(path) {
        Some(name) => name_extension(name),
        None => None,
    }
}

/// Calls `Path::file_name` (std) on the path text. Claims: the result is
/// `path_file_name` of the text.
#[verifier::external_body]
pub(crate) fn file_name_of(path: &str) -> (r: Option<String>)
    ensures
        r.deep_view() == path_file_name(path@),
{
    match std::path::Path::new(path).file_name() {
        Some(name) => Some(name.to_string_lossy().into_owned()),
        None => None,
    }
}

/// Calls `Path::extension` (std) on the path text. Claims what its
/// documentation says: the part of the file name after its final `.`, with
/// the exceptions that `name_extension` lists.
#[verifier::external_body]
pub(crate) fn extension_of(path: &str) -> (r: Option<String>)
    ensures
        r.deep_view() == path_extension(path@),
{
    match std::path::Path::new(path).extension() {
        Some(ext) => Some(ext.to_string_lossy().into_owned()),
        None => None,
    }
}

/// Calls `Path::components` (std) on the path text and copies out each
/// component, the name of a normal one and `None` for the others. Claims: the
/// result is `path_components` of the text.
#[verifier::external_body]
pub(crate) fn components_of(path: &str) -> (r: Vec<Option<String>>)
    ensures
        r.deep_view() == path_components(path@),
{
    std::path::Path::new(path).components().map(|c| match c {
        std::path::Component::Normal(name) => Some(name.to_string_lossy().into_owned()),
        _ => None,
    }).collect()
}

} // verus!
