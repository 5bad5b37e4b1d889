//! Identity of executables: absolute-path test, file name, stem and extension,
//! and the comparisons that keep the proxy from resolving back to itself.

use vstd::prelude::*;

verus! {

/// Whether the platform regards the path as absolute (`Path::is_absolute`).
pub uninterp spec fn is_absolute_of(p: Seq<char>) -> bool;

/// The final component of the path, if it names a file (`Path::file_name`).
pub uninterp spec fn file_name_of(p: Seq<char>) -> Option<Seq<char>>;

/// The index of the last `.` in a file name, or -1 when it has none.
pub open spec fn last_dot(n: Seq<char>) -> int
    decreases n.len(),
{
    if n.len() == 0 {
        -1
    } else if n.last() == '.' {
        n.len() - 1
    } else {
        last_dot(n.drop_last())
    }
}

/// The stem of a file name: the whole name when it has no `.` but perhaps
/// a leading one, else the part before the last `.`.
pub open spec fn stem_of_name(n: Seq<char>) -> Seq<char> {
    if last_dot(n) <= 0 {
        n
    } else {
        n.subrange(0, last_dot(n))
    }
}

/// The extension of a file name: none when it has no `.` but perhaps a
/// leading one, else the part after the last `.`.
pub open spec fn extension_of_name(n: Seq<char>) -> Option<Seq<char>> {
    if last_dot(n) <= 0 {
        None
    } else {
        Some(n.subrange(last_dot(n) + 1, n.len() as int))
    }
}

/// The file name without its extension (`Path::file_stem`).
pub open spec fn file_stem_of(p: Seq<char>) -> Option<Seq<char>> {
    match file_name_of(p) {
        Some(n) => Some(stem_of_name(n)),
        None => None,
    }
}

/// The extension of the file name, if any (`Path::extension`).
pub open spec fn extension_of(p: Seq<char>) -> Option<Seq<char>> {
    match file_name_of(p) {
        Some(n) => extension_of_name(n),
        None => None,
    }
}

/// Whether two paths are equal component by component (`Path == Path`).
pub uninterp spec fn same_path_of(a: Seq<char>, b: Seq<char>) -> bool;

/// A result of `Path` read back as the text it holds.
pub open spec fn text_of(r: Option<String>) -> Option<Seq<char>> {
    match r {
        Some(s) => Some(s@),
        None => None,
    }
}

/// Relies on `std::path::Path::is_absolute`: whether the platform treats
/// the path as absolute.
#[verifier::external_body]
fn path_is_absolute(p: &str) -> (r: bool)
    ensures
        r == is_absolute_of(p@),
{
    std::path::Path::new(p).is_absolute()
}

/// Relies on `std::path::Path::file_name`: the last component of the path,
/// none when it ends in `..`. A component of UTF-8 text is UTF-8 text.
#[verifier::external_body]
fn path_file_name(p: &str) -> (r: Option<String>)
    ensures
        text_of(r) == file_name_of(p@),
{
    std::path::Path::new(p).file_name().and_then(|n| n.to_str()).map(String::from)
}

/// Relies on `std::path::Path::file_stem`, documented as: none without a
/// file name; the whole name without an embedded `.`, or when its only `.`
/// is the first character; else the part before the final `.`.
#[verifier::external_body]
fn path_file_stem(p: &str) -> (r: Option<String>)
    ensures
        text_of(r) == file_stem_of(p@),
{
    std::path::Path::new(p).file_stem().and_then(|n| n.to_str()).map(String::from)
}

/// Relies on `std::path::Path::extension`, documented as: none without a
/// file name, without an embedded `.`, or when its only `.` is the first
/// character; else the part after the final `.`.
#[verifier::external_body]
pub(crate) fn path_extension(p: &str) -> (r: Option<String>)
    ensures
        text_of(r) == extension_of(p@),
{
    std::path::Path::new(p).extension().and_then(|n| n.to_str()).map(String::from)
}

/// Relies on `PartialEq` for `std::path::Path`, which compares components;
/// as an `Eq` it holds of a path and itself.
#[verifier::external_body]
fn paths_equal(a: &str, b: &str) -> (r: bool)
    ensures
        r == same_path_of(a@, b@),
        a@ == b@ ==> r,
{
    std::path::Path::new(a) == std::path::Path::new(b)
}

/// The stem that two optional paths share, if both have one and they agree.
pub open spec fn same_stem(p1: Option<Seq<char>>, p2: Option<Seq<char>>) -> bool {
    match (p1, p2) {
        (Some(a), Some(b)) => match (file_stem_of(a), file_stem_of(b)) {
            (Some(s1), Some(s2)) => s1 == s2,
            _ => false,
        },
        _ => false,
    }
}

/// Both paths are present and equal as paths.
pub open spec fn same_file(p1: Option<Seq<char>>, p2: Option<Seq<char>>) -> bool {
    match (p1, p2) {
        (Some(a), Some(b)) => same_path_of(a, b),
        _ => false,
    }
}

/// The text of an optional borrowed path.
pub open spec fn opt_view(p: Option<&str>) -> Option<Seq<char>> {
    match p {
        Some(s) => Some(s@),
        None => None,
    }
}

/// Whether `path` is absolute on this platform.
pub fn is_absolute_path(path: &str) -> (r: bool)
    ensures
        r == is_absolute_of(path@),
{
    path_is_absolute(path)
}

/// The file name of the path, when there is a path and it names a file.
pub fn get_file_name(p: Option<&str>) -> (r: Option<String>)
    ensures
        text_of(r) == match opt_view(p) {
            Some(s) => file_name_of(s),
            None => None,
        },
{
    match p {
        Some(s) => path_file_name(s),
        None => None,
    }
}

/// The stem of the path's file name, when there is one.
pub fn get_file_stem(p: Option<&str>) -> (r: Option<String>)
    ensures
        text_of(r) == match opt_view(p) {
            Some(s) => file_stem_of(s),
            None => None,
        },
{
    match p {
        Some(s) => path_file_stem(s),
        None => None,
    }
}

/// Whether both paths are given and denote the same path.
pub fn is_same_file_pathbuf(p1: Option<&str>, p2: Option<&str>) -> (r: bool)
    ensures
        r == same_file(opt_view(p1), opt_view(p2)),
        opt_view(p1) is Some && opt_view(p1) == opt_view(p2) ==> r,
{
    match (p1, p2) {
        (Some(a), Some(b)) => paths_equal(a, b),
        _ => false,
    }
}

/// Whether both paths are given, both have a stem, and the stems agree:
/// the two name the same program, whatever executable suffix either carries.
pub fn is_same_file_stem(p1: Option<&str>, p2: Option<&str>) -> (r: bool)
    ensures
        r == same_stem(opt_view(p1), opt_view(p2)),
{
    let s1 = get_file_stem(p1);
    let s2 = get_file_stem(p2);
    match (s1, s2) {
        (Some(a), Some(b)) => a == b,
        _ => false,
    }
}

} // verus!
