//! Resolution of the program to stand in for: from an optional override and
//! the running binary's own location, never the running binary itself.

use vstd::prelude::*;
use crate::config::{current_exe_of, get_current_exe, result_text, PathLookup};
use crate::error::RunError;
use crate::path_ops::{
    extension_of,
    file_name_of,
    get_file_name,
    is_absolute_of,
    is_absolute_path,
    is_same_file_pathbuf,
    is_same_file_stem,
    path_extension,
    same_path_of,
    same_stem,
    text_of,
};

verus! {

/// What a search of `PATH` reported.
#[derive(Debug, PartialEq, Eq)]
pub enum SearchOutcome {
    /// An executable of that name, at this path.
    Found(String),
    /// An executable of that name, at a path that is not UTF-8 text.
    NotUnicode,
    /// No executable of that name.
    Missing,
}

/// Relies on `which::which`: the first executable of that name in the
/// directories of `PATH`. What it finds depends on the disk and the
/// environment, so nothing is promised of it.
#[verifier::external_body]
fn search_path(name: &str) -> (r: SearchOutcome) {
    match which::which(name) {
        Ok(p) => match p.to_str() {
            Some(s) => SearchOutcome::Found(String::from(s)),
            None => SearchOutcome::NotUnicode,
        },
        Err(_) => SearchOutcome::Missing,
    }
}

/// What a search result leaves as a candidate: the match, unless it is the
/// running binary itself; an error when the match is not UTF-8 text.
pub open spec fn candidate_of(found: SearchOutcome, current: Seq<char>) -> Result<
    Option<Seq<char>>,
    RunError,
> {
    match found {
        SearchOutcome::Found(f) => if same_path_of(f@, current) {
            Ok(None)
        } else {
            Ok(Some(f@))
        },
        SearchOutcome::NotUnicode => Err(RunError::ExecutableNotUnicode),
        SearchOutcome::Missing => Ok(None),
    }
}

/// The text of a search candidate.
pub open spec fn candidate_text(r: Result<Option<String>, RunError>) -> Result<
    Option<Seq<char>>,
    RunError,
> {
    match r {
        Ok(o) => Ok(text_of(o)),
        Err(e) => Err(e),
    }
}

/// Keeps a search result only if it is not the running binary at `current`.
pub fn choose_candidate(found: SearchOutcome, current: &str) -> (r: Result<
    Option<String>,
    RunError,
>)
    ensures
        candidate_text(r) == candidate_of(found, current@),
        r matches Ok(Some(x)) ==> x@ != current@,
{
    match found {
        SearchOutcome::Found(f) => if is_same_file_pathbuf(Some(f.as_str()), Some(current)) {
            Ok(None)
        } else {
            Ok(Some(f))
        },
        SearchOutcome::NotUnicode => Err(RunError::ExecutableNotUnicode),
        SearchOutcome::Missing => Ok(None),
    }
}

/// A search that finds a program under the running binary's name at
/// another path yields that program, and a candidate is never the running
/// binary's own path.
pub proof fn lemma_search_yields_other_program(found: SearchOutcome, current: Seq<char>)
    ensures
        match found {
            SearchOutcome::Found(e) => !same_path_of(e@, current) ==> candidate_of(found, current)
                == Ok::<Option<Seq<char>>, RunError>(Some(e@)),
            _ => true,
        },
        candidate_of(found, current) matches Ok(Some(x)) ==> !same_path_of(x, current),
{
}

/// Searches `PATH` for the file name of `p`, skipping a match that is `cp`.
pub fn find_executable_in_path_by_name(p: &str, cp: &str) -> (r: Result<
    Option<String>,
    RunError,
>)
    ensures
        file_name_of(p@) is None ==> r matches Ok(None),
        r matches Ok(Some(x)) ==> !same_path_of(x@, cp@) && x@ != cp@,
        r matches Err(e) ==> e == RunError::ExecutableNotUnicode,
{
    match get_file_name(Some(p)) {
        Some(name) => choose_candidate(search_path(name.as_str()), cp),
        None => Ok(None),
    }
}

/// What may come of a search under the running binary's own name: an error
/// about its location, or a program that is not the running binary, or the
/// report that there is none, or that the one found is not at UTF-8 path.
pub open spec fn admissible_search_outcome(
    current: PathLookup,
    r: Result<Seq<char>, RunError>,
) -> bool {
    match current_exe_of(current) {
        Err(e) => r == Err::<Seq<char>, RunError>(e),
        Ok(c) => {
            &&& match r {
                Ok(x) => !same_path_of(x, c) && x != c,
                Err(e) => e == RunError::NoPretendTarget || e == RunError::ExecutableNotUnicode,
            }
            &&& file_name_of(c) is None ==> r == Err::<Seq<char>, RunError>(
                RunError::NoPretendTarget,
            )
        },
    }
}

/// Finds the program that the running binary stands in for: the next one
/// on `PATH` under the same file name.
pub fn find_executable_in_path(current: &PathLookup) -> (r: Result<String, RunError>)
    ensures
        admissible_search_outcome(*current, result_text(r)),
{
    let cp = match get_current_exe(current) {
        Ok(cp) => cp,
        Err(e) => return Err(e),
    };
    match find_executable_in_path_by_name(cp.as_str(), cp.as_str()) {
        Ok(Some(x)) => Ok(x),
        Ok(None) => Err(RunError::NoPretendTarget),
        Err(e) => Err(e),
    }
}

/// The outcome of a relative override once the search gave `candidate`: the
/// candidate if there is one; else the override as it stands, left to the
/// shell, if it carries no extension; else an error.
pub open spec fn settled_override(exec: Seq<char>, candidate: Option<Seq<char>>) -> Result<
    Seq<char>,
    RunError,
> {
    match candidate {
        Some(c) => Ok(c),
        None => match extension_of(exec) {
            None => Ok(exec),
            Some(_) => Err(RunError::InvalidOverride),
        },
    }
}

/// Settles a relative override `exec` from what the search left of it.
pub fn settle_override(exec: &str, candidate: Option<String>) -> (r: Result<String, RunError>)
    ensures
        result_text(r) == settled_override(exec@, text_of(candidate)),
{
    match candidate {
        Some(c) => Ok(c),
        None => match path_extension(exec) {
            None => Ok(exec.to_owned()),
            Some(_) => Err(RunError::InvalidOverride),
        },
    }
}

/// What may come of a relative override `exec`: an error about the running
/// binary's location; the self-pretend error when `exec` has the running
/// binary's stem; else a program that is not the running binary, or `exec`
/// itself when it has no extension, or the invalid-override error when it has,
/// or the error that the program found is not at a UTF-8 path.
pub open spec fn admissible_override_outcome(
    exec: Seq<char>,
    current: PathLookup,
    r: Result<Seq<char>, RunError>,
) -> bool {
    match current_exe_of(current) {
        Err(e) => r == Err::<Seq<char>, RunError>(e),
        Ok(c) => if same_stem(Some(exec), Some(c)) {
            r == Err::<Seq<char>, RunError>(RunError::SelfPretend)
        } else {
            &&& r is Ok || r == settled_override(exec, None) || r == Err::<Seq<char>, RunError>(
                RunError::ExecutableNotUnicode,
            )
            &&& r matches Ok(x) ==> (!same_path_of(x, c) && x != c) || r == settled_override(
                exec,
                None,
            )
            &&& file_name_of(exec) is None ==> r == settled_override(exec, None)
        },
    }
}

/// Resolves a relative override `exec`, refusing one that names the running
/// binary itself.
pub fn find_executable_in_path_by_env(exec: &str, current: &PathLookup) -> (r: Result<
    String,
    RunError,
>)
    ensures
        admissible_override_outcome(exec@, *current, result_text(r)),
{
    let cp = match get_current_exe(current) {
        Ok(cp) => cp,
        Err(e) => return Err(e),
    };
    if is_same_file_stem(Some(exec), Some(cp.as_str())) {
        return Err(RunError::SelfPretend);
    }
    match find_executable_in_path_by_name(exec, cp.as_str()) {
        Ok(candidate) => settle_override(exec, candidate),
        Err(e) => Err(e),
    }
}

/// The program to run: an absolute override as it stands; a relative one
/// resolved as above; without an override, the next program on `PATH` under
/// the running binary's name.
pub fn get_pretend_executable(override_value: Option<&str>, current: &PathLookup) -> (r: Result<
    String,
    RunError,
>)
    ensures
        match override_value {
            Some(v) => if is_absolute_of(v@) {
                result_text(r) == Ok::<Seq<char>, RunError>(v@)
            } else {
                admissible_override_outcome(v@, *current, result_text(r))
            },
            None => admissible_search_outcome(*current, result_text(r)),
        },
{
    match override_value {
        Some(v) => if is_absolute_path(v) {
            Ok(v.to_owned())
        } else {
            find_executable_in_path_by_env(v, current)
        },
        None => find_executable_in_path(current),
    }
}

} // verus!
