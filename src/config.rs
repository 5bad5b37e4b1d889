//! Start-up configuration: the running binary's location, the base directory
//! for scratch directories, and the retry budget.

use vstd::prelude::*;
use vstd::string::StrSliceExecFns;
use crate::error::RunError;

verus! {

/// What the system reported for a location it was asked about.
#[derive(Debug, PartialEq, Eq)]
pub enum PathLookup {
    /// The location, as UTF-8 text.
    Found(String),
    /// A location was reported, but it is not UTF-8 text.
    NotUnicode,
    /// The system could not report the location.
    Unavailable,
}

/// The budget of extra attempts when none is configured.
pub const DEFAULT_MAX_TRIAL: u8 = 3;

/// The location of the running binary, or why it cannot be had.
pub open spec fn current_exe_of(l: PathLookup) -> Result<Seq<char>, RunError> {
    match l {
        PathLookup::Found(s) => Ok(s@),
        PathLookup::NotUnicode => Err(RunError::CurrentExeNotUnicode),
        PathLookup::Unavailable => Err(RunError::CurrentExeUnavailable),
    }
}

/// The working directory, or why it cannot be had.
pub open spec fn current_dir_of(l: PathLookup) -> Result<Seq<char>, RunError> {
    match l {
        PathLookup::Found(s) => Ok(s@),
        PathLookup::NotUnicode => Err(RunError::CurrentDirNotUnicode),
        PathLookup::Unavailable => Err(RunError::CurrentDirUnavailable),
    }
}

/// The text of a result that carries a string.
pub open spec fn result_text(r: Result<String, RunError>) -> Result<Seq<char>, RunError> {
    match r {
        Ok(s) => Ok(s@),
        Err(e) => Err(e),
    }
}

/// The running binary's location as text.
pub fn get_current_exe(lookup: &PathLookup) -> (r: Result<String, RunError>)
    ensures
        result_text(r) == current_exe_of(*lookup),
{
    match lookup {
        PathLookup::Found(s) => Ok(s.clone()),
        PathLookup::NotUnicode => Err(RunError::CurrentExeNotUnicode),
        PathLookup::Unavailable => Err(RunError::CurrentExeUnavailable),
    }
}

/// The working directory as text.
pub fn get_current_dir(lookup: &PathLookup) -> (r: Result<String, RunError>)
    ensures
        result_text(r) == current_dir_of(*lookup),
{
    match lookup {
        PathLookup::Found(s) => Ok(s.clone()),
        PathLookup::NotUnicode => Err(RunError::CurrentDirNotUnicode),
        PathLookup::Unavailable => Err(RunError::CurrentDirUnavailable),
    }
}

/// The directory under which scratch directories are made: the configured
/// one if it exists as a directory (an error if it does not), else the
/// working directory.
pub open spec fn base_dir_of(configured: Option<Seq<char>>, exists: bool, cwd: PathLookup) -> Result<
    Seq<char>,
    RunError,
> {
    match configured {
        Some(p) => if exists {
            Ok(p)
        } else {
            Err(RunError::BaseDirMissing)
        },
        None => current_dir_of(cwd),
    }
}

/// Chooses the base directory; `configured_is_dir` tells whether the
/// configured path, if any, is an existing directory.
pub fn get_base_dir(configured: Option<&str>, configured_is_dir: bool, cwd: &PathLookup) -> (r:
    Result<String, RunError>)
    ensures
        result_text(r) == base_dir_of(
            match configured {
                Some(p) => Some(p@),
                None => None,
            },
            configured_is_dir,
            *cwd,
        ),
{
    match configured {
        Some(p) => if configured_is_dir {
            Ok(p.to_owned())
        } else {
            Err(RunError::BaseDirMissing)
        },
        None => get_current_dir(cwd),
    }
}

pub open spec fn is_digit(c: char) -> bool {
    '0' <= c && c <= '9'
}

pub open spec fn all_digits(s: Seq<char>) -> bool {
    forall|i: int| 0 <= i < s.len() ==> is_digit(#[trigger] s[i])
}

/// The number that a string of decimal digits denotes.
pub open spec fn digits_value(s: Seq<char>) -> int
    decreases s.len(),
{
    if s.len() == 0 {
        0
    } else {
        digits_value(s.drop_last()) * 10 + (s.last() as u32 - '0' as u32)
    }
}

/// The digits of an unsigned decimal literal: the text after one optional `+`.
pub open spec fn unsigned_digits(s: Seq<char>) -> Seq<char> {
    if s.len() > 0 && s[0] == '+' {
        s.drop_first()
    } else {
        s
    }
}

/// An integer in 0..=255 written in decimal, with an optional `+`, as `u8`
/// reads it from text; none for anything else.
pub open spec fn parsed_u8(s: Seq<char>) -> Option<u8> {
    let d = unsigned_digits(s);
    if d.len() > 0 && all_digits(d) && digits_value(d) <= 255 {
        Some(digits_value(d) as u8)
    } else {
        None
    }
}

/// Reads a retry budget written in decimal.
pub fn parse_max_trial(val: &str) -> (r: Option<u8>)
    ensures
        r == parsed_u8(val@),
{
    let n = val.unicode_len();
    let mut start: usize = 0;
    if n > 0 && val.get_char(0) == '+' {
        start = 1;
    }
    let ghost d = val@.subrange(start as int, n as int);
    assert(d =~= unsigned_digits(val@));
    if start >= n {
        return None;
    }
    let mut i: usize = start;
    let mut acc: u32 = 0;
    let mut over: bool = false;
    while i < n
        invariant
            start <= i <= n,
            n == val@.len(),
            d == val@.subrange(start as int, n as int),
            d == unsigned_digits(val@),
            all_digits(val@.subrange(start as int, i as int)),
            over ==> digits_value(val@.subrange(start as int, i as int)) > 255,
            !over ==> acc == digits_value(val@.subrange(start as int, i as int)) && acc <= 255,
        decreases n - i,
    {
        let c = val.get_char(i);
        if !('0' <= c && c <= '9') {
            assert(!is_digit(d[i - start]));
            assert(!all_digits(d));
            return None;
        }
        let ghost prev = val@.subrange(start as int, i as int);
        let ghost next = val@.subrange(start as int, i + 1);
        assert(next.drop_last() =~= prev);
        assert(digits_value(next) == digits_value(prev) * 10 + (c as u32 - '0' as u32));
        if !over {
            acc = acc * 10 + (c as u32 - '0' as u32);
            if acc > 255 {
                over = true;
            }
        }
        i = i + 1;
    }
    assert(val@.subrange(start as int, n as int) == d);
    if over {
        None
    } else {
        Some(acc as u8)
    }
}

/// The retry budget: the default when none is configured, else the
/// configured value, which must read as an integer in 0..=255.
pub fn get_max_trial(val: Option<&str>) -> (r: Result<u8, RunError>)
    ensures
        match val {
            None => r == Ok::<u8, RunError>(DEFAULT_MAX_TRIAL),
            Some(v) => match parsed_u8(v@) {
                Some(k) => r == Ok::<u8, RunError>(k),
                None => r == Err::<u8, RunError>(RunError::InvalidMaxTrial),
            },
        },
{
    match val {
        None => Ok(DEFAULT_MAX_TRIAL),
        Some(v) => match parse_max_trial(v) {
            Some(k) => Ok(k),
            None => Err(RunError::InvalidMaxTrial),
        },
    }
}

} // verus!
