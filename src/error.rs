//! The fatal conditions of the proxy, each with the line it reports.

use vstd::prelude::*;
use vstd::string::StringExecFns;

verus! {

/// A condition that ends the whole tool with status 1 before (or instead of)
/// running the target program.
#[derive(Debug, Clone, Copy, PartialEq, Eq, Structural)]
pub enum RunError {
    /// The location of the running binary could not be determined.
    CurrentExeUnavailable,
    /// The location of the running binary is not UTF-8 text.
    CurrentExeNotUnicode,
    /// The working directory could not be determined.
    CurrentDirUnavailable,
    /// The working directory is not UTF-8 text.
    CurrentDirNotUnicode,
    /// No program other than this one was found under this one's name.
    NoPretendTarget,
    /// The override names this program itself; reported with an empty line.
    SelfPretend,
    /// The program that the search found is not at a UTF-8 path.
    ExecutableNotUnicode,
    /// The program could not be launched.
    LaunchFailed,
    /// The override names a file with a suffix that the search did not find.
    InvalidOverride,
    /// The configured base directory is not an existing directory.
    BaseDirMissing,
    /// The configured trial count is not an integer in 0..=255.
    InvalidMaxTrial,
    /// The scratch directory could not be created.
    TempDirFailed,
}

/// The diagnostic line of each condition.
pub open spec fn message_of(e: RunError) -> Seq<char> {
    match e {
        RunError::CurrentExeUnavailable => "Cannot get the current working executable"@,
        RunError::CurrentExeNotUnicode =>
            "Cannot convert the current working executable to a UTF-8 string"@,
        RunError::CurrentDirUnavailable => "Cannot get the current working directory"@,
        RunError::CurrentDirNotUnicode =>
            "Cannot convert the current working directory to a UTF-8 string"@,
        RunError::NoPretendTarget =>
            "Cannot find which executable to pretend, either specify RANDOMTEMP_EXECUTABLE through the environmental variables or rename the executable to another one in PATH"@,
        RunError::SelfPretend => ""@,
        RunError::ExecutableNotUnicode =>
            "Cannot convert RANDOMTEMP_EXECUTABLE to a UTF-8 string"@,
        RunError::LaunchFailed => "failed to execute process"@,
        RunError::InvalidOverride => "RANDOMTEMP_EXECUTABLE points to an invalid executable"@,
        RunError::BaseDirMissing => "The directory specified in RANDOMTEMP_BASEDIR doesn't exist"@,
        RunError::InvalidMaxTrial => "RANDOMTEMP_MAXTRIAL is not valid number in 0..256"@,
        RunError::TempDirFailed => "Cannot create temporary directory"@,
    }
}

impl RunError {
    /// The line reported on the error stream for this condition.
    pub fn message(&self) -> (r: String)
        ensures
            r@ == message_of(*self),
    {
        match self {
            RunError::CurrentExeUnavailable => String::from_str(
                "Cannot get the current working executable",
            ),
            RunError::CurrentExeNotUnicode => String::from_str(
                "Cannot convert the current working executable to a UTF-8 string",
            ),
            RunError::CurrentDirUnavailable => String::from_str(
                "Cannot get the current working directory",
            ),
            RunError::CurrentDirNotUnicode => String::from_str(
                "Cannot convert the current working directory to a UTF-8 string",
            ),
            RunError::NoPretendTarget => String::from_str(
                "Cannot find which executable to pretend, either specify RANDOMTEMP_EXECUTABLE through the environmental variables or rename the executable to another one in PATH",
            ),
            RunError::SelfPretend => {
                proof {
                    reveal_strlit("");
                }
                String::new()
            },
            RunError::ExecutableNotUnicode => String::from_str(
                "Cannot convert RANDOMTEMP_EXECUTABLE to a UTF-8 string",
            ),
            RunError::LaunchFailed => String::from_str("failed to execute process"),
            RunError::InvalidOverride => String::from_str(
                "RANDOMTEMP_EXECUTABLE points to an invalid executable",
            ),
            RunError::BaseDirMissing => String::from_str(
                "The directory specified in RANDOMTEMP_BASEDIR doesn't exist",
            ),
            RunError::InvalidMaxTrial => String::from_str(
                "RANDOMTEMP_MAXTRIAL is not valid number in 0..256",
            ),
            RunError::TempDirFailed => String::from_str("Cannot create temporary directory"),
        }
    }
}

} // verus!
