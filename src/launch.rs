//! How an attempt launches the resolved program: directly when it is an
//! absolute path, else through the platform's command interpreter, with the
//! scratch directory exposed through the temp-directory variables.

use vstd::prelude::*;
use vstd::string::{StrSliceExecFns, StringExecFns};
use crate::path_ops::{is_absolute_of, is_absolute_path};

verus! {

/// The platform family, which decides the interpreter, the quoting and the
/// names of the temp-directory variables.
#[derive(Debug, Clone, Copy, PartialEq, Eq, Structural)]
pub enum Platform {
    Unix,
    Windows,
}

/// A launch decided once per resolution: the program image, its
/// arguments, the variables that receive the scratch directory, and the
/// value of the command-line variable that the Windows interpreter expands.
pub struct LaunchPlan {
    pub program: String,
    pub args: Vec<String>,
    pub temp_vars: Vec<String>,
    pub command_line: Option<String>,
}

/// The variable through which the Windows interpreter receives the command.
pub const COMMAND_LINE_VAR: &'static str = "RANDOMTEMP_COMMANDLINE";

/// The texts of a sequence of strings.
pub open spec fn views(v: Seq<String>) -> Seq<Seq<char>> {
    v.map_values(|s: String| s@)
}

/// The characters at which an interpreter splits a command line: ASCII
/// space, tab, line feed, vertical tab, form feed and carriage return.
pub open spec fn is_blank(c: char) -> bool {
    c == ' ' || c == '\t' || c == '\n' || c == '\x0B' || c == '\x0C' || c == '\r'
}

/// Whether the text holds a character at which it would be split.
pub open spec fn has_blank(s: Seq<char>) -> bool {
    exists|i: int| 0 <= i < s.len() && is_blank(#[trigger] s[i])
}

/// An argument as the Windows interpreter must see it: in double quotes
/// when it holds whitespace, so that it stays one token.
pub open spec fn quoted(s: Seq<char>) -> Seq<char> {
    if has_blank(s) {
        seq!['"'] + s + seq!['"']
    } else {
        s
    }
}

/// The program and its arguments, each quoted, separated by single spaces.
pub open spec fn command_line_of(exe: Seq<char>, args: Seq<Seq<char>>) -> Seq<char>
    decreases args.len(),
{
    if args.len() == 0 {
        quoted(exe)
    } else {
        command_line_of(exe, args.drop_last()) + seq![' '] + quoted(args.last())
    }
}

pub open spec fn plan_program(exe: Seq<char>, platform: Platform) -> Seq<char> {
    if is_absolute_of(exe) {
        exe
    } else {
        match platform {
            Platform::Unix => "sh"@,
            Platform::Windows => "cmd"@,
        }
    }
}

pub open spec fn plan_args(exe: Seq<char>, fwd: Seq<Seq<char>>, platform: Platform) -> Seq<
    Seq<char>,
> {
    if is_absolute_of(exe) {
        fwd
    } else {
        match platform {
            Platform::Unix => seq!["-c"@, shell_script(exe), exe] + fwd,
            Platform::Windows => seq!["/q"@, "/c"@, "%RANDOMTEMP_COMMANDLINE%"@],
        }
    }
}

/// The script that the Unix shell runs: the program, given the script's own
/// arguments (the forwarded ones, which follow the program as `$0`).
pub open spec fn shell_script(exe: Seq<char>) -> Seq<char> {
    exe + " \"$@\""@
}

pub open spec fn plan_temp_vars(platform: Platform) -> Seq<Seq<char>> {
    match platform {
        Platform::Unix => seq!["TMPDIR"@],
        Platform::Windows => seq!["TEMP"@, "TMP"@],
    }
}

pub open spec fn plan_command_line(exe: Seq<char>, fwd: Seq<Seq<char>>, platform: Platform) -> Option<
    Seq<char>,
> {
    if !is_absolute_of(exe) && platform == Platform::Windows {
        Some(command_line_of(exe, fwd))
    } else {
        None
    }
}

/// Whether `s` holds whitespace.
fn has_whitespace(s: &str) -> (r: bool)
    ensures
        r == has_blank(s@),
{
    let n = s.unicode_len();
    let mut i: usize = 0;
    while i < n
        invariant
            i <= n,
            n == s@.len(),
            forall|j: int| 0 <= j < i ==> !is_blank(#[trigger] s@[j]),
        decreases n - i,
    {
        let c = s.get_char(i);
        if c == ' ' || c == '\t' || c == '\n' || c == '\x0B' || c == '\x0C' || c == '\r' {
            assert(is_blank(s@[i as int]));
            return true;
        }
        i = i + 1;
    }
    false
}

/// Wraps `arg` in double quotes when it holds whitespace.
pub fn quote_arg(arg: &str) -> (r: String)
    ensures
        r@ == quoted(arg@),
{
    if has_whitespace(arg) {
        let mut q = String::from_str("\"");
        q.append(arg);
        q.append("\"");
        proof {
            reveal_strlit("\"");
        }
        assert(q@ =~= quoted(arg@));
        q
    } else {
        arg.to_owned()
    }
}

/// The command line that the Windows interpreter runs: the program and the
/// forwarded arguments, each quoted where it holds whitespace.
pub fn build_command_line(executable: &str, forwarded: &Vec<String>) -> (r: String)
    ensures
        r@ == command_line_of(executable@, views(forwarded@)),
{
    let mut line = quote_arg(executable);
    let mut i: usize = 0;
    while i < forwarded.len()
        invariant
            i <= forwarded@.len(),
            line@ == command_line_of(executable@, views(forwarded@).take(i as int)),
        decreases forwarded@.len() - i,
    {
        let q = quote_arg(forwarded[i].as_str());
        line.append(" ");
        line.append(q.as_str());
        proof {
            reveal_strlit(" ");
            let t = views(forwarded@).take(i + 1);
            assert(t.drop_last() =~= views(forwarded@).take(i as int));
            assert(t.last() == forwarded@[i as int]@);
        }
        i = i + 1;
    }
    assert(views(forwarded@).take(forwarded@.len() as int) =~= views(forwarded@));
    line
}

/// A copy of the strings, in order.
fn copy_strings(v: &Vec<String>) -> (r: Vec<String>)
    ensures
        views(r@) == views(v@),
{
    let mut out: Vec<String> = Vec::new();
    let mut i: usize = 0;
    while i < v.len()
        invariant
            i <= v@.len(),
            out@ =~= v@.take(i as int),
        decreases v@.len() - i,
    {
        out.push(v[i].clone());
        i = i + 1;
    }
    assert(out@ =~= v@);
    out
}

/// Decides how each attempt launches `executable` with the `forwarded`
/// arguments on `platform`.
pub fn plan_launch(executable: &str, forwarded: &Vec<String>, platform: Platform) -> (r:
    LaunchPlan)
    ensures
        r.program@ == plan_program(executable@, platform),
        views(r.args@) == plan_args(executable@, views(forwarded@), platform),
        views(r.temp_vars@) == plan_temp_vars(platform),
        match r.command_line {
            Some(c) => plan_command_line(executable@, views(forwarded@), platform) == Some(c@),
            None => plan_command_line(executable@, views(forwarded@), platform) is None,
        },
{
    let mut temp_vars: Vec<String> = Vec::new();
    match platform {
        Platform::Unix => {
            temp_vars.push(String::from_str("TMPDIR"));
        },
        Platform::Windows => {
            temp_vars.push(String::from_str("TEMP"));
            temp_vars.push(String::from_str("TMP"));
        },
    }
    assert(views(temp_vars@) =~= plan_temp_vars(platform));
    if is_absolute_path(executable) {
        let args = copy_strings(forwarded);
        return LaunchPlan {
            program: executable.to_owned(),
            args,
            temp_vars,
            command_line: None,
        };
    }
    match platform {
        Platform::Unix => {
            let mut args: Vec<String> = Vec::new();
            args.push(String::from_str("-c"));
            let mut script = executable.to_owned();
            script.append(" \"$@\"");
            args.push(script);
            args.push(executable.to_owned());
            let ghost head = args@;
            let mut i: usize = 0;
            while i < forwarded.len()
                invariant
                    i <= forwarded@.len(),
                    head.len() == 3,
                    head[0]@ == "-c"@,
                    head[1]@ == shell_script(executable@),
                    head[2]@ == executable@,
                    args@ =~= head + forwarded@.take(i as int),
                decreases forwarded@.len() - i,
            {
                args.push(forwarded[i].clone());
                i = i + 1;
            }
            assert(args@ =~= head + forwarded@);
            assert(views(args@) =~= seq!["-c"@, shell_script(executable@), executable@] + views(
                forwarded@,
            ));
            LaunchPlan { program: String::from_str("sh"), args, temp_vars, command_line: None }
        },
        Platform::Windows => {
            let mut args: Vec<String> = Vec::new();
            args.push(String::from_str("/q"));
            args.push(String::from_str("/c"));
            args.push(String::from_str("%RANDOMTEMP_COMMANDLINE%"));
            assert(views(args@) =~= seq!["/q"@, "/c"@, "%RANDOMTEMP_COMMANDLINE%"@]);
            let line = build_command_line(executable, forwarded);
            LaunchPlan {
                program: String::from_str("cmd"),
                args,
                temp_vars,
                command_line: Some(line),
            }
        },
    }
}

} // verus!
