use randomtemp::launch::{build_command_line, plan_launch, quote_arg, Platform};

fn strings(v: &[&str]) -> Vec<String> {
    v.iter().map(|s| s.to_string()).collect()
}

#[test]
fn quoting_spaces() {
    assert_eq!(quote_arg("C:\\Program Files"), "\"C:\\Program Files\"");
    assert_eq!(quote_arg("plain"), "plain");
    assert_eq!(quote_arg("a\tb"), "\"a\tb\"");
    assert_eq!(quote_arg("a\nb"), "\"a\nb\"");
    assert_eq!(quote_arg(""), "");
}

#[test]
fn command_line_keeps_spaced_argument_whole() {
    let args = strings(&["C:\\Program Files", "/w"]);
    assert_eq!(build_command_line("dir", &args), "dir \"C:\\Program Files\" /w");
    assert_eq!(build_command_line("my tool", &Vec::new()), "\"my tool\"");
}

#[test]
fn unix_relative_goes_through_shell() {
    let p = plan_launch("env", &strings(&["a b"]), Platform::Unix);
    assert_eq!(p.program, "sh");
    assert_eq!(p.args, strings(&["-c", "env \"$@\"", "env", "a b"]));
    assert_eq!(p.temp_vars, strings(&["TMPDIR"]));
    assert_eq!(p.command_line, None);
}

#[test]
fn absolute_runs_directly() {
    let p = plan_launch("/usr/bin/env", &strings(&["x", "y z"]), Platform::Unix);
    assert_eq!(p.program, "/usr/bin/env");
    assert_eq!(p.args, strings(&["x", "y z"]));
    let w = plan_launch("/usr/bin/env", &strings(&["x"]), Platform::Windows);
    assert_eq!(w.temp_vars, strings(&["TEMP", "TMP"]));
    assert_eq!(w.command_line, None);
}

#[test]
fn windows_relative_goes_through_interpreter() {
    let p = plan_launch("dir", &strings(&["C:\\Program Files"]), Platform::Windows);
    assert_eq!(p.program, "cmd");
    assert_eq!(p.args, strings(&["/q", "/c", "%RANDOMTEMP_COMMANDLINE%"]));
    assert_eq!(p.temp_vars, strings(&["TEMP", "TMP"]));
    assert_eq!(p.command_line, Some("dir \"C:\\Program Files\"".to_string()));
}
