use randomtemp::config::PathLookup;
use randomtemp::error::RunError;
use randomtemp::resolve::{
    choose_candidate, find_executable_in_path, find_executable_in_path_by_env,
    get_pretend_executable, settle_override, SearchOutcome,
};

#[test]
fn candidate_skips_running_binary() {
    let found = |s: &str| SearchOutcome::Found(s.to_string());
    assert_eq!(choose_candidate(found("/usr/bin/cl"), "/usr/bin/cl"), Ok(None));
    assert_eq!(choose_candidate(found("/usr//bin/cl"), "/usr/bin/cl"), Ok(None));
    assert_eq!(
        choose_candidate(found("/usr/bin/cl"), "/opt/proxy/cl"),
        Ok(Some("/usr/bin/cl".to_string()))
    );
    assert_eq!(choose_candidate(SearchOutcome::Missing, "/opt/proxy/cl"), Ok(None));
    assert_eq!(
        choose_candidate(SearchOutcome::NotUnicode, "/opt/proxy/cl"),
        Err(RunError::ExecutableNotUnicode)
    );
    assert!(!RunError::ExecutableNotUnicode.message().is_empty());
}

#[test]
fn override_fallbacks() {
    assert_eq!(settle_override("dir", None), Ok("dir".to_string()));
    assert_eq!(settle_override("nothing.exe", None), Err(RunError::InvalidOverride));
    assert_eq!(
        settle_override("cl", Some("/usr/bin/cl".to_string())),
        Ok("/usr/bin/cl".to_string())
    );
}

#[test]
fn override_naming_self_is_refused() {
    let current = PathLookup::Found("/opt/proxy/randomtemp.exe".to_string());
    assert_eq!(
        find_executable_in_path_by_env("randomtemp", &current),
        Err(RunError::SelfPretend)
    );
    assert_eq!(
        get_pretend_executable(Some("randomtemp"), &current),
        Err(RunError::SelfPretend)
    );
    assert_eq!(RunError::SelfPretend.message(), "");
}

#[test]
fn override_not_found_without_suffix_passes_through() {
    let current = PathLookup::Found("/opt/proxy/randomtemp".to_string());
    assert_eq!(
        find_executable_in_path_by_env("no_such_program_anywhere_4711", &current),
        Ok("no_such_program_anywhere_4711".to_string())
    );
    assert_eq!(
        find_executable_in_path_by_env("no_such_program_anywhere_4711.exe", &current),
        Err(RunError::InvalidOverride)
    );
}

#[test]
fn test_pretend_executable_with_absolute_path() {
    let actual = "/tmp/somewhere/test_randomtemp_absolute";
    let current = PathLookup::Found("/opt/proxy/test_randomtemp_absolute".to_string());
    assert_eq!(get_pretend_executable(Some(actual), &current), Ok(actual.to_string()));
    assert_eq!(
        get_pretend_executable(Some(actual), &PathLookup::Unavailable),
        Ok(actual.to_string())
    );
}

#[test]
fn search_under_own_name_finds_another() {
    let real = which::which("sh").unwrap();
    let real = real.to_str().unwrap().to_string();
    let proxy = PathLookup::Found("/opt/proxy_dir_4711/sh".to_string());
    let found = find_executable_in_path(&proxy).unwrap();
    assert_eq!(found, real);
    assert_ne!(found, "/opt/proxy_dir_4711/sh");
    assert_eq!(get_pretend_executable(None, &proxy), Ok(real.clone()));
    let itself = PathLookup::Found(real);
    assert_eq!(find_executable_in_path(&itself), Err(RunError::NoPretendTarget));
}

#[test]
fn search_without_candidate_fails() {
    let current = PathLookup::Found("/opt/proxy/no_such_program_anywhere_4711".to_string());
    assert_eq!(find_executable_in_path(&current), Err(RunError::NoPretendTarget));
    assert!(!RunError::NoPretendTarget.message().is_empty());
}

#[test]
fn running_binary_unknown() {
    assert_eq!(
        get_pretend_executable(None, &PathLookup::Unavailable),
        Err(RunError::CurrentExeUnavailable)
    );
    assert_eq!(
        get_pretend_executable(Some("cl"), &PathLookup::NotUnicode),
        Err(RunError::CurrentExeNotUnicode)
    );
}
