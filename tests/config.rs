use randomtemp::config::{get_base_dir, get_current_dir, get_current_exe, get_max_trial, parse_max_trial, PathLookup};
use randomtemp::error::RunError;

#[test]
fn max_trial_default_and_values() {
    assert_eq!(get_max_trial(None), Ok(3));
    assert_eq!(get_max_trial(Some("0")), Ok(0));
    assert_eq!(get_max_trial(Some("255")), Ok(255));
    assert_eq!(get_max_trial(Some("+7")), Ok(7));
    assert_eq!(get_max_trial(Some("007")), Ok(7));
}

#[test]
fn max_trial_rejected() {
    assert_eq!(get_max_trial(Some("-1")), Err(RunError::InvalidMaxTrial));
    assert_eq!(get_max_trial(Some("256")), Err(RunError::InvalidMaxTrial));
    assert_eq!(get_max_trial(Some("")), Err(RunError::InvalidMaxTrial));
    assert_eq!(get_max_trial(Some("+")), Err(RunError::InvalidMaxTrial));
    assert_eq!(get_max_trial(Some("1 ")), Err(RunError::InvalidMaxTrial));
    assert_eq!(get_max_trial(Some("99999")), Err(RunError::InvalidMaxTrial));
    assert!(!RunError::InvalidMaxTrial.message().is_empty());
}

#[test]
fn parse_agrees_with_std() {
    for s in ["0", "1", "42", "255", "256", "-0", "+", "++1", "1a", "", "0255", "1000"] {
        assert_eq!(parse_max_trial(s), s.parse::<u8>().ok(), "{}", s);
    }
}

#[test]
fn base_dir_choices() {
    let cwd = PathLookup::Found("/work".to_string());
    assert_eq!(get_base_dir(Some("randomtemp"), false, &cwd), Err(RunError::BaseDirMissing));
    assert!(!RunError::BaseDirMissing.message().is_empty());
    assert_eq!(get_base_dir(Some("/tmp"), true, &cwd), Ok("/tmp".to_string()));
    assert_eq!(get_base_dir(None, false, &cwd), Ok("/work".to_string()));
    assert_eq!(
        get_base_dir(None, false, &PathLookup::Unavailable),
        Err(RunError::CurrentDirUnavailable)
    );
}

#[test]
fn current_locations() {
    let l = PathLookup::Found("/usr/bin/randomtemp".to_string());
    assert_eq!(get_current_exe(&l), Ok("/usr/bin/randomtemp".to_string()));
    assert_eq!(get_current_exe(&PathLookup::NotUnicode), Err(RunError::CurrentExeNotUnicode));
    assert_eq!(get_current_dir(&PathLookup::NotUnicode), Err(RunError::CurrentDirNotUnicode));
    assert_eq!(get_current_dir(&PathLookup::Unavailable), Err(RunError::CurrentDirUnavailable));
}
