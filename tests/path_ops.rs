use randomtemp::path_ops::{
    get_file_name, get_file_stem, is_absolute_path, is_same_file_pathbuf, is_same_file_stem,
};

#[test]
fn test_is_same_file_stem() {
    let file = "randomtemp";
    let file_ext = "randomtemp.exe";
    let no_file: Option<&str> = None;

    assert_eq!(is_same_file_stem(Some(file), Some(file_ext)), true);
    assert_eq!(is_same_file_stem(Some(file), no_file), false);
    assert_eq!(is_same_file_stem(Some(file_ext), no_file), false);
}

#[test]
fn same_stem_differs_by_name() {
    assert!(!is_same_file_stem(Some("randomtemp"), Some("cl.exe")));
    assert!(is_same_file_stem(Some("/usr/bin/randomtemp"), Some("/opt/x/randomtemp.exe")));
    assert!(!is_same_file_stem(None, None));
}

#[test]
fn absolute_paths() {
    assert!(is_absolute_path("/usr/bin/env"));
    assert!(!is_absolute_path("env"));
    assert!(!is_absolute_path("bin/env"));
    assert!(!is_absolute_path(""));
}

#[test]
fn file_names_and_stems() {
    assert_eq!(get_file_name(Some("/usr/bin/cl.exe")), Some("cl.exe".to_string()));
    assert_eq!(get_file_name(Some("/usr/bin/..")), None);
    assert_eq!(get_file_name(None), None);
    assert_eq!(get_file_stem(Some("/usr/bin/cl.exe")), Some("cl".to_string()));
    assert_eq!(get_file_stem(Some("archive.tar.gz")), Some("archive.tar".to_string()));
    assert_eq!(get_file_stem(Some(".hidden")), Some(".hidden".to_string()));
    assert_eq!(get_file_stem(Some("..a")), Some(".".to_string()));
    assert_eq!(get_file_stem(Some("a.")), Some("a".to_string()));
}

#[test]
fn same_file_by_components() {
    assert!(is_same_file_pathbuf(Some("/a/b"), Some("/a/b")));
    assert!(is_same_file_pathbuf(Some("/a//b"), Some("/a/b")));
    assert!(!is_same_file_pathbuf(Some("/a/b"), Some("/a/c")));
    assert!(!is_same_file_pathbuf(Some("/a/b"), None));
}
