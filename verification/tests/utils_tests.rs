use binst::utils::{check_safe_to_delete, clean_path, UtilsError};

#[test]
fn test_clean_path() {
    // clean path like
    assert_eq!("path", clean_path("path"));
    assert_eq!("path", clean_path("path/"));
    assert_eq!("path", clean_path("/path/"));

    // clean url like
    assert_eq!("https://example.net/foo/bar", clean_path("https://example.net/foo/bar"));
    assert_eq!(
        "https://example.net/foo/bar",
        clean_path("https://example.net/foo/bar/")
    );
    assert_eq!("example.net/foo/bar", clean_path("example.net////foo/bar"));
}

#[test]
fn clean_path_is_idempotent_on_samples() {
    let samples = [
        "",
        "/",
        "://",
        "a://b://c",
        "a:/://b",
        "///a//b///c/",
        "https://example.net//foo/",
        "x:///y",
        "é//ü/",
    ];
    for s in samples {
        let once = clean_path(s);
        assert_eq!(once, clean_path(&once));
    }
}

#[test]
fn clean_path_keeps_only_first_scheme_delimiter() {
    assert_eq!("a://b:/c", clean_path("a://b://c"));
    assert_eq!("://", clean_path("://"));
    assert_eq!("", clean_path("///"));
    assert_eq!("a://b", clean_path("a:///b"));
}

#[test]
fn deletion_guard_refuses_paths_without_marker() {
    match check_safe_to_delete("/tmp") {
        Err(UtilsError::DirNotSafeToDelete(p)) => assert_eq!(p, "/tmp"),
        _ => panic!("deletion of /tmp must be refused"),
    }
    match check_safe_to_delete("/home/user/.bins/tmp/x") {
        Err(UtilsError::DirNotSafeToDelete(_)) => {}
        _ => panic!("a path without the marker must be refused"),
    }
    assert!(check_safe_to_delete("/home/user/.binst/tmp/tool-1").is_ok());
    assert!(check_safe_to_delete("binst").is_ok());
    assert!(check_safe_to_delete("").is_err());
}
