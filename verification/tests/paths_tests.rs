use binst::paths::{
    binst_bin_dir, binst_dir, binst_env, binst_package_bin_dir, binst_tmp_dir, os_target,
    os_target_for,
};
use binst::text::{contains, find, find_char_from, join, join_path, matches_at, starts_with};
use binst::utils::UtilsError;
use binst::version::Version;

#[test]
fn local_layout() {
    assert_eq!(binst_dir("/home/me"), "/home/me/.binst");
    assert_eq!(binst_dir("/home/me/"), "/home/me/.binst");
    assert_eq!(binst_env("/home/me"), "/home/me/.binst/env");
    assert_eq!(binst_bin_dir("/home/me"), "/home/me/.binst/bin");
    assert_eq!(binst_tmp_dir("/home/me", None), "/home/me/.binst/tmp");
    assert_eq!(binst_tmp_dir("/home/me", Some("mytool-17")), "/home/me/.binst/tmp/mytool-17");
    assert_eq!(
        binst_package_bin_dir("/home/me", "mytool", &Version::parse("1.2.0").unwrap()),
        "/home/me/.binst/packages/mytool/v1.2.0"
    );
}

#[test]
fn host_target() {
    assert_eq!(os_target("x86_64", "Linux"), "x86_64-unknown-linux-gnu");
    assert_eq!(os_target("arm64", "Darwin"), "arm64-apple-darwin");
    assert_eq!(os_target("x86_64", "Windows_NT"), "x86_64-not-supported");
    assert_eq!(os_target("aarch64", "GNU/LINUX"), "aarch64-unknown-linux-gnu");
    assert_eq!(os_target_for("x86_64", "Linux"), "x86_64-not-supported");
    assert_eq!(os_target_for("x86_64", "darwin-linux"), "x86_64-apple-darwin");
}

#[test]
fn paths_are_joined_as_std_joins_them() {
    for (a, b) in [("a", "b"), ("a/", "b"), ("", "b"), ("a", "/b"), ("a", ""), ("/", "x"), ("a//", "b/c"), ("", "")] {
        let expected = std::path::Path::new(a).join(b).to_string_lossy().to_string();
        assert_eq!(join_path(a, b), expected, "{:?} joined with {:?}", a, b);
    }
}

#[test]
fn text_searches() {
    assert!(starts_with("s3://x", "s3://"));
    assert!(!starts_with("s3:/", "s3://"));
    assert!(starts_with("abc", ""));
    assert!(contains("/home/.binst/tmp", "binst"));
    assert!(!contains("/home/.bins/t", "binst"));
    assert!(contains("", ""));
    assert_eq!(find("a://b://c", "://"), Some(1));
    assert_eq!(find("é://b", "://"), Some(1));
    assert_eq!(find("abc", "://"), None);
    assert_eq!(find("abc", ""), Some(0));
    assert!(matches_at("héllo", "llo", 2));
    assert!(!matches_at("héllo", "llo", 3));
    assert!(!matches_at("abc", "c", 9));
    assert_eq!(find_char_from("a/b/c", '/', 0), 1);
    assert_eq!(find_char_from("a/b/c", '/', 2), 3);
    assert_eq!(find_char_from("a/b/c", '/', 4), 5);
    assert_eq!(join(&["a", "b", "c"], "."), "a.b.c");
    assert_eq!(join(&["a"], "."), "a");
    assert_eq!(join(&[], "."), "");
    assert_eq!(join(&["", ""], ", "), ", ");
}

#[test]
fn command_failures_show_the_command_line() {
    match UtilsError::from_exec_stderr("cargo", &["build", "--release"], "not found") {
        UtilsError::ExecError(line, cause) => {
            assert_eq!(line, "cargo build --release");
            assert_eq!(cause, "not found");
        }
        other => panic!("{:?}", other),
    }
    match UtilsError::from_exec_status("cargo", &[], "exit status: 101") {
        UtilsError::ExecError(line, cause) => {
            assert_eq!(line, "cargo ");
            assert_eq!(cause, "exit status: 101");
        }
        other => panic!("{:?}", other),
    }
}
