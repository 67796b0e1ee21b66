use binst::version::{extract_stream, get_version_part, Version};

fn run(v: &str) -> String {
    extract_stream(&Version::parse(v).unwrap())
}

#[test]
fn test_extract_stream() {
    assert_eq!("main", run("0.1.3"));
    assert_eq!("main", run("0.1.0"));
    assert_eq!("rc", run("0.1.3-rc"));
    assert_eq!("rc", run("0.1.3-rc-1"));
    assert_eq!("rc-big", run("0.1.3-rc-big-1"));
    assert_eq!("beta", run("0.1.3-beta.2"));
    assert_eq!("beta", run("0.1.3-beta2"));
    assert_eq!("big-beta", run("0.1.3-big-beta2"));
    assert_eq!("pre", run("0.1.3-123"));
}

#[test]
fn stream_of_a_release_is_main_whatever_the_build() {
    assert_eq!("main", run("10.20.30+build.5"));
    assert_eq!("main", run("0.0.0"));
}

#[test]
fn stream_strips_one_trailing_hyphen_only() {
    assert_eq!("rc-", run("1.0.0-rc--1"));
    assert_eq!("", run("1.0.0--"));
}

#[test]
fn parse_copies_every_field() {
    let v = Version::parse("1.22.333-beta.4+build.7").unwrap();
    assert_eq!(v.major, 1);
    assert_eq!(v.minor, 22);
    assert_eq!(v.patch, 333);
    assert_eq!(v.pre, "beta.4");
    assert_eq!(v.build, "build.7");
    assert!(Version::parse("1.2").is_none());
    assert!(Version::parse("").is_none());
    assert!(Version::parse("v1.2.3").is_none());
    assert!(Version::parse("1.2.3-").is_none());
    assert!(Version::parse("01.2.3").is_none());
}

#[test]
fn version_text_round_trips() {
    for text in ["0.0.0", "1.2.0", "10.0.9", "18446744073709551615.0.1", "1.2.3-rc.1", "1.2.3+b", "1.2.3-a-b+c.d"] {
        assert_eq!(Version::parse(text).unwrap().to_text(), text);
    }
    assert_eq!(get_version_part(&Version::parse("1.2.0").unwrap()), "v1.2.0");
    assert_eq!(get_version_part(&Version::parse("0.1.3-rc-1").unwrap()), "v0.1.3-rc-1");
}

fn newer(a: &str, b: &str) -> bool {
    Version::parse(a).unwrap().newer_than(&Version::parse(b).unwrap())
}

#[test]
fn precedence_follows_numbers_then_pre_release() {
    assert!(newer("1.0.0", "0.9.9"));
    assert!(newer("1.10.0", "1.9.0"));
    assert!(newer("1.0.10", "1.0.9"));
    assert!(!newer("1.0.0", "1.0.0"));
    assert!(!newer("0.9.9", "1.0.0"));
    assert!(newer("1.0.0", "1.0.0-rc"));
    assert!(!newer("1.0.0-rc", "1.0.0"));
    assert!(newer("1.0.0-rc.2", "1.0.0-rc.1"));
    assert!(!newer("1.0.0-rc.1", "1.0.0-rc.2"));
    assert!(newer("1.0.0-rc.10", "1.0.0-rc.9"));
    assert!(newer("1.0.0-beta", "1.0.0-alpha"));
    assert!(newer("1.0.0-alpha.1", "1.0.0-alpha"));
    assert!(!newer("1.0.0-alpha", "1.0.0-alpha"));
    assert!(newer("1.0.0+2", "1.0.0+1"));
    assert!(!newer("1.0.0+1", "1.0.0+2"));
}

#[test]
fn precedence_given_how_the_texts_compare() {
    let release = Version::parse("1.0.0").unwrap();
    let rc = Version::parse("1.0.0-rc").unwrap();
    let beta = Version::parse("1.0.0-beta").unwrap();
    let built = Version::parse("1.0.0+7").unwrap();
    assert!(Version::parse("2.0.0").unwrap().newer_with(&release, Some(false), Some(false)));
    assert!(!release.newer_with(&Version::parse("1.0.1").unwrap(), Some(true), Some(true)));
    assert!(release.newer_with(&rc, None, None));
    assert!(!rc.newer_with(&release, Some(true), Some(true)));
    assert!(rc.newer_with(&beta, Some(true), None));
    assert!(!rc.newer_with(&beta, Some(false), Some(true)));
    assert!(!rc.newer_with(&beta, None, Some(true)));
    assert!(!rc.newer_with(&rc, Some(true), Some(true)));
    assert!(built.newer_with(&release, None, Some(true)));
    assert!(!built.newer_with(&release, Some(true), Some(false)));
    assert!(!built.newer_with(&release, Some(true), None));
}
