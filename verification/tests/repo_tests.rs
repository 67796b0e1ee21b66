use binst::repo::bin_repo::{BinRepo, Source};
use binst::repo::error::{Error, ErrorKind};
use binst::repo::repo_info::{RepoInfo, S3Info};
use binst::repo::s3w::{get_full_key_and_s3_url, upload_file_content_type, upload_text_content_type};
use binst::utils::UtilsError;
use binst::version::Version;

fn version(text: &str) -> Version {
    Version::parse(text).unwrap()
}

#[test]
fn s3_location_round_trip() {
    match RepoInfo::from_repo_string("s3://bucket/base/path", None).unwrap() {
        RepoInfo::S3(info) => {
            assert_eq!(info.bucket, "bucket");
            assert_eq!(info.base, "base/path");
            assert_eq!(info.url, "s3://bucket/base/path");
            assert_eq!(info.profile, None);
        }
        other => panic!("not an S3 location: {:?}", other),
    }
}

#[test]
fn s3_location_without_bucket_is_refused() {
    for text in ["s3://", "s3:///x", "s3:///", "s3://bucket//x"] {
        match RepoInfo::from_repo_string(text, None) {
            Err(Error::RepoInvalidS3(t)) => assert_eq!(t, text),
            other => panic!("{} was not refused: {:?}", text, other),
        }
    }
}

#[test]
fn s3_location_edges() {
    let info = S3Info::from_s3_url("s3://bucket", Some("me")).unwrap();
    assert_eq!(info.bucket, "bucket");
    assert_eq!(info.base, "");
    assert_eq!(info.profile.as_deref(), Some("me"));
    let info = S3Info::from_s3_url("s3://bucket/", None).unwrap();
    assert_eq!(info.bucket, "bucket");
    assert_eq!(info.base, "");
    let info = S3Info::from_s3_url("s3://b/x//y/", None).unwrap();
    assert_eq!(info.base, "x//y/");
    assert!(matches!(S3Info::from_s3_url("bucket/base", None), Err(Error::RepoInvalidS3(_))));
    assert!(matches!(S3Info::from_s3_url("", None), Err(Error::RepoInvalidS3(_))));
    assert!(matches!(S3Info::from_s3_url("S3://bucket", None), Err(Error::RepoInvalidS3(_))));
}

#[test]
fn locations_are_classified_by_their_prefix() {
    match RepoInfo::from_repo_string("https://example.net//repo/", None).unwrap() {
        RepoInfo::Http(url) => assert_eq!(url, "https://example.net/repo"),
        other => panic!("{:?}", other),
    }
    match RepoInfo::from_repo_string("http://example.net/repo", Some("p")).unwrap() {
        RepoInfo::Http(url) => assert_eq!(url, "http://example.net/repo"),
        other => panic!("{:?}", other),
    }
    match RepoInfo::from_repo_string("/tmp//repo/", None).unwrap() {
        RepoInfo::Local(url) => assert_eq!(url, "tmp/repo"),
        other => panic!("{:?}", other),
    }
    match RepoInfo::from_repo_string("ftp://host/x/", None).unwrap() {
        RepoInfo::Local(url) => assert_eq!(url, "ftp://host/x"),
        other => panic!("{:?}", other),
    }
    match RepoInfo::from_repo_string("", None).unwrap() {
        RepoInfo::Local(url) => assert_eq!(url, ""),
        other => panic!("{:?}", other),
    }
}

#[test]
fn hosted_repositories() {
    match RepoInfo::binst_publish_repo() {
        RepoInfo::S3(info) => {
            assert_eq!(info.url, "s3://binst-repo");
            assert_eq!(info.bucket, "binst-repo");
            assert_eq!(info.base, "");
            assert_eq!(info.profile.as_deref(), Some("binst-repo-user"));
        }
        other => panic!("{:?}", other),
    }
    let install = RepoInfo::binst_install_repo();
    assert!(matches!(install, RepoInfo::Http(_)));
    assert_eq!(install.url(), "https://repo.binst.io");
    assert_eq!(RepoInfo::Local("x/y".to_string()).url(), "x/y");
    assert_eq!(RepoInfo::from_repo_string("s3://b/k", None).unwrap().url(), "s3://b/k");
}

#[test]
fn bin_repo_from_arguments() {
    let repo = BinRepo::new("tool", Some("s3://bucket/base"), Some("me"), Some("t-triple"), true).unwrap();
    assert_eq!(repo.bin_name, "tool");
    assert_eq!(repo.target.as_deref(), Some("t-triple"));
    assert_eq!(repo.install_repo.url(), "s3://bucket/base");
    assert_eq!(repo.publish_repo.url(), "s3://bucket/base");
    match &repo.publish_repo {
        RepoInfo::S3(info) => assert_eq!(info.profile.as_deref(), Some("me")),
        other => panic!("{:?}", other),
    }

    let repo = BinRepo::new("tool", Some("/tmp/repo"), None, Some("t-triple"), false).unwrap();
    assert_eq!(repo.target, None);
    assert!(matches!(repo.install_repo, RepoInfo::Local(_)));

    let repo = BinRepo::new("tool", None, None, None, false).unwrap();
    assert_eq!(repo.install_repo.url(), "https://repo.binst.io");
    assert_eq!(repo.publish_repo.url(), "s3://binst-repo");

    match BinRepo::new("tool", Some("s3://"), None, None, true) {
        Err(Error::RepoInvalidS3(t)) => assert_eq!(t, "s3://"),
        other => panic!("{:?}", other),
    }
}

#[test]
fn remote_layout_is_the_same_for_every_backend() {
    let v = version("1.2.0");
    let local = BinRepo::new("mytool", Some("/tmp/repo"), None, None, false).unwrap();
    assert_eq!(local.origin_bin_target_uri("x86_64-unknown-linux-gnu", "main"), "mytool/x86_64-unknown-linux-gnu/main");
    assert_eq!(local.latest_toml_key("T", "main"), "mytool/T/main/latest.toml");
    let (name, key) = local.get_name_and_key("T", "main", &v);
    assert_eq!(name, "mytool.tar.gz");
    assert_eq!(key, "mytool/T/main/v1.2.0/mytool.tar.gz");
    assert_eq!(local.latest_toml_local_path("tmp/repo", "T", "main"), "tmp/repo/mytool/T/main/latest.toml");
    assert_eq!(local.origin_local_gz_path("/tmp/repo", "T", "main", &v), "/tmp/repo/mytool/T/main/v1.2.0/mytool.tar.gz");
    assert_eq!(local.get_origin_url("T", "main", &v, true).unwrap(), "tmp/repo/mytool/T/main/v1.2.0/mytool.tar.gz");
    match local.get_origin_url("T", "main", &v, false) {
        Err(Error::OriginTarGzNotFound(p)) => assert_eq!(p, "tmp/repo/mytool/T/main/v1.2.0/mytool.tar.gz"),
        other => panic!("{:?}", other),
    }
    match local.get_origin_local_path("r", "T", "main", &v, false) {
        Err(Error::OriginTarGzNotFound(p)) => assert_eq!(p, "r/mytool/T/main/v1.2.0/mytool.tar.gz"),
        other => panic!("{:?}", other),
    }

    let http = BinRepo::new("mytool", Some("https://example.net/repo/"), None, None, false).unwrap();
    assert_eq!(http.get_origin_url("T", "beta", &v, false).unwrap(), "https://example.net/repo/mytool/T/beta/v1.2.0/mytool.tar.gz");
    assert_eq!(http.get_origin_http_url("http://h", "T", "main", &v).unwrap(), "http://h/mytool/T/main/v1.2.0/mytool.tar.gz");
    assert_eq!(http.latest_toml_http_url("http://h", "T", "main"), "http://h/mytool/T/main/latest.toml");

    let s3 = BinRepo::new("mytool", Some("s3://bucket/base"), None, Some("other"), true).unwrap();
    assert_eq!(s3.get_origin_url("T", "main", &v, false).unwrap(), "s3://bucket/mytool/other/main/v1.2.0/mytool.tar.gz");
    let info = S3Info::from_s3_url("s3://bucket/base", None).unwrap();
    assert_eq!(s3.get_origin_s3_url(&info, "T", "main", &v).unwrap(), "s3://bucket/mytool/other/main/v1.2.0/mytool.tar.gz");
}

#[test]
fn full_key_goes_behind_the_prefix() {
    let with_base = S3Info::from_s3_url("s3://bucket/base/path", None).unwrap();
    assert_eq!(
        get_full_key_and_s3_url(&with_base, "a/b.tar.gz"),
        ("base/path/a/b.tar.gz".to_string(), "s3://bucket/a/b.tar.gz".to_string())
    );
    let without = S3Info::from_s3_url("s3://bucket", None).unwrap();
    assert_eq!(
        get_full_key_and_s3_url(&without, "a/b.tar.gz"),
        ("a/b.tar.gz".to_string(), "s3://bucket/a/b.tar.gz".to_string())
    );
}

#[test]
fn sources_by_kind_of_repository() {
    let v = version("0.3.1-rc.1");
    let local = BinRepo::new("t", Some("repo"), None, None, false).unwrap();
    match local.origin_latest_toml_source("T", "rc") {
        Source::LocalFile(p) => assert_eq!(p, "repo/t/T/rc/latest.toml"),
        other => panic!("{:?}", other),
    }
    match local.origin_archive_source("T", "rc", &v) {
        Source::LocalFile(p) => assert_eq!(p, "repo/t/T/rc/v0.3.1-rc.1/t.tar.gz"),
        other => panic!("{:?}", other),
    }
    let s3 = BinRepo::new("t", Some("s3://b/base"), Some("prof"), None, false).unwrap();
    match s3.origin_latest_toml_source("T", "rc") {
        Source::S3Object { bucket, key, url, profile } => {
            assert_eq!(bucket, "b");
            assert_eq!(key, "base/t/T/rc/latest.toml");
            assert_eq!(url, "s3://b/t/T/rc/latest.toml");
            assert_eq!(profile.as_deref(), Some("prof"));
        }
        other => panic!("{:?}", other),
    }
    match s3.origin_archive_source("T", "rc", &v) {
        Source::S3Object { key, .. } => assert_eq!(key, "base/t/T/rc/v0.3.1-rc.1/t.tar.gz"),
        other => panic!("{:?}", other),
    }
    let http = BinRepo::new("t", Some("http://h/r"), None, None, false).unwrap();
    match http.origin_latest_toml_source("T", "rc") {
        Source::HttpUrl(u) => assert_eq!(u, "http://h/r/t/T/rc/latest.toml"),
        other => panic!("{:?}", other),
    }
    match http.origin_archive_source("T", "rc", &v) {
        Source::HttpUrl(u) => assert_eq!(u, "http://h/r/t/T/rc/v0.3.1-rc.1/t.tar.gz"),
        other => panic!("{:?}", other),
    }
}

#[test]
fn failures_fall_into_their_classes() {
    assert_eq!(Error::RepoInvalidS3("x".into()).kind(), ErrorKind::Parse);
    assert_eq!(Error::OriginLatestNotFound("x".into()).kind(), ErrorKind::NotFound);
    assert_eq!(Error::OriginTarGzNotFound("x".into()).kind(), ErrorKind::NotFound);
    assert_eq!(Error::InvalidVersionFromOrigin.kind(), ErrorKind::InvalidVersion);
    assert_eq!(Error::TomlError("x".into()).kind(), ErrorKind::InvalidVersion);
    assert_eq!(Error::UtilsError(UtilsError::TomlValueNotFound("a.b".into())).kind(), ErrorKind::InvalidVersion);
    assert_eq!(Error::AwsServiceError("NoSuchKey".into()).kind(), ErrorKind::Transport);
    assert_eq!(Error::S3CredMissingInEnvOrProfile.kind(), ErrorKind::Transport);
    assert_eq!(Error::HttpProtocolNotSupportedForPublish.kind(), ErrorKind::UnsupportedOperation);
    assert_eq!(Error::UtilsError(UtilsError::DirNotSafeToDelete("/tmp".into())).kind(), ErrorKind::UnsafeDeletion);
    assert_eq!(UtilsError::ExecError("cargo build".into(), "1".into()).kind(), ErrorKind::Command);
}

#[test]
fn media_types_of_uploads() {
    assert_eq!(upload_file_content_type("/tmp/x/mytool.tar.gz"), "application/gzip");
    assert_eq!(upload_file_content_type("mytool.toml"), "text/x-toml");
    assert_eq!(upload_file_content_type("mytool"), "application/octet-stream");
    assert_eq!(upload_file_content_type("a.unknown-extension"), "application/octet-stream");
    assert_eq!(upload_text_content_type(None), "text/plain");
    assert_eq!(upload_text_content_type(Some("text/x-toml")), "text/x-toml");
}
