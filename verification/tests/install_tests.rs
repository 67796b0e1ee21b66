use binst::paths::{binst_bin_dir, binst_package_bin_dir};
use binst::repo::bin_repo::{BinRepo, Source};
use binst::repo::error::{Error, ErrorKind};
use binst::repo::install::{
    close_operation, create_bin_symlink, create_install_toml, create_install_toml_content, get_origin_latest_version, http_found,
    latest_version_in, make_bin_temp_dir, not_found, package_files, require_origin_latest,
    s3_failure, InstallAction, InstallState, Wanted,
};
use binst::toml_doc::{get_toml_value, get_toml_value_as_string};
use binst::utils::UtilsError;
use binst::version::Version;

#[test]
fn latest_version_is_read_from_the_document() {
    let v = get_origin_latest_version("[latest]\nversion = \"1.2.0\"").unwrap();
    assert_eq!(v, Version::parse("1.2.0").unwrap());
    let v = get_origin_latest_version("latest = { version = '0.1.3-rc.1' }\nother = 1").unwrap();
    assert_eq!(v.to_text(), "0.1.3-rc.1");
}

#[test]
fn unusable_documents_are_told_apart() {
    assert!(matches!(get_origin_latest_version("[latest\nversion"), Err(Error::TomlError(_))));
    match get_origin_latest_version("[latest]\nname = \"x\"") {
        Err(Error::UtilsError(UtilsError::TomlValueNotFound(key))) => assert_eq!(key, "latest.version"),
        other => panic!("{:?}", other),
    }
    match get_origin_latest_version("") {
        Err(Error::UtilsError(UtilsError::TomlValueNotFound(key))) => assert_eq!(key, "latest.version"),
        other => panic!("{:?}", other),
    }
    match get_origin_latest_version("[latest]\nversion = 12") {
        Err(Error::UtilsError(UtilsError::TomlValueNotFound(key))) => assert_eq!(key, "latest.version"),
        other => panic!("{:?}", other),
    }
    assert!(matches!(
        get_origin_latest_version("[latest]\nversion = \"1.2\""),
        Err(Error::InvalidVersionFromOrigin)
    ));
}

#[test]
fn lookups_walk_tables_only() {
    let doc: toml::Value = toml::from_str("a = 'top'\n[t]\nname = 'n'\nlist = ['x']\n[t.inner]\nk = 'deep'\nn = 3").unwrap();
    assert_eq!(get_toml_value_as_string(&doc, &["a"]).unwrap(), "top");
    assert_eq!(get_toml_value_as_string(&doc, &["t", "name"]).unwrap(), "n");
    assert_eq!(get_toml_value_as_string(&doc, &["t", "inner", "k"]).unwrap(), "deep");
    assert!(get_toml_value(&doc, &["t", "inner"]).unwrap().is_table());
    assert!(get_toml_value(&doc, &[]).unwrap().is_table());
    assert_eq!(get_toml_value(&doc, &["t", "inner", "n"]).unwrap().as_integer(), Some(3));
    match get_toml_value_as_string(&doc, &["t", "inner", "n"]) {
        Err(UtilsError::TomlValueNotFound(key)) => assert_eq!(key, "t.inner.n"),
        other => panic!("{:?}", other),
    }
    match get_toml_value(&doc, &["t", "missing", "k"]) {
        Err(UtilsError::TomlValueNotFound(key)) => assert_eq!(key, "t.missing.k"),
        other => panic!("{:?}", other.map(|_| ())),
    }
    match get_toml_value(&doc, &["a", "b"]) {
        Err(UtilsError::TomlValueNotFound(key)) => assert_eq!(key, "a.b"),
        other => panic!("{:?}", other.map(|_| ())),
    }
    match get_toml_value_as_string(&doc, &[]) {
        Err(UtilsError::TomlValueNotFound(key)) => assert_eq!(key, ""),
        other => panic!("{:?}", other),
    }
    assert!(latest_version_in(&doc).is_err());
}

#[test]
fn missing_latest_document_names_the_path() {
    assert!(require_origin_latest("repo/t/T/main/latest.toml", true).is_ok());
    match require_origin_latest("repo/t/T/main/latest.toml", false) {
        Err(Error::OriginLatestNotFound(p)) => assert_eq!(p, "repo/t/T/main/latest.toml"),
        other => panic!("{:?}", other),
    }
}

#[test]
fn temp_dir_is_named_by_package_and_time() {
    assert_eq!(make_bin_temp_dir("mytool", 1_700_000_000_123), "mytool-1700000000123");
    assert_eq!(make_bin_temp_dir("t", 0), "t-0");
    assert_eq!(make_bin_temp_dir("t", 10), "t-10");
    assert_eq!(make_bin_temp_dir("t", u64::MAX), "t-18446744073709551615");
}

#[test]
fn install_record_holds_repo_stream_and_version() {
    let content = create_install_toml_content("/tmp/repo", "main", &Version::parse("1.2.0").unwrap());
    assert_eq!(content, "[install]\t\t\nrepo = \"/tmp/repo\"\nstream = \"main\"\nversion = \"1.2.0\"\n");
    let doc: toml::Value = toml::from_str(&content).unwrap();
    assert_eq!(get_toml_value_as_string(&doc, &["install", "repo"]).unwrap(), "/tmp/repo");
    assert_eq!(get_toml_value_as_string(&doc, &["install", "stream"]).unwrap(), "main");
    assert_eq!(get_toml_value_as_string(&doc, &["install", "version"]).unwrap(), "1.2.0");
}

#[test]
fn package_directory_layout() {
    let files = package_files("/root/.binst/packages/mytool/v1.2.0", "mytool");
    assert_eq!(files.gz_path, "/root/.binst/packages/mytool/v1.2.0/mytool.tar.gz");
    assert_eq!(files.tar_path, "/root/.binst/packages/mytool/v1.2.0/mytool.tar");
    assert_eq!(files.unpacked_dir, "/root/.binst/packages/mytool/v1.2.0/unpacked");
    assert_eq!(files.unpacked_bin, "/root/.binst/packages/mytool/v1.2.0/unpacked/mytool");
    assert_eq!(files.install_toml, "/root/.binst/packages/mytool/v1.2.0/install.toml");
}

#[test]
fn link_needs_the_unpacked_binary() {
    assert_eq!(create_bin_symlink("/h/.binst/bin", "mytool", "/p/unpacked/mytool", true).unwrap(), "/h/.binst/bin/mytool");
    match create_bin_symlink("/h/.binst/bin", "mytool", "/p/unpacked/mytool", false) {
        Err(Error::UnpackedBinFileNotFound(p)) => assert_eq!(p, "/p/unpacked/mytool"),
        other => panic!("{:?}", other),
    }
}

#[test]
fn install_runs_its_steps_in_order() {
    let (mut state, mut action) = InstallState::start();
    let mut seen = vec![action];
    while !state.ended() {
        let next = state.step(Ok(()));
        state = next.0;
        action = next.1;
        seen.push(action);
    }
    assert!(matches!(state, InstallState::Done));
    assert_eq!(
        seen,
        vec![
            InstallAction::ResolveVersion,
            InstallAction::Download,
            InstallAction::Unpack,
            InstallAction::WriteInstallRecord,
            InstallAction::Symlink,
            InstallAction::RemoveTempDir,
        ]
    );
    let (state, action) = state.step(Ok(()));
    assert!(matches!(state, InstallState::Done));
    assert_eq!(action, InstallAction::Nothing);
    assert!(state.finish(Ok(())).is_empty());
}

#[test]
fn install_failure_ends_with_cleanup_from_every_step() {
    for failing in 0..5 {
        let (mut state, _) = InstallState::start();
        for _ in 0..failing {
            state = state.step(Ok(())).0;
        }
        assert!(!state.ended());
        let (state, action) = state.step(Err(Error::NoReleaseBinFile));
        assert!(matches!(state, InstallState::Failed(Error::NoReleaseBinFile)));
        assert_eq!(action, InstallAction::RemoveTempDir);
        let (state, action) = state.step(Ok(()));
        assert!(matches!(state, InstallState::Failed(Error::NoReleaseBinFile)));
        assert_eq!(action, InstallAction::Nothing);
        let failures = state.finish(Ok(()));
        assert_eq!(failures.len(), 1);
        assert!(matches!(failures[0], Error::NoReleaseBinFile));
    }
}

#[test]
fn refused_removal_is_a_failure() {
    let refusal = Error::UtilsError(UtilsError::DirNotSafeToDelete("/tmp".into()));
    let failures = InstallState::Done.finish(Err(refusal));
    assert_eq!(failures.len(), 1);
    match &failures[0] {
        Error::UtilsError(UtilsError::DirNotSafeToDelete(p)) => assert_eq!(p, "/tmp"),
        other => panic!("{:?}", other),
    }
    let refusal = Error::UtilsError(UtilsError::DirNotSafeToDelete("/tmp".into()));
    let failures = InstallState::Failed(Error::InvalidVersionFromOrigin).finish(Err(refusal));
    assert_eq!(failures.len(), 2);
    assert!(matches!(failures[0], Error::InvalidVersionFromOrigin));
    assert!(matches!(failures[1], Error::UtilsError(UtilsError::DirNotSafeToDelete(_))));
}

#[test]
fn missing_objects_are_not_found_and_other_failures_keep_their_code() {
    match s3_failure(Wanted::LatestToml, Some(404), "NoSuchKey", "s3://b/t/T/main/latest.toml") {
        Error::OriginLatestNotFound(p) => assert_eq!(p, "s3://b/t/T/main/latest.toml"),
        other => panic!("{:?}", other),
    }
    match s3_failure(Wanted::Archive, Some(404), "NoSuchKey", "s3://b/k") {
        Error::OriginTarGzNotFound(p) => assert_eq!(p, "s3://b/k"),
        other => panic!("{:?}", other),
    }
    match s3_failure(Wanted::Archive, Some(403), "AccessDenied", "s3://b/k") {
        Error::AwsServiceError(code) => assert_eq!(code, "AccessDenied"),
        other => panic!("{:?}", other),
    }
    match s3_failure(Wanted::Archive, None, "", "s3://b/k") {
        Error::AwsServiceError(code) => assert_eq!(code, ""),
        other => panic!("{:?}", other),
    }
    assert_eq!(s3_failure(Wanted::Archive, Some(404), "x", "u").kind(), ErrorKind::NotFound);
    assert_eq!(s3_failure(Wanted::Archive, Some(500), "x", "u").kind(), ErrorKind::Transport);
    assert!(http_found(Wanted::Archive, 200, "http://h/x").is_ok());
    assert!(http_found(Wanted::Archive, 500, "http://h/x").is_ok());
    match http_found(Wanted::LatestToml, 404, "http://h/x") {
        Err(Error::OriginLatestNotFound(p)) => assert_eq!(p, "http://h/x"),
        other => panic!("{:?}", other),
    }
    assert_eq!(not_found(Wanted::Archive, "p").kind(), ErrorKind::NotFound);
}

#[test]
fn local_install_layout_end_to_end() {
    let repo = BinRepo::new("mytool", Some("/tmp/repo"), None, None, false).unwrap();
    let target = "x86_64-unknown-linux-gnu";
    let latest = match repo.origin_latest_toml_source(target, "main") {
        Source::LocalFile(p) => p,
        other => panic!("{:?}", other),
    };
    assert_eq!(latest, "tmp/repo/mytool/x86_64-unknown-linux-gnu/main/latest.toml");
    let version = get_origin_latest_version("[latest]\nversion = \"1.2.0\"").unwrap();
    match repo.origin_archive_source(target, "main", &version) {
        Source::LocalFile(p) => {
            assert_eq!(p, "tmp/repo/mytool/x86_64-unknown-linux-gnu/main/v1.2.0/mytool.tar.gz")
        }
        other => panic!("{:?}", other),
    }
    let package_dir = binst_package_bin_dir("/root", "mytool", &version);
    let files = package_files(&package_dir, "mytool");
    assert_eq!(files.unpacked_bin, "/root/.binst/packages/mytool/v1.2.0/unpacked/mytool");
    let link = create_bin_symlink(&binst_bin_dir("/root"), "mytool", &files.unpacked_bin, true).unwrap();
    assert_eq!(link, "/root/.binst/bin/mytool");
    let record = create_install_toml_content(repo.install_repo.url(), "main", &version);
    let doc: toml::Value = toml::from_str(&record).unwrap();
    assert_eq!(get_toml_value_as_string(&doc, &["install", "repo"]).unwrap(), "tmp/repo");
    assert_eq!(get_toml_value_as_string(&doc, &["install", "stream"]).unwrap(), "main");
    assert_eq!(get_toml_value_as_string(&doc, &["install", "version"]).unwrap(), "1.2.0");
}

#[test]
fn every_failure_of_an_operation_is_kept_in_order() {
    assert!(close_operation(Ok(()), Ok(())).is_empty());
    let both = close_operation(Err(Error::NoReleaseBinFile), Err(Error::IOError("busy".into())));
    assert_eq!(both.len(), 2);
    assert!(matches!(both[0], Error::NoReleaseBinFile));
    assert!(matches!(&both[1], Error::IOError(m) if m == "busy"));
    let first = close_operation(Err(Error::NoReleaseBinFile), Ok(()));
    assert_eq!(first.len(), 1);
    assert!(matches!(first[0], Error::NoReleaseBinFile));
    let second = close_operation(Ok(()), Err(Error::IOError("busy".into())));
    assert_eq!(second.len(), 1);
    assert!(matches!(&second[0], Error::IOError(m) if m == "busy"));
}

#[test]
fn install_record_goes_into_the_package_directory() {
    let (path, content) =
        create_install_toml("/h/.binst/packages/t/v0.1.0", "https://binst.io/self", "main", &Version::parse("0.1.0").unwrap());
    assert_eq!(path, "/h/.binst/packages/t/v0.1.0/install.toml");
    assert_eq!(content, create_install_toml_content("https://binst.io/self", "main", &Version::parse("0.1.0").unwrap()));
}
