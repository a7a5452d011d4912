use sqlite_dist::spec::SpecPackage;
use sqlite_dist::version::{semver_to_pip_version, SemVersion};

fn v(s: &str) -> SemVersion {
    SemVersion::parse(s).expect("a valid version")
}

#[test]
fn parse_reads_fields() {
    let x = v("1.2.3-alpha.4+build5");
    assert_eq!((x.major, x.minor, x.patch), (1, 2, 3));
    assert_eq!(x.pre, "alpha.4");
    assert_eq!(x.build, "build5");
    assert!(SemVersion::parse("1.2").is_none());
    assert!(SemVersion::parse("not a version").is_none());
}

#[test]
fn version_text_round_trips() {
    for s in ["0.1.0", "1.2.3-alpha.4", "10.20.30+meta", "1.2.3-rc.2+b.7"] {
        assert_eq!(v(s).to_string(), s);
    }
}

#[test]
fn pip_version_plain() {
    assert_eq!(semver_to_pip_version(&v("1.2.3")).as_deref(), Some("1.2.3"));
}

#[test]
fn pip_version_alpha() {
    assert_eq!(semver_to_pip_version(&v("1.2.3-alpha.4")).as_deref(), Some("1.2.3a4"));
}

#[test]
fn pip_version_beta() {
    assert_eq!(semver_to_pip_version(&v("1.2.3-beta.1")).as_deref(), Some("1.2.3b1"));
}

#[test]
fn pip_version_rc() {
    assert_eq!(semver_to_pip_version(&v("1.2.3-rc.2")).as_deref(), Some("1.2.3rc2"));
}

#[test]
fn pip_version_pre_and_build_unsupported() {
    assert_eq!(semver_to_pip_version(&v("1.2.3-alpha.4+build5")), None);
}

#[test]
fn pip_version_other_prerelease_unsupported() {
    assert_eq!(semver_to_pip_version(&v("1.2.3-pre.1")), None);
    assert_eq!(semver_to_pip_version(&v("1.2.3-alpha")), None);
}

#[test]
fn pip_version_build_only_kept() {
    assert_eq!(semver_to_pip_version(&v("1.2.3+build5")).as_deref(), Some("1.2.3+build5"));
}

fn package(fmt: Option<&str>) -> SpecPackage {
    SpecPackage {
        name: "sqlite-hello".to_string(),
        authors: vec!["Alex".to_string()],
        license: "MIT".to_string(),
        description: "d".to_string(),
        homepage: "h".to_string(),
        repo: "https://github.com/a/b".to_string(),
        git_tag_format: fmt.map(|s| s.to_string()),
    }
}

#[test]
fn git_tag_formats() {
    assert_eq!(package(None).git_tag(&v("1.2.3")), "1.2.3");
    assert_eq!(package(Some("v$VERSION")).git_tag(&v("1.2.3")), "v1.2.3");
    assert_eq!(package(Some("$VERSION-$VERSION")).git_tag(&v("0.1.0")), "0.1.0-0.1.0");
    assert_eq!(package(Some("release")).git_tag(&v("0.1.0")), "release");
}
