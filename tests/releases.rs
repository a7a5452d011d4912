use std::io::Read;

use sqlite_dist::gh_releases::{github_release_artifact_name, write_platform_files};
use sqlite_dist::platform::{Cpu, Os, PlatformDirectory, PlatformFile};
use sqlite_dist::project::Project;
use sqlite_dist::registry::{GeneratedAsset, GeneratedAssetKind};
use sqlite_dist::spec::{Spec, SpecPackage, TargetGithubRelease, TargetSpm, Targets};
use sqlite_dist::spm::{spm_json, PlatformAsset};
use sqlite_dist::sqlpkg::sqlpkg_json;
use sqlite_dist::version::SemVersion;

fn project(dirs: Vec<PlatformDirectory>) -> Project {
    Project {
        version: SemVersion::parse("0.1.0").unwrap(),
        spec: Spec {
            package: SpecPackage {
                name: "sqlite-hello".to_string(),
                authors: vec!["Alex".to_string(), "Sam".to_string()],
                license: "MIT".to_string(),
                description: "Says hello".to_string(),
                homepage: "https://example.com".to_string(),
                repo: "https://github.com/a/sqlite-hello".to_string(),
                git_tag_format: None,
            },
            targets: Targets {
                github_releases: Some(TargetGithubRelease {}),
                sqlpkg: None,
                spm: Some(TargetSpm {}),
                pip: None,
                datasette: None,
                sqlite_utils: None,
                npm: None,
                gem: None,
                amalgamation: None,
            },
        },
        platform_directories: dirs,
    }
}

fn dir(name: &str, files: Vec<(&str, &[u8])>) -> PlatformDirectory {
    PlatformDirectory::from_entries(
        name,
        files.into_iter().map(|(n, d)| PlatformFile::new(n.to_string(), d.to_vec(), None)).collect(),
    )
    .unwrap()
}

fn two_platforms() -> Project {
    project(vec![
        dir("macos-x86_64", vec![("hello0.dylib", b"mac")]),
        dir("linux-aarch64", vec![("hello0.so", b"linux"), ("libhello0.a", b"static"), ("hello.h", b"hdr")]),
    ])
}

#[test]
fn artifact_name_format() {
    assert_eq!(
        github_release_artifact_name("sqlite-hello", "0.1.0", "linux", "x86_64", "loadable"),
        "sqlite-hello-0.1.0-loadable-linux-x86_64.tar.gz"
    );
}

#[test]
fn releases_loadables_then_statics() {
    let p = two_platforms();
    let assets = write_platform_files(&p, 0, "out/github_releases").unwrap();
    let names: Vec<&str> = assets.iter().map(|a| a.asset.name.as_str()).collect();
    assert_eq!(
        names,
        vec![
            "sqlite-hello-0.1.0-loadable-macos-x86_64.tar.gz",
            "sqlite-hello-0.1.0-loadable-linux-aarch64.tar.gz",
            "sqlite-hello-0.1.0-static-linux-aarch64.tar.gz",
        ]
    );
    match &assets[2].asset.kind {
        GeneratedAssetKind::GithubReleaseStatic(gr) => {
            assert_eq!(
                gr.url,
                "https://github.com/a/sqlite-hello/releases/download/0.1.0/sqlite-hello-0.1.0-static-linux-aarch64.tar.gz"
            );
            assert_eq!(gr.platform, (Os::Linux, Cpu::Aarch64));
        }
        _ => panic!("expected a static release"),
    }
    let mut archive = tar::Archive::new(flate2::read::GzDecoder::new(&assets[2].contents[..]));
    let mut names = vec![];
    for e in archive.entries().unwrap() {
        let mut e = e.unwrap();
        let mut d = vec![];
        e.read_to_end(&mut d).unwrap();
        names.push((e.path().unwrap().to_str().unwrap().to_string(), d));
    }
    assert_eq!(
        names,
        vec![("libhello0.a".to_string(), b"static".to_vec()), ("hello.h".to_string(), b"hdr".to_vec())]
    );
}

fn assets_only(p: &Project) -> Vec<GeneratedAsset> {
    write_platform_files(p, 0, "out").unwrap().into_iter().map(|a| a.asset).collect()
}

fn entry(p: &PlatformAsset) -> (Os, Cpu, String, String) {
    (p.os, p.cpu, p.url.clone(), p.checksum_sha256.clone())
}

#[test]
fn spm_entries_carry_release_checksums() {
    let p = two_platforms();
    let gh = assets_only(&p);
    let spm = spm_json(&p.spec, &gh);
    assert_eq!(spm.version, 0);
    assert_eq!(spm.description, "Says hello");
    assert_eq!(spm.loadable.len(), 2);
    for (e, a) in spm.loadable.iter().zip(gh[..2].iter()) {
        assert_eq!(e.checksum_sha256, a.checksum_sha256);
        assert!(e.url.ends_with(&a.name));
    }
    let statics = spm.static_.as_ref().unwrap();
    assert_eq!(statics.len(), 1);
    assert_eq!(entry(&statics[0]).3, gh[2].checksum_sha256);
    assert_eq!(statics[0].os, Os::Linux);
}

#[test]
fn spm_without_statics_has_none() {
    let p = project(vec![dir("windows-x86_64", vec![("hello0.dll", b"w")])]);
    let gh = assets_only(&p);
    let spm = spm_json(&p.spec, &gh);
    assert_eq!(spm.loadable.len(), 1);
    assert!(spm.static_.is_none());
}

#[test]
fn sqlpkg_identity() {
    let p = two_platforms();
    let s = sqlpkg_json(&p);
    assert_eq!(s.owner, "Alex, Sam");
    assert_eq!(s.version, "0.1.0");
    assert_eq!(s.repository, "https://github.com/a/sqlite-hello");
    assert!(s.keywords.is_empty());
    assert!(s.symbols.is_none());
    assert!(s.assets.files.is_empty() && s.assets.checksums.is_empty());
}
