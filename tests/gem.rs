use std::io::Read;

use sqlite_dist::gem::{
    checksums_yaml, gem_metadata_list_helper, gem_metadata_template, lib_rb, ruby_platform, write_gems,
    Gem,
};
use sqlite_dist::platform::{Cpu, Os, PlatformDirectory, PlatformFile};
use sqlite_dist::project::Project;
use sqlite_dist::spec::{Spec, SpecPackage, TargetGem, Targets};
use sqlite_dist::version::SemVersion;

fn project(dirs: Vec<PlatformDirectory>, version: &str) -> Project {
    Project {
        version: SemVersion::parse(version).unwrap(),
        spec: Spec {
            package: SpecPackage {
                name: "sqlite-hello".to_string(),
                authors: vec!["Alex".to_string()],
                license: "MIT".to_string(),
                description: "Says hello".to_string(),
                homepage: "https://example.com".to_string(),
                repo: "https://github.com/a/sqlite-hello".to_string(),
                git_tag_format: None,
            },
            targets: Targets {
                github_releases: None,
                sqlpkg: None,
                spm: None,
                pip: None,
                datasette: None,
                sqlite_utils: None,
                npm: None,
                gem: Some(TargetGem { module_name: "SqliteHello".to_string() }),
                amalgamation: None,
            },
        },
        platform_directories: dirs,
    }
}

fn dir(name: &str, files: Vec<(&str, &[u8])>) -> PlatformDirectory {
    PlatformDirectory::from_entries(
        name,
        files.into_iter().map(|(n, d)| PlatformFile::new(n.to_string(), d.to_vec(), None)).collect(),
    )
    .unwrap()
}

#[test]
fn ruby_platforms() {
    assert_eq!(ruby_platform(&Os::Macos, &Cpu::X86_64), "x86_64-darwin");
    assert_eq!(ruby_platform(&Os::Macos, &Cpu::Aarch64), "arm64-darwin");
    assert_eq!(ruby_platform(&Os::Linux, &Cpu::X86_64), "x86_64-linux");
    assert_eq!(ruby_platform(&Os::Windows, &Cpu::X86_64), "x86_64-mingw32");
}

#[test]
fn yaml_list_quotes_items() {
    assert_eq!(
        gem_metadata_list_helper(&vec!["a".to_string(), "say \"hi\"".to_string()]),
        "- \"a\"\n- \"say \\\"hi\\\"\""
    );
    assert_eq!(gem_metadata_list_helper(&vec![]), "");
}

#[test]
fn metadata_template_fields() {
    let text = gem_metadata_template(
        &Os::Linux,
        &Cpu::Aarch64,
        "sqlite-hello",
        "1.2.3-alpha.4",
        &vec!["lib/hello0.so".to_string()],
        "me@example.com",
        &vec!["Alex".to_string()],
        &vec!["MIT".to_string()],
        "desc",
        "sum",
        "https://h",
        "2024-01-02",
    );
    assert!(text.starts_with("--- !ruby/object:Gem::Specification\nname: sqlite-hello\nversion: !ruby/object:Gem::Version\n  version: 1.2.3.alpha.4\nplatform: arm64-linux\nauthors:\n- \"Alex\"\n"));
    assert!(text.contains("date: 2024-01-02 00:00:00.000000000 Z\n"));
    assert!(text.contains("files:\n- \"lib/hello0.so\"\nhomepage: 'https://h'\nlicenses:\n- \"MIT\"\n"));
    assert!(text.ends_with("test_files: []\n"));
}

#[test]
fn checksums_yaml_text() {
    let text = checksums_yaml(b"m", b"d");
    assert!(text.starts_with("---\nSHA256:\n  metadata.gz: '"));
    assert!(text.contains(&format!("  data.tar.gz: '{}'\nSHA512:", sqlite_dist::digest::sha256_hex(b"d"))));
    assert!(text.ends_with(&format!("  data.tar.gz: '{}'\n", sqlite_dist::digest::sha512_hex(b"d"))));
}

#[test]
fn lib_rb_text() {
    let v = SemVersion::parse("0.1.0").unwrap();
    let text = lib_rb(&v, "hello0", "SqliteHello");
    assert!(text.starts_with("\nmodule SqliteHello\n  class Error < StandardError; end\n  VERSION = \"0.1.0\"\n"));
    assert!(text.contains("File.expand_path('hello0', File.dirname(__FILE__))"));
}

#[test]
fn gem_holds_three_members_in_order() {
    let p = project(vec![dir("linux-x86_64", vec![("hello0.so", b"bin")])], "0.1.0-alpha.1");
    let mut gem = Gem::new();
    gem.write_library_file("lib/hello0.so", b"bin").unwrap();
    assert_eq!(gem.library_filenames, vec!["lib/hello0.so".to_string()]);
    let (name, bytes) = gem.complete_on(&Os::Linux, &Cpu::X86_64, &p, "2024-05-06").unwrap();
    assert_eq!(name, "sqlite-hello-0.1.0.alpha.1-x86_64-linux.gem");
    let mut outer = tar::Archive::new(&bytes[..]);
    let mut members = vec![];
    for e in outer.entries().unwrap() {
        let mut e = e.unwrap();
        let path = e.path().unwrap().to_str().unwrap().to_string();
        let mut data = vec![];
        e.read_to_end(&mut data).unwrap();
        members.push((path, data));
    }
    let names: Vec<&str> = members.iter().map(|(n, _)| n.as_str()).collect();
    assert_eq!(names, vec!["metadata.gz", "data.tar.gz", "checksums.yaml.gz"]);
    let mut meta = String::new();
    flate2::read::GzDecoder::new(&members[0].1[..]).read_to_string(&mut meta).unwrap();
    assert!(meta.contains("date: 2024-05-06 00:00:00.000000000 Z"));
    assert!(meta.contains("files:\n- \"lib/hello0.so\"\n"));
    let mut sums = String::new();
    flate2::read::GzDecoder::new(&members[2].1[..]).read_to_string(&mut sums).unwrap();
    assert_eq!(sums, checksums_yaml(&members[0].1, &members[1].1));
    let mut data = tar::Archive::new(flate2::read::GzDecoder::new(&members[1].1[..]));
    let entry = data.entries().unwrap().next().unwrap().unwrap();
    assert_eq!(entry.path().unwrap().to_str().unwrap(), "lib/hello0.so");
    assert_eq!(entry.header().mode().unwrap(), 0o777);
}

#[test]
fn write_gems_one_per_platform() {
    let p = project(
        vec![
            dir("macos-aarch64", vec![("hello0.dylib", b"m")]),
            dir("windows-x86_64", vec![("hello0.dll", b"w")]),
        ],
        "1.0.0",
    );
    let gems = write_gems(&p, p.spec.targets.gem.as_ref().unwrap(), "out/gem").unwrap();
    assert_eq!(gems.len(), 2);
    assert_eq!(gems[0].asset.name, "sqlite-hello-1.0.0-arm64-darwin.gem");
    assert_eq!(gems[1].asset.name, "sqlite-hello-1.0.0-x86_64-mingw32.gem");
    assert_eq!(gems[1].asset.path, "out/gem/sqlite-hello-1.0.0-x86_64-mingw32.gem");
}

#[test]
fn yaml_list_escapes_control_characters() {
    assert_eq!(
        gem_metadata_list_helper(&vec!["a\\b\tc\nd\u{1}e\u{7f}é".to_string()]),
        "- \"a\\\\b\\tc\\nd\\u0001e\u{7f}é\""
    );
}
