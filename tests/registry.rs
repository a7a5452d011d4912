use sha2::Digest;
use sqlite_dist::platform::{Cpu, Os};
use sqlite_dist::registry::{
    checksums_txt, Artifact, GeneratedAsset, GeneratedAssetKind, GithubRelease, Registry,
};

fn hex(b: &[u8]) -> String {
    b.iter().map(|x| format!("{:02x}", x)).collect()
}

#[test]
fn artifact_checksum_is_sha256_of_contents() {
    let contents = b"tarball bytes".to_vec();
    let a = Artifact::new(GeneratedAssetKind::Spm, "out/spm", "spm.json".to_string(), contents.clone());
    assert_eq!(a.asset.checksum_sha256, hex(&sha2::Sha256::digest(&contents)));
    assert_eq!(a.asset.size, contents.len());
    assert_eq!(a.asset.name, "spm.json");
    assert_eq!(a.asset.path, "out/spm/spm.json");
    assert_eq!(a.contents, contents);
}

fn asset(kind: GeneratedAssetKind, name: &str) -> GeneratedAsset {
    GeneratedAsset::from_contents(kind, "out", name.to_string(), name.as_bytes())
}

fn release(os: Os, cpu: Cpu) -> GithubRelease {
    GithubRelease { url: "https://example.com/x".to_string(), platform: (os, cpu) }
}

#[test]
fn checksums_txt_lists_release_sqlpkg_and_spm_only() {
    let assets = vec![
        asset(GeneratedAssetKind::Sqlpkg, "sqlpkg.json"),
        asset(GeneratedAssetKind::Pip((Os::Linux, Cpu::X86_64)), "w.whl"),
        asset(GeneratedAssetKind::GithubReleaseLoadable(release(Os::Linux, Cpu::X86_64)), "l.tar.gz"),
        asset(GeneratedAssetKind::Npm(None), "n.tar.gz"),
        asset(GeneratedAssetKind::GithubReleaseStatic(release(Os::Linux, Cpu::X86_64)), "s.tar.gz"),
        asset(GeneratedAssetKind::Spm, "spm.json"),
        asset(GeneratedAssetKind::Amalgamation, "a.zip"),
    ];
    let expected = ["sqlpkg.json", "l.tar.gz", "s.tar.gz", "spm.json"]
        .iter()
        .map(|n| format!("{} {}", n, hex(&sha2::Sha256::digest(n.as_bytes()))))
        .collect::<Vec<_>>()
        .join("\n");
    assert_eq!(checksums_txt(&assets), expected);
}

#[test]
fn checksums_txt_empty_registry() {
    assert_eq!(checksums_txt(&[]), "");
}

#[test]
fn kind_tags() {
    assert_eq!(GeneratedAssetKind::SqliteUtils.to_string(), "sqlite-utils");
    assert_eq!(GeneratedAssetKind::Manifest.to_string(), "sqlite-dist-manifest");
    assert_eq!(
        GeneratedAssetKind::GithubReleaseStatic(release(Os::Macos, Cpu::Aarch64)).to_string(),
        "github-release-static"
    );
    assert!(GeneratedAssetKind::Spm.in_checksum_list());
    assert!(!GeneratedAssetKind::Gem((Os::Macos, Cpu::Aarch64)).in_checksum_list());
}

#[test]
fn registry_appends_in_order() {
    let mut r = Registry::new();
    assert!(r.assets().is_empty());
    let bytes = r.register(Artifact::new(GeneratedAssetKind::Spm, "o", "spm.json".to_string(), vec![1, 2]));
    assert_eq!(bytes, vec![1, 2]);
    r.register_entry(asset(GeneratedAssetKind::Amalgamation, "a.zip"));
    let names: Vec<&str> = r.assets().iter().map(|a| a.name.as_str()).collect();
    assert_eq!(names, vec!["spm.json", "a.zip"]);
    assert_eq!(checksums_txt(r.assets()).lines().count(), 1);
}
