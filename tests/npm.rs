use std::io::Read;

use sqlite_dist::npm::{
    index_dts, index_js, npm_platform_package_json, npm_platform_package_jsons,
    npm_umbrella_package_json, write_npm_packages, JsFormat,
};
use sqlite_dist::platform::{Cpu, Os, PlatformDirectory, PlatformFile};
use sqlite_dist::project::Project;
use sqlite_dist::registry::GeneratedAssetKind;
use sqlite_dist::spec::{Spec, SpecPackage, TargetNpm, Targets};
use sqlite_dist::version::SemVersion;

fn project(dirs: Vec<PlatformDirectory>) -> Project {
    Project {
        version: SemVersion::parse("0.2.0-beta.1").unwrap(),
        spec: Spec {
            package: SpecPackage {
                name: "sqlite-hello".to_string(),
                authors: vec!["Alex".to_string()],
                license: "MIT".to_string(),
                description: "Says hello".to_string(),
                homepage: "https://example.com".to_string(),
                repo: "https://github.com/a/sqlite-hello".to_string(),
                git_tag_format: None,
            },
            targets: Targets {
                github_releases: None,
                sqlpkg: None,
                spm: None,
                pip: None,
                datasette: None,
                sqlite_utils: None,
                npm: Some(TargetNpm {}),
                gem: None,
                amalgamation: None,
            },
        },
        platform_directories: dirs,
    }
}

fn dir(name: &str, files: Vec<(&str, &[u8])>) -> PlatformDirectory {
    PlatformDirectory::from_entries(
        name,
        files.into_iter().map(|(n, d)| PlatformFile::new(n.to_string(), d.to_vec(), None)).collect(),
    )
    .unwrap()
}

fn three_platforms() -> Project {
    project(vec![
        dir("macos-aarch64", vec![("hello0.dylib", b"m")]),
        dir("linux-x86_64", vec![("hello0.so", b"l")]),
        dir("windows-x86_64", vec![("hello0.dll", b"w")]),
    ])
}

#[test]
fn platform_manifest_fields() {
    let p = three_platforms();
    let m = npm_platform_package_json(&p, &p.platform_directories[0]);
    assert_eq!(m.name, "sqlite-hello-darwin-arm64");
    assert_eq!(m.version, "0.2.0-beta.1");
    assert_eq!(m.os, Some(vec!["darwin".to_string()]));
    assert_eq!(m.cpu, Some(vec!["arm64".to_string()]));
    let w = npm_platform_package_json(&p, &p.platform_directories[2]);
    assert_eq!(w.name, "sqlite-hello-windows-x64");
}

#[test]
fn umbrella_optional_dependencies_are_the_platform_packages() {
    let p = three_platforms();
    let pkgs = npm_platform_package_jsons(&p);
    let umbrella = npm_umbrella_package_json(&p, &pkgs);
    assert_eq!(umbrella.name, "sqlite-hello");
    assert!(umbrella.os.is_none() && umbrella.cpu.is_none());
    let deps = umbrella.optional_dependencies.unwrap();
    let keys: Vec<&str> = deps.iter().map(|(k, _)| k.as_str()).collect();
    assert_eq!(keys, vec!["sqlite-hello-darwin-arm64", "sqlite-hello-linux-x64", "sqlite-hello-windows-x64"]);
    for (_, v) in &deps {
        assert_eq!(v, &umbrella.version);
    }
}

#[test]
fn entry_points_name_platforms() {
    let platforms = vec![(Os::Macos, Cpu::X86_64), (Os::Linux, Cpu::Aarch64)];
    let esm = index_js("sqlite-hello", "hello0", &platforms, JsFormat::ESM);
    assert!(esm.contains("const BASE_PACKAGE_NAME = \"sqlite-hello\";"));
    assert!(esm.contains("const ENTRYPOINT_BASE_NAME = \"hello0\";"));
    assert!(esm.contains("const supportedPlatforms = [[\"macos\",\"x86_64\"],[\"linux\",\"aarch64\"]];"));
    assert!(esm.contains("import { join } from \"node:path\";"));
    assert!(esm.contains("platform === \"win32\" ? \"windows\" : platform"));
    assert!(esm.ends_with("export {getLoadablePath, load};\n"));
    let cjs = index_js("sqlite-hello", "hello0", &platforms, JsFormat::CJS);
    assert!(cjs.contains("const { join } = require(\"node:path\");"));
    assert!(cjs.ends_with("module.exports = {getLoadablePath, load};\n"));
    assert!(index_dts().contains("export declare function load(db: Db): void;"));
}

fn untar(bytes: &[u8]) -> Vec<(String, Vec<u8>)> {
    let mut a = tar::Archive::new(flate2::read::GzDecoder::new(bytes));
    let mut out = vec![];
    for e in a.entries().unwrap() {
        let mut e = e.unwrap();
        let mut d = vec![];
        e.read_to_end(&mut d).unwrap();
        out.push((e.path().unwrap().to_str().unwrap().to_string(), d));
    }
    out
}

#[test]
fn npm_tarballs_per_platform_then_umbrella() {
    let p = three_platforms();
    let texts: Vec<String> = (0..3).map(|i| format!("{{\"i\":{}}}", i)).collect();
    let assets = write_npm_packages(&p, &texts, "{\"umbrella\":true}", 0, "out/npm").unwrap();
    let names: Vec<&str> = assets.iter().map(|a| a.asset.name.as_str()).collect();
    assert_eq!(
        names,
        vec![
            "sqlite-hello-darwin-arm64.tar.gz",
            "sqlite-hello-linux-x64.tar.gz",
            "sqlite-hello-windows-x64.tar.gz",
            "sqlite-hello.tar.gz",
        ]
    );
    assert!(matches!(assets[3].asset.kind, GeneratedAssetKind::Npm(None)));
    assert!(matches!(assets[1].asset.kind, GeneratedAssetKind::Npm(Some((Os::Linux, Cpu::X86_64)))));
    let linux = untar(&assets[1].contents);
    assert_eq!(
        linux,
        vec![
            ("package/README.md".to_string(), b"TODO".to_vec()),
            ("package/package.json".to_string(), b"{\"i\":1}".to_vec()),
            ("package/hello0.so".to_string(), b"l".to_vec()),
        ]
    );
    let umbrella: Vec<String> = untar(&assets[3].contents).into_iter().map(|(n, _)| n).collect();
    assert_eq!(
        umbrella,
        vec!["package/README.md", "package/package.json", "package/index.mjs", "package/index.cjs", "package/index.d.ts"]
    );
}
