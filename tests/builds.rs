use std::io::{Cursor, Read};

use sqlite_dist::amalgamation::write_amalgamation;
use sqlite_dist::gh_releases::write_platform_files;
use sqlite_dist::installer::{case, install_sh, part_current_target, part_main, part_process_arguments, part_usage, Case};
use sqlite_dist::manifest::manifest;
use sqlite_dist::npm::{npm_platform_package_jsons, npm_umbrella_package_json, write_npm_packages};
use sqlite_dist::pip::{write_base_packages, write_datasette, write_sqlite_utils};
use sqlite_dist::plan::{build_plan, Stage};
use sqlite_dist::platform::{Cpu, Os, PlatformDirectory, PlatformFile};
use sqlite_dist::project::Project;
use sqlite_dist::registry::{checksums_txt, GeneratedAsset, GeneratedAssetKind};
use sqlite_dist::spec::{
    Spec, SpecPackage, TargetDatasette, TargetDependencyError, TargetGem, TargetGithubRelease, TargetNpm,
    TargetPip, TargetSpm, TargetSqlpkg, Targets,
};
use sqlite_dist::version::SemVersion;

fn no_targets() -> Targets {
    Targets {
        github_releases: None,
        sqlpkg: None,
        spm: None,
        pip: None,
        datasette: None,
        sqlite_utils: None,
        npm: None,
        gem: None,
        amalgamation: None,
    }
}

fn project(dirs: Vec<PlatformDirectory>, targets: Targets) -> Project {
    Project {
        version: SemVersion::parse("0.1.0").unwrap(),
        spec: Spec {
            package: SpecPackage {
                name: "sqlite-hello".to_string(),
                authors: vec!["Alex".to_string()],
                license: "MIT".to_string(),
                description: "Says hello".to_string(),
                homepage: "https://example.com".to_string(),
                repo: "https://github.com/a/sqlite-hello".to_string(),
                git_tag_format: None,
            },
            targets,
        },
        platform_directories: dirs,
    }
}

fn dir(name: &str, files: Vec<(&str, &[u8])>) -> PlatformDirectory {
    PlatformDirectory::from_entries(
        name,
        files.into_iter().map(|(n, d)| PlatformFile::new(n.to_string(), d.to_vec(), None)).collect(),
    )
    .unwrap()
}

#[test]
fn target_dependencies_checked_in_order() {
    let mut t = no_targets();
    assert_eq!(t.validate(), Ok(()));
    t.sqlpkg = Some(TargetSqlpkg {});
    t.datasette = Some(TargetDatasette {});
    assert_eq!(t.validate(), Err(TargetDependencyError::SqlpkgWithoutGithubReleases));
    t.github_releases = Some(TargetGithubRelease {});
    assert_eq!(t.validate(), Err(TargetDependencyError::DatasetteWithoutPip));
    assert_eq!(
        TargetDependencyError::DatasetteWithoutPip.message(),
        "datasette target requires the pip target"
    );
    t.pip = Some(TargetPip { extra_init_py: None });
    assert_eq!(t.validate(), Ok(()));
}

#[test]
fn installer_parts() {
    let c = Case {
        os: Os::Linux,
        cpu: Cpu::X86_64,
        type_: "loadable".to_string(),
        url: "https://u".to_string(),
        checksum: "abc".to_string(),
    };
    assert_eq!(case(&c), "    \"linux-x86_64-loadable\")\n      url=\"https://u\"\n      checksum=\"abc\"\n      ;;");
    assert!(part_usage("0.1.0", "linux-x86_64").contains("sqlite-hello-install 0.1.0\n"));
    assert!(part_usage("0.1.0", "linux-x86_64").contains("Available targets: linux-x86_64\n"));
    assert!(part_current_target().starts_with("\ncurrent_target() {\n"));
    assert!(part_process_arguments().contains("--prefix=*)"));
    let main = part_main(&vec![c]);
    assert!(main.contains("    case \"$target-$type\" in\n    \"linux-x86_64-loadable\")"));
    assert!(main.contains("rm $tmpfile\n      exit 1"));
}

#[test]
fn install_script_targets_sorted_once() {
    let p = project(
        vec![
            dir("macos-x86_64", vec![("hello0.dylib", b"m")]),
            dir("linux-aarch64", vec![("hello0.so", b"l"), ("libhello0.a", b"a")]),
        ],
        no_targets(),
    );
    let assets: Vec<GeneratedAsset> = write_platform_files(&p, 0, "o").unwrap().into_iter().map(|a| a.asset).collect();
    let script = install_sh(&p, &assets);
    assert!(script.starts_with("#!/bin/sh\nset -e\n"));
    assert!(script.contains("Available targets: linux-aarch64, macos-x86_64\n"));
    assert_eq!(script.matches("-loadable\")").count(), 2);
    assert_eq!(script.matches("-static\")").count(), 1);
    assert!(script.contains(&format!("checksum=\"{}\"", assets[2].checksum_sha256)));
    assert!(script.ends_with("\n\nmain \"$@\"\n"));
}

#[test]
fn plugin_wheels() {
    let p = project(vec![], no_targets());
    let d = write_datasette(&p, "out/datasette").unwrap();
    assert_eq!(d.asset.name, "datasette_sqlite_hello-0.1.0-py3-none-any.whl");
    assert!(matches!(d.asset.kind, GeneratedAssetKind::Datasette));
    let mut z = zip::ZipArchive::new(Cursor::new(d.contents.clone())).unwrap();
    let mut meta = String::new();
    z.by_name("datasette_sqlite_hello-0.1.0.dist-info/METADATA").unwrap().read_to_string(&mut meta).unwrap();
    assert!(meta.contains("Requires-Dist: datasette\nRequires-Dist: sqlite-hello (==0.1.0)\n"));
    let mut ep = String::new();
    z.by_name("datasette_sqlite_hello-0.1.0.dist-info/entry_points.txt").unwrap().read_to_string(&mut ep).unwrap();
    assert_eq!(ep, "[datasette]\nsqlite_hello = datasette_sqlite_hello\n\n");
    let s = write_sqlite_utils(&p, "out/sqlite_utils").unwrap();
    assert_eq!(s.asset.name, "sqlite_utils_sqlite_hello-0.1.0-py3-none-any.whl");
    let mut z = zip::ZipArchive::new(Cursor::new(s.contents.clone())).unwrap();
    let mut init = String::new();
    z.by_name("sqlite_utils_sqlite_hello/__init__.py").unwrap().read_to_string(&mut init).unwrap();
    assert!(init.starts_with("\nfrom sqlite_utils import hookimpl\nimport sqlite_hello\n"));
}

#[test]
fn base_wheels_skip_windows_arm() {
    let p = project(
        vec![
            dir("windows-aarch64", vec![("hello0.dll", b"x")]),
            dir("windows-x86_64", vec![("hello0.dll", b"y")]),
        ],
        no_targets(),
    );
    let wheels = write_base_packages(&p, Some("\n# extra\n"), "out/pip").unwrap();
    assert_eq!(wheels.len(), 1);
    assert_eq!(wheels[0].asset.name, "sqlite_hello-0.1.0-py3-none-win_amd64.whl");
    let mut z = zip::ZipArchive::new(Cursor::new(wheels[0].contents.clone())).unwrap();
    let mut init = String::new();
    z.by_name("sqlite_hello/__init__.py").unwrap().read_to_string(&mut init).unwrap();
    assert!(init.contains("path.join(path.dirname(__file__), \"hello0\")"));
    assert!(init.ends_with("\n# extra\n"));
}

#[test]
fn amalgamation_archives() {
    let p = project(vec![], no_targets());
    let files = vec![
        PlatformFile::new("sqlite-hello.c".to_string(), b"int x;".to_vec(), None),
        PlatformFile::new("sqlite-hello.h".to_string(), b"extern int x;".to_vec(), None),
    ];
    let a = write_amalgamation(&p, &files, 0, "out/amalgamation").unwrap();
    assert_eq!(a[0].asset.name, "sqlite-hello-0.1.0-amalgamation.tar.gz");
    assert_eq!(a[1].asset.name, "sqlite-hello-0.1.0-amalgamation.zip");
    let mut z = zip::ZipArchive::new(Cursor::new(a[1].contents.clone())).unwrap();
    let mut c = String::new();
    z.by_name("sqlite-hello.h").unwrap().read_to_string(&mut c).unwrap();
    assert_eq!(c, "extern int x;");
}

#[test]
fn end_to_end_two_platforms() {
    let mut targets = no_targets();
    targets.github_releases = Some(TargetGithubRelease {});
    targets.npm = Some(TargetNpm {});
    targets.pip = Some(TargetPip { extra_init_py: None });
    let p = project(
        vec![
            dir("macos-x86_64", vec![("hello0.dylib", b"mac")]),
            dir("linux-aarch64", vec![("hello0.so", b"linux"), ("libhello0.a", b"static")]),
        ],
        targets,
    );
    assert_eq!(p.spec.targets.validate(), Ok(()));
    let mut registry: Vec<GeneratedAsset> = vec![];
    let gh = write_platform_files(&p, 0, "out/github_releases").unwrap();
    let loadable = gh.iter().filter(|a| matches!(a.asset.kind, GeneratedAssetKind::GithubReleaseLoadable(_))).count();
    let statics: Vec<&str> = gh
        .iter()
        .filter(|a| matches!(a.asset.kind, GeneratedAssetKind::GithubReleaseStatic(_)))
        .map(|a| a.asset.name.as_str())
        .collect();
    assert_eq!(loadable, 2);
    assert_eq!(statics, vec!["sqlite-hello-0.1.0-static-linux-aarch64.tar.gz"]);
    let gh_names: Vec<String> = gh.iter().map(|a| a.asset.name.clone()).collect();
    registry.extend(gh.into_iter().map(|a| a.asset));
    let wheels = write_base_packages(&p, None, "out/pip").unwrap();
    let wheel_names: Vec<&str> = wheels.iter().map(|a| a.asset.name.as_str()).collect();
    assert_eq!(
        wheel_names,
        vec![
            "sqlite_hello-0.1.0-py3-none-macosx_10_6_x86_64.whl",
            "sqlite_hello-0.1.0-py3-none-manylinux_2_17_aarch64.manylinux2014_aarch64.whl",
        ]
    );
    registry.extend(wheels.into_iter().map(|a| a.asset));
    let manifests = npm_platform_package_jsons(&p);
    let texts: Vec<String> = manifests.iter().map(|m| format!("{{\"name\":\"{}\"}}", m.name)).collect();
    let umbrella = npm_umbrella_package_json(&p, &manifests);
    let npm = write_npm_packages(&p, &texts, &format!("{{\"name\":\"{}\"}}", umbrella.name), 0, "out/npm").unwrap();
    let platform_npm = npm.iter().filter(|a| matches!(a.asset.kind, GeneratedAssetKind::Npm(Some(_)))).count();
    let umbrella_npm = npm.iter().filter(|a| matches!(a.asset.kind, GeneratedAssetKind::Npm(None))).count();
    assert_eq!((platform_npm, umbrella_npm), (2, 1));
    registry.extend(npm.into_iter().map(|a| a.asset));
    let txt = checksums_txt(&registry);
    let listed: Vec<&str> = txt.lines().map(|l| l.split(' ').next().unwrap()).collect();
    assert_eq!(listed, gh_names.iter().map(|s| s.as_str()).collect::<Vec<_>>());
    let m = manifest(&registry, "out");
    assert_eq!(m.artifacts.len(), 8);
    assert_eq!(m.itself.kind, "sqlite-dist-manifest");
    assert_eq!(m.itself.path, format!("out/{}", m.itself.name));
    assert_eq!(m.build_info.sqlite_dist_version, "0.1.0");
}

#[test]
fn build_plan_orders_stages() {
    let mut t = no_targets();
    assert_eq!(build_plan(&t), vec![Stage::ChecksumList, Stage::InstallScript, Stage::Manifest]);
    t.github_releases = Some(TargetGithubRelease {});
    t.spm = Some(TargetSpm {});
    t.sqlpkg = Some(TargetSqlpkg {});
    t.pip = Some(TargetPip { extra_init_py: None });
    t.gem = Some(TargetGem { module_name: "M".to_string() });
    assert_eq!(
        build_plan(&t),
        vec![
            Stage::GithubReleases,
            Stage::RegisterGithubReleases,
            Stage::Sqlpkg,
            Stage::Spm,
            Stage::Pip,
            Stage::Gem,
            Stage::ChecksumList,
            Stage::InstallScript,
            Stage::Manifest,
        ]
    );
}
