use std::io::{Cursor, Read};

use base64::Engine;
use sha2::Digest;
use sqlite_dist::pip::{
    dist_info_entrypoints, dist_info_record, dist_info_wheel, platform_target_tag, PipBuildError,
    PipPackage, PipPackageFile,
};
use sqlite_dist::platform::{Cpu, Os};
use sqlite_dist::version::SemVersion;

fn unzip(bytes: Vec<u8>) -> Vec<(String, Vec<u8>)> {
    let mut archive = zip::ZipArchive::new(Cursor::new(bytes)).unwrap();
    let mut out = vec![];
    for i in 0..archive.len() {
        let mut entry = archive.by_index(i).unwrap();
        let mut data = vec![];
        entry.read_to_end(&mut data).unwrap();
        out.push((entry.name().to_string(), data));
    }
    out
}

#[test]
fn platform_tags_exact() {
    assert_eq!(platform_target_tag(&Os::Macos, &Cpu::X86_64), "macosx_10_6_x86_64");
    assert_eq!(platform_target_tag(&Os::Macos, &Cpu::Aarch64), "macosx_11_0_arm64");
    assert_eq!(
        platform_target_tag(&Os::Linux, &Cpu::X86_64),
        "manylinux_2_17_x86_64.manylinux2014_x86_64.manylinux1_x86_64"
    );
    assert_eq!(
        platform_target_tag(&Os::Linux, &Cpu::Aarch64),
        "manylinux_2_17_aarch64.manylinux2014_aarch64"
    );
    assert_eq!(platform_target_tag(&Os::Windows, &Cpu::X86_64), "win_amd64");
}

#[test]
fn wheel_names() {
    let v = SemVersion::parse("1.2.3-alpha.4").unwrap();
    let pkg = PipPackage::new("sqlite-hello", &v).unwrap();
    assert_eq!(pkg.python_package_name, "sqlite_hello");
    assert_eq!(pkg.package_version, "1.2.3a4");
    assert_eq!(
        pkg.wheel_name(Some((Os::Macos, Cpu::X86_64))),
        "sqlite_hello-1.2.3a4-py3-none-macosx_10_6_x86_64.whl"
    );
    assert_eq!(pkg.wheel_name(None), "sqlite_hello-1.2.3a4-py3-none-any.whl");
}

#[test]
fn new_rejects_unsupported_version() {
    let v = SemVersion::parse("1.2.3-alpha.4+build5").unwrap();
    match PipPackage::new("x", &v) {
        Err(PipBuildError::UnsupportedVersion(s)) => assert_eq!(s, "1.2.3-alpha.4+build5"),
        _ => panic!("expected an unsupported version"),
    }
}

#[test]
fn wheel_text_files() {
    assert_eq!(
        dist_info_wheel(Some((Os::Windows, Cpu::X86_64))),
        "Wheel-Version: 1.0\nGenerator: sqlite-dist 0.1.0\nRoot-Is-Purelib: false\nTag: py3-none-win_amd64"
    );
    assert_eq!(
        dist_info_entrypoints(&vec![("datasette".to_string(), "a = b".to_string())]),
        "[datasette]\na = b\n\n"
    );
    let files = vec![PipPackageFile::new("p/x.so", b"abc")];
    assert_eq!(
        dist_info_record(&files, "p-1.dist-info/RECORD"),
        format!("p/x.so,sha256={},3\np-1.dist-info/RECORD,,\n", files[0].hash)
    );
}

#[test]
fn wheel_record_lists_every_file_once_with_verifying_hash() {
    let v = SemVersion::parse("0.1.0").unwrap();
    let mut pkg = PipPackage::new("sqlite-hello", &v).unwrap();
    pkg.write_library_file("__init__.py", b"print('hi')\n").unwrap();
    pkg.write_library_file("hello0.so", &[0u8, 1, 2, 3, 4, 5]).unwrap();
    pkg.add_entrypoint("datasette", "a = b");
    let bytes = pkg.end(Some((Os::Linux, Cpu::Aarch64))).unwrap();
    let entries = unzip(bytes);
    let names: Vec<&str> = entries.iter().map(|(n, _)| n.as_str()).collect();
    assert_eq!(
        names,
        vec![
            "sqlite_hello/__init__.py",
            "sqlite_hello/hello0.so",
            "sqlite_hello-0.1.0.dist-info/METADATA",
            "sqlite_hello-0.1.0.dist-info/WHEEL",
            "sqlite_hello-0.1.0.dist-info/entry_points.txt",
            "sqlite_hello-0.1.0.dist-info/top_level.txt",
            "sqlite_hello-0.1.0.dist-info/RECORD",
        ]
    );
    let record = String::from_utf8(entries.last().unwrap().1.clone()).unwrap();
    let lines: Vec<&str> = record.lines().collect();
    assert_eq!(lines.len(), entries.len());
    for (i, (name, data)) in entries[..entries.len() - 1].iter().enumerate() {
        let hash = base64::engine::general_purpose::URL_SAFE_NO_PAD.encode(sha2::Sha256::digest(data));
        assert_eq!(lines[i], format!("{},sha256={},{}", name, hash, data.len()));
        assert_eq!(lines.iter().filter(|l| l.starts_with(&format!("{},", name))).count(), 1);
    }
    assert_eq!(lines[lines.len() - 1], "sqlite_hello-0.1.0.dist-info/RECORD,,");
    let wheel = String::from_utf8(entries[3].1.clone()).unwrap();
    assert!(wheel.ends_with("Tag: py3-none-manylinux_2_17_aarch64.manylinux2014_aarch64"));
    assert_eq!(entries[5].1, b"sqlite_hello\n".to_vec());
}

#[test]
fn wheel_without_entrypoints_has_no_entry_points_file() {
    let v = SemVersion::parse("0.1.0").unwrap();
    let pkg = PipPackage::new("x", &v).unwrap();
    let entries = unzip(pkg.end(None).unwrap());
    let names: Vec<&str> = entries.iter().map(|(n, _)| n.as_str()).collect();
    assert_eq!(
        names,
        vec!["x-0.1.0.dist-info/METADATA", "x-0.1.0.dist-info/WHEEL", "x-0.1.0.dist-info/top_level.txt", "x-0.1.0.dist-info/RECORD"]
    );
    assert_eq!(
        String::from_utf8(entries[0].1.clone()).unwrap(),
        "Metadata-Version: 2.1\nName: x\nVersion: 0.1.0\nHome-page: https://TODO.com\nAuthor: TODO\nLicense: MIT License, Apache License, Version 2.0\nDescription-Content-Type: text/markdown\n\n\nTODO readme"
    );
}
