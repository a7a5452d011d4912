use sqlite_dist::platform::{
    classify_file_name, parse_platform_dir_name, split_extension, Cpu, FileKind, FileMeta, Os,
    PlatformDirectory, PlatformDirectoryError, PlatformFile,
};

fn file(name: &str, data: &[u8]) -> PlatformFile {
    PlatformFile::new(name.to_string(), data.to_vec(), None)
}

#[test]
fn dir_name_valid_pairs() {
    assert!(matches!(parse_platform_dir_name("macos-x86_64"), Ok((Os::Macos, Cpu::X86_64))));
    assert!(matches!(parse_platform_dir_name("linux-aarch64"), Ok((Os::Linux, Cpu::Aarch64))));
    assert!(matches!(parse_platform_dir_name("windows-x86_64"), Ok((Os::Windows, Cpu::X86_64))));
}

#[test]
fn dir_name_bad_os() {
    match parse_platform_dir_name("freebsd-x86_64") {
        Err(PlatformDirectoryError::InvalidOsValue(s)) => assert_eq!(s, "freebsd"),
        other => panic!("unexpected {:?}", other),
    }
}

#[test]
fn dir_name_bad_cpu() {
    match parse_platform_dir_name("linux-riscv64") {
        Err(PlatformDirectoryError::InvalidCpuValue(s)) => assert_eq!(s, "riscv64"),
        other => panic!("unexpected {:?}", other),
    }
}

#[test]
fn dir_name_missing_or_extra_parts() {
    match parse_platform_dir_name("linux") {
        Err(PlatformDirectoryError::InvalidDirectoryName(s)) => assert_eq!(s, "linux"),
        other => panic!("unexpected {:?}", other),
    }
    match parse_platform_dir_name("linux-x86_64-gnu") {
        Err(PlatformDirectoryError::InvalidDirectoryName(s)) => assert_eq!(s, "linux-x86_64-gnu"),
        other => panic!("unexpected {:?}", other),
    }
}

#[test]
fn extensions_as_path_reads_them() {
    let (stem, ext) = split_extension("hello0.so");
    assert_eq!(stem, "hello0");
    assert_eq!(ext.as_deref(), Some("so"));
    let (stem, ext) = split_extension(".so");
    assert_eq!(stem, ".so");
    assert_eq!(ext, None);
    let (stem, ext) = split_extension("lib.hello.dylib");
    assert_eq!(stem, "lib.hello");
    assert_eq!(ext.as_deref(), Some("dylib"));
    let (stem, ext) = split_extension("README");
    assert_eq!(stem, "README");
    assert_eq!(ext, None);
}

#[test]
fn classification_by_extension() {
    assert_eq!(classify_file_name("a.so"), Some(FileKind::Loadable));
    assert_eq!(classify_file_name("a.dll"), Some(FileKind::Loadable));
    assert_eq!(classify_file_name("a.dylib"), Some(FileKind::Loadable));
    assert_eq!(classify_file_name("liba.a"), Some(FileKind::Static));
    assert_eq!(classify_file_name("a.h"), Some(FileKind::Header));
    assert_eq!(classify_file_name("notes.txt"), None);
    assert_eq!(classify_file_name("Makefile"), None);
}

#[test]
fn directory_from_entries_sorts_files() {
    let meta = FileMeta { mode: 0o644, mtime: 7, uid: 1, gid: 2 };
    let files = vec![
        PlatformFile::new("hello0.so".to_string(), vec![1, 2], Some(meta)),
        file("libhello0.a", &[3]),
        file("notes.txt", &[4]),
        file("hello.h", &[5]),
        file("other.so", &[6]),
    ];
    let d = PlatformDirectory::from_entries("linux-aarch64", files).unwrap();
    assert_eq!(d.os, Os::Linux);
    assert_eq!(d.cpu, Cpu::Aarch64);
    assert_eq!(d.loadable_files.len(), 2);
    assert_eq!(d.loadable_files[0].file_stem, "hello0");
    assert_eq!(d.loadable_files[0].file.data, vec![1, 2]);
    assert_eq!(d.loadable_files[0].file.metadata, Some(meta));
    assert_eq!(d.loadable_files[1].file_stem, "other");
    assert_eq!(d.static_files.len(), 1);
    assert_eq!(d.static_files[0].name, "libhello0.a");
    assert_eq!(d.header_files.len(), 1);
    assert_eq!(d.header_files[0].name, "hello.h");
}

#[test]
fn directory_from_entries_rejects_bad_name() {
    assert!(matches!(
        PlatformDirectory::from_entries("solaris-x86_64", vec![]),
        Err(PlatformDirectoryError::InvalidOsValue(_))
    ));
}

#[test]
fn os_and_cpu_tokens() {
    assert_eq!(Os::Macos.to_string(), "macos");
    assert_eq!(Os::Windows.to_string(), "windows");
    assert_eq!(Cpu::X86_64.to_string(), "x86_64");
    assert_eq!(Cpu::Aarch64.to_string(), "aarch64");
    assert_eq!(Os::from_token("linux"), Some(Os::Linux));
    assert_eq!(Cpu::from_token("arm64"), None);
}
