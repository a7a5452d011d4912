use std::io::{Cursor, Read};

use sqlite_dist::archive::{create_targz, create_zip, gzip, is_portable_path, tar_entry_meta};
use sqlite_dist::platform::{FileMeta, PlatformFile};

fn files() -> Vec<PlatformFile> {
    vec![
        PlatformFile::new("hello0.so".to_string(), vec![0, 1, 2, 3, 255], None),
        PlatformFile::new(
            "dir/notes.txt".to_string(),
            b"some text\n".to_vec(),
            Some(FileMeta { mode: 0o644, mtime: 1_600_000_000, uid: 0, gid: 0 }),
        ),
        PlatformFile::new("empty.h".to_string(), vec![], None),
    ]
}

fn untar_gz(bytes: &[u8]) -> Vec<(String, Vec<u8>, u32, u64)> {
    let dec = flate2::read::GzDecoder::new(bytes);
    let mut archive = tar::Archive::new(dec);
    let mut out = vec![];
    for entry in archive.entries().unwrap() {
        let mut entry = entry.unwrap();
        let path = entry.path().unwrap().to_str().unwrap().to_string();
        let mode = entry.header().mode().unwrap();
        let mtime = entry.header().mtime().unwrap();
        let mut data = vec![];
        entry.read_to_end(&mut data).unwrap();
        out.push((path, data, mode, mtime));
    }
    out
}

#[test]
fn targz_round_trip_reproduces_entries() {
    let fs = files();
    let refs: Vec<&PlatformFile> = fs.iter().collect();
    let bytes = create_targz(&refs, 1_700_000_000).unwrap();
    let entries = untar_gz(&bytes);
    assert_eq!(entries.len(), 3);
    for (f, (path, data, _, _)) in fs.iter().zip(entries.iter()) {
        assert_eq!(&f.name, path);
        assert_eq!(&f.data, data);
    }
}

#[test]
fn targz_headers_default_or_captured() {
    let fs = files();
    let refs: Vec<&PlatformFile> = fs.iter().collect();
    let entries = untar_gz(&create_targz(&refs, 1_700_000_000).unwrap());
    assert_eq!((entries[0].2, entries[0].3), (0o700, 1_700_000_000));
    assert_eq!((entries[1].2, entries[1].3), (0o644, 1_600_000_000));
}

#[test]
fn targz_of_nothing_is_an_empty_archive() {
    let entries = untar_gz(&create_targz(&[], 0).unwrap());
    assert!(entries.is_empty());
}

#[test]
fn entry_meta_defaults() {
    let f = PlatformFile::new("a".to_string(), vec![], None);
    assert_eq!(tar_entry_meta(&f, 42), FileMeta { mode: 0o700, mtime: 42, uid: 0, gid: 0 });
    let m = FileMeta { mode: 0o755, mtime: 5, uid: 3, gid: 4 };
    let g = PlatformFile::new("b".to_string(), vec![], Some(m));
    assert_eq!(tar_entry_meta(&g, 42), m);
}

#[test]
fn zip_round_trip_reproduces_entries() {
    let fs = files();
    let refs: Vec<&PlatformFile> = fs.iter().collect();
    let bytes = create_zip(&refs).unwrap();
    let mut archive = zip::ZipArchive::new(Cursor::new(bytes)).unwrap();
    assert_eq!(archive.len(), 3);
    for (i, f) in fs.iter().enumerate() {
        let mut entry = archive.by_index(i).unwrap();
        assert_eq!(entry.name(), f.name);
        assert_eq!(entry.compression(), zip::CompressionMethod::Deflated);
        let mut data = vec![];
        entry.read_to_end(&mut data).unwrap();
        assert_eq!(data, f.data);
    }
}

#[test]
fn gzip_round_trip() {
    let data = b"metadata text, repeated, repeated, repeated".to_vec();
    let gz = gzip(&data).unwrap();
    assert_ne!(gz, data);
    let mut out = vec![];
    flate2::read::GzDecoder::new(&gz[..]).read_to_end(&mut out).unwrap();
    assert_eq!(out, data);
}

#[test]
fn targz_rejects_unportable_names() {
    assert!(!is_portable_path("a\\b"));
    assert!(!is_portable_path("C:x"));
    assert!(is_portable_path("dir/file.so"));
    let bad = PlatformFile::new("a\\b".to_string(), vec![1], None);
    assert!(create_targz(&[&bad], 0).is_err());
    let colon = PlatformFile::new("C:x".to_string(), vec![1], None);
    assert!(create_targz(&[&colon], 0).is_err());
}
