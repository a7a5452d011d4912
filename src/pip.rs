//! The wheel builder: Python-wheel-shaped zip archives with their
//! `dist-info` metadata (`METADATA`, `WHEEL`, `entry_points.txt`,
//! `top_level.txt`, `RECORD`).
use vstd::prelude::*;
use crate::platform::{Cpu, Os};
use crate::digest::{base64url_of, sha256_base64url, sha256_of};
use crate::manifest::{TOOL_NAME, TOOL_VERSION};
use crate::text::{decimal, decimal_string};

verus! {

/// The wheel platform tag of a platform, where wheels are built for it.
pub open spec fn pip_platform_tag(os: Os, cpu: Cpu) -> Option<Seq<char>> {
    match (os, cpu) {
        (Os::Macos, Cpu::X86_64) => Some("macosx_10_6_x86_64"@),
        (Os::Macos, Cpu::Aarch64) => Some("macosx_11_0_arm64"@),
        (Os::Linux, Cpu::X86_64) => Some(
            "manylinux_2_17_x86_64.manylinux2014_x86_64.manylinux1_x86_64"@,
        ),
        (Os::Linux, Cpu::Aarch64) => Some("manylinux_2_17_aarch64.manylinux2014_aarch64"@),
        (Os::Windows, Cpu::X86_64) => Some("win_amd64"@),
        (Os::Windows, Cpu::Aarch64) => None,
    }
}

/// The platform part of a wheel tag: the platform's tag, or `any`.
pub open spec fn wheel_platform_text(platform: Option<(Os, Cpu)>) -> Seq<char> {
    match platform {
        Some((os, cpu)) => pip_platform_tag(os, cpu).unwrap(),
        None => "any"@,
    }
}

/// Whether wheels can be tagged for `platform`.
pub open spec fn wheel_platform_ok(platform: Option<(Os, Cpu)>) -> bool {
    match platform {
        Some((os, cpu)) => pip_platform_tag(os, cpu) is Some,
        None => true,
    }
}

/// Whether wheels are built for `(os, cpu)`: every platform but Windows on aarch64.
pub fn pip_platform_tag_exists(os: &Os, cpu: &Cpu) -> (r: bool)
    ensures
        r == pip_platform_tag(*os, *cpu) is Some,
{
    match (os, cpu) {
        (Os::Windows, Cpu::Aarch64) => false,
        _ => true,
    }
}

/// The wheel platform tag of `(os, cpu)`; Windows on aarch64 has none.
pub fn platform_target_tag(os: &Os, cpu: &Cpu) -> (r: String)
    requires
        pip_platform_tag(*os, *cpu) is Some,
    ensures
        Some(r@) == pip_platform_tag(*os, *cpu),
{
    match (os, cpu) {
        (Os::Macos, Cpu::X86_64) => String::from_str("macosx_10_6_x86_64"),
        (Os::Macos, Cpu::Aarch64) => String::from_str("macosx_11_0_arm64"),
        (Os::Linux, Cpu::X86_64) => String::from_str(
            "manylinux_2_17_x86_64.manylinux2014_x86_64.manylinux1_x86_64",
        ),
        (Os::Linux, Cpu::Aarch64) => String::from_str(
            "manylinux_2_17_aarch64.manylinux2014_aarch64",
        ),
        (_, _) => String::from_str("win_amd64"),
    }
}

fn wheel_platform_string(platform: Option<(Os, Cpu)>) -> (r: String)
    requires
        wheel_platform_ok(platform),
    ensures
        r@ == wheel_platform_text(platform),
{
    match platform {
        Some((os, cpu)) => platform_target_tag(&os, &cpu),
        None => String::from_str("any"),
    }
}

/// The record of one file written into a wheel: its path, the URL-safe
/// base64 SHA-256 of its bytes, and its size.
#[derive(Debug)]
pub struct PipPackageFile {
    pub path: String,
    pub hash: String,
    pub size: usize,
}

/// Whether `f` records a file at `path` holding `data`.
pub open spec fn records(f: PipPackageFile, path: Seq<char>, data: Seq<u8>) -> bool {
    &&& f.path@ == path
    &&& f.hash@ == base64url_of(sha256_of(data))
    &&& f.size == data.len()
}

impl PipPackageFile {
    /// The record of a file at `path` holding `data`.
    pub fn new(path: &str, data: &[u8]) -> (r: PipPackageFile)
        ensures
            records(r, path@, data@),
    {
        PipPackageFile { path: String::from_str(path), hash: sha256_base64url(data), size: data.len() }
    }
}

/// The text of each (key, value) pair.
pub open spec fn pair_views(pairs: Seq<(String, String)>) -> Seq<(Seq<char>, Seq<char>)> {
    pairs.map_values(|e: (String, String)| (e.0@, e.1@))
}

/// `key: value` lines, one per pair.
pub open spec fn header_lines(pairs: Seq<(Seq<char>, Seq<char>)>) -> Seq<char>
    decreases pairs.len(),
{
    if pairs.len() == 0 {
        Seq::empty()
    } else {
        header_lines(pairs.drop_last()) + pairs.last().0 + ": "@ + pairs.last().1 + "\n"@
    }
}

/// The `METADATA` file of a wheel named `name` at version `version`, with
/// the extra header lines `extra`.
pub open spec fn metadata_text(
    name: Seq<char>,
    version: Seq<char>,
    extra: Seq<(Seq<char>, Seq<char>)>,
) -> Seq<char> {
    "Metadata-Version: 2.1\nName: "@ + name + "\nVersion: "@ + version
        + "\nHome-page: https://TODO.com\nAuthor: TODO\nLicense: MIT License, Apache License, Version 2.0\nDescription-Content-Type: text/markdown\n"@
        + header_lines(extra) + "\n\nTODO readme"@
}

/// The `entry_points.txt` file: for each entry, `[group]`, then the value,
/// then a blank line.
pub open spec fn entrypoints_text(entrypoints: Seq<(Seq<char>, Seq<char>)>) -> Seq<char>
    decreases entrypoints.len(),
{
    if entrypoints.len() == 0 {
        Seq::empty()
    } else {
        entrypoints_text(entrypoints.drop_last()) + "["@ + entrypoints.last().0 + "]\n"@
            + entrypoints.last().1 + "\n\n"@
    }
}

/// The `WHEEL` file, tagged `py3-none-{platform}`.
pub open spec fn wheel_text(platform: Option<(Os, Cpu)>) -> Seq<char> {
    "Wheel-Version: 1.0\nGenerator: "@ + TOOL_NAME@ + " "@ + TOOL_VERSION@
        + "\nRoot-Is-Purelib: false\nTag: py3-none-"@ + wheel_platform_text(platform)
}

/// The line of `RECORD` for one written file.
pub open spec fn record_line(f: PipPackageFile) -> Seq<char> {
    f.path@ + ",sha256="@ + f.hash@ + ","@ + decimal(f.size as nat) + "\n"@
}

/// The lines of `RECORD` for the written files, in the order written.
pub open spec fn record_lines(files: Seq<PipPackageFile>) -> Seq<char>
    decreases files.len(),
{
    if files.len() == 0 {
        Seq::empty()
    } else {
        record_lines(files.drop_last()) + record_line(files.last())
    }
}

/// The `RECORD` file at `record_path`: a line per written file, then a line
/// for itself with empty hash and size.
pub open spec fn record_text(files: Seq<PipPackageFile>, record_path: Seq<char>) -> Seq<char> {
    record_lines(files) + record_path + ",,\n"@
}

/// The text of `key: value` lines, one per pair.
fn header_lines_string(pairs: &Vec<(String, String)>) -> (r: String)
    ensures
        r@ == header_lines(pair_views(pairs@)),
{
    let mut s = String::new();
    let mut i: usize = 0;
    while i < pairs.len()
        invariant
            i <= pairs.len(),
            s@ == header_lines(pair_views(pairs@.take(i as int))),
        decreases pairs.len() - i,
    {
        assert(pair_views(pairs@.take(i + 1)).drop_last() =~= pair_views(pairs@.take(i as int)));
        s.append(pairs[i].0.as_str());
        s.append(": ");
        s.append(pairs[i].1.as_str());
        s.append("\n");
        i = i + 1;
    }
    assert(pairs@.take(pairs.len() as int) =~= pairs@);
    s
}

/// The `entry_points.txt` text of `entrypoints`.
pub fn dist_info_entrypoints(entrypoints: &Vec<(String, String)>) -> (r: String)
    ensures
        r@ == entrypoints_text(pair_views(entrypoints@)),
{
    let mut txt = String::new();
    let mut i: usize = 0;
    while i < entrypoints.len()
        invariant
            i <= entrypoints.len(),
            txt@ == entrypoints_text(pair_views(entrypoints@.take(i as int))),
        decreases entrypoints.len() - i,
    {
        assert(pair_views(entrypoints@.take(i + 1)).drop_last() =~= pair_views(
            entrypoints@.take(i as int),
        ));
        txt.append("[");
        txt.append(entrypoints[i].0.as_str());
        txt.append("]\n");
        txt.append(entrypoints[i].1.as_str());
        txt.append("\n\n");
        i = i + 1;
    }
    assert(entrypoints@.take(entrypoints.len() as int) =~= entrypoints@);
    txt
}

/// The `WHEEL` text for `platform`.
pub fn dist_info_wheel(platform: Option<(Os, Cpu)>) -> (r: String)
    requires
        wheel_platform_ok(platform),
    ensures
        r@ == wheel_text(platform),
{
    let mut s = String::from_str("Wheel-Version: 1.0\nGenerator: ");
    s.append(TOOL_NAME);
    s.append(" ");
    s.append(TOOL_VERSION);
    s.append("\nRoot-Is-Purelib: false\nTag: py3-none-");
    s.append(wheel_platform_string(platform).as_str());
    s
}

/// The `RECORD` text for the written files `files`, stored at `record_path`.
pub fn dist_info_record(files: &Vec<PipPackageFile>, record_path: &str) -> (r: String)
    ensures
        r@ == record_text(files@, record_path@),
{
    let mut record = String::new();
    let mut i: usize = 0;
    while i < files.len()
        invariant
            i <= files.len(),
            record@ == record_lines(files@.take(i as int)),
        decreases files.len() - i,
    {
        assert(files@.take(i + 1).drop_last() =~= files@.take(i as int));
        let f = &files[i];
        record.append(f.path.as_str());
        record.append(",sha256=");
        record.append(f.hash.as_str());
        record.append(",");
        record.append(decimal_string(f.size as u64).as_str());
        record.append("\n");
        i = i + 1;
    }
    assert(files@.take(files.len() as int) =~= files@);
    record.append(record_path);
    record.append(",,\n");
    record
}

} // verus!

verus! {

/// The `RECORD` line for a file at `path` holding `data`.
pub open spec fn content_line(path: Seq<char>, data: Seq<u8>) -> Seq<char> {
    path + ",sha256="@ + base64url_of(sha256_of(data)) + ","@ + decimal(data.len()) + "\n"@
}

/// The `RECORD` lines for the files written, given as (path, bytes), in order.
pub open spec fn content_lines(contents: Seq<(Seq<char>, Seq<u8>)>) -> Seq<char>
    decreases contents.len(),
{
    if contents.len() == 0 {
        Seq::empty()
    } else {
        content_lines(contents.drop_last()) + content_line(
            contents.last().0,
            contents.last().1,
        )
    }
}

/// Whether `files` records, one for one and in order, the files `contents`.
pub open spec fn records_all(files: Seq<PipPackageFile>, contents: Seq<(Seq<char>, Seq<u8>)>) -> bool {
    &&& files.len() == contents.len()
    &&& forall|i: int|
        0 <= i < files.len() ==> records(#[trigger] files[i], contents[i].0, contents[i].1)
}

proof fn lemma_record_lines_match(files: Seq<PipPackageFile>, contents: Seq<(Seq<char>, Seq<u8>)>)
    requires
        records_all(files, contents),
    ensures
        record_lines(files) == content_lines(contents),
    decreases files.len(),
{
    if files.len() > 0 {
        let n = files.len() - 1;
        assert(records(files[n], contents[n].0, contents[n].1));
        assert(records_all(files.drop_last(), contents.drop_last())) by {
            assert forall|i: int| 0 <= i < files.drop_last().len() implies records(
                #[trigger] files.drop_last()[i],
                contents.drop_last()[i].0,
                contents.drop_last()[i].1,
            ) by {
                assert(records(files[i], contents[i].0, contents[i].1));
            }
        }
        lemma_record_lines_match(files.drop_last(), contents.drop_last());
    }
}

/// A wheel's `RECORD` lists every file written before it exactly once, in
/// the order written, with the base64 SHA-256 and the size of the bytes
/// written; its own line, last, has empty hash and size.
pub proof fn lemma_record_lists_written_files(
    files: Seq<PipPackageFile>,
    contents: Seq<(Seq<char>, Seq<u8>)>,
    record_path: Seq<char>,
)
    requires
        records_all(files, contents),
    ensures
        record_text(files, record_path) == content_lines(contents) + record_path + ",,\n"@,
{
    lemma_record_lines_match(files, contents);
}

/// What building a wheel failed on.
#[derive(Debug)]
pub enum PipBuildError {
    ZipError(zip::result::ZipError),
    IOError(std::io::Error),
    UnsupportedVersion(String),
}

/// A wheel under construction.
pub struct PipPackage {
    pub zipfile: crate::archive::ZipArchiveWriter,
    /// As given, with dashes.
    pub package_name: String,
    /// Dashes replaced with underscores.
    pub python_package_name: String,
    /// The Python version string (`1.2a3`), not the semantic version.
    pub package_version: String,
    pub written_files: Vec<PipPackageFile>,
    pub entrypoints: Vec<(String, String)>,
    pub extra_metadata: Vec<(String, String)>,
    /// The files recorded so far, as (path, bytes), in the order written.
    pub contents: Ghost<Seq<(Seq<char>, Seq<u8>)>>,
}

/// `{python_name}-{version}.dist-info/{file}`.
pub open spec fn dist_info_path(python_name: Seq<char>, version: Seq<char>, file: Seq<char>) -> Seq<
    char,
> {
    python_name + "-"@ + version + ".dist-info/"@ + file
}

/// `{python_name}-{version}-py3-none-{platform}.whl`.
pub open spec fn wheel_name_text(
    python_name: Seq<char>,
    version: Seq<char>,
    platform: Option<(Os, Cpu)>,
) -> Seq<char> {
    python_name + "-"@ + version + "-py3-none-"@ + wheel_platform_text(platform) + ".whl"@
}

impl PipPackage {
    /// The written-file records and the zip archive both hold exactly the
    /// files written.
    pub open spec fn wf(&self) -> bool {
        &&& records_all(self.written_files@, self.contents@)
        &&& crate::archive::zip_entries(self.zipfile) == stored_entries(self.contents@)
    }

    /// Whether `other` has the same identity, entry points and extra
    /// metadata as `self`.
    pub open spec fn same_setup(&self, other: &PipPackage) -> bool {
        &&& other.package_name == self.package_name
        &&& other.python_package_name == self.python_package_name
        &&& other.package_version == self.package_version
        &&& other.entrypoints == self.entrypoints
        &&& other.extra_metadata == self.extra_metadata
    }

    /// The `dist-info` path of `file`.
    pub open spec fn dist_info(&self, file: Seq<char>) -> Seq<char> {
        dist_info_path(self.python_package_name@, self.package_version@, file)
    }

    /// A new, empty wheel for the package `package_name` at `package_version`;
    /// an error where the version has no Python form.
    pub fn new(package_name: &str, package_version: &crate::version::SemVersion) -> (r: Result<
        PipPackage,
        PipBuildError,
    >)
        ensures
            match crate::version::pip_version(*package_version) {
                Some(v) => r matches Ok(p) && {
                    &&& p.wf()
                    &&& p.contents@.len() == 0
                    &&& p.package_name@ == package_name@
                    &&& p.python_package_name@ == crate::text::replaced(package_name@, '-', "_"@)
                    &&& p.package_version@ == v
                    &&& p.entrypoints@.len() == 0
                    &&& p.extra_metadata@.len() == 0
                },
                None => r matches Err(PipBuildError::UnsupportedVersion(s)) && s@
                    == crate::version::version_text(*package_version),
            },
    {
        let version = match crate::version::semver_to_pip_version(package_version) {
            Some(v) => v,
            None => {
                return Err(PipBuildError::UnsupportedVersion(package_version.to_string()));
            },
        };
        let zipfile = crate::archive::ZipArchiveWriter::new();
        assert(stored_entries(Seq::empty()) =~= Seq::<(Seq<char>, bool, Seq<u8>)>::empty());
        Ok(
            PipPackage {
                zipfile,
                package_name: String::from_str(package_name),
                python_package_name: crate::text::replace_char(package_name, '-', "_"),
                package_version: version,
                written_files: Vec::new(),
                entrypoints: Vec::new(),
                extra_metadata: Vec::new(),
                contents: Ghost(Seq::empty()),
            },
        )
    }

    /// Adds an entry point `value` in group `key`.
    pub fn add_entrypoint(&mut self, key: &str, value: &str)
        ensures
            final(self).entrypoints@.len() == old(self).entrypoints@.len() + 1,
            final(self).entrypoints@.drop_last() == old(self).entrypoints@,
            final(self).entrypoints@.last().0@ == key@,
            final(self).entrypoints@.last().1@ == value@,
            final(self).package_name == old(self).package_name,
            final(self).python_package_name == old(self).python_package_name,
            final(self).package_version == old(self).package_version,
            final(self).extra_metadata == old(self).extra_metadata,
            final(self).written_files == old(self).written_files,
            final(self).contents == old(self).contents,
            final(self).zipfile == old(self).zipfile,
            pair_views(final(self).entrypoints@) == pair_views(old(self).entrypoints@).push(
                (key@, value@),
            ),
    {
        self.entrypoints.push((String::from_str(key), String::from_str(value)));
        assert(self.entrypoints@.drop_last() =~= old(self).entrypoints@);
        assert(pair_views(self.entrypoints@) =~= pair_views(old(self).entrypoints@).push(
            (key@, value@),
        ));
    }

    /// Adds an extra `key: value` line to `METADATA`.
    pub fn add_metadata(&mut self, key: &str, value: &str)
        ensures
            final(self).extra_metadata@.len() == old(self).extra_metadata@.len() + 1,
            final(self).extra_metadata@.drop_last() == old(self).extra_metadata@,
            final(self).extra_metadata@.last().0@ == key@,
            final(self).extra_metadata@.last().1@ == value@,
            final(self).package_name == old(self).package_name,
            final(self).python_package_name == old(self).python_package_name,
            final(self).package_version == old(self).package_version,
            final(self).entrypoints == old(self).entrypoints,
            final(self).written_files == old(self).written_files,
            final(self).contents == old(self).contents,
            final(self).zipfile == old(self).zipfile,
            pair_views(final(self).extra_metadata@) == pair_views(old(self).extra_metadata@).push(
                (key@, value@),
            ),
    {
        self.extra_metadata.push((String::from_str(key), String::from_str(value)));
        assert(self.extra_metadata@.drop_last() =~= old(self).extra_metadata@);
        assert(pair_views(self.extra_metadata@) =~= pair_views(old(self).extra_metadata@).push(
            (key@, value@),
        ));
    }

    /// The file name of the wheel for `platform`.
    pub fn wheel_name(&self, platform: Option<(Os, Cpu)>) -> (r: String)
        requires
            wheel_platform_ok(platform),
        ensures
            r@ == wheel_name_text(self.python_package_name@, self.package_version@, platform),
    {
        let mut s = self.python_package_name.clone();
        s.append("-");
        s.append(self.package_version.as_str());
        s.append("-py3-none-");
        s.append(wheel_platform_string(platform).as_str());
        s.append(".whl");
        s
    }

    /// Stores `data` at `path`, uncompressed, and records it.
    fn write_file(&mut self, path: &str, data: &[u8]) -> (r: Result<(), zip::result::ZipError>)
        requires
            old(self).wf(),
        ensures
            r is Ok ==> final(self).wf(),
            old(self).same_setup(final(self)),
            r is Ok ==> final(self).contents@ == old(self).contents@.push((path@, data@)),
            r is Err ==> final(self).contents@ == old(self).contents@,
            wheel_files_small(old(self).contents@) && data@.len() < crate::archive::zip_entry_limit()
                ==> r is Ok,
    {
        proof {
            if wheel_files_small(self.contents@) {
                lemma_small_stored(self.contents@);
            }
        }
        match self.zipfile.start_file(path, false) {
            Ok(()) => {},
            Err(e) => {
                return Err(e);
            },
        }
        match self.zipfile.write_all(data) {
            Ok(()) => {},
            Err(e) => {
                return Err(crate::archive::zip_error_from_io(e));
            },
        }
        self.written_files.push(PipPackageFile::new(path, data));
        self.contents = Ghost(self.contents@.push((path@, data@)));
        assert(data@ =~= Seq::<u8>::empty() + data@);
        assert(crate::archive::zip_entries(self.zipfile) =~= stored_entries(self.contents@));
        assert(records_all(self.written_files@, self.contents@)) by {
            assert forall|i: int| 0 <= i < self.written_files@.len() implies records(
                #[trigger] self.written_files@[i],
                self.contents@[i].0,
                self.contents@[i].1,
            ) by {
                if i < old(self).written_files@.len() {
                    assert(records(
                        old(self).written_files@[i],
                        old(self).contents@[i].0,
                        old(self).contents@[i].1,
                    ));
                }
            }
        }
        Ok(())
    }

    /// Stores `data` at `{python_package_name}/{path}` and records it.
    pub fn write_library_file(&mut self, path: &str, data: &[u8]) -> (r: Result<
        (),
        zip::result::ZipError,
    >)
        requires
            old(self).wf(),
        ensures
            r is Ok ==> final(self).wf(),
            old(self).same_setup(final(self)),
            r is Ok ==> final(self).contents@ == old(self).contents@.push(
                (old(self).python_package_name@ + "/"@ + path@, data@),
            ),
            r is Err ==> final(self).contents@ == old(self).contents@,
            wheel_files_small(old(self).contents@) && data@.len() < crate::archive::zip_entry_limit()
                ==> r is Ok,
    {
        let mut full = self.python_package_name.clone();
        full.append("/");
        full.append(path);
        self.write_file(full.as_str(), data)
    }

    /// The `dist-info` path of `file`.
    fn dist_info_file(&self, file: &str) -> (r: String)
        ensures
            r@ == self.dist_info(file@),
    {
        let mut s = self.python_package_name.clone();
        s.append("-");
        s.append(self.package_version.as_str());
        s.append(".dist-info/");
        s.append(file);
        s
    }
}

} // verus!

verus! {

/// Whether every file of a wheel holds fewer than the zip writer's
/// `zip_entry_limit()` bytes.
pub open spec fn wheel_files_small(contents: Seq<(Seq<char>, Seq<u8>)>) -> bool {
    forall|i: int|
        0 <= i < contents.len() ==> (#[trigger] contents[i]).1.len()
            < crate::archive::zip_entry_limit()
}

proof fn lemma_small_take(full: Seq<(Seq<char>, Seq<u8>)>, k: int)
    requires
        wheel_files_small(full),
        0 <= k <= full.len(),
    ensures
        wheel_files_small(full.take(k)),
        k < full.len() ==> full[k].1.len() < crate::archive::zip_entry_limit(),
{
    assert forall|i: int| 0 <= i < full.take(k).len() implies (#[trigger] full.take(k)[i]).1.len()
        < crate::archive::zip_entry_limit() by {
        assert(full.take(k)[i] == full[i]);
    }
}

proof fn lemma_small_stored(c: Seq<(Seq<char>, Seq<u8>)>)
    requires
        wheel_files_small(c),
    ensures
        crate::archive::zip_entries_small(stored_entries(c)),
{
    assert forall|i: int| 0 <= i < stored_entries(c).len() implies (#[trigger] stored_entries(
        c,
    )[i]).2.len() < crate::archive::zip_entry_limit() by {
        assert(stored_entries(c)[i].2 == c[i].1);
    }
}

/// The files that finishing a wheel appends to `contents`: `METADATA`,
/// `WHEEL`, `entry_points.txt` where there are entry points,
/// `top_level.txt`, and last `RECORD`, which lists every file before it.
/// The wheel is of the package `package_name` (import name `python_name`)
/// at Python version `version`, with extra `METADATA` lines `extra` and
/// entry points `entrypoints`.
pub open spec fn dist_info_contents_of(
    package_name: Seq<char>,
    python_name: Seq<char>,
    version: Seq<char>,
    extra: Seq<(Seq<char>, Seq<char>)>,
    entrypoints: Seq<(Seq<char>, Seq<char>)>,
    contents: Seq<(Seq<char>, Seq<u8>)>,
    platform: Option<(Os, Cpu)>,
) -> Seq<(Seq<char>, Seq<u8>)> {
    let c1 = contents.push(
        (
            dist_info_path(python_name, version, "METADATA"@),
            vstd::utf8::encode_utf8(metadata_text(package_name, version, extra)),
        ),
    ).push(
        (dist_info_path(python_name, version, "WHEEL"@), vstd::utf8::encode_utf8(wheel_text(platform))),
    );
    let c2 = if entrypoints.len() > 0 {
        c1.push(
            (
                dist_info_path(python_name, version, "entry_points.txt"@),
                vstd::utf8::encode_utf8(entrypoints_text(entrypoints)),
            ),
        )
    } else {
        c1
    };
    let c3 = c2.push(
        (
            dist_info_path(python_name, version, "top_level.txt"@),
            vstd::utf8::encode_utf8(python_name + "\n"@),
        ),
    );
    let record_path = dist_info_path(python_name, version, "RECORD"@);
    c3.push(
        (record_path, vstd::utf8::encode_utf8(content_lines(c3) + record_path + ",,\n"@)),
    )
}

/// The files that finishing `pkg` appends to `contents`.
pub open spec fn dist_info_contents(
    pkg: PipPackage,
    contents: Seq<(Seq<char>, Seq<u8>)>,
    platform: Option<(Os, Cpu)>,
) -> Seq<(Seq<char>, Seq<u8>)> {
    dist_info_contents_of(
        pkg.package_name@,
        pkg.python_package_name@,
        pkg.package_version@,
        pair_views(pkg.extra_metadata@),
        pair_views(pkg.entrypoints@),
        contents,
        platform,
    )
}

/// The zip entries of a wheel's files: each stored, not compressed.
pub open spec fn stored_entries(contents: Seq<(Seq<char>, Seq<u8>)>) -> Seq<(Seq<char>, bool, Seq<u8>)> {
    contents.map_values(|c: (Seq<char>, Seq<u8>)| (c.0, false, c.1))
}

/// The `METADATA` text of `pkg`.
pub fn dist_info_metadata(pkg: &PipPackage) -> (r: String)
    ensures
        r@ == metadata_text(pkg.package_name@, pkg.package_version@, pair_views(pkg.extra_metadata@)),
{
    let mut s = String::from_str("Metadata-Version: 2.1\nName: ");
    s.append(pkg.package_name.as_str());
    s.append("\nVersion: ");
    s.append(pkg.package_version.as_str());
    s.append(
        "\nHome-page: https://TODO.com\nAuthor: TODO\nLicense: MIT License, Apache License, Version 2.0\nDescription-Content-Type: text/markdown\n",
    );
    s.append(header_lines_string(&pkg.extra_metadata).as_str());
    s.append("\n\nTODO readme");
    s
}

/// The `top_level.txt` text of `pkg`: its import name on one line.
pub fn dist_info_top_level_txt(pkg: &PipPackage) -> (r: String)
    ensures
        r@ == pkg.python_package_name@ + "\n"@,
{
    let mut s = pkg.python_package_name.clone();
    s.append("\n");
    s
}

impl PipPackage {
    fn write_dist_info_text(&mut self, file: &str, text: &str) -> (r: Result<(), zip::result::ZipError>)
        requires
            old(self).wf(),
        ensures
            r is Ok ==> final(self).wf(),
            old(self).same_setup(final(self)),
            r is Ok ==> final(self).contents@ == old(self).contents@.push(
                (old(self).dist_info(file@), vstd::utf8::encode_utf8(text@)),
            ),
            r is Err ==> final(self).contents@ == old(self).contents@,
            wheel_files_small(old(self).contents@) && vstd::utf8::encode_utf8(text@).len()
                < crate::archive::zip_entry_limit() ==> r is Ok,
    {
        let path = self.dist_info_file(file);
        self.write_file(path.as_str(), text.as_bytes())
    }

    /// Writes `METADATA`, `WHEEL`, `entry_points.txt` where there are entry
    /// points, `top_level.txt` and `RECORD`, in that order.
    pub fn finish_dist_info(&mut self, platform: Option<(Os, Cpu)>) -> (r: Result<
        (),
        zip::result::ZipError,
    >)
        requires
            old(self).wf(),
            wheel_platform_ok(platform),
        ensures
            r is Ok ==> final(self).wf(),
            old(self).same_setup(final(self)),
            r is Ok ==> final(self).contents@ == dist_info_contents(
                *old(self),
                old(self).contents@,
                platform,
            ),
            wheel_files_small(dist_info_contents(*old(self), old(self).contents@, platform))
                ==> r is Ok,
    {
        let ghost full = dist_info_contents(*old(self), old(self).contents@, platform);
        let ghost small = wheel_files_small(full);
        let ghost n: int = old(self).contents@.len() as int;
        proof {
            if small {
                lemma_small_take(full, n as int);
                assert(full.take(n as int) =~= old(self).contents@);
            }
        }
        let metadata = dist_info_metadata(self);
        match self.write_dist_info_text("METADATA", metadata.as_str()) {
            Ok(()) => {},
            Err(e) => {
                return Err(e);
            },
        }
        proof {
            if small {
                lemma_small_take(full, n + 1);
                assert(full.take(n + 1) =~= self.contents@);
            }
        }
        let wheel = dist_info_wheel(platform);
        match self.write_dist_info_text("WHEEL", wheel.as_str()) {
            Ok(()) => {},
            Err(e) => {
                return Err(e);
            },
        }
        proof {
            if small {
                lemma_small_take(full, n + 2);
                assert(full.take(n + 2) =~= self.contents@);
            }
        }
        if self.entrypoints.len() > 0 {
            let entrypoints = dist_info_entrypoints(&self.entrypoints);
            match self.write_dist_info_text("entry_points.txt", entrypoints.as_str()) {
                Ok(()) => {},
                Err(e) => {
                    return Err(e);
                },
            }
        }
        let ghost m: int = self.contents@.len() as int;
        proof {
            if small {
                lemma_small_take(full, m as int);
                assert(full.take(m as int) =~= self.contents@);
                lemma_small_take(full, m + 1);
            }
        }
        let top_level = dist_info_top_level_txt(self);
        match self.write_dist_info_text("top_level.txt", top_level.as_str()) {
            Ok(()) => {},
            Err(e) => {
                return Err(e);
            },
        }
        let record_path = self.dist_info_file("RECORD");
        let record = dist_info_record(&self.written_files, record_path.as_str());
        proof {
            lemma_record_lists_written_files(self.written_files@, self.contents@, record_path@);
            if small {
                lemma_small_take(full, m + 1);
                assert(full.take(m + 1) =~= self.contents@);
                lemma_small_take(full, m + 2);
            }
        }
        self.write_file(record_path.as_str(), record.as_str().as_bytes())
    }

    /// Writes the `dist-info` files and finishes the archive: the wheel's
    /// bytes, the zip of every file written, stored, in order, then the
    /// `dist-info` files.
    pub fn end(self, platform: Option<(Os, Cpu)>) -> (r: Result<Vec<u8>, zip::result::ZipError>)
        requires
            self.wf(),
            wheel_platform_ok(platform),
        ensures
            r matches Ok(b) ==> b@ == crate::archive::zip_of(
                stored_entries(dist_info_contents(self, self.contents@, platform)),
            ),
            wheel_files_small(dist_info_contents(self, self.contents@, platform)) ==> r is Ok,
    {
        proof {
            if wheel_files_small(dist_info_contents(self, self.contents@, platform)) {
                lemma_small_stored(dist_info_contents(self, self.contents@, platform));
            }
        }
        let mut pkg = self;
        match pkg.finish_dist_info(platform) {
            Ok(()) => {},
            Err(e) => {
                return Err(e);
            },
        }
        pkg.zipfile.finish()
    }
}

} // verus!

verus! {

/// The `__init__.py` of a base wheel: version, and the path and loading of
/// the bundled extension named `entrypoint`.
pub open spec fn base_init_text(version: Seq<char>, package_name: Seq<char>, entrypoint: Seq<char>) -> Seq<
    char,
> {
    "\nfrom os import path\nimport sqlite3\n\n__version__ = \""@ + version
        + "\"\n__version_info__ = tuple(__version__.split(\".\"))\n\ndef loadable_path():\n  \"\"\" Returns the full path to the "@
        + package_name
        + " loadable SQLite extension bundled with this package \"\"\"\n\n  loadable_path = path.join(path.dirname(__file__), \""@
        + entrypoint
        + "\")\n  return path.normpath(loadable_path)\n\ndef load(conn: sqlite3.Connection)  -> None:\n  \"\"\" Load the "@
        + package_name
        + " SQLite extension into the given database connection. \"\"\"\n\n  conn.load_extension(loadable_path())\n\n"@
}

/// The `__init__.py` of a plugin wheel for `host_import` (`datasette` or
/// `sqlite_utils`) that loads the base package `dep_library`.
pub open spec fn plugin_init_text(host_import: Seq<char>, dep_library: Seq<char>, version: Seq<char>) -> Seq<
    char,
> {
    "\nfrom "@ + host_import + " import hookimpl\nimport "@ + dep_library + "\n\n__version__ = \""@
        + version
        + "\"\n__version_info__ = tuple(__version__.split(\".\"))\n\n@hookimpl\ndef prepare_connection(conn):\n  conn.enable_load_extension(True)\n  "@
        + dep_library + ".load(conn)\n  conn.enable_load_extension(False)\n"@
}

/// The `__init__.py` of the base wheel of `pkg`, loading `entrypoint`.
pub fn base_init_py(pkg: &PipPackage, entrypoint: &str) -> (r: String)
    ensures
        r@ == base_init_text(pkg.package_version@, pkg.package_name@, entrypoint@),
{
    let mut s = String::from_str("\nfrom os import path\nimport sqlite3\n\n__version__ = \"");
    s.append(pkg.package_version.as_str());
    s.append(
        "\"\n__version_info__ = tuple(__version__.split(\".\"))\n\ndef loadable_path():\n  \"\"\" Returns the full path to the ",
    );
    s.append(pkg.package_name.as_str());
    s.append(
        " loadable SQLite extension bundled with this package \"\"\"\n\n  loadable_path = path.join(path.dirname(__file__), \"",
    );
    s.append(entrypoint);
    s.append(
        "\")\n  return path.normpath(loadable_path)\n\ndef load(conn: sqlite3.Connection)  -> None:\n  \"\"\" Load the ",
    );
    s.append(pkg.package_name.as_str());
    s.append(
        " SQLite extension into the given database connection. \"\"\"\n\n  conn.load_extension(loadable_path())\n\n",
    );
    s
}

fn plugin_init_py(host_import: &str, dep_pkg: &PipPackage) -> (r: String)
    ensures
        r@ == plugin_init_text(host_import@, dep_pkg.python_package_name@, dep_pkg.package_version@),
{
    let mut s = String::from_str("\nfrom ");
    s.append(host_import);
    s.append(" import hookimpl\nimport ");
    s.append(dep_pkg.python_package_name.as_str());
    s.append("\n\n__version__ = \"");
    s.append(dep_pkg.package_version.as_str());
    s.append(
        "\"\n__version_info__ = tuple(__version__.split(\".\"))\n\n@hookimpl\ndef prepare_connection(conn):\n  conn.enable_load_extension(True)\n  ",
    );
    s.append(dep_pkg.python_package_name.as_str());
    s.append(".load(conn)\n  conn.enable_load_extension(False)\n");
    s
}

/// The `__init__.py` of the sqlite-utils plugin wheel that loads `dep_pkg`.
pub fn sqlite_utils_init_py(dep_pkg: &PipPackage) -> (r: String)
    ensures
        r@ == plugin_init_text("sqlite_utils"@, dep_pkg.python_package_name@, dep_pkg.package_version@),
{
    plugin_init_py("sqlite_utils", dep_pkg)
}

/// The `__init__.py` of the Datasette plugin wheel that loads `dep_pkg`.
pub fn datasette_init_py(dep_pkg: &PipPackage) -> (r: String)
    ensures
        r@ == plugin_init_text("datasette"@, dep_pkg.python_package_name@, dep_pkg.package_version@),
{
    plugin_init_py("datasette", dep_pkg)
}

} // verus!

verus! {

/// The platform directories that wheels are built for, in order.
pub open spec fn pip_platforms(pds: Seq<crate::platform::PlatformDirectory>) -> Seq<
    crate::platform::PlatformDirectory,
> {
    pds.filter(|pd: crate::platform::PlatformDirectory| pip_platform_tag(pd.os, pd.cpu) is Some)
}

/// The bytes of the wheel of package `name` at `version` for `platform`
/// holding `contents`, then its `dist-info` files with extra `METADATA`
/// lines `extra` and entry points `entrypoints`.
pub open spec fn wheel_bytes(
    name: Seq<char>,
    version: crate::version::SemVersion,
    extra: Seq<(Seq<char>, Seq<char>)>,
    entrypoints: Seq<(Seq<char>, Seq<char>)>,
    contents: Seq<(Seq<char>, Seq<u8>)>,
    platform: Option<(Os, Cpu)>,
) -> Seq<u8> {
    crate::archive::zip_of(
        stored_entries(
            dist_info_contents_of(
                name,
                crate::text::replaced(name, '-', "_"@),
                crate::version::pip_version(version).unwrap(),
                extra,
                entrypoints,
                contents,
                platform,
            ),
        ),
    )
}

/// The text appended to a base wheel's `__init__.py`, if any.
pub open spec fn extra_text(extra_init_py: Option<&str>) -> Seq<char> {
    match extra_init_py {
        Some(e) => e@,
        None => Seq::empty(),
    }
}

/// The files of the base wheel of `project` for `pd`: `__init__.py`, then
/// the loadable files, all under the import name.
pub open spec fn base_wheel_files(
    project: crate::project::Project,
    pd: crate::platform::PlatformDirectory,
    extra: Seq<char>,
) -> Seq<(Seq<char>, Seq<u8>)> {
    let py = crate::text::replaced(project.spec.package.name@, '-', "_"@);
    let v = crate::version::pip_version(project.version).unwrap();
    seq![
        (
            py + "/"@ + "__init__.py"@,
            vstd::utf8::encode_utf8(
                base_init_text(v, project.spec.package.name@, pd.loadable_files@[0].file_stem@) + extra,
            ),
        ),
    ] + pd.loadable_files@.map_values(
        |l: crate::platform::LoadablePlatformFile| (py + "/"@ + l.file.name@, l.file.data@),
    )
}

/// Every file of the base wheel of `project` for `pd`, dist-info included.
pub open spec fn base_wheel_all_files(
    project: crate::project::Project,
    pd: crate::platform::PlatformDirectory,
    extra: Seq<char>,
) -> Seq<(Seq<char>, Seq<u8>)> {
    dist_info_contents_of(
        project.spec.package.name@,
        crate::text::replaced(project.spec.package.name@, '-', "_"@),
        crate::version::pip_version(project.version).unwrap(),
        Seq::empty(),
        Seq::empty(),
        base_wheel_files(project, pd, extra),
        Some((pd.os, pd.cpu)),
    )
}

/// Whether every base wheel of `project` has all its files under the zip
/// writer's size limit.
pub open spec fn base_wheels_small(project: crate::project::Project, extra: Seq<char>) -> bool {
    forall|i: int|
        0 <= i < project.platform_directories@.len() && pip_platform_tag(
            (#[trigger] project.platform_directories@[i]).os,
            project.platform_directories@[i].cpu,
        ) is Some ==> wheel_files_small(
            base_wheel_all_files(project, project.platform_directories@[i], extra),
        )
}

/// Whether `a` is a wheel of the package `name` at `version`, for
/// `platform`, of kind `kind`, stored in `dir`.
pub open spec fn is_wheel_artifact(
    a: crate::registry::Artifact,
    name: Seq<char>,
    version: crate::version::SemVersion,
    platform: Option<(Os, Cpu)>,
    kind: crate::registry::GeneratedAssetKind,
    dir: Seq<char>,
) -> bool {
    let wheel = wheel_name_text(
        crate::text::replaced(name, '-', "_"@),
        crate::version::pip_version(version).unwrap(),
        platform,
    );
    &&& a.wf()
    &&& a.asset.kind == kind
    &&& a.asset.name@ == wheel
    &&& a.asset.path@ == crate::registry::path_text(dir, wheel)
}

/// The base wheels, one per platform directory that wheels are built for,
/// in platform order, stored in `dir`. Each holds `__init__.py` (with
/// `extra_init_py` appended where given) and the platform's loadable files.
pub fn write_base_packages(project: &crate::project::Project, extra_init_py: Option<&str>, dir: &str) -> (r:
    Result<Vec<crate::registry::Artifact>, PipBuildError>)
    requires
        forall|i: int|
            0 <= i < project.platform_directories@.len() && pip_platform_tag(
                #[trigger] project.platform_directories@[i].os,
                project.platform_directories@[i].cpu,
            ) is Some ==> project.platform_directories@[i].loadable_files@.len() > 0,
    ensures
        crate::version::pip_version(project.version) is None && pip_platforms(
            project.platform_directories@,
        ).len() > 0 ==> r is Err,
        r matches Ok(v) ==> {
            let pps = pip_platforms(project.platform_directories@);
            &&& v@.len() == pps.len()
            &&& forall|j: int|
                0 <= j < pps.len() ==> is_wheel_artifact(
                    #[trigger] v@[j],
                    project.spec.package.name@,
                    project.version,
                    Some((pps[j].os, pps[j].cpu)),
                    crate::registry::GeneratedAssetKind::Pip((pps[j].os, pps[j].cpu)),
                    dir@,
                ) && v@[j].contents@ == wheel_bytes(
                    project.spec.package.name@,
                    project.version,
                    Seq::empty(),
                    Seq::empty(),
                    base_wheel_files(*project, pps[j], extra_text(extra_init_py)),
                    Some((pps[j].os, pps[j].cpu)),
                )
        },
        crate::version::pip_version(project.version) is Some && base_wheels_small(
            *project,
            extra_text(extra_init_py),
        ) ==> r is Ok,
{
    let ghost pds = project.platform_directories@;
    let mut assets: Vec<crate::registry::Artifact> = Vec::new();
    let mut i: usize = 0;
    while i < project.platform_directories.len()
        invariant
            pds == project.platform_directories@,
            i <= pds.len(),
            forall|k: int|
                0 <= k < pds.len() && pip_platform_tag(#[trigger] pds[k].os, pds[k].cpu) is Some
                    ==> pds[k].loadable_files@.len() > 0,
            crate::version::pip_version(project.version) is None ==> pip_platforms(
                pds.take(i as int),
            ).len() == 0,
            assets@.len() == pip_platforms(pds.take(i as int)).len(),
            forall|j: int|
                0 <= j < assets@.len() ==> is_wheel_artifact(
                    #[trigger] assets@[j],
                    project.spec.package.name@,
                    project.version,
                    Some(
                        (
                            pip_platforms(pds.take(i as int))[j].os,
                            pip_platforms(pds.take(i as int))[j].cpu,
                        ),
                    ),
                    crate::registry::GeneratedAssetKind::Pip(
                        (
                            pip_platforms(pds.take(i as int))[j].os,
                            pip_platforms(pds.take(i as int))[j].cpu,
                        ),
                    ),
                    dir@,
                ) && assets@[j].contents@ == wheel_bytes(
                    project.spec.package.name@,
                    project.version,
                    Seq::empty(),
                    Seq::empty(),
                    base_wheel_files(
                        *project,
                        pip_platforms(pds.take(i as int))[j],
                        extra_text(extra_init_py),
                    ),
                    Some(
                        (
                            pip_platforms(pds.take(i as int))[j].os,
                            pip_platforms(pds.take(i as int))[j].cpu,
                        ),
                    ),
                ),
        decreases pds.len() - i,
    {
        let pd = &project.platform_directories[i];
        proof {
            reveal(Seq::filter);
            assert(pds.take(i + 1).drop_last() =~= pds.take(i as int));
        }
        if pip_platform_tag_exists(&pd.os, &pd.cpu) {
            let mut pkg = match PipPackage::new(project.spec.package.name.as_str(), &project.version) {
                Ok(p) => p,
                Err(e) => {
                    return Err(e);
                },
            };
            let entrypoint = &pd.loadable_files[0].file_stem;
            let mut init_py = base_init_py(&pkg, entrypoint.as_str());
            match extra_init_py {
                Some(extra) => {
                    init_py.append(extra);
                },
                None => {},
            }
            proof {
                reveal_strlit("__init__.py");
                if crate::version::pip_version(project.version) is Some && base_wheels_small(
                    *project,
                    extra_text(extra_init_py),
                ) {
                    assert(wheel_files_small(
                        base_wheel_all_files(*project, *pd, extra_text(extra_init_py)),
                    ));
                }
            }
            let ghost all0 = base_wheel_all_files(*project, *pd, extra_text(extra_init_py));
            proof {
                if wheel_files_small(all0) {
                    assert(all0.take(base_wheel_files(*project, *pd, extra_text(extra_init_py)).len() as int)
                        =~= base_wheel_files(*project, *pd, extra_text(extra_init_py)));
                    lemma_small_take(all0, base_wheel_files(*project, *pd, extra_text(extra_init_py)).len() as int);
                    lemma_small_take(base_wheel_files(*project, *pd, extra_text(extra_init_py)), 0);
                    assert(pkg.contents@ =~= Seq::<(Seq<char>, Seq<u8>)>::empty());
                }
            }
            match pkg.write_library_file("__init__.py", init_py.as_str().as_bytes()) {
                Ok(()) => {},
                Err(e) => {
                    return Err(PipBuildError::ZipError(e));
                },
            }
            let ghost files = base_wheel_files(*project, *pd, extra_text(extra_init_py));
            let ghost all = base_wheel_all_files(*project, *pd, extra_text(extra_init_py));
            let ghost small = wheel_files_small(all);
            proof {
                assert(all.take(files.len() as int) =~= files);
                if crate::version::pip_version(project.version) is Some && base_wheels_small(
                    *project,
                    extra_text(extra_init_py),
                ) {
                    assert(pip_platform_tag(pds[i as int].os, pds[i as int].cpu) is Some);
                    assert(small);
                }
                if small {
                    lemma_small_take(all, files.len() as int);
                    lemma_small_take(files, 1);
                }
            }
            assert(pkg.contents@ =~= files.take(1));
            let mut k: usize = 0;
            while k < pd.loadable_files.len()
                invariant
                    pkg.wf(),
                    files == base_wheel_files(*project, *pd, extra_text(extra_init_py)),
                    k <= pd.loadable_files@.len(),
                    pkg.contents@ == files.take(k + 1),
                    all == base_wheel_all_files(*project, *pd, extra_text(extra_init_py)),
                    small == wheel_files_small(all),
                    small ==> wheel_files_small(files),
                    crate::version::pip_version(project.version) is Some && base_wheels_small(
                        *project,
                        extra_text(extra_init_py),
                    ) ==> small,
                    files.len() == pd.loadable_files@.len() + 1,
                    pkg.package_name@ == project.spec.package.name@,
                    pkg.extra_metadata@.len() == 0,
                    pkg.entrypoints@.len() == 0,
                    pkg.python_package_name@ == crate::text::replaced(
                        project.spec.package.name@,
                        '-',
                        "_"@,
                    ),
                    Some(pkg.package_version@) == crate::version::pip_version(project.version),
                decreases pd.loadable_files.len() - k,
            {
                let f = &pd.loadable_files[k].file;
                proof {
                    if small {
                        lemma_small_take(files, k + 1);
                        lemma_small_take(files, k + 1);
                    }
                }
                match pkg.write_library_file(f.name.as_str(), f.data.as_slice()) {
                    Ok(()) => {},
                    Err(e) => {
                        return Err(PipBuildError::ZipError(e));
                    },
                }
                assert(files[k + 1] == (pkg.python_package_name@ + "/"@ + f.name@, f.data@));
                assert(pkg.contents@ =~= files.take(k + 2));
                k = k + 1;
            }
            assert(files.take(k + 1) =~= files);
            assert(pair_views(pkg.extra_metadata@) =~= Seq::empty());
            assert(pair_views(pkg.entrypoints@) =~= Seq::empty());
            let platform = Some((pd.os, pd.cpu));
            let wheel_name = pkg.wheel_name(platform);
            let bytes = match pkg.end(platform) {
                Ok(b) => b,
                Err(e) => {
                    return Err(PipBuildError::ZipError(e));
                },
            };
            let kind = crate::registry::GeneratedAssetKind::Pip((pd.os, pd.cpu));
            assets.push(crate::registry::Artifact::new(kind, dir, wheel_name, bytes));
        }
        i = i + 1;
    }
    assert(pds.take(pds.len() as int) =~= pds);
    Ok(assets)
}

/// The bytes of the plugin wheel `{prefix}{name}` of `project`: its
/// `__init__.py` imports `host_import` and loads the base package; its one
/// entry point `{base} = {plugin}` is in `entry_group`; it requires
/// `requirement` and the base package at the project's version.
pub open spec fn plugin_wheel_bytes(
    project: crate::project::Project,
    prefix: Seq<char>,
    host_import: Seq<char>,
    entry_group: Seq<char>,
    requirement: Seq<char>,
) -> Seq<u8> {
    crate::archive::zip_of(
        stored_entries(plugin_wheel_files(project, prefix, host_import, entry_group, requirement)),
    )
}

/// Every file of the plugin wheel `{prefix}{name}` of `project`, dist-info
/// included.
pub open spec fn plugin_wheel_files(
    project: crate::project::Project,
    prefix: Seq<char>,
    host_import: Seq<char>,
    entry_group: Seq<char>,
    requirement: Seq<char>,
) -> Seq<(Seq<char>, Seq<u8>)> {
    let name = prefix + project.spec.package.name@;
    let base_py = crate::text::replaced(project.spec.package.name@, '-', "_"@);
    let py = crate::text::replaced(name, '-', "_"@);
    let v = crate::version::pip_version(project.version).unwrap();
    dist_info_contents_of(
        name,
        py,
        v,
        seq![
            ("Requires-Dist"@, requirement),
            (
                "Requires-Dist"@,
                project.spec.package.name@ + " (=="@ + crate::version::version_text(project.version)
                    + ")"@,
            ),
        ],
        seq![(entry_group, base_py + " = "@ + py)],
        seq![
            (
                py + "/"@ + "__init__.py"@,
                vstd::utf8::encode_utf8(plugin_init_text(host_import, base_py, v)),
            ),
        ],
        None,
    )
}

/// A plugin wheel named `{prefix}{name}` for the host `entry_group`: an
/// `__init__.py` loading the base package, an entry point
/// `{base} = {plugin}` in `entry_group`, and requirements on `requirement`
/// and on the base package at the project's version.
fn write_plugin(
    project: &crate::project::Project,
    prefix: &str,
    host_import: &str,
    entry_group: &str,
    requirement: &str,
    kind: crate::registry::GeneratedAssetKind,
    dir: &str,
) -> (r: Result<crate::registry::Artifact, PipBuildError>)
    ensures
        crate::version::pip_version(project.version) is None ==> r is Err,
        r matches Ok(a) ==> is_wheel_artifact(
            a,
            prefix@ + project.spec.package.name@,
            project.version,
            None,
            kind,
            dir@,
        ) && a.contents@ == plugin_wheel_bytes(
            *project,
            prefix@,
            host_import@,
            entry_group@,
            requirement@,
        ),
        crate::version::pip_version(project.version) is Some && wheel_files_small(
            plugin_wheel_files(*project, prefix@, host_import@, entry_group@, requirement@),
        ) ==> r is Ok,
{
    let mut plugin_name = String::from_str(prefix);
    plugin_name.append(project.spec.package.name.as_str());
    let dep_pkg = match PipPackage::new(project.spec.package.name.as_str(), &project.version) {
        Ok(p) => p,
        Err(e) => {
            return Err(e);
        },
    };
    let mut pkg = match PipPackage::new(plugin_name.as_str(), &project.version) {
        Ok(p) => p,
        Err(e) => {
            return Err(e);
        },
    };
    let init_py = plugin_init_py(host_import, &dep_pkg);
    proof { reveal_strlit("__init__.py"); reveal_strlit("Requires-Dist"); }
    let ghost full = plugin_wheel_files(*project, prefix@, host_import@, entry_group@, requirement@);
    proof {
        if wheel_files_small(full) {
            lemma_small_take(full, 0);
            assert(full[0] == (
                pkg.python_package_name@ + "/"@ + "__init__.py"@,
                vstd::utf8::encode_utf8(init_py@),
            ));
            assert(pkg.contents@.len() == 0);
        }
    }
    match pkg.write_library_file("__init__.py", init_py.as_str().as_bytes()) {
        Ok(()) => {},
        Err(e) => {
            return Err(PipBuildError::ZipError(e));
        },
    }
    let mut entry = dep_pkg.python_package_name.clone();
    entry.append(" = ");
    entry.append(pkg.python_package_name.as_str());
    assert(pkg.contents@ =~= seq![
        (
            pkg.python_package_name@ + "/"@ + "__init__.py"@,
            vstd::utf8::encode_utf8(init_py@),
        ),
    ]);
    pkg.add_entrypoint(entry_group, entry.as_str());
    assert(pair_views(pkg.entrypoints@) =~= seq![
        (entry_group@, dep_pkg.python_package_name@ + " = "@ + pkg.python_package_name@),
    ]);
    pkg.add_metadata("Requires-Dist", requirement);
    let mut pinned = project.spec.package.name.clone();
    pinned.append(" (==");
    pinned.append(project.version.to_string().as_str());
    pinned.append(")");
    pkg.add_metadata("Requires-Dist", pinned.as_str());
    assert(pair_views(pkg.extra_metadata@) =~= seq![
        ("Requires-Dist"@, requirement@),
        (
            "Requires-Dist"@,
            project.spec.package.name@ + " (=="@ + crate::version::version_text(project.version)
                + ")"@,
        ),
    ]);
    let wheel_name = pkg.wheel_name(None);
    let bytes = match pkg.end(None) {
        Ok(b) => b,
        Err(e) => {
            return Err(PipBuildError::ZipError(e));
        },
    };
    Ok(crate::registry::Artifact::new(kind, dir, wheel_name, bytes))
}

/// The Datasette plugin wheel `datasette-{name}`, stored in `dir`.
pub fn write_datasette(project: &crate::project::Project, dir: &str) -> (r: Result<
    crate::registry::Artifact,
    PipBuildError,
>)
    ensures
        crate::version::pip_version(project.version) is None ==> r is Err,
        r matches Ok(a) ==> is_wheel_artifact(
            a,
            "datasette-"@ + project.spec.package.name@,
            project.version,
            None,
            crate::registry::GeneratedAssetKind::Datasette,
            dir@,
        ) && a.contents@ == plugin_wheel_bytes(
            *project,
            "datasette-"@,
            "datasette"@,
            "datasette"@,
            "datasette"@,
        ),
        crate::version::pip_version(project.version) is Some && wheel_files_small(
            plugin_wheel_files(*project, "datasette-"@, "datasette"@, "datasette"@, "datasette"@),
        ) ==> r is Ok,
{
    write_plugin(
        project,
        "datasette-",
        "datasette",
        "datasette",
        "datasette",
        crate::registry::GeneratedAssetKind::Datasette,
        dir,
    )
}

/// The sqlite-utils plugin wheel `sqlite-utils-{name}`, stored in `dir`.
pub fn write_sqlite_utils(project: &crate::project::Project, dir: &str) -> (r: Result<
    crate::registry::Artifact,
    PipBuildError,
>)
    ensures
        crate::version::pip_version(project.version) is None ==> r is Err,
        r matches Ok(a) ==> is_wheel_artifact(
            a,
            "sqlite-utils-"@ + project.spec.package.name@,
            project.version,
            None,
            crate::registry::GeneratedAssetKind::SqliteUtils,
            dir@,
        ) && a.contents@ == plugin_wheel_bytes(
            *project,
            "sqlite-utils-"@,
            "sqlite_utils"@,
            "sqlite_utils"@,
            "sqlite-utils"@,
        ),
        crate::version::pip_version(project.version) is Some && wheel_files_small(
            plugin_wheel_files(*project, "sqlite-utils-"@, "sqlite_utils"@, "sqlite_utils"@, "sqlite-utils"@),
        ) ==> r is Ok,
{
    write_plugin(
        project,
        "sqlite-utils-",
        "sqlite_utils",
        "sqlite_utils",
        "sqlite-utils",
        crate::registry::GeneratedAssetKind::SqliteUtils,
        dir,
    )
}

} // verus!
