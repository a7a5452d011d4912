//! Platforms, platform input files, and the classification of a platform
//! directory's files into loadable, static and header buckets.
use vstd::prelude::*;
use crate::text::str_eq;

verus! {

/// Operating systems that a platform directory can target.
#[derive(Clone, Copy, Debug, PartialEq, Eq, Structural)]
pub enum Os {
    Macos,
    Linux,
    Windows,
}

/// CPU architectures that a platform directory can target.
#[derive(Clone, Copy, Debug, PartialEq, Eq, Structural)]
pub enum Cpu {
    X86_64,
    Aarch64,
}

/// The token that names `os` in directory names and descriptors.
pub open spec fn os_token(os: Os) -> Seq<char> {
    match os {
        Os::Macos => "macos"@,
        Os::Linux => "linux"@,
        Os::Windows => "windows"@,
    }
}

/// The token that names `cpu` in directory names and descriptors.
pub open spec fn cpu_token(cpu: Cpu) -> Seq<char> {
    match cpu {
        Cpu::X86_64 => "x86_64"@,
        Cpu::Aarch64 => "aarch64"@,
    }
}

/// The operating system named by `t`, if any.
pub open spec fn os_of_token(t: Seq<char>) -> Option<Os> {
    if t == "macos"@ {
        Some(Os::Macos)
    } else if t == "linux"@ {
        Some(Os::Linux)
    } else if t == "windows"@ {
        Some(Os::Windows)
    } else {
        None
    }
}

/// The CPU named by `t`, if any.
pub open spec fn cpu_of_token(t: Seq<char>) -> Option<Cpu> {
    if t == "x86_64"@ {
        Some(Cpu::X86_64)
    } else if t == "aarch64"@ {
        Some(Cpu::Aarch64)
    } else {
        None
    }
}

impl Os {
    /// The token that names this operating system.
    pub fn to_string(&self) -> (r: String)
        ensures
            r@ == os_token(*self),
    {
        match self {
            Os::Macos => String::from_str("macos"),
            Os::Linux => String::from_str("linux"),
            Os::Windows => String::from_str("windows"),
        }
    }

    /// The operating system named by `t`, if any.
    pub fn from_token(t: &str) -> (r: Option<Os>)
        ensures
            r == os_of_token(t@),
    {
        if str_eq(t, "macos") {
            Some(Os::Macos)
        } else if str_eq(t, "linux") {
            Some(Os::Linux)
        } else if str_eq(t, "windows") {
            Some(Os::Windows)
        } else {
            None
        }
    }
}

impl Cpu {
    /// The token that names this CPU architecture.
    pub fn to_string(&self) -> (r: String)
        ensures
            r@ == cpu_token(*self),
    {
        match self {
            Cpu::X86_64 => String::from_str("x86_64"),
            Cpu::Aarch64 => String::from_str("aarch64"),
        }
    }

    /// The CPU architecture named by `t`, if any.
    pub fn from_token(t: &str) -> (r: Option<Cpu>)
        ensures
            r == cpu_of_token(t@),
    {
        if str_eq(t, "x86_64") {
            Some(Cpu::X86_64)
        } else if str_eq(t, "aarch64") {
            Some(Cpu::Aarch64)
        } else {
            None
        }
    }
}

} // verus!

verus! {

/// Filesystem metadata captured for an input file and recorded in tar headers.
#[derive(Clone, Copy, Debug, PartialEq, Eq, Structural)]
pub struct FileMeta {
    pub mode: u32,
    pub mtime: u64,
    pub uid: u64,
    pub gid: u64,
}

/// One input file: its name, its bytes and, where captured, its metadata.
#[derive(Debug)]
pub struct PlatformFile {
    pub name: String,
    pub data: Vec<u8>,
    pub metadata: Option<FileMeta>,
}

impl PlatformFile {
    pub fn new(name: String, data: Vec<u8>, metadata: Option<FileMeta>) -> (r: PlatformFile)
        ensures
            r.name == name,
            r.data == data,
            r.metadata == metadata,
    {
        PlatformFile { name, data, metadata }
    }
}

/// A loadable extension binary together with its file stem, the name the
/// loaders use as entry point.
#[derive(Debug)]
pub struct LoadablePlatformFile {
    pub file_stem: String,
    pub file: PlatformFile,
}

/// The classified contents of one `{os}-{cpu}` input directory.
#[derive(Debug)]
pub struct PlatformDirectory {
    pub os: Os,
    pub cpu: Cpu,
    pub loadable_files: Vec<LoadablePlatformFile>,
    pub static_files: Vec<PlatformFile>,
    pub header_files: Vec<PlatformFile>,
}

/// Why an input directory is not a platform directory.
#[derive(Debug)]
pub enum PlatformDirectoryError {
    IOError(std::io::Error),
    MissingDirectoryName,
    InvalidCharacters,
    InvalidDirectoryName(String),
    InvalidOsValue(String),
    InvalidCpuValue(String),
}

/// What a directory name means, as a value of the specification.
pub enum DirNameOutcome {
    Valid(Os, Cpu),
    BadName,
    BadOs(Seq<char>),
    BadCpu(Seq<char>),
}

/// The meaning of a directory name: `{os}-{cpu}` with exactly two
/// dash-separated parts, the first checked before the second is looked for.
pub open spec fn dir_name_outcome(s: Seq<char>) -> DirNameOutcome {
    let k1 = crate::text::index_of(s, '-');
    let seg0 = s.take(k1);
    match os_of_token(seg0) {
        None => DirNameOutcome::BadOs(seg0),
        Some(os) => if k1 == s.len() {
            DirNameOutcome::BadName
        } else {
            let rest = s.skip(k1 + 1);
            let k2 = crate::text::index_of(rest, '-');
            let seg1 = rest.take(k2);
            match cpu_of_token(seg1) {
                None => DirNameOutcome::BadCpu(seg1),
                Some(cpu) => if k2 < rest.len() {
                    DirNameOutcome::BadName
                } else {
                    DirNameOutcome::Valid(os, cpu)
                },
            }
        },
    }
}

/// Whether parsing the directory name `dirname` gave `r`, as `dir_name_outcome` says.
pub open spec fn dir_name_result_matches(
    dirname: Seq<char>,
    r: Result<(Os, Cpu), PlatformDirectoryError>,
) -> bool {
    match dir_name_outcome(dirname) {
        DirNameOutcome::Valid(os, cpu) => r == Ok::<(Os, Cpu), PlatformDirectoryError>((os, cpu)),
        DirNameOutcome::BadName => r is Err && r->Err_0 is InvalidDirectoryName
            && r->Err_0->InvalidDirectoryName_0@ == dirname,
        DirNameOutcome::BadOs(t) => r is Err && r->Err_0 is InvalidOsValue
            && r->Err_0->InvalidOsValue_0@ == t,
        DirNameOutcome::BadCpu(t) => r is Err && r->Err_0 is InvalidCpuValue
            && r->Err_0->InvalidCpuValue_0@ == t,
    }
}

/// Reads the platform that a directory name `{os}-{cpu}` designates.
pub fn parse_platform_dir_name(dirname: &str) -> (r: Result<(Os, Cpu), PlatformDirectoryError>)
    ensures
        dir_name_result_matches(dirname@, r),
{
    let n = dirname.unicode_len();
    let k1 = crate::text::find_char(dirname, '-');
    proof { crate::text::lemma_index_of_bounds(dirname@, '-'); }
    let seg0 = dirname.substring_char(0, k1);
    assert(seg0@ =~= dirname@.take(k1 as int));
    let os = match Os::from_token(seg0) {
        Some(os) => os,
        None => {
            return Err(PlatformDirectoryError::InvalidOsValue(String::from_str(seg0)));
        },
    };
    if k1 == n {
        return Err(PlatformDirectoryError::InvalidDirectoryName(String::from_str(dirname)));
    }
    let rest = dirname.substring_char(k1 + 1, n);
    assert(rest@ =~= dirname@.skip(k1 + 1));
    let k2 = crate::text::find_char(rest, '-');
    proof { crate::text::lemma_index_of_bounds(rest@, '-'); }
    let seg1 = rest.substring_char(0, k2);
    assert(seg1@ =~= rest@.take(k2 as int));
    let cpu = match Cpu::from_token(seg1) {
        Some(cpu) => cpu,
        None => {
            return Err(PlatformDirectoryError::InvalidCpuValue(String::from_str(seg1)));
        },
    };
    if k2 < rest.unicode_len() {
        return Err(PlatformDirectoryError::InvalidDirectoryName(String::from_str(dirname)));
    }
    Ok((os, cpu))
}

} // verus!

verus! {

/// The extension of a file name, as `Path::extension` reads it: the text
/// after the last dot, where that dot is not the name's first character.
pub open spec fn extension_of(name: Seq<char>) -> Option<Seq<char>> {
    let k = crate::text::last_index_of(name, '.');
    if name == ".."@ || k <= 0 {
        None
    } else {
        Some(name.skip(k + 1))
    }
}

/// The stem of a file name, as `Path::file_stem` reads it.
pub open spec fn stem_of(name: Seq<char>) -> Seq<char> {
    match extension_of(name) {
        None => name,
        Some(_) => name.take(crate::text::last_index_of(name, '.')),
    }
}

/// The buckets that input files are sorted into.
#[derive(Clone, Copy, Debug, PartialEq, Eq, Structural)]
pub enum FileKind {
    Loadable,
    Static,
    Header,
}

/// The bucket that an extension selects: `so`, `dll`, `dylib` are loadable,
/// `a` static, `h` a header; any other extension none.
pub open spec fn kind_of_extension(ext: Seq<char>) -> Option<FileKind> {
    if ext == "so"@ || ext == "dll"@ || ext == "dylib"@ {
        Some(FileKind::Loadable)
    } else if ext == "a"@ {
        Some(FileKind::Static)
    } else if ext == "h"@ {
        Some(FileKind::Header)
    } else {
        None
    }
}

/// The bucket of a file, by the extension of its name.
pub open spec fn kind_of_file_name(name: Seq<char>) -> Option<FileKind> {
    match extension_of(name) {
        None => None,
        Some(ext) => kind_of_extension(ext),
    }
}

/// Splits a file name into its stem and its extension, as `Path` does.
pub fn split_extension(name: &str) -> (r: (String, Option<String>))
    ensures
        r.0@ == stem_of(name@),
        match r.1 {
            Some(e) => extension_of(name@) == Some(e@),
            None => extension_of(name@) is None,
        },
{
    let n = name.unicode_len();
    proof { crate::text::lemma_last_index_of_bounds(name@, '.'); }
    if crate::text::str_eq(name, "..") {
        return (String::from_str(name), None);
    }
    match crate::text::rfind_char(name, '.') {
        None => (String::from_str(name), None),
        Some(k) => {
            if k == 0 {
                (String::from_str(name), None)
            } else {
                let stem = name.substring_char(0, k);
                let ext = name.substring_char(k + 1, n);
                assert(stem@ =~= name@.take(k as int));
                assert(ext@ =~= name@.skip(k + 1));
                (String::from_str(stem), Some(String::from_str(ext)))
            }
        },
    }
}

/// The bucket of a file, by the extension of its name.
pub fn classify_file_name(name: &str) -> (r: Option<FileKind>)
    ensures
        r == kind_of_file_name(name@),
{
    let (_stem, ext) = split_extension(name);
    match ext {
        None => None,
        Some(e) => {
            let e = e.as_str();
            if crate::text::str_eq(e, "so") || crate::text::str_eq(e, "dll")
                || crate::text::str_eq(e, "dylib") {
                Some(FileKind::Loadable)
            } else if crate::text::str_eq(e, "a") {
                Some(FileKind::Static)
            } else if crate::text::str_eq(e, "h") {
                Some(FileKind::Header)
            } else {
                None
            }
        },
    }
}

/// The files of `files` that fall into bucket `k`, in order.
pub open spec fn files_of_kind(files: Seq<PlatformFile>, k: FileKind) -> Seq<PlatformFile> {
    files.filter(|f: PlatformFile| kind_of_file_name(f.name@) == Some(k))
}

impl PlatformDirectory {
    /// Builds the classified platform directory named `dirname` from the
    /// files read in it: loadable, static and header files keep their order,
    /// files of any other extension are left out.
    pub fn from_entries(dirname: &str, files: Vec<PlatformFile>) -> (r: Result<
        PlatformDirectory,
        PlatformDirectoryError,
    >)
        ensures
            dir_name_result_matches(
                dirname@,
                match r {
                    Ok(d) => Ok((d.os, d.cpu)),
                    Err(e) => Err(e),
                },
            ),
            r matches Ok(d) ==> {
                &&& d.loadable_files@.map_values(|l: LoadablePlatformFile| l.file) == files_of_kind(
                    files@,
                    FileKind::Loadable,
                )
                &&& forall|i: int|
                    0 <= i < d.loadable_files@.len() ==> d.loadable_files@[i].file_stem@
                        == stem_of(#[trigger] d.loadable_files@[i].file.name@)
                &&& d.static_files@ == files_of_kind(files@, FileKind::Static)
                &&& d.header_files@ == files_of_kind(files@, FileKind::Header)
            },
    {
        let (os, cpu) = match parse_platform_dir_name(dirname) {
            Ok(p) => p,
            Err(e) => {
                return Err(e);
            },
        };
        let mut loadable_files: Vec<LoadablePlatformFile> = Vec::new();
        let mut static_files: Vec<PlatformFile> = Vec::new();
        let mut header_files: Vec<PlatformFile> = Vec::new();
        let total = files.len();
        let ghost all = files@;
        let mut rest = files;
        let mut i: usize = 0;
        assert(all.skip(0) =~= all);
        while rest.len() > 0
            invariant
                i <= all.len(),
                all.len() == total,
                rest@ == all.skip(i as int),
                loadable_files@.map_values(|l: LoadablePlatformFile| l.file) == files_of_kind(
                    all.take(i as int),
                    FileKind::Loadable,
                ),
                forall|j: int|
                    0 <= j < loadable_files@.len() ==> loadable_files@[j].file_stem@ == stem_of(
                        #[trigger] loadable_files@[j].file.name@,
                    ),
                static_files@ == files_of_kind(all.take(i as int), FileKind::Static),
                header_files@ == files_of_kind(all.take(i as int), FileKind::Header),
            decreases rest.len(),
        {
            let f = rest.remove(0);
            assert(f == all[i as int]);
            let ghost prefix = all.take(i as int);
            assert(all.take(i + 1) =~= prefix.push(f));
            assert(rest@ =~= all.skip(i + 1));
            proof {
                reveal(Seq::filter);
                assert(all.take(i + 1).drop_last() =~= prefix);
            }
            match classify_file_name(f.name.as_str()) {
                Some(FileKind::Loadable) => {
                    let (stem, _ext) = split_extension(f.name.as_str());
                    let ghost before = loadable_files@;
                    loadable_files.push(LoadablePlatformFile { file_stem: stem, file: f });
                    assert(loadable_files@.map_values(|l: LoadablePlatformFile| l.file) =~= before.map_values(
                        |l: LoadablePlatformFile| l.file,
                    ).push(f));
                },
                Some(FileKind::Static) => {
                    static_files.push(f);
                },
                Some(FileKind::Header) => {
                    header_files.push(f);
                },
                None => {},
            }
            i = i + 1;
        }
        assert(all.take(all.len() as int) =~= all);
        Ok(PlatformDirectory { os, cpu, loadable_files, static_files, header_files })
    }
}

} // verus!
