//! The gem builder: a RubyGems-shaped outer tar holding `metadata.gz`,
//! `data.tar.gz` and `checksums.yaml.gz`.
use vstd::prelude::*;
use crate::archive::{
    gzip, gzip_of, header_spec, simple_tar_path, tar_block, tar_gz_stream, tar_header, tar_name_chars_ok,
    tar_path_ok, zeros, HeaderFill,
    TarGzWriter, TarWriter,
};
use crate::digest::{hex_lower, sha256_hex, sha256_of, sha512_hex, sha512_of};
use crate::json::{json_quoted, json_string};
use crate::platform::{Cpu, Os};
use crate::project::Project;
use crate::registry::{path_text, Artifact, GeneratedAssetKind};
use crate::spec::TargetGem;
use crate::text::{join, joined, replace_char, replaced};
use crate::version::version_text;

verus! {

/// The fields of a gem specification.
#[derive(Debug)]
pub struct Gemspec {
    pub name: String,
    pub version: String,
    pub authors: Vec<String>,
    pub email: Vec<String>,
    pub homepage: String,
    pub summary: String,
    pub description: String,
    pub licenses: Vec<String>,
    pub metadata: Vec<(String, String)>,
    pub platform: String,
    pub module_name: String,
}

/// The SHA-256 of `data` in lowercase hex.
pub fn gem_checksum_sha256(data: &[u8]) -> (r: String)
    ensures
        r@ == hex_lower(sha256_of(data@)),
{
    sha256_hex(data)
}

/// The SHA-512 of `data` in lowercase hex.
pub fn gem_checksum_sha512(data: &[u8]) -> (r: String)
    ensures
        r@ == hex_lower(sha512_of(data@)),
{
    sha512_hex(data)
}

/// A YAML list of JSON-quoted items, one `- item` per line.
pub open spec fn yaml_list(items: Seq<Seq<char>>) -> Seq<char> {
    joined(items.map_values(|i: Seq<char>| "- "@ + json_quoted(i)), "\n"@)
}

/// The text of each string.
pub open spec fn string_views(items: Seq<String>) -> Seq<Seq<char>> {
    items.map_values(|i: String| i@)
}

/// The YAML list of `items`.
pub fn gem_metadata_list_helper(items: &Vec<String>) -> (r: String)
    ensures
        r@ == yaml_list(string_views(items@)),
{
    let mut lines: Vec<String> = Vec::new();
    let mut i: usize = 0;
    while i < items.len()
        invariant
            i <= items.len(),
            lines@.map_values(|l: String| l@) == items@.take(i as int).map_values(
                |i: String| "- "@ + json_quoted(i@),
            ),
        decreases items.len() - i,
    {
        let mut line = String::from_str("- ");
        line.append(json_string(items[i].as_str()).as_str());
        let ghost before = lines@;
        lines.push(line);
        assert(items@.take(i + 1) =~= items@.take(i as int).push(items@[i as int]));
        assert(lines@.map_values(|l: String| l@) =~= before.map_values(|l: String| l@).push(
            "- "@ + json_quoted(items@[i as int]@),
        ));
        assert(lines@.map_values(|l: String| l@) =~= items@.take(i + 1).map_values(
            |i: String| "- "@ + json_quoted(i@),
        ));
        i = i + 1;
    }
    assert(items@.take(items.len() as int) =~= items@);
    assert(lines@.map_values(|l: String| l@) =~= string_views(items@).map_values(
        |i: Seq<char>| "- "@ + json_quoted(i),
    ));
    join(&lines, "\n")
}

/// The Ruby platform of `(os, cpu)`: `{cpu}-{os}`, with `darwin`, `linux`,
/// `mingw32` and `x86_64`, `arm64`.
pub open spec fn ruby_platform_text(os: Os, cpu: Cpu) -> Seq<char> {
    (match cpu {
        Cpu::X86_64 => "x86_64"@,
        Cpu::Aarch64 => "arm64"@,
    }) + "-"@ + (match os {
        Os::Macos => "darwin"@,
        Os::Linux => "linux"@,
        Os::Windows => "mingw32"@,
    })
}

/// The Ruby platform of `(os, cpu)`.
pub fn ruby_platform(os: &Os, cpu: &Cpu) -> (r: String)
    ensures
        r@ == ruby_platform_text(*os, *cpu),
{
    let mut s = match cpu {
        Cpu::X86_64 => String::from_str("x86_64"),
        Cpu::Aarch64 => String::from_str("arm64"),
    };
    s.append("-");
    match os {
        Os::Macos => s.append("darwin"),
        Os::Linux => s.append("linux"),
        Os::Windows => s.append("mingw32"),
    }
    s
}

/// The gem specification document; dashes in the version become dots.
pub open spec fn gem_metadata_text(
    os: Os,
    cpu: Cpu,
    name: Seq<char>,
    version: Seq<char>,
    files: Seq<Seq<char>>,
    email: Seq<char>,
    authors: Seq<Seq<char>>,
    licenses: Seq<Seq<char>>,
    description: Seq<char>,
    summary: Seq<char>,
    homepage: Seq<char>,
    date: Seq<char>,
) -> Seq<char> {
    "--- !ruby/object:Gem::Specification\nname: "@
        + name
        + "\nversion: !ruby/object:Gem::Version\n  version: "@
        + replaced(version, '-', "."@)
        + "\nplatform: "@
        + ruby_platform_text(os, cpu)
        + "\nauthors:\n"@
        + yaml_list(authors)
        + "\nautorequire:\nbindir: bin\ncert_chain: []\ndate: "@
        + date
        + " 00:00:00.000000000 Z\ndependencies: []\ndescription: '"@
        + description
        + "'\nsummary: '"@
        + summary
        + "'\nemail:\n- "@
        + email
        + "\nexecutables: []\nextensions: []\nextra_rdoc_files: []\nfiles:\n"@
        + yaml_list(files)
        + "\nhomepage: '"@
        + homepage
        + "'\nlicenses:\n"@
        + yaml_list(licenses)
        + "\npost_install_message:\nrdoc_options: []\nrequire_paths:\n- lib\nrequired_ruby_version: !ruby/object:Gem::Requirement\n  requirements:\n  - - \">=\"\n    - !ruby/object:Gem::Version\n      version: '0'\nrequired_rubygems_version: !ruby/object:Gem::Requirement\n  requirements:\n  - - \">=\"\n    - !ruby/object:Gem::Version\n      version: '0'\nrequirements: []\nrubygems_version: 3.4.10\nsigning_key:\nspecification_version: 4\ntest_files: []\n"@
}

/// The gem specification document for the given fields, dated `date`.
pub fn gem_metadata_template(
    os: &Os,
    cpu: &Cpu,
    name: &str,
    version: &str,
    files: &Vec<String>,
    email: &str,
    authors: &Vec<String>,
    licenses: &Vec<String>,
    description: &str,
    summary: &str,
    homepage: &str,
    date: &str,
) -> (r: String)
    ensures
        r@ == gem_metadata_text(
            *os,
            *cpu,
            name@,
            version@,
            string_views(files@),
            email@,
            string_views(authors@),
            string_views(licenses@),
            description@,
            summary@,
            homepage@,
            date@,
        ),
{
    let platform = ruby_platform(os, cpu);
    let authors_text = gem_metadata_list_helper(authors);
    let files_text = gem_metadata_list_helper(files);
    let licenses_text = gem_metadata_list_helper(licenses);
    let dotted = replace_char(version, '-', ".");
    let mut s = String::from_str("--- !ruby/object:Gem::Specification\nname: ");
    s.append(name);
    s.append("\nversion: !ruby/object:Gem::Version\n  version: ");
    s.append(dotted.as_str());
    s.append("\nplatform: ");
    s.append(platform.as_str());
    s.append("\nauthors:\n");
    s.append(authors_text.as_str());
    s.append("\nautorequire:\nbindir: bin\ncert_chain: []\ndate: ");
    s.append(date);
    s.append(" 00:00:00.000000000 Z\ndependencies: []\ndescription: '");
    s.append(description);
    s.append("'\nsummary: '");
    s.append(summary);
    s.append("'\nemail:\n- ");
    s.append(email);
    s.append("\nexecutables: []\nextensions: []\nextra_rdoc_files: []\nfiles:\n");
    s.append(files_text.as_str());
    s.append("\nhomepage: '");
    s.append(homepage);
    s.append("'\nlicenses:\n");
    s.append(licenses_text.as_str());
    s.append("\npost_install_message:\nrdoc_options: []\nrequire_paths:\n- lib\nrequired_ruby_version: !ruby/object:Gem::Requirement\n  requirements:\n  - - \">=\"\n    - !ruby/object:Gem::Version\n      version: '0'\nrequired_rubygems_version: !ruby/object:Gem::Requirement\n  requirements:\n  - - \">=\"\n    - !ruby/object:Gem::Version\n      version: '0'\nrequirements: []\nrubygems_version: 3.4.10\nsigning_key:\nspecification_version: 4\ntest_files: []\n");
    s
}

/// `checksums.yaml`: the SHA-256 and SHA-512 of `metadata.gz` and `data.tar.gz`.
pub open spec fn checksums_yaml_text(metadata_gz: Seq<u8>, data_targz: Seq<u8>) -> Seq<char> {
    "---\nSHA256:\n  metadata.gz: '"@
        + hex_lower(sha256_of(metadata_gz))
        + "'\n  data.tar.gz: '"@
        + hex_lower(sha256_of(data_targz))
        + "'\nSHA512:\n  metadata.gz: '"@
        + hex_lower(sha512_of(metadata_gz))
        + "'\n  data.tar.gz: '"@
        + hex_lower(sha512_of(data_targz))
        + "'\n"@
}

/// The `checksums.yaml` text for the two archive members.
pub fn checksums_yaml(metadata_gz: &[u8], data_targz: &[u8]) -> (r: String)
    ensures
        r@ == checksums_yaml_text(metadata_gz@, data_targz@),
{
    let mut s = String::from_str("---\nSHA256:\n  metadata.gz: '");
    s.append(gem_checksum_sha256(metadata_gz).as_str());
    s.append("'\n  data.tar.gz: '");
    s.append(gem_checksum_sha256(data_targz).as_str());
    s.append("'\nSHA512:\n  metadata.gz: '");
    s.append(gem_checksum_sha512(metadata_gz).as_str());
    s.append("'\n  data.tar.gz: '");
    s.append(gem_checksum_sha512(data_targz).as_str());
    s.append("'\n");

    s
}

/// The gzip of the `checksums.yaml` text for the two archive members.
pub fn checksums_yaml_gz(metadata_gz: &[u8], data_targz: &[u8]) -> (r: Result<
    Vec<u8>,
    std::io::Error,
>)
    ensures
        r is Ok,
        r matches Ok(b) ==> b@ == gzip_of(
            vstd::utf8::encode_utf8(checksums_yaml_text(metadata_gz@, data_targz@)),
        ),
{
    let text = checksums_yaml(metadata_gz, data_targz);
    gzip(text.as_str().as_bytes())
}

/// The `lib/{name}.rb` module that locates and loads the bundled extension.
pub open spec fn lib_rb_text(version: Seq<char>, entrypoint: Seq<char>, module_name: Seq<char>) -> Seq<
    char,
> {
    "\nmodule "@
        + module_name
        + "\n  class Error < StandardError; end\n  VERSION = \""@
        + version
        + "\"\n  def self.loadable_path\n    File.expand_path('"@
        + entrypoint
        + "', File.dirname(__FILE__))\n  end\n  def self.load(db)\n    db.load_extension(self.loadable_path)\n  end\nend\n\n"@
}

/// The Ruby module file for `version`, loading `entrypoint`.
pub fn lib_rb(version: &crate::version::SemVersion, entrypoint: &str, module_name: &str) -> (r: String)
    ensures
        r@ == lib_rb_text(version_text(*version), entrypoint@, module_name@),
{
    let version_text = version.to_string();
    let mut s = String::from_str("\nmodule ");
    s.append(module_name);
    s.append("\n  class Error < StandardError; end\n  VERSION = \"");
    s.append(version_text.as_str());
    s.append("\"\n  def self.loadable_path\n    File.expand_path('");
    s.append(entrypoint);
    s.append("', File.dirname(__FILE__))\n  end\n  def self.load(db)\n    db.load_extension(self.loadable_path)\n  end\nend\n\n");
    s
}

/// `{name}-{version with dots for dashes}-{ruby platform}.gem`.
pub open spec fn gem_file_name(project: Project, os: Os, cpu: Cpu) -> Seq<char> {
    project.spec.package.name@ + "-"@ + replaced(version_text(project.version), '-', "."@) + "-"@
        + ruby_platform_text(os, cpu) + ".gem"@
}

/// Relies on `chrono::offset::Local::now`, formatted `%Y-%m-%d`: today's
/// date where the build runs.
#[verifier::external_body]
fn today_local_date() -> (r: String) {
    chrono::offset::Local::now().format("%Y-%m-%d").to_string()
}

/// A gem under construction: the library payload written so far.
pub struct Gem {
    pub library_tarball: TarGzWriter,
    pub library_filenames: Vec<String>,
    /// The payload files written so far, as (path, bytes), in order.
    pub contents: Ghost<Seq<(Seq<char>, Seq<u8>)>>,
}

/// The permission bits of the files in a gem's payload.
pub const GEM_FILE_MODE: u32 = 0o777;

/// The tar members of a gem payload holding `contents`, each with mode `0o777`.
pub open spec fn gem_payload_members(contents: Seq<(Seq<char>, Seq<u8>)>) -> Seq<u8>
    decreases contents.len(),
{
    if contents.len() == 0 {
        Seq::empty()
    } else {
        let c = contents.last();
        gem_payload_members(contents.drop_last()) + tar_block(
            header_spec(c.0, c.1.len() as u64, HeaderFill::Mode(GEM_FILE_MODE)),
            c.1,
        )
    }
}

/// The specification document of the gem of `project` for `(os, cpu)`
/// whose payload holds `contents`, dated `date`.
pub open spec fn gem_metadata_of(
    contents: Seq<(Seq<char>, Seq<u8>)>,
    os: Os,
    cpu: Cpu,
    project: Project,
    date: Seq<char>,
) -> Seq<char> {
    gem_metadata_text(
        os,
        cpu,
        project.spec.package.name@,
        version_text(project.version),
        contents.map_values(|c: (Seq<char>, Seq<u8>)| c.0),
        "TODO"@,
        string_views(project.spec.package.authors@),
        seq![project.spec.package.license@],
        project.spec.package.description@,
        project.spec.package.description@,
        "https://github.com/TODO"@,
        date,
    )
}

/// The bytes of the gem of `project` for `(os, cpu)` whose payload holds
/// `contents`, dated `date`: an outer tar of `metadata.gz`, `data.tar.gz`
/// and `checksums.yaml.gz`, in that order.
pub open spec fn gem_bytes(
    contents: Seq<(Seq<char>, Seq<u8>)>,
    os: Os,
    cpu: Cpu,
    project: Project,
    date: Seq<char>,
) -> Seq<u8> {
    let m = gzip_of(vstd::utf8::encode_utf8(gem_metadata_of(contents, os, cpu, project, date)));
    let d = gzip_of(gem_payload_members(contents) + zeros(1024));
    let c = gzip_of(vstd::utf8::encode_utf8(checksums_yaml_text(m, d)));
    tar_block(header_spec("metadata.gz"@, m.len() as u64, HeaderFill::Bare), m) + tar_block(
        header_spec("data.tar.gz"@, d.len() as u64, HeaderFill::Bare),
        d,
    ) + tar_block(header_spec("checksums.yaml.gz"@, c.len() as u64, HeaderFill::Bare), c) + zeros(
        1024,
    )
}

impl Gem {
    /// The file names and the payload tarball both hold exactly the files written.
    pub open spec fn wf(&self) -> bool {
        &&& string_views(self.library_filenames@) == self.contents@.map_values(
            |c: (Seq<char>, Seq<u8>)| c.0,
        )
        &&& tar_gz_stream(self.library_tarball) == gem_payload_members(self.contents@)
    }

    /// A gem with an empty payload.
    pub fn new() -> (r: Gem)
        ensures
            r.wf(),
            r.contents@.len() == 0,
            r.library_filenames@.len() == 0,
    {
        let g = Gem {
            library_tarball: TarGzWriter::new(),
            library_filenames: Vec::new(),
            contents: Ghost(Seq::empty()),
        };
        assert(string_views(g.library_filenames@) =~= Seq::<Seq<char>>::empty());
        assert(g.contents@.map_values(|c: (Seq<char>, Seq<u8>)| c.0) =~= Seq::<Seq<char>>::empty());
        g
    }

    /// Adds `data` to the payload at `path`, with mode `0o777`; an error
    /// where the path does not fit a tar header.
    pub fn write_library_file(&mut self, path: &str, data: &[u8]) -> (r: Result<(), std::io::Error>)
        requires
            old(self).wf(),
        ensures
            r is Ok ==> final(self).wf() && final(self).contents@ == old(self).contents@.push(
                (path@, data@),
            ),
            r is Ok ==> string_views(final(self).library_filenames@) == string_views(
                old(self).library_filenames@,
            ).push(path@),
            !tar_path_ok(path@) ==> r is Err,
            simple_tar_path(path@) ==> r is Ok,
            r is Err ==> final(self).library_filenames@ == old(self).library_filenames@,
    {
        let h = match tar_header(path, data.len() as u64, HeaderFill::Mode(GEM_FILE_MODE)) {
            Ok(h) => h,
            Err(e) => {
                return Err(e);
            },
        };
        match self.library_tarball.append(&h, data) {
            Ok(()) => {},
            Err(e) => {
                return Err(e);
            },
        }
        let ghost before = self.library_filenames@;
        self.library_filenames.push(String::from_str(path));
        self.contents = Ghost(self.contents@.push((path@, data@)));
        assert(string_views(self.library_filenames@) =~= string_views(before).push(path@));
        assert(self.contents@.map_values(|c: (Seq<char>, Seq<u8>)| c.0) =~= old(
            self,
        ).contents@.map_values(|c: (Seq<char>, Seq<u8>)| c.0).push(path@));
        assert(self.contents@.drop_last() =~= old(self).contents@);
        Ok(())
    }

    /// The gem specification document for `(os, cpu)`, dated `date`.
    pub fn metadata(&self, os: &Os, cpu: &Cpu, project: &Project, date: &str) -> (r: String)
        requires
            self.wf(),
        ensures
            r@ == gem_metadata_of(self.contents@, *os, *cpu, *project, date@),
    {
        let mut licenses: Vec<String> = Vec::new();
        licenses.push(project.spec.package.license.clone());
        assert(string_views(licenses@) =~= seq![project.spec.package.license@]);
        gem_metadata_template(
            os,
            cpu,
            project.spec.package.name.as_str(),
            project.version.to_string().as_str(),
            &self.library_filenames,
            "TODO",
            &project.spec.package.authors,
            &licenses,
            project.spec.package.description.as_str(),
            project.spec.package.description.as_str(),
            "https://github.com/TODO",
            date,
        )
    }

    /// The gzip of the gem specification document for `(os, cpu)`, dated `date`.
    pub fn metadata_gz(&self, os: &Os, cpu: &Cpu, project: &Project, date: &str) -> (r: Result<
        Vec<u8>,
        std::io::Error,
    >)
        requires
            self.wf(),
        ensures
            r is Ok,
            r matches Ok(b) ==> b@ == gzip_of(
                vstd::utf8::encode_utf8(gem_metadata_of(self.contents@, *os, *cpu, *project, date@)),
            ),
    {
        let metadata = self.metadata(os, cpu, project, date);
        gzip(metadata.as_str().as_bytes())
    }

    /// Finishes the gem for `(os, cpu)` with its specification dated `date`:
    /// its file name, and the outer tar of `metadata.gz`, `data.tar.gz` and
    /// `checksums.yaml.gz`, in that order.
    pub fn complete_on(self, os: &Os, cpu: &Cpu, project: &Project, date: &str) -> (r: Result<
        (String, Vec<u8>),
        std::io::Error,
    >)
        requires
            self.wf(),
        ensures
            r is Ok,
            r matches Ok((name, bytes)) ==> name@ == gem_file_name(*project, *os, *cpu) && bytes@
                == gem_bytes(self.contents@, *os, *cpu, *project, date@),
    {
        proof {
            reveal_strlit("metadata.gz");
            reveal_strlit("data.tar.gz");
            reveal_strlit("checksums.yaml.gz");
            reveal_with_fuel(tar_name_chars_ok, 20);
            assert(simple_tar_path("metadata.gz"@));
            assert(simple_tar_path("data.tar.gz"@));
            assert(simple_tar_path("checksums.yaml.gz"@));
        }
        let metadata_gz = match self.metadata_gz(os, cpu, project, date) {
            Ok(b) => b,
            Err(e) => {
                return Err(e);
            },
        };
        let mut outer = TarWriter::new();
        let h = match tar_header("metadata.gz", metadata_gz.len() as u64, HeaderFill::Bare) {
            Ok(h) => h,
            Err(e) => {
                return Err(e);
            },
        };
        match outer.append(&h, metadata_gz.as_slice()) {
            Ok(()) => {},
            Err(e) => {
                return Err(e);
            },
        }
        let data_tar_gz = match self.library_tarball.into_gz() {
            Ok(g) => match g.finish() {
                Ok(b) => b,
                Err(e) => {
                    return Err(e);
                },
            },
            Err(e) => {
                return Err(e);
            },
        };
        let h = match tar_header("data.tar.gz", data_tar_gz.len() as u64, HeaderFill::Bare) {
            Ok(h) => h,
            Err(e) => {
                return Err(e);
            },
        };
        match outer.append(&h, data_tar_gz.as_slice()) {
            Ok(()) => {},
            Err(e) => {
                return Err(e);
            },
        }
        let checksums = match checksums_yaml_gz(metadata_gz.as_slice(), data_tar_gz.as_slice()) {
            Ok(b) => b,
            Err(e) => {
                return Err(e);
            },
        };
        let h = match tar_header("checksums.yaml.gz", checksums.len() as u64, HeaderFill::Bare) {
            Ok(h) => h,
            Err(e) => {
                return Err(e);
            },
        };
        match outer.append(&h, checksums.as_slice()) {
            Ok(()) => {},
            Err(e) => {
                return Err(e);
            },
        }
        let gem_tar = match outer.finish() {
            Ok(b) => b,
            Err(e) => {
                return Err(e);
            },
        };
        let mut name = project.spec.package.name.clone();
        name.append("-");
        name.append(replace_char(project.version.to_string().as_str(), '-', ".").as_str());
        name.append("-");
        name.append(ruby_platform(os, cpu).as_str());
        name.append(".gem");
        Ok((name, gem_tar))
    }

    /// Finishes the gem for `(os, cpu)`, its specification dated today.
    pub fn complete(self, os: &Os, cpu: &Cpu, project: &Project) -> (r: Result<
        (String, Vec<u8>),
        std::io::Error,
    >)
        requires
            self.wf(),
        ensures
            r is Ok,
            r matches Ok((name, bytes)) ==> name@ == gem_file_name(*project, *os, *cpu) && exists|
                date: Seq<char>,
            | bytes@ == gem_bytes(self.contents@, *os, *cpu, *project, date),
    {
        let date = today_local_date();
        self.complete_on(os, cpu, project, date.as_str())
    }
}

/// The payload of the gem for `pd`: the first loadable file under `lib/`,
/// then `lib/{name}.rb` loading it.
pub open spec fn gem_files(project: Project, pd: crate::platform::PlatformDirectory, module_name: Seq<char>) -> Seq<
    (Seq<char>, Seq<u8>),
> {
    let l = pd.loadable_files@[0];
    seq![
        ("lib/"@ + l.file.name@, l.file.data@),
        (
            "lib/"@ + replaced(project.spec.package.name@, '-', "_"@) + ".rb"@,
            vstd::utf8::encode_utf8(
                lib_rb_text(version_text(project.version), l.file_stem@, module_name),
            ),
        ),
    ]
}

/// Whether the payload paths of the gem for `pd` are simple archive paths.
pub open spec fn gem_paths_simple(
    project: Project,
    pd: crate::platform::PlatformDirectory,
    module_name: Seq<char>,
) -> bool {
    forall|i: int| 0 <= i < 2 ==> simple_tar_path(#[trigger] gem_files(project, pd, module_name)[i].0)
}

/// One gem per platform directory, in platform order, stored in `dir`:
/// the first loadable file under `lib/`, and `lib/{name}.rb` loading it.
pub fn write_gems(project: &Project, gem_config: &TargetGem, dir: &str) -> (r: Result<
    Vec<Artifact>,
    std::io::Error,
>)
    requires
        forall|i: int|
            0 <= i < project.platform_directories@.len()
                ==> (#[trigger] project.platform_directories@[i]).loadable_files@.len() > 0,
    ensures
        r matches Ok(v) ==> {
            let pds = project.platform_directories@;
            &&& v@.len() == pds.len()
            &&& forall|i: int|
                0 <= i < pds.len() ==> {
                    let name = gem_file_name(*project, pds[i].os, pds[i].cpu);
                    &&& (#[trigger] v@[i]).wf()
                    &&& exists|date: Seq<char>|
                        v@[i].contents@ == gem_bytes(
                            gem_files(*project, pds[i], gem_config.module_name@),
                            pds[i].os,
                            pds[i].cpu,
                            *project,
                            date,
                        )
                    &&& v@[i].asset.kind == GeneratedAssetKind::Gem((pds[i].os, pds[i].cpu))
                    &&& v@[i].asset.name@ == name
                    &&& v@[i].asset.path@ == path_text(dir@, name)
                }
        },
        (forall|i: int|
            0 <= i < project.platform_directories@.len() ==> gem_paths_simple(
                *project,
                #[trigger] project.platform_directories@[i],
                gem_config.module_name@,
            )) ==> r is Ok,
{
    let ghost pds = project.platform_directories@;
    let mut assets: Vec<Artifact> = Vec::new();
    let mut i: usize = 0;
    while i < project.platform_directories.len()
        invariant
            pds == project.platform_directories@,
            i <= pds.len(),
            forall|k: int| 0 <= k < pds.len() ==> (#[trigger] pds[k]).loadable_files@.len() > 0,
            assets@.len() == i,
            forall|k: int|
                0 <= k < i ==> {
                    let name = gem_file_name(*project, pds[k].os, pds[k].cpu);
                    &&& (#[trigger] assets@[k]).wf()
                    &&& exists|date: Seq<char>|
                        assets@[k].contents@ == gem_bytes(
                            gem_files(*project, pds[k], gem_config.module_name@),
                            pds[k].os,
                            pds[k].cpu,
                            *project,
                            date,
                        )
                    &&& assets@[k].asset.kind == GeneratedAssetKind::Gem((pds[k].os, pds[k].cpu))
                    &&& assets@[k].asset.name@ == name
                    &&& assets@[k].asset.path@ == path_text(dir@, name)
                },
        decreases pds.len() - i,
    {
        let pd = &project.platform_directories[i];
        assert(pd.loadable_files@.len() > 0);
        let mut gem = Gem::new();
        let loadable = &pd.loadable_files[0];
        proof { reveal_strlit("lib/"); reveal_strlit(".rb"); }
        let mut lib_path = String::from_str("lib/");
        lib_path.append(loadable.file.name.as_str());
        let ghost files = gem_files(*project, *pd, gem_config.module_name@);
        assert(lib_path@ == files[0].0);
        assert((forall|k: int|
            0 <= k < pds.len() ==> gem_paths_simple(
                *project,
                #[trigger] pds[k],
                gem_config.module_name@,
            )) ==> gem_paths_simple(*project, *pd, gem_config.module_name@));
        assert(gem_paths_simple(*project, *pd, gem_config.module_name@) ==> simple_tar_path(
            files[0].0,
        ) && simple_tar_path(files[1].0));
        match gem.write_library_file(lib_path.as_str(), loadable.file.data.as_slice()) {
            Ok(()) => {},
            Err(e) => {
                return Err(e);
            },
        }
        let mut rb_path = String::from_str("lib/");
        rb_path.append(replace_char(project.spec.package.name.as_str(), '-', "_").as_str());
        rb_path.append(".rb");
        assert(rb_path@ == files[1].0);
        let rb = lib_rb(&project.version, loadable.file_stem.as_str(), gem_config.module_name.as_str());
        match gem.write_library_file(rb_path.as_str(), rb.as_str().as_bytes()) {
            Ok(()) => {},
            Err(e) => {
                return Err(e);
            },
        }
        assert(gem.contents@ =~= gem_files(*project, *pd, gem_config.module_name@));
        let (gem_name, data) = match gem.complete(&pd.os, &pd.cpu, project) {
            Ok(x) => x,
            Err(e) => {
                return Err(e);
            },
        };
        let kind = GeneratedAssetKind::Gem((pd.os, pd.cpu));
        assets.push(Artifact::new(kind, dir, gem_name, data));
        i = i + 1;
    }
    Ok(assets)
}

} // verus!
