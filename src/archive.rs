//! Container primitives: gzip-compressed tar streams, plain tar streams and
//! zip archives, written through the `tar`, `flate2` and `zip` crates.
use vstd::prelude::*;
use std::io::Write;
use crate::platform::{FileMeta, PlatformFile};

verus! {

/// `std::io::Error`, carried through unchanged from the archive writers.
#[verifier::external_type_specification]
#[verifier::external_body]
pub struct ExIoError(std::io::Error);

/// `tar::Header`, one 512-byte entry header.
#[verifier::external_type_specification]
#[verifier::external_body]
pub struct ExTarHeader(tar::Header);

/// `zip::result::ZipError`, the zip writer's error.
#[verifier::external_type_specification]
#[verifier::external_body]
pub struct ExZipError(zip::result::ZipError);

/// The 512 bytes of a tar header, as `tar::Header::as_bytes` gives them.
pub uninterp spec fn header_bytes(h: tar::Header) -> Seq<u8>;

/// Whether `tar::Header::set_path` accepts `p` on a GNU header. Stated only
/// for portable paths, on which every platform's path parsing agrees.
pub uninterp spec fn tar_path_ok(p: Seq<char>) -> bool;

/// The header bytes `h` after `tar::Header::set_path(p)`. Stated only for
/// portable paths.
pub uninterp spec fn with_path(h: Seq<u8>, p: Seq<char>) -> Seq<u8>;

/// A path that holds neither `\` nor `:`. Windows reads `\` as a separator
/// and `C:` as a prefix where Unix reads ordinary characters; without them
/// both read a path alike.
pub open spec fn portable_path(p: Seq<char>) -> bool {
    forall|i: int| 0 <= i < p.len() ==> p[i] != '\\' && p[i] != ':'
}

/// A character of a simple archive path: ASCII letter, digit, `_`, `-`,
/// `.` or `/`.
pub open spec fn tar_name_char(c: char) -> bool {
    ('a' <= c && c <= 'z') || ('A' <= c && c <= 'Z') || ('0' <= c && c <= '9') || c == '_' || c
        == '-' || c == '.' || c == '/'
}

/// Every character is a simple-path character, and no `/` is followed by
/// `.` or another `/`.
pub open spec fn tar_name_chars_ok(p: Seq<char>) -> bool
    decreases p.len(),
{
    if p.len() == 0 {
        true
    } else {
        &&& tar_name_char(p[0])
        &&& (p[0] == '/' && p.len() > 1 ==> p[1] != '.' && p[1] != '/')
        &&& tar_name_chars_ok(p.drop_first())
    }
}

/// A simple relative archive path of 1 to 100 characters: simple-path
/// characters only, not starting with `/` or `.`, and no component starting
/// with `.`. `tar::Header::set_path` accepts every such path on a GNU header:
/// it is relative, has no `..` component, no NUL, and fits the 100-byte name
/// field.
pub open spec fn simple_tar_path(p: Seq<char>) -> bool {
    &&& 1 <= p.len() <= 100
    &&& p[0] != '/'
    &&& p[0] != '.'
    &&& tar_name_chars_ok(p)
}

/// A simple path is portable.
pub proof fn lemma_simple_chars_portable(p: Seq<char>)
    requires
        tar_name_chars_ok(p),
    ensures
        portable_path(p),
    decreases p.len(),
{
    if p.len() > 0 {
        lemma_simple_chars_portable(p.drop_first());
        assert forall|i: int| 0 <= i < p.len() implies p[i] != '\\' && p[i] != ':' by {
            if i > 0 {
                assert(p[i] == p.drop_first()[i - 1]);
            }
        }
    }
}

/// The largest entry, in bytes, below which the zip writer is owed success:
/// without its large-file option it fails once an entry's compressed or
/// uncompressed size passes 4 GiB, and deflate adds far less than that to
/// an entry under 2 GiB.
pub open spec fn zip_entry_limit() -> nat {
    0x8000_0000
}

/// Whether every entry holds fewer than `zip_entry_limit()` bytes.
pub open spec fn zip_entries_small(entries: Seq<(Seq<char>, bool, Seq<u8>)>) -> bool {
    forall|i: int| 0 <= i < entries.len() ==> (#[trigger] entries[i]).2.len() < zip_entry_limit()
}

/// The header bytes `h` after `tar::Header::set_size(size)`.
pub uninterp spec fn with_size(h: Seq<u8>, size: u64) -> Seq<u8>;

/// The header bytes `h` after `tar::Header::set_mode(mode)`.
pub uninterp spec fn with_mode(h: Seq<u8>, mode: u32) -> Seq<u8>;

/// The header bytes `h` after `tar::Header::set_mtime(mtime)`.
pub uninterp spec fn with_mtime(h: Seq<u8>, mtime: u64) -> Seq<u8>;

/// The header bytes `h` after `tar::Header::set_uid(uid)`.
pub uninterp spec fn with_uid(h: Seq<u8>, uid: u64) -> Seq<u8>;

/// The header bytes `h` after `tar::Header::set_gid(gid)`.
pub uninterp spec fn with_gid(h: Seq<u8>, gid: u64) -> Seq<u8>;

/// The header bytes `h` after `tar::Header::set_cksum()`.
pub uninterp spec fn with_cksum(h: Seq<u8>) -> Seq<u8>;

/// The gzip stream, at the default level, of the bytes `data`.
pub uninterp spec fn gzip_of(data: Seq<u8>) -> Seq<u8>;

/// The bytes written so far into a gzip writer, uncompressed.
pub uninterp spec fn gz_input(w: GzWriter) -> Seq<u8>;

/// The tar stream written so far into a gzip-compressed tar writer.
pub uninterp spec fn tar_gz_stream(w: TarGzWriter) -> Seq<u8>;

/// The tar stream written so far into a plain tar writer.
pub uninterp spec fn tar_stream(w: TarWriter) -> Seq<u8>;

/// The entries started so far in a zip writer: name, whether deflated, and
/// the bytes written into it.
pub uninterp spec fn zip_entries(w: ZipArchiveWriter) -> Seq<(Seq<char>, bool, Seq<u8>)>;

/// The zip archive of `entries`, with the writer's default options.
pub uninterp spec fn zip_of(entries: Seq<(Seq<char>, bool, Seq<u8>)>) -> Seq<u8>;

/// `n` zero bytes.
pub open spec fn zeros(n: nat) -> Seq<u8> {
    Seq::new(n, |i: int| 0u8)
}

/// The zero bytes that pad `len` bytes of data to a whole 512-byte block.
pub open spec fn block_padding(len: nat) -> Seq<u8> {
    if len % 512 == 0 {
        Seq::empty()
    } else {
        zeros((512 - len % 512) as nat)
    }
}

/// One archive member as `tar::Builder::append` writes it: the header, the
/// data, then zero padding to a whole block.
pub open spec fn tar_block(header: Seq<u8>, data: Seq<u8>) -> Seq<u8> {
    header + data + block_padding(data.len())
}

/// The bytes of a header made by `tar::Header::new_gnu`: zeros, the GNU
/// magic `ustar ` and version ` \0`, then `set_mtime(0)`.
pub open spec fn empty_gnu_header() -> Seq<u8> {
    with_mtime(
        Seq::new(
            512,
            |i: int|
                if i == 257 {
                    0x75u8
                } else if i == 258 {
                    0x73u8
                } else if i == 259 {
                    0x74u8
                } else if i == 260 {
                    0x61u8
                } else if i == 261 {
                    0x72u8
                } else if i == 262 || i == 263 {
                    0x20u8
                } else {
                    0u8
                },
        ),
        0,
    )
}

/// Relies on `tar::Header::new_gnu`: the empty GNU header.
#[verifier::external_body]
pub(crate) fn new_gnu_header() -> (r: tar::Header)
    ensures
        header_bytes(r) == empty_gnu_header(),
{
    tar::Header::new_gnu()
}

/// Relies on `tar::Header::set_path`, which fails on paths that a GNU header
/// cannot hold; stated only for portable paths.
#[verifier::external_body]
pub(crate) fn header_set_path(h: &mut tar::Header, path: &str) -> (r: Result<(), std::io::Error>)
    ensures
        portable_path(path@) ==> (r is Ok <==> tar_path_ok(path@)),
        simple_tar_path(path@) ==> r is Ok,
        r is Ok && portable_path(path@) ==> header_bytes(*final(h)) == with_path(
            header_bytes(*old(h)),
            path@,
        ),
{
    h.set_path(path)
}

/// Relies on `tar::Header::set_size`.
#[verifier::external_body]
pub(crate) fn header_set_size(h: &mut tar::Header, size: u64)
    ensures
        header_bytes(*final(h)) == with_size(header_bytes(*old(h)), size),
{
    h.set_size(size)
}

/// Relies on `tar::Header::set_mode`.
#[verifier::external_body]
pub(crate) fn header_set_mode(h: &mut tar::Header, mode: u32)
    ensures
        header_bytes(*final(h)) == with_mode(header_bytes(*old(h)), mode),
{
    h.set_mode(mode)
}

/// Relies on `tar::Header::set_mtime`.
#[verifier::external_body]
pub(crate) fn header_set_mtime(h: &mut tar::Header, mtime: u64)
    ensures
        header_bytes(*final(h)) == with_mtime(header_bytes(*old(h)), mtime),
{
    h.set_mtime(mtime)
}

/// Relies on `tar::Header::set_uid`.
#[verifier::external_body]
pub(crate) fn header_set_uid(h: &mut tar::Header, uid: u64)
    ensures
        header_bytes(*final(h)) == with_uid(header_bytes(*old(h)), uid),
{
    h.set_uid(uid)
}

/// Relies on `tar::Header::set_gid`.
#[verifier::external_body]
pub(crate) fn header_set_gid(h: &mut tar::Header, gid: u64)
    ensures
        header_bytes(*final(h)) == with_gid(header_bytes(*old(h)), gid),
{
    h.set_gid(gid)
}

/// Relies on `tar::Header::set_cksum`.
#[verifier::external_body]
pub(crate) fn header_set_cksum(h: &mut tar::Header)
    ensures
        header_bytes(*final(h)) == with_cksum(header_bytes(*old(h))),
{
    h.set_cksum()
}

/// A gzip stream writer into memory, over `flate2::write::GzEncoder`.
#[verifier::external_body]
pub struct GzWriter {
    inner: flate2::write::GzEncoder<Vec<u8>>,
}

/// A gzip-compressed tar stream writer into memory, over `tar::Builder`.
#[verifier::external_body]
pub struct TarGzWriter {
    inner: tar::Builder<flate2::write::GzEncoder<Vec<u8>>>,
}

/// An uncompressed tar stream writer into memory, over `tar::Builder`.
#[verifier::external_body]
pub struct TarWriter {
    inner: tar::Builder<Vec<u8>>,
}

/// A zip archive writer into memory, over `zip::ZipWriter`.
#[verifier::external_body]
pub struct ZipArchiveWriter {
    inner: zip::ZipWriter<std::io::Cursor<Vec<u8>>>,
}

impl GzWriter {
    /// Relies on `flate2::write::GzEncoder::new` at the default compression level.
    #[verifier::external_body]
    pub(crate) fn new() -> (r: GzWriter)
        ensures
            gz_input(r) == Seq::<u8>::empty(),
    {
        GzWriter { inner: flate2::write::GzEncoder::new(Vec::new(), flate2::Compression::default()) }
    }

    /// Relies on `std::io::Write::write_all` of `flate2::write::GzEncoder`,
    /// which writes into a `Vec` and does not fail at the default level.
    #[verifier::external_body]
    pub(crate) fn write_all(&mut self, data: &[u8]) -> (r: Result<(), std::io::Error>)
        ensures
            r is Ok,
            r is Ok ==> gz_input(*final(self)) == gz_input(*old(self)) + data@,
    {
        Write::write_all(&mut self.inner, data)
    }

    /// Relies on `flate2::write::GzEncoder::finish`: the compressed stream,
    /// written into a `Vec`, which does not fail.
    #[verifier::external_body]
    pub(crate) fn finish(self) -> (r: Result<Vec<u8>, std::io::Error>)
        ensures
            r is Ok,
            r matches Ok(b) ==> b@ == gzip_of(gz_input(self)),
    {
        self.inner.finish()
    }
}

impl TarGzWriter {
    /// Relies on `tar::Builder::new` over a `flate2::write::GzEncoder` at the
    /// default compression level; neither writes anything yet.
    #[verifier::external_body]
    pub(crate) fn new() -> (r: TarGzWriter)
        ensures
            tar_gz_stream(r) == Seq::<u8>::empty(),
    {
        TarGzWriter {
            inner: tar::Builder::new(
                flate2::write::GzEncoder::new(Vec::new(), flate2::Compression::default()),
            ),
        }
    }

    /// Relies on `tar::Builder::append`: writes the header, the data, then
    /// zeros to a whole block, into the in-memory gzip stream, which does not
    /// fail.
    #[verifier::external_body]
    pub(crate) fn append(&mut self, h: &tar::Header, data: &[u8]) -> (r: Result<(), std::io::Error>)
        ensures
            r is Ok,
            r is Ok ==> tar_gz_stream(*final(self)) == tar_gz_stream(*old(self)) + tar_block(
                header_bytes(*h),
                data@,
            ),
    {
        self.inner.append(h, data)
    }

    /// Relies on `tar::Builder::into_inner`, which writes the two zero
    /// end-of-archive blocks and hands back the gzip stream, still to be
    /// finished.
    #[verifier::external_body]
    pub(crate) fn into_gz(self) -> (r: Result<GzWriter, std::io::Error>)
        ensures
            r is Ok,
            r matches Ok(g) ==> gz_input(g) == tar_gz_stream(self) + zeros(1024),
    {
        match self.inner.into_inner() {
            Ok(inner) => Ok(GzWriter { inner }),
            Err(e) => Err(e),
        }
    }
}

impl TarWriter {
    /// Relies on `tar::Builder::new` over an empty buffer.
    #[verifier::external_body]
    pub(crate) fn new() -> (r: TarWriter)
        ensures
            tar_stream(r) == Seq::<u8>::empty(),
    {
        TarWriter { inner: tar::Builder::new(Vec::new()) }
    }

    /// Relies on `tar::Builder::append`: writes the header, the data, then
    /// zeros to a whole block, into a `Vec`, whose writes do not fail.
    #[verifier::external_body]
    pub(crate) fn append(&mut self, h: &tar::Header, data: &[u8]) -> (r: Result<(), std::io::Error>)
        ensures
            r is Ok,
            r is Ok ==> tar_stream(*final(self)) == tar_stream(*old(self)) + tar_block(
                header_bytes(*h),
                data@,
            ),
    {
        self.inner.append(h, data)
    }

    /// Relies on `tar::Builder::into_inner`, which writes the two zero
    /// end-of-archive blocks into the `Vec` and hands it back.
    #[verifier::external_body]
    pub(crate) fn finish(self) -> (r: Result<Vec<u8>, std::io::Error>)
        ensures
            r is Ok,
            r matches Ok(b) ==> b@ == tar_stream(self) + zeros(1024),
    {
        self.inner.into_inner()
    }
}

impl ZipArchiveWriter {
    /// Relies on `zip::ZipWriter::new` over an empty in-memory cursor.
    #[verifier::external_body]
    pub(crate) fn new() -> (r: ZipArchiveWriter)
        ensures
            zip_entries(r) == Seq::<(Seq<char>, bool, Seq<u8>)>::empty(),
    {
        ZipArchiveWriter { inner: zip::ZipWriter::new(std::io::Cursor::new(Vec::new())) }
    }

    /// Relies on `zip::ZipWriter::start_file`, deflated or stored, with the
    /// default options; into a `Cursor<Vec>` it fails only on an earlier
    /// entry too large for the default options.
    #[verifier::external_body]
    pub(crate) fn start_file(&mut self, name: &str, deflate: bool) -> (r: Result<
        (),
        zip::result::ZipError,
    >)
        ensures
            zip_entries_small(zip_entries(*old(self))) ==> r is Ok,
            r is Ok ==> zip_entries(*final(self)) == zip_entries(*old(self)).push(
                (name@, deflate, Seq::empty()),
            ),
    {
        let method = if deflate {
            zip::CompressionMethod::Deflated
        } else {
            zip::CompressionMethod::Stored
        };
        self.inner.start_file(name, zip::write::FileOptions::default().compression_method(method))
    }

    /// Relies on `std::io::Write::write_all` of `zip::ZipWriter`: the bytes go
    /// into the entry last started, and it fails where none was.
    #[verifier::external_body]
    pub(crate) fn write_all(&mut self, data: &[u8]) -> (r: Result<(), std::io::Error>)
        ensures
            zip_entries(*old(self)).len() > 0 && zip_entries_small(zip_entries(*old(self)))
                && zip_entries(*old(self)).last().2.len() + data@.len() < zip_entry_limit() ==> r is Ok,
            r is Ok ==> if data@.len() == 0 {
                zip_entries(*final(self)) == zip_entries(*old(self))
            } else {
                let old_entries = zip_entries(*old(self));
                let last = old_entries.last();
                &&& old_entries.len() > 0
                &&& zip_entries(*final(self)) == old_entries.drop_last().push(
                    (last.0, last.1, last.2 + data@),
                )
            },
    {
        Write::write_all(&mut self.inner, data)
    }

    /// Relies on `zip::ZipWriter::finish`, which writes the central
    /// directory and hands back the buffer.
    #[verifier::external_body]
    pub(crate) fn finish(self) -> (r: Result<Vec<u8>, zip::result::ZipError>)
        ensures
            zip_entries_small(zip_entries(self)) ==> r is Ok,
            r matches Ok(b) ==> b@ == zip_of(zip_entries(self)),
    {
        let mut inner = self.inner;
        match inner.finish() {
            Ok(c) => Ok(c.into_inner()),
            Err(e) => Err(e),
        }
    }
}

/// Relies on `From<std::io::Error> for zip::result::ZipError`.
#[verifier::external_body]
pub(crate) fn zip_error_from_io(e: std::io::Error) -> (r: zip::result::ZipError) {
    zip::result::ZipError::from(e)
}

/// Relies on `From<zip::result::ZipError> for std::io::Error`.
#[verifier::external_body]
pub(crate) fn zip_error_into_io(e: zip::result::ZipError) -> (r: std::io::Error) {
    std::io::Error::from(e)
}

} // verus!

verus! {

/// The default permission bits of an entry whose file has no captured metadata.
pub const DEFAULT_ENTRY_MODE: u32 = 0o700;

/// The header fields recorded for a file with captured metadata `meta`:
/// that metadata, or mode `0o700` and modification time `default_mtime`.
pub open spec fn entry_meta_of(meta: Option<FileMeta>, default_mtime: u64) -> FileMeta {
    match meta {
        Some(m) => m,
        None => FileMeta { mode: DEFAULT_ENTRY_MODE, mtime: default_mtime, uid: 0, gid: 0 },
    }
}

/// The header fields recorded for `file`, as `entry_meta_of` gives them.
pub open spec fn entry_meta(file: PlatformFile, default_mtime: u64) -> FileMeta {
    entry_meta_of(file.metadata, default_mtime)
}

/// The header fields recorded for `file`, as `entry_meta` gives them.
pub fn tar_entry_meta(file: &PlatformFile, default_mtime: u64) -> (r: FileMeta)
    ensures
        r == entry_meta(*file, default_mtime),
{
    match file.metadata {
        Some(m) => m,
        None => FileMeta { mode: DEFAULT_ENTRY_MODE, mtime: default_mtime, uid: 0, gid: 0 },
    }
}

/// A file as an archive entry: name, bytes, captured metadata.
pub open spec fn file_view(f: PlatformFile) -> (Seq<char>, Seq<u8>, Option<FileMeta>) {
    (f.name@, f.data@, f.metadata)
}

/// The entries of `files`, in order.
pub open spec fn file_views(files: Seq<&PlatformFile>) -> Seq<(Seq<char>, Seq<u8>, Option<FileMeta>)> {
    files.map_values(|f: &PlatformFile| file_view(*f))
}

/// What a tar header records besides path and size.
pub enum HeaderFill {
    /// Nothing more: the empty header's defaults stand.
    Bare,
    /// The permission bits only.
    Mode(u32),
    /// Permission bits, modification time and owner.
    Meta(FileMeta),
}

/// The header bytes `h` with what `fill` records set on them.
pub open spec fn fill_bytes(h: Seq<u8>, fill: HeaderFill) -> Seq<u8> {
    match fill {
        HeaderFill::Bare => h,
        HeaderFill::Mode(mode) => with_mode(h, mode),
        HeaderFill::Meta(m) => with_gid(with_uid(with_mtime(with_mode(h, m.mode), m.mtime), m.uid), m.gid),
    }
}

/// The bytes of the checksummed GNU header for an entry at `path` of `size`
/// bytes, filled in as `fill` says.
pub open spec fn header_spec(path: Seq<char>, size: u64, fill: HeaderFill) -> Seq<u8> {
    with_cksum(fill_bytes(with_size(with_path(empty_gnu_header(), path), size), fill))
}

/// Relies on `std::io::Error::new`: the error for an archive path that is
/// not portable.
#[verifier::external_body]
fn unportable_path_error() -> (r: std::io::Error) {
    std::io::Error::new(std::io::ErrorKind::InvalidInput, "archive paths may not hold `\\` or `:`")
}

/// Whether `path` holds neither `\\` nor `:`.
pub fn is_portable_path(path: &str) -> (r: bool)
    ensures
        r == portable_path(path@),
{
    let n = path.unicode_len();
    let mut i: usize = 0;
    while i < n
        invariant
            n == path@.len(),
            i <= n,
            forall|k: int| 0 <= k < i ==> path@[k] != '\\' && path@[k] != ':',
        decreases n - i,
    {
        let c = path.get_char(i);
        if c == '\\' || c == ':' {
            return false;
        }
        i = i + 1;
    }
    true
}

/// A checksummed GNU header for an entry at `path` of `size` bytes, filled
/// in as `fill` says; an error where the path is not portable or does not
/// fit a tar header.
pub(crate) fn tar_header(path: &str, size: u64, fill: HeaderFill) -> (r: Result<
    tar::Header,
    std::io::Error,
>)
    ensures
        r is Ok <==> portable_path(path@) && tar_path_ok(path@),
        simple_tar_path(path@) ==> r is Ok,
        r matches Ok(h) ==> header_bytes(h) == header_spec(path@, size, fill),
{
    proof {
        if simple_tar_path(path@) {
            lemma_simple_chars_portable(path@);
        }
    }
    if !is_portable_path(path) {
        return Err(unportable_path_error());
    }
    let mut h = new_gnu_header();
    match header_set_path(&mut h, path) {
        Ok(()) => {},
        Err(e) => {
            return Err(e);
        },
    }
    header_set_size(&mut h, size);
    match fill {
        HeaderFill::Bare => {},
        HeaderFill::Mode(mode) => {
            header_set_mode(&mut h, mode);
        },
        HeaderFill::Meta(m) => {
            header_set_mode(&mut h, m.mode);
            header_set_mtime(&mut h, m.mtime);
            header_set_uid(&mut h, m.uid);
            header_set_gid(&mut h, m.gid);
        },
    }
    header_set_cksum(&mut h);
    Ok(h)
}

/// The tar members of `entries`, in order, each recorded with
/// `entry_meta_of(metadata, default_mtime)`.
pub open spec fn targz_members(
    entries: Seq<(Seq<char>, Seq<u8>, Option<FileMeta>)>,
    default_mtime: u64,
) -> Seq<u8>
    decreases entries.len(),
{
    if entries.len() == 0 {
        Seq::empty()
    } else {
        let e = entries.last();
        targz_members(entries.drop_last(), default_mtime) + tar_block(
            header_spec(e.0, e.1.len() as u64, HeaderFill::Meta(entry_meta_of(e.2, default_mtime))),
            e.1,
        )
    }
}

/// The gzip-compressed tar stream of `entries`: their members in order,
/// then the two zero end-of-archive blocks.
pub open spec fn targz_of(entries: Seq<(Seq<char>, Seq<u8>, Option<FileMeta>)>, default_mtime: u64) -> Seq<u8> {
    gzip_of(targz_members(entries, default_mtime) + zeros(1024))
}

/// Where every entry has captured metadata, the tarball does not depend on
/// the default modification time: together with `create_targz`'s contract,
/// two calls on the same files give the same bytes.
pub proof fn lemma_targz_ignores_default_mtime(
    entries: Seq<(Seq<char>, Seq<u8>, Option<FileMeta>)>,
    t1: u64,
    t2: u64,
)
    requires
        forall|i: int| 0 <= i < entries.len() ==> (#[trigger] entries[i]).2 is Some,
    ensures
        targz_of(entries, t1) == targz_of(entries, t2),
{
    lemma_members_ignore_default_mtime(entries, t1, t2);
}

proof fn lemma_members_ignore_default_mtime(
    entries: Seq<(Seq<char>, Seq<u8>, Option<FileMeta>)>,
    t1: u64,
    t2: u64,
)
    requires
        forall|i: int| 0 <= i < entries.len() ==> (#[trigger] entries[i]).2 is Some,
    ensures
        targz_members(entries, t1) == targz_members(entries, t2),
    decreases entries.len(),
{
    if entries.len() > 0 {
        let d = entries.drop_last();
        assert forall|i: int| 0 <= i < d.len() implies (#[trigger] d[i]).2 is Some by {
            assert(d[i] == entries[i]);
        }
        lemma_members_ignore_default_mtime(d, t1, t2);
        assert(entries[entries.len() - 1].2 is Some);
    }
}

/// Whether the header builder accepts `p`: portable, and accepted by
/// `tar::Header::set_path`.
pub open spec fn tar_path_accepted(p: Seq<char>) -> bool {
    portable_path(p) && tar_path_ok(p)
}

/// Whether some entry's name is not accepted for a tar header.
pub open spec fn some_bad_tar_path(entries: Seq<(Seq<char>, Seq<u8>, Option<FileMeta>)>) -> bool {
    exists|i: int| 0 <= i < entries.len() && !tar_path_accepted(#[trigger] entries[i].0)
}

/// Whether every entry's name is a simple archive path.
pub open spec fn all_simple_paths(entries: Seq<(Seq<char>, Seq<u8>, Option<FileMeta>)>) -> bool {
    forall|i: int| 0 <= i < entries.len() ==> simple_tar_path(#[trigger] entries[i].0)
}

/// A gzip-compressed tar stream of `files`, in the order given, each entry
/// named by the file's name and recorded with `entry_meta(file, default_mtime)`;
/// an error where a name does not fit a tar header.
pub fn create_targz(files: &[&PlatformFile], default_mtime: u64) -> (r: Result<
    Vec<u8>,
    std::io::Error,
>)
    ensures
        r matches Ok(b) ==> b@ == targz_of(file_views(files@), default_mtime),
        some_bad_tar_path(file_views(files@)) ==> r is Err,
        all_simple_paths(file_views(files@)) ==> r is Ok,
{
    let ghost views = file_views(files@);
    let mut w = TarGzWriter::new();
    let mut i: usize = 0;
    assert(views.take(0) =~= Seq::<(Seq<char>, Seq<u8>, Option<FileMeta>)>::empty());
    while i < files.len()
        invariant
            i <= files.len(),
            views == file_views(files@),
            tar_gz_stream(w) == targz_members(views.take(i as int), default_mtime),
            forall|k: int| 0 <= k < i ==> tar_path_accepted(#[trigger] views[k].0),
        decreases files.len() - i,
    {
        let f: &PlatformFile = files[i];
        assert(views[i as int] == file_view(*f));
        let meta = tar_entry_meta(f, default_mtime);
        let h = match tar_header(f.name.as_str(), f.data.len() as u64, HeaderFill::Meta(meta)) {
            Ok(h) => h,
            Err(e) => {
                assert(!tar_path_accepted(views[i as int].0));
                assert(!simple_tar_path(views[i as int].0));
                return Err(e);
            },
        };
        match w.append(&h, f.data.as_slice()) {
            Ok(()) => {},
            Err(e) => {
                return Err(e);
            },
        }
        assert(views.take(i + 1).drop_last() =~= views.take(i as int));
        assert(views.take(i + 1).last() == views[i as int]);
        i = i + 1;
    }
    assert(views.take(files.len() as int) =~= views);
    match w.into_gz() {
        Ok(g) => g.finish(),
        Err(e) => Err(e),
    }
}

/// The gzip compression of `data`.
pub fn gzip(data: &[u8]) -> (r: Result<Vec<u8>, std::io::Error>)
    ensures
        r is Ok,
        r matches Ok(b) ==> b@ == gzip_of(data@),
{
    let mut g = GzWriter::new();
    match g.write_all(data) {
        Ok(()) => {
            assert(gz_input(g) =~= data@);
            g.finish()
        },
        Err(e) => Err(e),
    }
}

/// The zip entries of `entries`, each compressed or stored as `deflate` says.
pub open spec fn zip_entries_of(
    entries: Seq<(Seq<char>, Seq<u8>, Option<FileMeta>)>,
    deflate: bool,
) -> Seq<(Seq<char>, bool, Seq<u8>)> {
    entries.map_values(|e: (Seq<char>, Seq<u8>, Option<FileMeta>)| (e.0, deflate, e.1))
}

/// Whether every entry holds fewer than `zip_entry_limit()` bytes.
pub open spec fn all_zip_small(entries: Seq<(Seq<char>, Seq<u8>, Option<FileMeta>)>) -> bool {
    forall|i: int| 0 <= i < entries.len() ==> (#[trigger] entries[i]).1.len() < zip_entry_limit()
}

/// A zip archive of `files`, in the order given, each entry deflated and
/// named by the file's name; it succeeds on files under 2 GiB each.
pub fn create_zip(files: &[&PlatformFile]) -> (r: Result<Vec<u8>, std::io::Error>)
    ensures
        r matches Ok(b) ==> b@ == zip_of(zip_entries_of(file_views(files@), true)),
        all_zip_small(file_views(files@)) ==> r is Ok,
{
    let ghost views = file_views(files@);
    let mut z = ZipArchiveWriter::new();
    let mut i: usize = 0;
    while i < files.len()
        invariant
            i <= files.len(),
            views == file_views(files@),
            zip_entries(z) == zip_entries_of(views.take(i as int), true),
            all_zip_small(views) ==> zip_entries_small(zip_entries(z)),
        decreases files.len() - i,
    {
        let f: &PlatformFile = files[i];
        assert(views[i as int] == file_view(*f));
        match z.start_file(f.name.as_str(), true) {
            Ok(()) => {},
            Err(e) => {
                return Err(zip_error_into_io(e));
            },
        }
        match z.write_all(f.data.as_slice()) {
            Ok(()) => {},
            Err(e) => {
                return Err(e);
            },
        }
        assert(f.data@ =~= Seq::<u8>::empty() + f.data@);
        assert(zip_entries(z) =~= zip_entries_of(views.take(i + 1), true));
        assert(all_zip_small(views) ==> zip_entries_small(zip_entries(z))) by {
            if all_zip_small(views) {
                assert forall|k: int| 0 <= k < zip_entries(z).len() implies (#[trigger] zip_entries(
                    z,
                )[k]).2.len() < zip_entry_limit() by {
                    assert(zip_entries(z)[k].2 == views[k].1);
                }
            }
        }
        i = i + 1;
    }
    assert(views.take(files.len() as int) =~= views);
    match z.finish() {
        Ok(bytes) => Ok(bytes),
        Err(e) => Err(zip_error_into_io(e)),
    }
}

} // verus!
