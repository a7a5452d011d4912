//! The asset registry: every produced artifact with its kind, name, path,
//! SHA-256 checksum and size, and the checksum list drawn from it.
use vstd::prelude::*;
use crate::digest::{hex_lower, sha256_hex, sha256_of};
use crate::platform::{Cpu, Os};
use crate::text::{join, joined};

verus! {

/// The download location and platform of a GitHub release tarball.
#[derive(Debug)]
pub struct GithubRelease {
    pub url: String,
    pub platform: (Os, Cpu),
}

/// Which target produced an artifact, with what downstream consumers need.
#[derive(Debug)]
pub enum GeneratedAssetKind {
    Npm(Option<(Os, Cpu)>),
    Gem((Os, Cpu)),
    Pip((Os, Cpu)),
    Datasette,
    SqliteUtils,
    GithubReleaseLoadable(GithubRelease),
    GithubReleaseStatic(GithubRelease),
    Sqlpkg,
    Spm,
    Amalgamation,
    Manifest,
}

/// The tag that names a kind in the manifest.
pub open spec fn kind_tag(k: GeneratedAssetKind) -> Seq<char> {
    match k {
        GeneratedAssetKind::Npm(_) => "npm"@,
        GeneratedAssetKind::Gem(_) => "gem"@,
        GeneratedAssetKind::Pip(_) => "pip"@,
        GeneratedAssetKind::Datasette => "datasette"@,
        GeneratedAssetKind::SqliteUtils => "sqlite-utils"@,
        GeneratedAssetKind::GithubReleaseLoadable(_) => "github-release-loadable"@,
        GeneratedAssetKind::GithubReleaseStatic(_) => "github-release-static"@,
        GeneratedAssetKind::Sqlpkg => "sqlpkg"@,
        GeneratedAssetKind::Spm => "spm"@,
        GeneratedAssetKind::Amalgamation => "amalgamation"@,
        GeneratedAssetKind::Manifest => "sqlite-dist-manifest"@,
    }
}

/// Whether artifacts of kind `k` are listed in `checksums.txt`: GitHub
/// release tarballs and the sqlpkg and spm descriptors.
pub open spec fn in_checksum_list(k: GeneratedAssetKind) -> bool {
    match k {
        GeneratedAssetKind::GithubReleaseLoadable(_) => true,
        GeneratedAssetKind::GithubReleaseStatic(_) => true,
        GeneratedAssetKind::Sqlpkg => true,
        GeneratedAssetKind::Spm => true,
        _ => false,
    }
}

impl GeneratedAssetKind {
    /// The tag that names this kind in the manifest.
    pub fn to_string(&self) -> (r: String)
        ensures
            r@ == kind_tag(*self),
    {
        match self {
            GeneratedAssetKind::Npm(_) => String::from_str("npm"),
            GeneratedAssetKind::Gem(_) => String::from_str("gem"),
            GeneratedAssetKind::Pip(_) => String::from_str("pip"),
            GeneratedAssetKind::Datasette => String::from_str("datasette"),
            GeneratedAssetKind::SqliteUtils => String::from_str("sqlite-utils"),
            GeneratedAssetKind::GithubReleaseLoadable(_) => String::from_str("github-release-loadable"),
            GeneratedAssetKind::GithubReleaseStatic(_) => String::from_str("github-release-static"),
            GeneratedAssetKind::Sqlpkg => String::from_str("sqlpkg"),
            GeneratedAssetKind::Spm => String::from_str("spm"),
            GeneratedAssetKind::Amalgamation => String::from_str("amalgamation"),
            GeneratedAssetKind::Manifest => String::from_str("sqlite-dist-manifest"),
        }
    }

    /// Whether artifacts of this kind are listed in `checksums.txt`.
    pub fn in_checksum_list(&self) -> (r: bool)
        ensures
            r == in_checksum_list(*self),
    {
        match self {
            GeneratedAssetKind::GithubReleaseLoadable(_) => true,
            GeneratedAssetKind::GithubReleaseStatic(_) => true,
            GeneratedAssetKind::Sqlpkg => true,
            GeneratedAssetKind::Spm => true,
            _ => false,
        }
    }
}

/// One entry of the asset registry.
#[derive(Debug)]
pub struct GeneratedAsset {
    pub kind: GeneratedAssetKind,
    pub name: String,
    pub path: String,
    pub checksum_sha256: String,
    pub size: usize,
}

/// `dir/name`.
pub open spec fn path_text(dir: Seq<char>, name: Seq<char>) -> Seq<char> {
    dir + "/"@ + name
}

impl GeneratedAsset {
    /// The registry entry of an artifact named `name`, stored in `dir`, whose
    /// finished bytes are `contents`.
    pub fn from_contents(kind: GeneratedAssetKind, dir: &str, name: String, contents: &[u8]) -> (r:
        GeneratedAsset)
        ensures
            r.kind == kind,
            r.name == name,
            r.path@ == path_text(dir@, name@),
            r.checksum_sha256@ == hex_lower(sha256_of(contents@)),
            r.checksum_sha256@.len() == 64,
            r.size == contents@.len(),
    {
        let mut path = String::from_str(dir);
        path.append("/");
        path.append(name.as_str());
        GeneratedAsset {
            kind,
            name,
            path,
            checksum_sha256: sha256_hex(contents),
            size: contents.len(),
        }
    }
}

/// An artifact's registry entry together with the bytes to be stored at
/// its path.
#[derive(Debug)]
pub struct Artifact {
    pub asset: GeneratedAsset,
    pub contents: Vec<u8>,
}

impl Artifact {
    /// The entry's checksum and size are those of the stored bytes.
    pub open spec fn wf(&self) -> bool {
        &&& self.asset.checksum_sha256@ == hex_lower(sha256_of(self.contents@))
        &&& self.asset.size == self.contents@.len()
    }

    /// The artifact named `name` in `dir` with bytes `contents`.
    pub fn new(kind: GeneratedAssetKind, dir: &str, name: String, contents: Vec<u8>) -> (r: Artifact)
        ensures
            r.wf(),
            r.asset.kind == kind,
            r.asset.name == name,
            r.asset.path@ == path_text(dir@, name@),
            r.contents == contents,
    {
        let asset = GeneratedAsset::from_contents(kind, dir, name, contents.as_slice());
        Artifact { asset, contents }
    }
}

/// The line of `checksums.txt` for `a`: its name, a space, its checksum.
pub open spec fn checksum_line(a: GeneratedAsset) -> Seq<char> {
    a.name@ + " "@ + a.checksum_sha256@
}

/// The lines of `checksums.txt`: one per listed artifact, in registry order.
pub open spec fn checksum_lines(assets: Seq<GeneratedAsset>) -> Seq<Seq<char>>
    decreases assets.len(),
{
    if assets.len() == 0 {
        Seq::empty()
    } else if in_checksum_list(assets.last().kind) {
        checksum_lines(assets.drop_last()).push(checksum_line(assets.last()))
    } else {
        checksum_lines(assets.drop_last())
    }
}

/// The text of `checksums.txt`: the `name sha256` line of each GitHub
/// release, sqlpkg and spm artifact, in registry order, separated by newlines.
pub fn checksums_txt(assets: &[GeneratedAsset]) -> (r: String)
    ensures
        r@ == joined(checksum_lines(assets@), "\n"@),
{
    let mut lines: Vec<String> = Vec::new();
    let mut i: usize = 0;
    while i < assets.len()
        invariant
            i <= assets.len(),
            lines@.map_values(|l: String| l@) == checksum_lines(assets@.take(i as int)),
        decreases assets.len() - i,
    {
        let a = &assets[i];
        assert(assets@.take(i + 1).drop_last() =~= assets@.take(i as int));
        if a.kind.in_checksum_list() {
            let mut line = a.name.clone();
            line.append(" ");
            line.append(a.checksum_sha256.as_str());
            let ghost before = lines@;
            lines.push(line);
            assert(lines@.map_values(|l: String| l@) =~= before.map_values(|l: String| l@).push(
                checksum_line(assets@[i as int]),
            ));
        }
        i = i + 1;
    }
    assert(assets@.take(assets.len() as int) =~= assets@);
    join(&lines, "\n")
}

} // verus!

verus! {

/// The asset registry of one build: the entries of every artifact produced,
/// in creation order. It is only ever appended to.
pub struct Registry {
    assets: Vec<GeneratedAsset>,
}

impl Registry {
    /// The entries registered so far, in order.
    pub closed spec fn view(&self) -> Seq<GeneratedAsset> {
        self.assets@
    }

    /// An empty registry.
    pub fn new() -> (r: Registry)
        ensures
            r.view().len() == 0,
    {
        Registry { assets: Vec::new() }
    }

    /// Registers `artifact` after every earlier entry, handing back the
    /// bytes to be stored at its path.
    pub fn register(&mut self, artifact: Artifact) -> (r: Vec<u8>)
        ensures
            final(self).view() == old(self).view().push(artifact.asset),
            r == artifact.contents,
    {
        self.assets.push(artifact.asset);
        artifact.contents
    }

    /// Registers the entry of an artifact whose bytes are already stored.
    pub fn register_entry(&mut self, asset: GeneratedAsset)
        ensures
            final(self).view() == old(self).view().push(asset),
    {
        self.assets.push(asset);
    }

    /// The entries registered so far, in order.
    pub fn assets(&self) -> (r: &[GeneratedAsset])
        ensures
            r@ == self.view(),
    {
        self.assets.as_slice()
    }
}

} // verus!
