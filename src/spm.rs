//! The Swift-Package-Manager descriptor `spm.json`, which points at the
//! GitHub release tarballs by URL and checksum.
use vstd::prelude::*;
use crate::platform::{Cpu, Os};
use crate::registry::{GeneratedAsset, GeneratedAssetKind};
use crate::spec::Spec;

verus! {

/// One release tarball as `spm.json` lists it.
#[derive(Debug)]
pub struct PlatformAsset {
    pub os: Os,
    pub cpu: Cpu,
    pub url: String,
    pub checksum_sha256: String,
}

/// The `spm.json` document.
#[derive(Debug)]
pub struct SpmJson {
    pub version: u32,
    pub description: String,
    pub loadable: Vec<PlatformAsset>,
    pub static_: Option<Vec<PlatformAsset>>,
}

/// The fields of a listed tarball: os, cpu, URL, checksum.
pub open spec fn entry_view(p: PlatformAsset) -> (Os, Cpu, Seq<char>, Seq<char>) {
    (p.os, p.cpu, p.url@, p.checksum_sha256@)
}

/// The listing of `a` where it is a loadable (`want_static` false) or
/// static release tarball.
pub open spec fn release_entry(a: GeneratedAsset, want_static: bool) -> Option<
    (Os, Cpu, Seq<char>, Seq<char>),
> {
    match a.kind {
        GeneratedAssetKind::GithubReleaseLoadable(gr) => if want_static {
            None
        } else {
            Some((gr.platform.0, gr.platform.1, gr.url@, a.checksum_sha256@))
        },
        GeneratedAssetKind::GithubReleaseStatic(gr) => if want_static {
            Some((gr.platform.0, gr.platform.1, gr.url@, a.checksum_sha256@))
        } else {
            None
        },
        _ => None,
    }
}

/// The listings of the loadable or static release tarballs among `assets`, in order.
pub open spec fn release_entries(assets: Seq<GeneratedAsset>, want_static: bool) -> Seq<
    (Os, Cpu, Seq<char>, Seq<char>),
>
    decreases assets.len(),
{
    if assets.len() == 0 {
        Seq::empty()
    } else {
        let rest = release_entries(assets.drop_last(), want_static);
        match release_entry(assets.last(), want_static) {
            Some(e) => rest.push(e),
            None => rest,
        }
    }
}

/// Each `spm.json` listing carries, byte for byte, the URL and checksum of a
/// GitHub release tarball of the same kind in the registry it was drawn from.
pub proof fn lemma_spm_entries_match_releases(
    assets: Seq<GeneratedAsset>,
    want_static: bool,
    j: int,
)
    requires
        0 <= j < release_entries(assets, want_static).len(),
    ensures
        exists|i: int|
            0 <= i < assets.len() && #[trigger] release_entry(assets[i], want_static) == Some(
                release_entries(assets, want_static)[j],
            ),
    decreases assets.len(),
{
    let rest = release_entries(assets.drop_last(), want_static);
    if j < rest.len() {
        lemma_spm_entries_match_releases(assets.drop_last(), want_static, j);
        let i = choose|i: int|
            0 <= i < assets.drop_last().len() && #[trigger] release_entry(
                assets.drop_last()[i],
                want_static,
            ) == Some(rest[j]);
        assert(assets[i] == assets.drop_last()[i]);
    } else {
        assert(release_entry(assets[assets.len() - 1], want_static) == Some(
            release_entries(assets, want_static)[j],
        ));
    }
}

fn release_entries_of(assets: &[GeneratedAsset], want_static: bool) -> (r: Vec<PlatformAsset>)
    ensures
        r@.map_values(|p: PlatformAsset| entry_view(p)) == release_entries(assets@, want_static),
{
    let mut out: Vec<PlatformAsset> = Vec::new();
    let mut i: usize = 0;
    while i < assets.len()
        invariant
            i <= assets.len(),
            out@.map_values(|p: PlatformAsset| entry_view(p)) == release_entries(
                assets@.take(i as int),
                want_static,
            ),
        decreases assets.len() - i,
    {
        let a = &assets[i];
        assert(assets@.take(i + 1).drop_last() =~= assets@.take(i as int));
        let ghost before = out@;
        let entry = match &a.kind {
            GeneratedAssetKind::GithubReleaseLoadable(gr) => if want_static {
                None
            } else {
                Some(
                    PlatformAsset {
                        os: gr.platform.0,
                        cpu: gr.platform.1,
                        url: gr.url.clone(),
                        checksum_sha256: a.checksum_sha256.clone(),
                    },
                )
            },
            GeneratedAssetKind::GithubReleaseStatic(gr) => if want_static {
                Some(
                    PlatformAsset {
                        os: gr.platform.0,
                        cpu: gr.platform.1,
                        url: gr.url.clone(),
                        checksum_sha256: a.checksum_sha256.clone(),
                    },
                )
            } else {
                None
            },
            _ => None,
        };
        match entry {
            Some(p) => {
                out.push(p);
                assert(out@.map_values(|p: PlatformAsset| entry_view(p)) =~= before.map_values(
                    |p: PlatformAsset| entry_view(p),
                ).push(release_entry(assets@[i as int], want_static).unwrap()));
            },
            None => {},
        }
        i = i + 1;
    }
    assert(assets@.take(assets.len() as int) =~= assets@);
    out
}

/// The `spm.json` document for the GitHub release tarballs `gh_release_assets`:
/// every loadable tarball, and every static tarball where there is at least one.
pub fn spm_json(spec: &Spec, gh_release_assets: &[GeneratedAsset]) -> (r: SpmJson)
    ensures
        r.version == 0,
        r.description == spec.package.description,
        r.loadable@.map_values(|p: PlatformAsset| entry_view(p)) == release_entries(
            gh_release_assets@,
            false,
        ),
        match r.static_ {
            None => release_entries(gh_release_assets@, true).len() == 0,
            Some(s) => release_entries(gh_release_assets@, true).len() > 0 && s@.map_values(
                |p: PlatformAsset| entry_view(p),
            ) == release_entries(gh_release_assets@, true),
        },
{
    let loadable = release_entries_of(gh_release_assets, false);
    let statics = release_entries_of(gh_release_assets, true);
    let static_ = if statics.len() == 0 {
        None
    } else {
        Some(statics)
    };
    SpmJson { version: 0, description: spec.package.description.clone(), loadable, static_ }
}

} // verus!
