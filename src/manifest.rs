//! The build manifest: the whole asset registry and a build-info block.
use vstd::prelude::*;
use crate::registry::{kind_tag, path_text, GeneratedAsset, GeneratedAssetKind};

verus! {

/// The version of this tool, as recorded in generated metadata.
pub const TOOL_VERSION: &'static str = "0.1.0";

/// The name of this tool, as recorded in generated metadata.
pub const TOOL_NAME: &'static str = "sqlite-dist";

/// The build-info block of the manifest.
#[derive(Debug)]
pub struct ManifestBuildInfo {
    pub sqlite_dist_version: String,
}

/// The manifest's entry for itself: its kind, name and path. It cannot
/// carry its own checksum or size, which are known only once it is written.
#[derive(Debug)]
pub struct ManifestSelf {
    pub kind: String,
    pub name: String,
    pub path: String,
}

/// The manifest document: build info, every artifact in creation order, and
/// an entry for the manifest itself.
#[derive(Debug)]
pub struct Manifest<'a> {
    pub build_info: ManifestBuildInfo,
    pub artifacts: &'a [GeneratedAsset],
    pub itself: ManifestSelf,
}

/// The file name of the manifest: its kind's tag, then `.json`.
pub open spec fn manifest_file_name() -> Seq<char> {
    kind_tag(GeneratedAssetKind::Manifest) + ".json"@
}

/// The file name of the manifest.
pub fn manifest_name() -> (r: String)
    ensures
        r@ == manifest_file_name(),
{
    let mut s = GeneratedAssetKind::Manifest.to_string();
    s.append(".json");
    s
}

/// The manifest of the registry `generated_assets`, which it lists whole and
/// in order, stored in `dir`; it also lists itself, as an asset of kind
/// `Manifest`.
pub fn manifest<'a>(generated_assets: &'a [GeneratedAsset], dir: &str) -> (r: Manifest<'a>)
    ensures
        r.artifacts@ == generated_assets@,
        r.build_info.sqlite_dist_version@ == TOOL_VERSION@,
        r.itself.kind@ == kind_tag(GeneratedAssetKind::Manifest),
        r.itself.name@ == manifest_file_name(),
        r.itself.path@ == path_text(dir@, manifest_file_name()),
{
    let name = manifest_name();
    let mut path = String::from_str(dir);
    path.append("/");
    path.append(name.as_str());
    Manifest {
        build_info: ManifestBuildInfo { sqlite_dist_version: String::from_str(TOOL_VERSION) },
        artifacts: generated_assets,
        itself: ManifestSelf { kind: GeneratedAssetKind::Manifest.to_string(), name, path },
    }
}

} // verus!
