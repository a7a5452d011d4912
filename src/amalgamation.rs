//! The source amalgamation bundle: the listed source files as a gzip
//! tarball and as a zip archive.
use vstd::prelude::*;
use crate::archive::{
    all_simple_paths, all_zip_small, create_targz, create_zip, file_view, file_views, targz_of,
    zip_entries_of, zip_of,
};
use crate::platform::PlatformFile;
use crate::project::Project;
use crate::registry::{path_text, Artifact, GeneratedAssetKind};
use crate::version::version_text;

verus! {

/// `{name}-{version}-amalgamation{extension}`.
pub open spec fn amalgamation_name(project: Project, extension: Seq<char>) -> Seq<char> {
    project.spec.package.name@ + "-"@ + version_text(project.version) + "-amalgamation"@
        + extension
}

fn amalgamation_file_name(project: &Project, extension: &str) -> (r: String)
    ensures
        r@ == amalgamation_name(*project, extension@),
{
    let mut s = project.spec.package.name.clone();
    s.append("-");
    s.append(project.version.to_string().as_str());
    s.append("-amalgamation");
    s.append(extension);
    s
}

/// The amalgamation artifacts of `files` (source files read from the
/// specification's directory, named by their relative paths), stored in
/// `dir`: first the `.tar.gz`, then the deflated `.zip`, entries in the
/// order given.
pub fn write_amalgamation(
    project: &Project,
    files: &Vec<PlatformFile>,
    default_mtime: u64,
    dir: &str,
) -> (r: Result<Vec<Artifact>, std::io::Error>)
    ensures
        r matches Ok(v) ==> {
            let entries = files@.map_values(|f: PlatformFile| file_view(f));
            &&& v@.len() == 2
            &&& v@[0].wf()
            &&& v@[0].contents@ == targz_of(entries, default_mtime)
            &&& v@[1].contents@ == zip_of(zip_entries_of(entries, true))
            &&& v@[0].asset.kind == GeneratedAssetKind::Amalgamation
            &&& v@[0].asset.name@ == amalgamation_name(*project, ".tar.gz"@)
            &&& v@[0].asset.path@ == path_text(dir@, amalgamation_name(*project, ".tar.gz"@))
            &&& v@[1].wf()
            &&& v@[1].asset.kind == GeneratedAssetKind::Amalgamation
            &&& v@[1].asset.name@ == amalgamation_name(*project, ".zip"@)
            &&& v@[1].asset.path@ == path_text(dir@, amalgamation_name(*project, ".zip"@))
        },
        all_simple_paths(files@.map_values(|f: PlatformFile| file_view(f))) && all_zip_small(
            files@.map_values(|f: PlatformFile| file_view(f)),
        ) ==> r is Ok,
{
    let ghost entries = files@.map_values(|f: PlatformFile| file_view(f));
    let mut refs: Vec<&PlatformFile> = Vec::new();
    let mut i: usize = 0;
    while i < files.len()
        invariant
            i <= files@.len(),
            entries == files@.map_values(|f: PlatformFile| file_view(f)),
            refs@.len() == i,
            file_views(refs@) == entries.take(i as int),
        decreases files@.len() - i,
    {
        let ghost before = refs@;
        refs.push(&files[i]);
        assert(*refs@[before.len() as int] == files@[i as int]);
        assert(file_views(refs@) =~= file_views(before).push(entries[i as int]));
        assert(file_views(refs@) =~= entries.take(i + 1));
        i = i + 1;
    }
    assert(entries.take(i as int) =~= entries);
    let targz = match create_targz(refs.as_slice(), default_mtime) {
        Ok(b) => b,
        Err(e) => {
            return Err(e);
        },
    };
    let zip = match create_zip(refs.as_slice()) {
        Ok(b) => b,
        Err(e) => {
            return Err(e);
        },
    };
    let mut assets: Vec<Artifact> = Vec::new();
    assets.push(
        Artifact::new(
            GeneratedAssetKind::Amalgamation,
            dir,
            amalgamation_file_name(project, ".tar.gz"),
            targz,
        ),
    );
    assets.push(
        Artifact::new(
            GeneratedAssetKind::Amalgamation,
            dir,
            amalgamation_file_name(project, ".zip"),
            zip,
        ),
    );
    Ok(assets)
}

} // verus!
