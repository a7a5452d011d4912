//! The GitHub release packager: per platform, a tarball of the loadable
//! files and, where there are any, a tarball of the static and header files.
use vstd::prelude::*;
use crate::archive::{all_simple_paths, create_targz, file_view, file_views, targz_of};
use crate::platform::{cpu_token, os_token, FileMeta, LoadablePlatformFile, PlatformDirectory, PlatformFile};
use crate::project::{download_url_text, Project};
use crate::registry::{path_text, Artifact, GeneratedAssetKind, GithubRelease};
use crate::version::version_text;

verus! {

/// `{name}-{version}-{artifact_type}-{os}-{cpu}.tar.gz`.
pub open spec fn artifact_name_text(
    name: Seq<char>,
    version: Seq<char>,
    os: Seq<char>,
    cpu: Seq<char>,
    artifact_type: Seq<char>,
) -> Seq<char> {
    name + "-"@ + version + "-"@ + artifact_type + "-"@ + os + "-"@ + cpu + ".tar.gz"@
}

/// The release file name of `pd`'s loadable (`is_static` false) or static tarball.
pub open spec fn release_name(project: Project, pd: PlatformDirectory, is_static: bool) -> Seq<
    char,
> {
    artifact_name_text(
        project.spec.package.name@,
        version_text(project.version),
        os_token(pd.os),
        cpu_token(pd.cpu),
        if is_static {
            "static"@
        } else {
            "loadable"@
        },
    )
}

/// Whether a platform directory has static or header files to release.
pub open spec fn has_static(pd: PlatformDirectory) -> bool {
    pd.static_files@.len() > 0 || pd.header_files@.len() > 0
}

/// The entries of the loadable files of `pd`, in order.
pub open spec fn loadable_entries(pd: PlatformDirectory) -> Seq<(Seq<char>, Seq<u8>, Option<FileMeta>)> {
    pd.loadable_files@.map_values(|l: LoadablePlatformFile| file_view(l.file))
}

/// The entries of the static files, then the header files, of `pd`.
pub open spec fn static_entries(pd: PlatformDirectory) -> Seq<(Seq<char>, Seq<u8>, Option<FileMeta>)> {
    pd.static_files@.map_values(|f: PlatformFile| file_view(f)) + pd.header_files@.map_values(
        |f: PlatformFile| file_view(f),
    )
}

/// Whether `a` is the loadable or static release tarball of `pd`, stored
/// in `dir`, with its download URL and platform recorded in its kind, and
/// its bytes the gzip tarball of the loadable files, or of the static then
/// header files, dated `default_mtime` where no metadata was captured.
pub open spec fn is_release_artifact(
    a: Artifact,
    project: Project,
    pd: PlatformDirectory,
    dir: Seq<char>,
    is_static: bool,
    default_mtime: u64,
) -> bool {
    let name = release_name(project, pd, is_static);
    &&& a.wf()
    &&& a.contents@ == targz_of(
        if is_static {
            static_entries(pd)
        } else {
            loadable_entries(pd)
        },
        default_mtime,
    )
    &&& a.asset.name@ == name
    &&& a.asset.path@ == path_text(dir, name)
    &&& match a.asset.kind {
        GeneratedAssetKind::GithubReleaseLoadable(gr) => !is_static && gr.platform == (pd.os, pd.cpu)
            && gr.url@ == download_url_text(project, name),
        GeneratedAssetKind::GithubReleaseStatic(gr) => is_static && gr.platform == (pd.os, pd.cpu)
            && gr.url@ == download_url_text(project, name),
        _ => false,
    }
}

/// The gzip tarball of the loadable files of `platform_directory`.
pub fn create_loadable_github_release_asset(
    platform_directory: &PlatformDirectory,
    default_mtime: u64,
) -> (r: Result<Vec<u8>, std::io::Error>)
    ensures
        r matches Ok(b) ==> b@ == targz_of(loadable_entries(*platform_directory), default_mtime),
        all_simple_paths(loadable_entries(*platform_directory)) ==> r is Ok,
{
    let ghost want = loadable_entries(*platform_directory);
    let mut files: Vec<&PlatformFile> = Vec::new();
    let mut i: usize = 0;
    while i < platform_directory.loadable_files.len()
        invariant
            i <= platform_directory.loadable_files.len(),
            want == loadable_entries(*platform_directory),
            files@.len() == i,
            file_views(files@) == want.take(i as int),
        decreases platform_directory.loadable_files.len() - i,
    {
        let ghost before = files@;
        files.push(&platform_directory.loadable_files[i].file);
        assert(*files@[before.len() as int] == platform_directory.loadable_files@[i as int].file);
        assert(want[i as int] == file_view(platform_directory.loadable_files@[i as int].file));
        assert(file_views(files@) =~= file_views(before).push(want[i as int]));
        assert(file_views(files@) =~= want.take(i + 1));
        i = i + 1;
    }
    assert(want.take(i as int) =~= want);
    create_targz(files.as_slice(), default_mtime)
}

/// The gzip tarball of the static files, then the header files, of
/// `platform_directory`; `None` where it has neither.
pub fn create_static_github_release_asset(
    platform_directory: &PlatformDirectory,
    default_mtime: u64,
) -> (r: Option<Result<Vec<u8>, std::io::Error>>)
    ensures
        r is Some <==> has_static(*platform_directory),
        r matches Some(Ok(b)) ==> b@ == targz_of(static_entries(*platform_directory), default_mtime),
        all_simple_paths(static_entries(*platform_directory)) ==> !(r matches Some(Err(_))),
{
    let ghost sv = platform_directory.static_files@.map_values(|f: PlatformFile| file_view(f));
    let ghost hv = platform_directory.header_files@.map_values(|f: PlatformFile| file_view(f));
    let mut files: Vec<&PlatformFile> = Vec::new();
    let mut i: usize = 0;
    while i < platform_directory.static_files.len()
        invariant
            i <= platform_directory.static_files.len(),
            sv == platform_directory.static_files@.map_values(|f: PlatformFile| file_view(f)),
            files@.len() == i,
            file_views(files@) == sv.take(i as int),
        decreases platform_directory.static_files.len() - i,
    {
        let ghost before = files@;
        files.push(&platform_directory.static_files[i]);
        assert(*files@[before.len() as int] == platform_directory.static_files@[i as int]);
        assert(file_views(files@) =~= file_views(before).push(sv[i as int]));
        assert(file_views(files@) =~= sv.take(i + 1));
        i = i + 1;
    }
    assert(sv.take(i as int) =~= sv);
    let mut j: usize = 0;
    while j < platform_directory.header_files.len()
        invariant
            j <= platform_directory.header_files.len(),
            hv == platform_directory.header_files@.map_values(|f: PlatformFile| file_view(f)),
            file_views(files@) == sv + hv.take(j as int),
        decreases platform_directory.header_files.len() - j,
    {
        let ghost before = files@;
        files.push(&platform_directory.header_files[j]);
        assert(*files@[before.len() as int] == platform_directory.header_files@[j as int]);
        assert(file_views(files@) =~= file_views(before).push(hv[j as int]));
        assert(file_views(files@) =~= sv + hv.take(j + 1));
        j = j + 1;
    }
    assert(hv.take(j as int) =~= hv);
    assert(file_views(files@) =~= static_entries(*platform_directory));
    if files.len() > 0 {
        Some(create_targz(files.as_slice(), default_mtime))
    } else {
        None
    }
}

/// `{name}-{version}-{artifact_type}-{os}-{cpu}.tar.gz`.
pub fn github_release_artifact_name(
    name: &str,
    version: &str,
    os: &str,
    cpu: &str,
    artifact_type: &str,
) -> (r: String)
    ensures
        r@ == artifact_name_text(name@, version@, os@, cpu@, artifact_type@),
{
    let mut s = String::from_str(name);
    s.append("-");
    s.append(version);
    s.append("-");
    s.append(artifact_type);
    s.append("-");
    s.append(os);
    s.append("-");
    s.append(cpu);
    s.append(".tar.gz");
    s
}

/// The release file name of `platform_dir`'s loadable tarball.
pub fn github_release_artifact_name_loadable(
    project: &Project,
    platform_dir: &PlatformDirectory,
) -> (r: String)
    ensures
        r@ == release_name(*project, *platform_dir, false),
{
    github_release_artifact_name(
        project.spec.package.name.as_str(),
        project.version.to_string().as_str(),
        platform_dir.os.to_string().as_str(),
        platform_dir.cpu.to_string().as_str(),
        "loadable",
    )
}

/// The release file name of `platform_dir`'s static tarball.
pub fn github_release_artifact_name_static(
    project: &Project,
    platform_dir: &PlatformDirectory,
) -> (r: String)
    ensures
        r@ == release_name(*project, *platform_dir, true),
{
    github_release_artifact_name(
        project.spec.package.name.as_str(),
        project.version.to_string().as_str(),
        platform_dir.os.to_string().as_str(),
        platform_dir.cpu.to_string().as_str(),
        "static",
    )
}

/// Whether every file of every platform directory has a simple archive path
/// as its name.
pub open spec fn release_paths_simple(pds: Seq<PlatformDirectory>) -> bool {
    forall|i: int|
        0 <= i < pds.len() ==> all_simple_paths(loadable_entries(#[trigger] pds[i]))
            && all_simple_paths(static_entries(pds[i]))
}

/// The platform directories that have static or header files, in order.
pub open spec fn static_platforms(pds: Seq<PlatformDirectory>) -> Seq<PlatformDirectory> {
    pds.filter(|pd: PlatformDirectory| has_static(pd))
}

/// The GitHub release tarballs of every platform directory, stored in `dir`:
/// first each platform's loadable tarball, in platform order, then the
/// static tarball of each platform that has static or header files, in
/// platform order. Files without captured metadata are recorded with
/// modification time `default_mtime`.
pub fn write_platform_files(project: &Project, default_mtime: u64, dir: &str) -> (r: Result<
    Vec<Artifact>,
    std::io::Error,
>)
    ensures
        r matches Ok(v) ==> {
            let pds = project.platform_directories@;
            let statics = static_platforms(pds);
            &&& v@.len() == pds.len() + statics.len()
            &&& forall|i: int|
                0 <= i < pds.len() ==> is_release_artifact(
                    #[trigger] v@[i],
                    *project,
                    pds[i],
                    dir@,
                    false,
                    default_mtime,
                )
            &&& forall|j: int|
                0 <= j < statics.len() ==> is_release_artifact(
                    #[trigger] v@[pds.len() + j],
                    *project,
                    statics[j],
                    dir@,
                    true,
                    default_mtime,
                )
        },
        release_paths_simple(project.platform_directories@) ==> r is Ok,
{
    let ghost pds = project.platform_directories@;
    let mut loadable_assets: Vec<Artifact> = Vec::new();
    let mut static_assets: Vec<Artifact> = Vec::new();
    let mut i: usize = 0;
    while i < project.platform_directories.len()
        invariant
            pds == project.platform_directories@,
            i <= pds.len(),
            loadable_assets@.len() == i,
            forall|k: int|
                0 <= k < i ==> is_release_artifact(
                    #[trigger] loadable_assets@[k],
                    *project,
                    pds[k],
                    dir@,
                    false,
                    default_mtime,
                ),
            static_assets@.len() == static_platforms(pds.take(i as int)).len(),
            forall|k: int|
                0 <= k < static_assets@.len() ==> is_release_artifact(
                    #[trigger] static_assets@[k],
                    *project,
                    static_platforms(pds.take(i as int))[k],
                    dir@,
                    true,
                    default_mtime,
                ),
        decreases pds.len() - i,
    {
        let pd = &project.platform_directories[i];
        proof {
            reveal(Seq::filter);
            assert(pds.take(i + 1).drop_last() =~= pds.take(i as int));
        }
        assert(release_paths_simple(pds) ==> all_simple_paths(loadable_entries(pds[i as int]))
            && all_simple_paths(static_entries(pds[i as int])));
        let ghl = match create_loadable_github_release_asset(pd, default_mtime) {
            Ok(b) => b,
            Err(e) => {
                return Err(e);
            },
        };
        let lname = github_release_artifact_name_loadable(project, pd);
        let url = project.release_download_url(lname.as_str());
        let kind = GeneratedAssetKind::GithubReleaseLoadable(
            GithubRelease { url, platform: (pd.os, pd.cpu) },
        );
        loadable_assets.push(Artifact::new(kind, dir, lname, ghl));
        match create_static_github_release_asset(pd, default_mtime) {
            Some(res) => {
                let ghs = match res {
                    Ok(b) => b,
                    Err(e) => {
                        return Err(e);
                    },
                };
                let sname = github_release_artifact_name_static(project, pd);
                let url = project.release_download_url(sname.as_str());
                let kind = GeneratedAssetKind::GithubReleaseStatic(
                    GithubRelease { url, platform: (pd.os, pd.cpu) },
                );
                static_assets.push(Artifact::new(kind, dir, sname, ghs));
            },
            None => {},
        }
        i = i + 1;
    }
    assert(pds.take(pds.len() as int) =~= pds);
    loadable_assets.append(&mut static_assets);
    Ok(loadable_assets)
}

} // verus!
