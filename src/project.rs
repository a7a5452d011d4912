//! A build's inputs: the package specification, the version being built and
//! the classified platform directories.
use vstd::prelude::*;
use crate::platform::PlatformDirectory;
use crate::spec::Spec;
use crate::version::{version_text, SemVersion};

verus! {

/// Everything a build reads: specification, version, platform directories.
#[derive(Debug)]
pub struct Project {
    pub version: SemVersion,
    pub spec: Spec,
    pub platform_directories: Vec<PlatformDirectory>,
}

/// `{repo}/releases/download/{version}/{name}`.
pub open spec fn download_url_text(project: Project, name: Seq<char>) -> Seq<char> {
    project.spec.package.repo@ + "/releases/download/"@ + version_text(project.version) + "/"@
        + name
}

impl Project {
    /// The download URL of the release file `name`.
    pub fn release_download_url(&self, name: &str) -> (r: String)
        ensures
            r@ == download_url_text(*self, name@),
    {
        let mut url = self.spec.package.repo.clone();
        url.append("/releases/download/");
        url.append(self.version.to_string().as_str());
        url.append("/");
        url.append(name);
        url
    }
}

} // verus!
