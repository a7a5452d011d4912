//! The declarative package specification: package identity and the set of
//! enabled targets.
use vstd::prelude::*;

verus! {

/// The identity of the package being distributed.
#[derive(Debug)]
pub struct SpecPackage {
    pub name: String,
    pub authors: Vec<String>,
    pub license: String,
    pub description: String,
    pub homepage: String,
    pub repo: String,
    pub git_tag_format: Option<String>,
}

#[derive(Debug)]
pub struct TargetGithubRelease {}

#[derive(Debug)]
pub struct TargetSqlpkg {}

#[derive(Debug)]
pub struct TargetSpm {}

#[derive(Debug)]
pub struct TargetDatasette {}

/// The Python wheel target; `extra_init_py` names a file whose text is
/// appended to the generated `__init__.py`.
#[derive(Debug)]
pub struct TargetPip {
    pub extra_init_py: Option<String>,
}

#[derive(Debug)]
pub struct TargetSqliteUtils {}

#[derive(Debug)]
pub struct TargetNpm {}

/// The RubyGems target; `module_name` is the Ruby module the gem defines.
#[derive(Debug)]
pub struct TargetGem {
    pub module_name: String,
}

/// The source amalgamation target; `sources` lists the files bundled,
/// relative to the specification file.
#[derive(Debug)]
pub struct TargetAmalgamation {
    pub sources: Vec<String>,
}

/// The enabled targets: each one present is built.
#[derive(Debug)]
pub struct Targets {
    pub github_releases: Option<TargetGithubRelease>,
    pub sqlpkg: Option<TargetSqlpkg>,
    pub spm: Option<TargetSpm>,
    pub pip: Option<TargetPip>,
    pub datasette: Option<TargetDatasette>,
    pub sqlite_utils: Option<TargetSqliteUtils>,
    pub npm: Option<TargetNpm>,
    pub gem: Option<TargetGem>,
    pub amalgamation: Option<TargetAmalgamation>,
}

/// A whole package specification.
#[derive(Debug)]
pub struct Spec {
    pub package: SpecPackage,
    pub targets: Targets,
}

/// The release tag of version text `version` under the tag format `format`:
/// the format with each `$VERSION` replaced, or the version itself.
pub open spec fn git_tag_text(format: Option<String>, version: Seq<char>) -> Seq<char> {
    match format {
        None => version,
        Some(f) => crate::text::replaced_all(f@, "$VERSION"@, version),
    }
}

impl SpecPackage {
    /// The release tag of `version`.
    pub fn git_tag(&self, version: &crate::version::SemVersion) -> (r: String)
        ensures
            r@ == git_tag_text(self.git_tag_format, crate::version::version_text(*version)),
    {
        let v = version.to_string();
        match &self.git_tag_format {
            None => v,
            Some(f) => {
                proof { reveal_strlit("$VERSION"); }
                crate::text::replace_str(f.as_str(), "$VERSION", v.as_str())
            },
        }
    }
}

/// The target dependencies that a specification can break, in the order
/// they are checked.
#[derive(Clone, Copy, Debug, PartialEq, Eq, Structural)]
pub enum TargetDependencyError {
    SqlpkgWithoutGithubReleases,
    SpmWithoutGithubReleases,
    DatasetteWithoutPip,
    SqliteUtilsWithoutPip,
}

/// The first target dependency that `t` breaks, if any: `sqlpkg` and `spm`
/// need `github_releases`, `datasette` and `sqlite_utils` need `pip`.
pub open spec fn first_broken_dependency(t: Targets) -> Option<TargetDependencyError> {
    if t.sqlpkg is Some && t.github_releases is None {
        Some(TargetDependencyError::SqlpkgWithoutGithubReleases)
    } else if t.spm is Some && t.github_releases is None {
        Some(TargetDependencyError::SpmWithoutGithubReleases)
    } else if t.datasette is Some && t.pip is None {
        Some(TargetDependencyError::DatasetteWithoutPip)
    } else if t.sqlite_utils is Some && t.pip is None {
        Some(TargetDependencyError::SqliteUtilsWithoutPip)
    } else {
        None
    }
}

/// The message that reports a broken target dependency.
pub open spec fn dependency_message(e: TargetDependencyError) -> Seq<char> {
    match e {
        TargetDependencyError::SqlpkgWithoutGithubReleases => "sqlpkg target requires the github_releases target"@,
        TargetDependencyError::SpmWithoutGithubReleases => "spm target requires the github_releases target"@,
        TargetDependencyError::DatasetteWithoutPip => "datasette target requires the pip target"@,
        TargetDependencyError::SqliteUtilsWithoutPip => "sqlite_utils target requires the pip target"@,
    }
}

impl TargetDependencyError {
    /// The message that reports this error.
    pub fn message(&self) -> (r: String)
        ensures
            r@ == dependency_message(*self),
    {
        match self {
            TargetDependencyError::SqlpkgWithoutGithubReleases => String::from_str(
                "sqlpkg target requires the github_releases target",
            ),
            TargetDependencyError::SpmWithoutGithubReleases => String::from_str(
                "spm target requires the github_releases target",
            ),
            TargetDependencyError::DatasetteWithoutPip => String::from_str(
                "datasette target requires the pip target",
            ),
            TargetDependencyError::SqliteUtilsWithoutPip => String::from_str(
                "sqlite_utils target requires the pip target",
            ),
        }
    }
}

impl Targets {
    /// Checks the dependencies between targets.
    pub fn validate(&self) -> (r: Result<(), TargetDependencyError>)
        ensures
            match first_broken_dependency(*self) {
                Some(e) => r == Err::<(), TargetDependencyError>(e),
                None => r is Ok,
            },
    {
        if self.sqlpkg.is_some() && self.github_releases.is_none() {
            Err(TargetDependencyError::SqlpkgWithoutGithubReleases)
        } else if self.spm.is_some() && self.github_releases.is_none() {
            Err(TargetDependencyError::SpmWithoutGithubReleases)
        } else if self.datasette.is_some() && self.pip.is_none() {
            Err(TargetDependencyError::DatasetteWithoutPip)
        } else if self.sqlite_utils.is_some() && self.pip.is_none() {
            Err(TargetDependencyError::SqliteUtilsWithoutPip)
        } else {
            Ok(())
        }
    }
}

} // verus!
