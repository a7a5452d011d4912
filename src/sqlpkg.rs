//! The `sqlpkg.json` package identity document.
use vstd::prelude::*;
use crate::project::Project;
use crate::text::{copy_strings, join, joined};
use crate::version::version_text;

verus! {

/// The `assets` block of `sqlpkg.json`: a file pattern and the maps from
/// platform to file and to checksum.
///
/// Unfinished: the maps are always emitted empty. They most likely should
/// map each platform to its GitHub release file and checksum; until that is
/// settled nothing is put in them.
#[derive(Debug)]
pub struct Asset {
    pub pattern: Option<String>,
    pub files: Vec<(String, String)>,
    pub checksums: Vec<(String, String)>,
}

/// The `sqlpkg.json` document.
#[derive(Debug)]
pub struct Sqlpkg {
    pub owner: String,
    pub name: String,
    pub version: String,
    pub homepage: String,
    pub repository: String,
    pub authors: Vec<String>,
    pub license: String,
    pub description: String,
    pub keywords: Vec<String>,
    pub symbols: Option<Vec<String>>,
    pub assets: Asset,
}

/// The `sqlpkg.json` document of `project`: its identity, with the authors
/// joined by `, ` as owner, no keywords, no symbols and empty asset maps.
/// The empty asset maps are an unfinished part of this document, not a
/// requirement of the sqlpkg format (see `Asset`).
pub fn sqlpkg_json(project: &Project) -> (r: Sqlpkg)
    ensures
        r.owner@ == joined(project.spec.package.authors@.map_values(|a: String| a@), ", "@),
        r.name == project.spec.package.name,
        r.version@ == version_text(project.version),
        r.homepage == project.spec.package.homepage,
        r.repository == project.spec.package.repo,
        r.authors@ == project.spec.package.authors@,
        r.license == project.spec.package.license,
        r.description == project.spec.package.description,
        r.keywords@.len() == 0,
        r.symbols is None,
        r.assets.pattern is None,
        r.assets.files@.len() == 0,
        r.assets.checksums@.len() == 0,
{
    let package = &project.spec.package;
    Sqlpkg {
        owner: join(&package.authors, ", "),
        name: package.name.clone(),
        version: project.version.to_string(),
        homepage: package.homepage.clone(),
        repository: package.repo.clone(),
        authors: copy_strings(&package.authors),
        license: package.license.clone(),
        description: package.description.clone(),
        keywords: Vec::new(),
        symbols: None,
        assets: Asset { pattern: None, files: Vec::new(), checksums: Vec::new() },
    }
}

} // verus!
