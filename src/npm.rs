//! The npm tarball builder: one package per platform holding its loadable
//! files, and an umbrella package that depends on all of them optionally
//! and picks the right one at run time.
use vstd::prelude::*;
use crate::archive::{all_simple_paths, create_targz, file_view, file_views, targz_of};
use crate::json::{json_quoted, json_string};
use crate::platform::{cpu_token, os_token, Cpu, FileMeta, LoadablePlatformFile, Os, PlatformDirectory, PlatformFile};
use crate::project::Project;
use crate::registry::{path_text, Artifact, GeneratedAssetKind};
use crate::text::{join, joined};
use crate::version::version_text;

verus! {

/// The `repository` field of a `package.json`.
#[derive(Debug)]
pub struct Repository {
    pub repo_type: String,
    pub url: String,
    pub directory: Option<String>,
}

/// One entry of the `exports` field of a `package.json`.
#[derive(Debug)]
pub struct ExportTarget {
    /// For CommonJS, ending in `.cjs`.
    pub require: Option<String>,
    /// For ES modules, ending in `.mjs`.
    pub import: String,
    /// The TypeScript declarations.
    pub types: Option<String>,
}

/// A `package.json` manifest. Maps are kept as ordered key-value lists.
#[derive(Debug)]
pub struct PackageJson {
    pub name: String,
    pub version: String,
    pub author: String,
    pub license: String,
    pub description: String,
    pub repository: Repository,
    pub main: Option<String>,
    pub module: String,
    pub types: Option<String>,
    pub exports: Vec<(String, ExportTarget)>,
    pub files: Option<Vec<String>>,
    pub keywords: Option<Vec<String>>,
    pub dependencies: Option<Vec<(String, String)>>,
    pub optional_dependencies: Option<Vec<(String, String)>>,
    pub dev_dependencies: Option<Vec<(String, String)>>,
    pub os: Option<Vec<String>>,
    pub cpu: Option<Vec<String>>,
}

/// What building the npm packages failed on.
#[derive(Debug)]
pub enum NpmBuildError {
    IOError(std::io::Error),
    JsonError(serde_json::Error),
}

/// The flavour of JavaScript entry point.
#[allow(clippy::upper_case_acronyms)]
#[derive(Clone, Copy, Debug, PartialEq, Eq, Structural)]
pub enum JsFormat {
    CJS,
    ESM,
}

/// The npm `os` value of an operating system.
pub open spec fn npm_os_text(os: Os) -> Seq<char> {
    match os {
        Os::Linux => "linux"@,
        Os::Macos => "darwin"@,
        Os::Windows => "windows"@,
    }
}

/// The npm `cpu` value of a CPU architecture.
pub open spec fn npm_cpu_text(cpu: Cpu) -> Seq<char> {
    match cpu {
        Cpu::X86_64 => "x64"@,
        Cpu::Aarch64 => "arm64"@,
    }
}

/// The name of the npm package for platform directory `pd`: `{pkg}-{os}-{cpu}`.
pub open spec fn npm_package_name(project: Project, pd: PlatformDirectory) -> Seq<char> {
    project.spec.package.name@ + "-"@ + npm_os_text(pd.os) + "-"@ + npm_cpu_text(pd.cpu)
}

fn npm_os(os: &Os) -> (r: String)
    ensures
        r@ == npm_os_text(*os),
{
    match os {
        Os::Linux => String::from_str("linux"),
        Os::Macos => String::from_str("darwin"),
        Os::Windows => String::from_str("windows"),
    }
}

fn npm_cpu(cpu: &Cpu) -> (r: String)
    ensures
        r@ == npm_cpu_text(*cpu),
{
    match cpu {
        Cpu::X86_64 => String::from_str("x64"),
        Cpu::Aarch64 => String::from_str("arm64"),
    }
}

fn one_string(s: String) -> (r: Vec<String>)
    ensures
        r@ == seq![s],
{
    let mut v: Vec<String> = Vec::new();
    v.push(s);
    assert(v@ =~= seq![s]);
    v
}

/// The manifest fields shared by every package: identity, entry points.
fn manifest_for(project: &Project, name: String) -> (r: PackageJson)
    requires
        project.spec.package.authors@.len() > 0,
    ensures
        r.name == name,
        r.version@ == version_text(project.version),
        r.author == project.spec.package.authors@[0],
        r.optional_dependencies is None,
        r.os is None,
        r.cpu is None,
{
    let mut exports: Vec<(String, ExportTarget)> = Vec::new();
    exports.push(
        (
            String::from_str("."),
            ExportTarget {
                require: Some(String::from_str("./index.cjs")),
                import: String::from_str("./index.mjs"),
                types: Some(String::from_str("./index.d.ts")),
            },
        ),
    );
    PackageJson {
        name,
        version: project.version.to_string(),
        author: project.spec.package.authors[0].clone(),
        license: project.spec.package.license.clone(),
        description: project.spec.package.description.clone(),
        repository: Repository {
            repo_type: String::from_str("git"),
            url: String::from_str("https://TODO"),
            directory: None,
        },
        main: Some(String::from_str("./index.cjs")),
        module: String::from_str("./index.mjs"),
        types: Some(String::from_str("./index.d.ts")),
        exports,
        files: Some(Vec::new()),
        keywords: Some(Vec::new()),
        dependencies: None,
        optional_dependencies: None,
        dev_dependencies: None,
        os: None,
        cpu: None,
    }
}

/// The manifest of the npm package for platform directory `pd`, limited by
/// its `os` and `cpu` fields to that platform.
pub fn npm_platform_package_json(project: &Project, pd: &PlatformDirectory) -> (r: PackageJson)
    requires
        project.spec.package.authors@.len() > 0,
    ensures
        r.name@ == npm_package_name(*project, *pd),
        r.version@ == version_text(project.version),
        r.optional_dependencies is None,
        r.os matches Some(v) && v@.len() == 1 && v@[0]@ == npm_os_text(pd.os),
        r.cpu matches Some(v) && v@.len() == 1 && v@[0]@ == npm_cpu_text(pd.cpu),
{
    let mut name = project.spec.package.name.clone();
    name.append("-");
    name.append(npm_os(&pd.os).as_str());
    name.append("-");
    name.append(npm_cpu(&pd.cpu).as_str());
    let mut pkg = manifest_for(project, name);
    pkg.os = Some(one_string(npm_os(&pd.os)));
    pkg.cpu = Some(one_string(npm_cpu(&pd.cpu)));
    pkg
}

/// The manifests of the npm packages of every platform directory, in order.
pub fn npm_platform_package_jsons(project: &Project) -> (r: Vec<PackageJson>)
    requires
        project.spec.package.authors@.len() > 0,
    ensures
        r@.len() == project.platform_directories@.len(),
        forall|i: int|
            0 <= i < r@.len() ==> (#[trigger] r@[i]).name@ == npm_package_name(
                *project,
                project.platform_directories@[i],
            ) && r@[i].version@ == version_text(project.version),
        forall|i: int|
            0 <= i < r@.len() ==> {
                let pd = project.platform_directories@[i];
                &&& (#[trigger] r@[i]).optional_dependencies is None
                &&& r@[i].os matches Some(v) && v@.len() == 1 && v@[0]@ == npm_os_text(pd.os)
                &&& r@[i].cpu matches Some(v) && v@.len() == 1 && v@[0]@ == npm_cpu_text(pd.cpu)
            },
{
    let mut pkgs: Vec<PackageJson> = Vec::new();
    let mut i: usize = 0;
    while i < project.platform_directories.len()
        invariant
            i <= project.platform_directories@.len(),
            project.spec.package.authors@.len() > 0,
            pkgs@.len() == i,
            forall|k: int|
                0 <= k < i ==> (#[trigger] pkgs@[k]).name@ == npm_package_name(
                    *project,
                    project.platform_directories@[k],
                ) && pkgs@[k].version@ == version_text(project.version),
            forall|k: int|
                0 <= k < i ==> {
                    let pd = project.platform_directories@[k];
                    &&& (#[trigger] pkgs@[k]).optional_dependencies is None
                    &&& pkgs@[k].os matches Some(v) && v@.len() == 1 && v@[0]@ == npm_os_text(pd.os)
                    &&& pkgs@[k].cpu matches Some(v) && v@.len() == 1 && v@[0]@ == npm_cpu_text(
                        pd.cpu,
                    )
                },
        decreases project.platform_directories@.len() - i,
    {
        pkgs.push(npm_platform_package_json(project, &project.platform_directories[i]));
        i = i + 1;
    }
    pkgs
}

/// The (name, version) pairs of `pkgs`, as views.
pub open spec fn name_versions(pkgs: Seq<PackageJson>) -> Seq<(Seq<char>, Seq<char>)> {
    pkgs.map_values(|p: PackageJson| (p.name@, p.version@))
}

/// The (key, value) pairs of a dependency list, as views.
pub open spec fn dependency_views(deps: Seq<(String, String)>) -> Seq<(Seq<char>, Seq<char>)> {
    deps.map_values(|d: (String, String)| (d.0@, d.1@))
}

/// The umbrella package's manifest: no platform limits, and an optional
/// dependency on each of `platform_pkgs` at that package's version.
pub fn npm_umbrella_package_json(project: &Project, platform_pkgs: &Vec<PackageJson>) -> (r:
    PackageJson)
    requires
        project.spec.package.authors@.len() > 0,
    ensures
        r.name == project.spec.package.name,
        r.version@ == version_text(project.version),
        r.os is None,
        r.cpu is None,
        r.optional_dependencies matches Some(d) && dependency_views(d@) == name_versions(
            platform_pkgs@,
        ),
        (forall|i: int, j: int|
            0 <= i < j < platform_pkgs@.len() ==> platform_pkgs@[i].name@ != platform_pkgs@[j].name@)
            ==> (r.optional_dependencies matches Some(d) && forall|i: int, j: int|
            0 <= i < j < d@.len() ==> d@[i].0@ != d@[j].0@),
{
    let mut deps: Vec<(String, String)> = Vec::new();
    let mut i: usize = 0;
    while i < platform_pkgs.len()
        invariant
            i <= platform_pkgs@.len(),
            dependency_views(deps@) == name_versions(platform_pkgs@.take(i as int)),
        decreases platform_pkgs@.len() - i,
    {
        let ghost before = deps@;
        deps.push((platform_pkgs[i].name.clone(), platform_pkgs[i].version.clone()));
        assert(dependency_views(deps@) =~= dependency_views(before).push(
            (platform_pkgs@[i as int].name@, platform_pkgs@[i as int].version@),
        ));
        assert(platform_pkgs@.take(i + 1) =~= platform_pkgs@.take(i as int).push(
            platform_pkgs@[i as int],
        ));
        assert(name_versions(platform_pkgs@.take(i + 1)) =~= name_versions(
            platform_pkgs@.take(i as int),
        ).push((platform_pkgs@[i as int].name@, platform_pkgs@[i as int].version@)));
        i = i + 1;
    }
    assert(platform_pkgs@.take(platform_pkgs@.len() as int) =~= platform_pkgs@);
    proof {
        if forall|i: int, j: int|
            0 <= i < j < platform_pkgs@.len() ==> platform_pkgs@[i].name@ != platform_pkgs@[j].name@ {
            assert forall|i: int, j: int| 0 <= i < j < deps@.len() implies deps@[i].0@ != deps@[
                j
            ].0@ by {
                assert(dependency_views(deps@)[i] == (deps@[i].0@, deps@[i].1@));
                assert(dependency_views(deps@)[j] == (deps@[j].0@, deps@[j].1@));
                assert(name_versions(platform_pkgs@)[i] == (
                    platform_pkgs@[i].name@,
                    platform_pkgs@[i].version@,
                ));
                assert(name_versions(platform_pkgs@)[j] == (
                    platform_pkgs@[j].name@,
                    platform_pkgs@[j].version@,
                ));
            }
        }
    }
    let mut pkg = manifest_for(project, project.spec.package.name.clone());
    pkg.optional_dependencies = Some(deps);
    pkg
}

/// The umbrella package's optional dependencies are exactly the platform
/// packages built for the project's platform directories, in platform order,
/// each at the umbrella package's own version.
pub proof fn lemma_optional_dependencies_are_platform_packages(
    project: Project,
    platform_pkgs: Seq<PackageJson>,
    umbrella: PackageJson,
)
    requires
        platform_pkgs.len() == project.platform_directories@.len(),
        forall|i: int|
            0 <= i < platform_pkgs.len() ==> (#[trigger] platform_pkgs[i]).name@ == npm_package_name(
                project,
                project.platform_directories@[i],
            ) && platform_pkgs[i].version@ == version_text(project.version),
        umbrella.version@ == version_text(project.version),
        umbrella.optional_dependencies matches Some(d) && dependency_views(d@) == name_versions(
            platform_pkgs,
        ),
    ensures
        umbrella.optional_dependencies matches Some(d) && {
            &&& d@.map_values(|e: (String, String)| e.0@) == project.platform_directories@.map_values(
                |pd: PlatformDirectory| npm_package_name(project, pd),
            )
            &&& d@.map_values(|e: (String, String)| e.0@).to_set()
                == project.platform_directories@.map_values(
                |pd: PlatformDirectory| npm_package_name(project, pd),
            ).to_set()
            &&& forall|i: int| 0 <= i < d@.len() ==> (#[trigger] d@[i]).1@ == umbrella.version@
        },
{
    let d = umbrella.optional_dependencies.unwrap();
    assert(dependency_views(d@).len() == d@.len());
    assert(name_versions(platform_pkgs).len() == platform_pkgs.len());
    assert forall|i: int| 0 <= i < d@.len() implies (#[trigger] d@[i]).1@ == umbrella.version@ by {
        assert(dependency_views(d@)[i] == name_versions(platform_pkgs)[i]);
        assert(platform_pkgs[i].version@ == version_text(project.version));
    }
    let keys = d@.map_values(|e: (String, String)| e.0@);
    let names = project.platform_directories@.map_values(
        |pd: PlatformDirectory| npm_package_name(project, pd),
    );
    assert forall|i: int| 0 <= i < keys.len() implies #[trigger] keys[i] == names[i] by {
        assert(dependency_views(d@)[i] == name_versions(platform_pkgs)[i]);
        assert(platform_pkgs[i].name@ == npm_package_name(project, project.platform_directories@[i]));
    }
    assert(keys =~= names);
}

/// The TypeScript declarations of the umbrella package, as text.
pub open spec fn index_dts_text() -> Seq<char> {
    "\n\n/**\n * TODO JSDoc\n */\nexport declare function getLoadablePath(): string;\n\n\ninterface Db {\n    loadExtension(file: string, entrypoint?: string | undefined): void;\n}\n\n/**\n * TODO JSDoc\n */\nexport declare function load(db: Db): void;\n\n"@
}

/// The TypeScript declarations of the umbrella package.
pub fn index_dts() -> (r: String)
    ensures
        r@ == index_dts_text(),
{
    String::from_str(
        "\n\n/**\n * TODO JSDoc\n */\nexport declare function getLoadablePath(): string;\n\n\ninterface Db {\n    loadExtension(file: string, entrypoint?: string | undefined): void;\n}\n\n/**\n * TODO JSDoc\n */\nexport declare function load(db: Db): void;\n\n",
    )
}

/// The module imports of an entry point of format `format`.
pub open spec fn js_imports(format: JsFormat) -> Seq<char> {
    match format {
        JsFormat::CJS => "\nconst { join } = require(\"node:path\");\nconst { fileURLToPath } = require(\"node:url\");\nconst { arch, platform } = require(\"node:process\");\nconst { statSync } = require(\"node:fs\");\n"@,
        JsFormat::ESM => "\nimport { join } from \"node:path\";\nimport { fileURLToPath } from \"node:url\";\nimport { arch, platform } from \"node:process\";\nimport { statSync } from \"node:fs\";\n"@,
    }
}

/// The exports statement of an entry point of format `format`.
pub open spec fn js_exports(format: JsFormat) -> Seq<char> {
    match format {
        JsFormat::CJS => "module.exports = {getLoadablePath, load};"@,
        JsFormat::ESM => "export {getLoadablePath, load};"@,
    }
}

/// The JSON array of `[os, cpu]` pairs of `platforms`.
pub open spec fn platforms_json(platforms: Seq<(Os, Cpu)>) -> Seq<char> {
    "["@ + joined(
        platforms.map_values(
            |p: (Os, Cpu)| "["@ + json_quoted(os_token(p.0)) + ","@ + json_quoted(cpu_token(p.1)) + "]"@,
        ),
        ","@,
    ) + "]"@
}

fn platforms_json_string(platforms: &Vec<(Os, Cpu)>) -> (r: String)
    ensures
        r@ == platforms_json(platforms@),
{
    let mut items: Vec<String> = Vec::new();
    let mut i: usize = 0;
    while i < platforms.len()
        invariant
            i <= platforms@.len(),
            items@.map_values(|s: String| s@) == platforms@.take(i as int).map_values(
                |p: (Os, Cpu)| "["@ + json_quoted(os_token(p.0)) + ","@ + json_quoted(cpu_token(p.1))
                    + "]"@,
            ),
        decreases platforms@.len() - i,
    {
        let (os, cpu) = platforms[i];
        let mut item = String::from_str("[");
        item.append(json_string(os.to_string().as_str()).as_str());
        item.append(",");
        item.append(json_string(cpu.to_string().as_str()).as_str());
        item.append("]");
        let ghost before = items@;
        items.push(item);
        assert(platforms@.take(i + 1) =~= platforms@.take(i as int).push(platforms@[i as int]));
        assert(items@.map_values(|s: String| s@) =~= before.map_values(|s: String| s@).push(
            "["@ + json_quoted(os_token(os)) + ","@ + json_quoted(cpu_token(cpu)) + "]"@,
        ));
        assert(items@.map_values(|s: String| s@) =~= platforms@.take(i + 1).map_values(
            |p: (Os, Cpu)| "["@ + json_quoted(os_token(p.0)) + ","@ + json_quoted(cpu_token(p.1))
                + "]"@,
        ));
        i = i + 1;
    }
    assert(platforms@.take(platforms@.len() as int) =~= platforms@);
    let mut s = String::from_str("[");
    s.append(join(&items, ",").as_str());
    s.append("]");
    s
}

/// The JavaScript entry point of the umbrella package: it finds the
/// platform package for the running machine (`win32` read as `windows`)
/// and fails with a message naming the package where it is missing.
pub open spec fn index_js_text(
    pkg_name: Seq<char>,
    entrypoint: Seq<char>,
    platforms: Seq<(Os, Cpu)>,
    format: JsFormat,
) -> Seq<char> {
    "\n"@
        + js_imports(format)
        + "\n\nconst BASE_PACKAGE_NAME = "@
        + json_quoted(pkg_name)
        + ";\nconst ENTRYPOINT_BASE_NAME = "@
        + json_quoted(entrypoint)
        + ";\nconst supportedPlatforms = "@
        + platforms_json(platforms)
        + ";\n\nconst invalidPlatformErrorMessage = `Unsupported platform for ${BASE_PACKAGE_NAME}, on a ${platform}-${arch} machine. Supported platforms are (${supportedPlatforms\n  .map(([p, a]) => `${p}-${a}`)\n  .join(\",\")}). Consult the ${BASE_PACKAGE_NAME} NPM package README for details.`;\n\nconst extensionNotFoundErrorMessage = packageName => `Loadble extension for ${BASE_PACKAGE_NAME} not found. Was the ${packageName} package installed?`;\n\nfunction validPlatform(platform, arch) {\n  return (\n    supportedPlatforms.find(([p, a]) => platform == p && arch === a) !== null\n  );\n}\nfunction extensionSuffix(platform) {\n  if (platform === \"win32\") return \"dll\";\n  if (platform === \"darwin\") return \"dylib\";\n  return \"so\";\n}\nfunction platformPackageName(platform, arch) {\n  const os = platform === \"win32\" ? \"windows\" : platform;\n  return `${BASE_PACKAGE_NAME}-${os}-${arch}`;\n}\n\nfunction getLoadablePath() {\n  if (!validPlatform(platform, arch)) {\n    throw new Error(\n      invalidPlatformErrorMessage\n    );\n  }\n  const packageName = platformPackageName(platform, arch);\n  const loadablePath = join(\n    fileURLToPath(new URL(\".\", import.meta.url)),\n    \"..\",\n    packageName,\n    `${ENTRYPOINT_BASE_NAME}.${extensionSuffix(platform)}`\n  );\n  if (!statSync(loadablePath, { throwIfNoEntry: false })) {\n    throw new Error(extensionNotFoundErrorMessage(packageName));\n  }\n\n  return loadablePath;\n}\n\nfunction load(db) {\n  db.loadExtension(getLoadablePath());\n}\n\n"@
        + js_exports(format)
        + "\n"@
}

/// The JavaScript entry point of the umbrella package, in `format`.
pub fn index_js(pkg_name: &str, entrypoint: &str, platforms: &Vec<(Os, Cpu)>, format: JsFormat) -> (r:
    String)
    ensures
        r@ == index_js_text(pkg_name@, entrypoint@, platforms@, format),
{
    let base_package_name = json_string(pkg_name);
    let entrypoint_base_name = json_string(entrypoint);
    let supported = platforms_json_string(platforms);
    let imports = match format {
        JsFormat::CJS => "\nconst { join } = require(\"node:path\");\nconst { fileURLToPath } = require(\"node:url\");\nconst { arch, platform } = require(\"node:process\");\nconst { statSync } = require(\"node:fs\");\n",
        JsFormat::ESM => "\nimport { join } from \"node:path\";\nimport { fileURLToPath } from \"node:url\";\nimport { arch, platform } from \"node:process\";\nimport { statSync } from \"node:fs\";\n",
    };
    let exports = match format {
        JsFormat::CJS => "module.exports = {getLoadablePath, load};",
        JsFormat::ESM => "export {getLoadablePath, load};",
    };
    let mut s = String::from_str("\n");
    s.append(imports);
    s.append("\n\nconst BASE_PACKAGE_NAME = ");
    s.append(base_package_name.as_str());
    s.append(";\nconst ENTRYPOINT_BASE_NAME = ");
    s.append(entrypoint_base_name.as_str());
    s.append(";\nconst supportedPlatforms = ");
    s.append(supported.as_str());
    s.append(";\n\nconst invalidPlatformErrorMessage = `Unsupported platform for ${BASE_PACKAGE_NAME}, on a ${platform}-${arch} machine. Supported platforms are (${supportedPlatforms\n  .map(([p, a]) => `${p}-${a}`)\n  .join(\",\")}). Consult the ${BASE_PACKAGE_NAME} NPM package README for details.`;\n\nconst extensionNotFoundErrorMessage = packageName => `Loadble extension for ${BASE_PACKAGE_NAME} not found. Was the ${packageName} package installed?`;\n\nfunction validPlatform(platform, arch) {\n  return (\n    supportedPlatforms.find(([p, a]) => platform == p && arch === a) !== null\n  );\n}\nfunction extensionSuffix(platform) {\n  if (platform === \"win32\") return \"dll\";\n  if (platform === \"darwin\") return \"dylib\";\n  return \"so\";\n}\nfunction platformPackageName(platform, arch) {\n  const os = platform === \"win32\" ? \"windows\" : platform;\n  return `${BASE_PACKAGE_NAME}-${os}-${arch}`;\n}\n\nfunction getLoadablePath() {\n  if (!validPlatform(platform, arch)) {\n    throw new Error(\n      invalidPlatformErrorMessage\n    );\n  }\n  const packageName = platformPackageName(platform, arch);\n  const loadablePath = join(\n    fileURLToPath(new URL(\".\", import.meta.url)),\n    \"..\",\n    packageName,\n    `${ENTRYPOINT_BASE_NAME}.${extensionSuffix(platform)}`\n  );\n  if (!statSync(loadablePath, { throwIfNoEntry: false })) {\n    throw new Error(extensionNotFoundErrorMessage(packageName));\n  }\n\n  return loadablePath;\n}\n\nfunction load(db) {\n  db.loadExtension(getLoadablePath());\n}\n\n");
    s.append(exports);
    s.append("\n");
    s
}

} // verus!

verus! {

/// The bytes of `s`, UTF-8 encoded.
fn text_bytes(s: &str) -> (r: Vec<u8>)
    ensures
        r@ == vstd::utf8::encode_utf8(s@),
{
    s.as_bytes_vec()
}

/// An input file with no captured metadata.
fn generated_file(name: &str, text: &str) -> (r: PlatformFile)
    ensures
        r.name@ == name@,
        r.data@ == vstd::utf8::encode_utf8(text@),
        r.metadata is None,
{
    PlatformFile::new(String::from_str(name), text_bytes(text), None)
}

/// The archive entries of the npm package for `pd` with manifest text
/// `package_json`: `README.md`, `package.json`, then each loadable file with
/// its metadata, all under `package/`.
pub open spec fn npm_platform_entries(package_json: Seq<char>, pd: PlatformDirectory) -> Seq<
    (Seq<char>, Seq<u8>, Option<FileMeta>),
> {
    seq![
        ("package/README.md"@, vstd::utf8::encode_utf8("TODO"@), None::<FileMeta>),
        ("package/package.json"@, vstd::utf8::encode_utf8(package_json), None::<FileMeta>),
    ] + pd.loadable_files@.map_values(
        |l: LoadablePlatformFile| ("package/"@ + l.file.name@, l.file.data@, l.file.metadata),
    )
}

/// The archive entries of the umbrella npm package: `README.md`,
/// `package.json`, `index.mjs`, `index.cjs` and `index.d.ts`, all under
/// `package/`, none with metadata.
pub open spec fn npm_umbrella_entries(
    package_json: Seq<char>,
    pkg_name: Seq<char>,
    entrypoint: Seq<char>,
    platforms: Seq<(Os, Cpu)>,
) -> Seq<(Seq<char>, Seq<u8>, Option<FileMeta>)> {
    seq![
        ("package/README.md"@, vstd::utf8::encode_utf8("TODO"@), None::<FileMeta>),
        ("package/package.json"@, vstd::utf8::encode_utf8(package_json), None::<FileMeta>),
        (
            "package/index.mjs"@,
            vstd::utf8::encode_utf8(index_js_text(pkg_name, entrypoint, platforms, JsFormat::ESM)),
            None::<FileMeta>,
        ),
        (
            "package/index.cjs"@,
            vstd::utf8::encode_utf8(index_js_text(pkg_name, entrypoint, platforms, JsFormat::CJS)),
            None::<FileMeta>,
        ),
        ("package/index.d.ts"@, vstd::utf8::encode_utf8(index_dts_text()), None::<FileMeta>),
    ]
}

/// The files of the npm package for `pd`: `README.md`, `package.json` with
/// text `package_json`, then each loadable file, all under `package/`.
pub fn npm_platform_files(package_json: &str, pd: &PlatformDirectory) -> (r: Vec<PlatformFile>)
    ensures
        r@.len() == 2 + pd.loadable_files@.len(),
        r@[0].name@ == "package/README.md"@,
        r@[0].data@ == vstd::utf8::encode_utf8("TODO"@),
        r@[1].name@ == "package/package.json"@,
        r@[1].data@ == vstd::utf8::encode_utf8(package_json@),
        forall|i: int|
            0 <= i < pd.loadable_files@.len() ==> {
                let l = #[trigger] pd.loadable_files@[i];
                &&& r@[2 + i].name@ == "package/"@ + l.file.name@
                &&& r@[2 + i].data@ == l.file.data@
                &&& r@[2 + i].metadata == l.file.metadata
            },
        r@.map_values(|f: PlatformFile| file_view(f)) == npm_platform_entries(package_json@, *pd),
{
    let mut files: Vec<PlatformFile> = Vec::new();
    files.push(generated_file("package/README.md", "TODO"));
    files.push(generated_file("package/package.json", package_json));
    let mut i: usize = 0;
    while i < pd.loadable_files.len()
        invariant
            i <= pd.loadable_files@.len(),
            files@.len() == 2 + i,
            files@[0].name@ == "package/README.md"@,
            files@[0].data@ == vstd::utf8::encode_utf8("TODO"@),
            files@[1].name@ == "package/package.json"@,
            files@[1].data@ == vstd::utf8::encode_utf8(package_json@),
            files@[0].metadata is None,
            files@[1].metadata is None,
            forall|k: int|
                0 <= k < i ==> {
                    let l = #[trigger] pd.loadable_files@[k];
                    &&& files@[2 + k].name@ == "package/"@ + l.file.name@
                    &&& files@[2 + k].data@ == l.file.data@
                    &&& files@[2 + k].metadata == l.file.metadata
                },
        decreases pd.loadable_files@.len() - i,
    {
        let l: &LoadablePlatformFile = &pd.loadable_files[i];
        let mut name = String::from_str("package/");
        name.append(l.file.name.as_str());
        files.push(PlatformFile::new(name, l.file.data.clone(), l.file.metadata));
        i = i + 1;
    }
    let ghost views = files@.map_values(|f: PlatformFile| file_view(f));
    let ghost want = npm_platform_entries(package_json@, *pd);
    assert(views.len() == want.len());
    assert forall|k: int| 0 <= k < views.len() implies views[k] == want[k] by {
        let head = seq![
            ("package/README.md"@, vstd::utf8::encode_utf8("TODO"@), None::<FileMeta>),
            ("package/package.json"@, vstd::utf8::encode_utf8(package_json@), None::<FileMeta>),
        ];
        let tail = pd.loadable_files@.map_values(
            |l: LoadablePlatformFile| ("package/"@ + l.file.name@, l.file.data@, l.file.metadata),
        );
        assert(want == head + tail);
        if k >= 2 {
            let l = pd.loadable_files@[k - 2];
            assert(files@[2 + (k - 2)].name@ == "package/"@ + l.file.name@);
            assert(want[k] == tail[k - 2]);
            assert(tail[k - 2] == ("package/"@ + l.file.name@, l.file.data@, l.file.metadata));
            assert(files@[k].data@ == l.file.data@);
            assert(files@[k].metadata == l.file.metadata);
            assert(views[k] == file_view(files@[k]));
        } else {
            assert(want[k] == head[k]);
            assert(views[k] == file_view(files@[k]));
            if k == 0 {
                assert(views[k] == head[0]);
            } else {
                assert(views[k] == head[1]);
            }
        }
    }
    assert(views =~= want);
    files
}

/// The files of the umbrella npm package: `README.md`, `package.json` with
/// text `package_json`, `index.mjs`, `index.cjs` and `index.d.ts`, all
/// under `package/`; the entry points load `entrypoint` for `platforms`.
pub fn npm_umbrella_files(
    package_json: &str,
    pkg_name: &str,
    entrypoint: &str,
    platforms: &Vec<(Os, Cpu)>,
) -> (r: Vec<PlatformFile>)
    ensures
        r@.len() == 5,
        r@[0].name@ == "package/README.md"@,
        r@[1].name@ == "package/package.json"@,
        r@[1].data@ == vstd::utf8::encode_utf8(package_json@),
        r@[2].name@ == "package/index.mjs"@,
        r@[2].data@ == vstd::utf8::encode_utf8(
            index_js_text(pkg_name@, entrypoint@, platforms@, JsFormat::ESM),
        ),
        r@[3].name@ == "package/index.cjs"@,
        r@[3].data@ == vstd::utf8::encode_utf8(
            index_js_text(pkg_name@, entrypoint@, platforms@, JsFormat::CJS),
        ),
        r@[4].name@ == "package/index.d.ts"@,
        r@.map_values(|f: PlatformFile| file_view(f)) == npm_umbrella_entries(
            package_json@,
            pkg_name@,
            entrypoint@,
            platforms@,
        ),
{
    let mut files: Vec<PlatformFile> = Vec::new();
    files.push(generated_file("package/README.md", "TODO"));
    files.push(generated_file("package/package.json", package_json));
    let esm = index_js(pkg_name, entrypoint, platforms, JsFormat::ESM);
    files.push(generated_file("package/index.mjs", esm.as_str()));
    let cjs = index_js(pkg_name, entrypoint, platforms, JsFormat::CJS);
    files.push(generated_file("package/index.cjs", cjs.as_str()));
    let dts = index_dts();
    files.push(generated_file("package/index.d.ts", dts.as_str()));
    assert(files@.map_values(|f: PlatformFile| file_view(f)) =~= npm_umbrella_entries(
        package_json@,
        pkg_name@,
        entrypoint@,
        platforms@,
    ));
    files
}

fn file_refs(files: &Vec<PlatformFile>) -> (r: Vec<&PlatformFile>)
    ensures
        file_views(r@) == files@.map_values(|f: PlatformFile| file_view(f)),
        r@.len() == files@.len(),
        forall|i: int| 0 <= i < files@.len() ==> *r@[i] == files@[i],
{
    let mut refs: Vec<&PlatformFile> = Vec::new();
    let mut i: usize = 0;
    while i < files.len()
        invariant
            i <= files@.len(),
            refs@.len() == i,
            forall|k: int| 0 <= k < i ==> *refs@[k] == files@[k],
        decreases files@.len() - i,
    {
        refs.push(&files[i]);
        i = i + 1;
    }
    assert(file_views(refs@) =~= files@.map_values(|f: PlatformFile| file_view(f)));
    refs
}

/// `{name}.tar.gz`.
pub open spec fn tarball_name(name: Seq<char>) -> Seq<char> {
    name + ".tar.gz"@
}

/// The npm tarballs, stored in `dir`: one per platform directory, in
/// platform order, holding `platform_package_jsons[i]` as its manifest and
/// the platform's loadable files; then the umbrella package, holding
/// `umbrella_package_json` and the entry points. Files are dated
/// `default_mtime` where no metadata was captured.
pub fn write_npm_packages(
    project: &Project,
    platform_package_jsons: &Vec<String>,
    umbrella_package_json: &str,
    default_mtime: u64,
    dir: &str,
) -> (r: Result<Vec<Artifact>, NpmBuildError>)
    requires
        platform_package_jsons@.len() == project.platform_directories@.len(),
        project.platform_directories@.len() > 0,
        forall|i: int|
            0 <= i < project.platform_directories@.len()
                ==> (#[trigger] project.platform_directories@[i]).loadable_files@.len() > 0,
    ensures
        r matches Ok(v) ==> {
            let pds = project.platform_directories@;
            let n = pds.len() as int;
            &&& v@.len() == n + 1
            &&& forall|i: int|
                0 <= i < n ==> {
                    let name = tarball_name(npm_package_name(*project, pds[i]));
                    &&& (#[trigger] v@[i]).wf()
                    &&& v@[i].contents@ == targz_of(
                        npm_platform_entries(platform_package_jsons@[i]@, pds[i]),
                        default_mtime,
                    )
                    &&& v@[i].asset.kind == GeneratedAssetKind::Npm(Some((pds[i].os, pds[i].cpu)))
                    &&& v@[i].asset.name@ == name
                    &&& v@[i].asset.path@ == path_text(dir@, name)
                }
            &&& v@[n].wf()
            &&& v@[n].contents@ == targz_of(
                npm_umbrella_entries(
                    umbrella_package_json@,
                    project.spec.package.name@,
                    pds[0].loadable_files@[0].file_stem@,
                    pds.map_values(|pd: PlatformDirectory| (pd.os, pd.cpu)),
                ),
                default_mtime,
            )
            &&& v@[n].asset.kind == GeneratedAssetKind::Npm(None)
            &&& v@[n].asset.name@ == tarball_name(project.spec.package.name@)
            &&& v@[n].asset.path@ == path_text(dir@, tarball_name(project.spec.package.name@))
        },
        (forall|i: int|
            0 <= i < project.platform_directories@.len() ==> all_simple_paths(
                npm_platform_entries(
                    platform_package_jsons@[i]@,
                    #[trigger] project.platform_directories@[i],
                ),
            )) && all_simple_paths(
            npm_umbrella_entries(
                umbrella_package_json@,
                project.spec.package.name@,
                project.platform_directories@[0].loadable_files@[0].file_stem@,
                project.platform_directories@.map_values(|pd: PlatformDirectory| (pd.os, pd.cpu)),
            ),
        ) ==> r is Ok,
{
    let ghost pds = project.platform_directories@;
    let mut tarballs: Vec<Vec<u8>> = Vec::new();
    let mut i: usize = 0;
    while i < project.platform_directories.len()
        invariant
            pds == project.platform_directories@,
            platform_package_jsons@.len() == pds.len(),
            i <= pds.len(),
            tarballs@.len() == i,
            forall|k: int|
                0 <= k < i ==> (#[trigger] tarballs@[k])@ == targz_of(
                    npm_platform_entries(platform_package_jsons@[k]@, pds[k]),
                    default_mtime,
                ),
        decreases pds.len() - i,
    {
        let pd = &project.platform_directories[i];
        let files = npm_platform_files(platform_package_jsons[i].as_str(), pd);
        let refs = file_refs(&files);
        match create_targz(refs.as_slice(), default_mtime) {
            Ok(b) => tarballs.push(b),
            Err(e) => {
                return Err(NpmBuildError::IOError(e));
            },
        }
        i = i + 1;
    }
    let ghost pairs = pds.map_values(|pd: PlatformDirectory| (pd.os, pd.cpu));
    let mut platforms: Vec<(Os, Cpu)> = Vec::new();
    let mut k: usize = 0;
    while k < project.platform_directories.len()
        invariant
            pds == project.platform_directories@,
            pairs == pds.map_values(|pd: PlatformDirectory| (pd.os, pd.cpu)),
            k <= pds.len(),
            platforms@ == pairs.take(k as int),
        decreases pds.len() - k,
    {
        platforms.push((project.platform_directories[k].os, project.platform_directories[k].cpu));
        assert(platforms@ =~= pairs.take(k + 1));
        k = k + 1;
    }
    assert(platforms@ =~= pairs);
    let entrypoint = &project.platform_directories[0].loadable_files[0].file_stem;
    let umbrella_files = npm_umbrella_files(
        umbrella_package_json,
        project.spec.package.name.as_str(),
        entrypoint.as_str(),
        &platforms,
    );
    let umbrella_refs = file_refs(&umbrella_files);
    let umbrella = create_targz(umbrella_refs.as_slice(), default_mtime);
    let mut assets: Vec<Artifact> = Vec::new();
    let mut tarballs = tarballs;
    let mut j: usize = 0;
    while tarballs.len() > 0
        invariant
            pds == project.platform_directories@,
            j + tarballs@.len() == pds.len(),
            pds.len() == project.platform_directories.len(),
            assets@.len() == j,
            forall|m: int|
                0 <= m < tarballs@.len() ==> (#[trigger] tarballs@[m])@ == targz_of(
                    npm_platform_entries(platform_package_jsons@[j + m]@, pds[j + m]),
                    default_mtime,
                ),
            forall|m: int|
                0 <= m < j ==> {
                    let name = tarball_name(npm_package_name(*project, pds[m]));
                    &&& (#[trigger] assets@[m]).wf()
                    &&& assets@[m].contents@ == targz_of(
                        npm_platform_entries(platform_package_jsons@[m]@, pds[m]),
                        default_mtime,
                    )
                    &&& assets@[m].asset.kind == GeneratedAssetKind::Npm(Some((pds[m].os, pds[m].cpu)))
                    &&& assets@[m].asset.name@ == name
                    &&& assets@[m].asset.path@ == path_text(dir@, name)
                },
        decreases tarballs@.len(),
    {
        let data = tarballs.remove(0);
        let pd = &project.platform_directories[j];
        let mut name = project.spec.package.name.clone();
        name.append("-");
        name.append(npm_os(&pd.os).as_str());
        name.append("-");
        name.append(npm_cpu(&pd.cpu).as_str());
        name.append(".tar.gz");
        let kind = GeneratedAssetKind::Npm(Some((pd.os, pd.cpu)));
        assets.push(Artifact::new(kind, dir, name, data));
        j = j + 1;
    }
    let umbrella = match umbrella {
        Ok(b) => b,
        Err(e) => {
            return Err(NpmBuildError::IOError(e));
        },
    };
    let mut name = project.spec.package.name.clone();
    name.append(".tar.gz");
    assets.push(Artifact::new(GeneratedAssetKind::Npm(None), dir, name, umbrella));
    Ok(assets)
}

} // verus!
