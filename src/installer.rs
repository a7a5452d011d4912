//! The install script: a POSIX shell script that downloads the GitHub
//! release tarball for a chosen target and type, checks its SHA-256 and
//! unpacks it.
use vstd::prelude::*;
use crate::platform::{cpu_token, os_token, Cpu, Os};
use crate::project::Project;
use crate::registry::{GeneratedAsset, GeneratedAssetKind};
use crate::text::{join, joined};
use crate::version::version_text;

verus! {

/// One target of the script's `case`: a release tarball's platform, type,
/// URL and checksum.
#[derive(Debug)]
pub struct Case {
    pub os: Os,
    pub cpu: Cpu,
    pub type_: String,
    pub url: String,
    pub checksum: String,
}

/// The platform of `a` where it is a GitHub release tarball.
pub open spec fn release_platform(a: GeneratedAsset) -> Option<(Os, Cpu)> {
    match a.kind {
        GeneratedAssetKind::GithubReleaseLoadable(gr) => Some(gr.platform),
        GeneratedAssetKind::GithubReleaseStatic(gr) => Some(gr.platform),
        _ => None,
    }
}

/// Whether `assets` holds a GitHub release tarball for `p`.
pub open spec fn has_release_for(assets: Seq<GeneratedAsset>, p: (Os, Cpu)) -> bool {
    exists|i: int| 0 <= i < assets.len() && #[trigger] release_platform(assets[i]) == Some(p)
}

/// Every platform, in the order of their `{os}-{cpu}` labels.
pub open spec fn platforms_by_label() -> Seq<(Os, Cpu)> {
    seq![
        (Os::Linux, Cpu::Aarch64),
        (Os::Linux, Cpu::X86_64),
        (Os::Macos, Cpu::Aarch64),
        (Os::Macos, Cpu::X86_64),
        (Os::Windows, Cpu::Aarch64),
        (Os::Windows, Cpu::X86_64),
    ]
}

/// `{os}-{cpu}`.
pub open spec fn platform_label(p: (Os, Cpu)) -> Seq<char> {
    os_token(p.0) + "-"@ + cpu_token(p.1)
}

/// The labels of the platforms that have a release tarball, each once, in
/// label order.
pub open spec fn install_targets(assets: Seq<GeneratedAsset>) -> Seq<Seq<char>> {
    platforms_by_label().filter(|p: (Os, Cpu)| has_release_for(assets, p)).map_values(
        |p: (Os, Cpu)| platform_label(p),
    )
}

/// The `case` arm for one release tarball.
pub open spec fn case_text(
    os: Os,
    cpu: Cpu,
    type_: Seq<char>,
    url: Seq<char>,
    checksum: Seq<char>,
) -> Seq<char> {
    "    \""@
        + os_token(os)
        + "-"@
        + cpu_token(cpu)
        + "-"@
        + type_
        + "\")\n      url=\""@
        + url
        + "\"\n      checksum=\""@
        + checksum
        + "\"\n      ;;"@
}

/// The `case` arm of `a` where it is a GitHub release tarball.
pub open spec fn case_of(a: GeneratedAsset) -> Option<Seq<char>> {
    match a.kind {
        GeneratedAssetKind::GithubReleaseLoadable(gr) => Some(
            case_text(gr.platform.0, gr.platform.1, "loadable"@, gr.url@, a.checksum_sha256@),
        ),
        GeneratedAssetKind::GithubReleaseStatic(gr) => Some(
            case_text(gr.platform.0, gr.platform.1, "static"@, gr.url@, a.checksum_sha256@),
        ),
        _ => None,
    }
}

/// The `case` arms of the release tarballs among `assets`, in registry order.
pub open spec fn install_cases(assets: Seq<GeneratedAsset>) -> Seq<Seq<char>>
    decreases assets.len(),
{
    if assets.len() == 0 {
        Seq::empty()
    } else {
        match case_of(assets.last()) {
            Some(c) => install_cases(assets.drop_last()).push(c),
            None => install_cases(assets.drop_last()),
        }
    }
}

/// The `usage` function of the script.
pub open spec fn usage_text(version: Seq<char>, targets: Seq<char>) -> Seq<char> {
    "\nusage() {\n    cat <<EOF\nsqlite-hello-install "@
        + version
        + "\n\nUSAGE:\n    $0 [static|loadable] [--target=target] [--prefix=path]\n\nOPTIONS:\n    --target\n            Specify a different target platform to install. Available targets: "@
        + targets
        + "\n\n    --prefix\n            Specify a different directory to save the binaries. Defaults to the current working directory.\nEOF\n}\n\n"@
}

/// The `current_target` function of the script.
pub open spec fn current_target_text() -> Seq<char> {
    "\ncurrent_target() {\n  if [ \"$OS\" = \"Windows_NT\" ]; then\n    # TODO disambiguate between x86 and arm windows\n    target=\"windows-x86_64\"\n    return 0\n  fi\n  case $(uname -sm) in\n  \"Darwin x86_64\") target=macos-x86_64 ;;\n  \"Darwin arm64\") target=macos-aarch64 ;;\n  \"Linux x86_64\") target=linux-x86_64 ;;\n  *) target=$(uname -sm);;\n  esac\n}\n"@
}

/// The `process_arguments` function of the script.
pub open spec fn process_arguments_text() -> Seq<char> {
    "\nprocess_arguments() {\n  while [[ $# -gt 0 ]]; do\n      case \"$1\" in\n          --help)\n              usage\n              exit 0\n              ;;\n          --target=*)\n              target=\"\\${1#*=}\"\n              ;;\n          --prefix=*)\n              prefix=\"\\${1#*=}\"\n              ;;\n          static|loadable)\n              type=\"$1\"\n              ;;\n          *)\n              echo \"Unrecognized option: $1\"\n              usage\n              exit 1\n              ;;\n      esac\n      shift\n  done\n  if [ -z \"$type\" ]; then\n    type=loadable\n  fi\n  if [ \"$type\" != \"static\" ] && [ \"$type\" != \"loadable\" ]; then\n      echo \"Invalid type '$type'. It must be either 'static' or 'loadable'.\"\n      usage\n      exit 1\n  fi\n  if [ -z \"$prefix\" ]; then\n    prefix=\"$PWD\"\n  fi\n  if [ -z \"$target\" ]; then\n    current_target\n  fi\n}\n\n"@
}

/// The `main` function of the script, with the given `case` arms.
pub open spec fn main_text(cases: Seq<char>) -> Seq<char> {
    "\nmain() {\n    local type=\"\"\n    local target=\"\"\n    local prefix=\"\"\n    local url=\"\"\n    local checksum=\"\"\n\n    process_arguments \"$@\"\n\n    echo \"${BOLD}Type${RESET}: $type\"\n    echo \"${BOLD}Target${RESET}: $target\"\n    echo \"${BOLD}Prefix${RESET}: $prefix\"\n\n    case \"$target-$type\" in\n"@
        + cases
        + "\n    *)\n      echo \"Unsupported platform $target\" 1>&2\n      exit 1\n      ;;\n    esac\n\n    extension=\"\\${url##*.}\"\n\n    if [ \"$extension\" = \"zip\" ]; then\n      tmpfile=\"$prefix/tmp.zip\"\n    else\n      tmpfile=\"$prefix/tmp.tar.gz\"\n    fi\n\n    curl --fail --location --progress-bar --output \"$tmpfile\" \"$url\"\n\n    if ! echo \"$checksum $tmpfile\" | sha256sum --check --status; then\n      echo \"Checksum fail!\"  1>&2\n      rm $tmpfile\n      exit 1\n    fi\n\n    if [ \"$extension\" = \"zip\" ]; then\n      unzip \"$tmpfile\" -d $prefix\n      rm $tmpfile\n    else\n      tar -xzf \"$tmpfile\" -C $prefix\n      rm $tmpfile\n    fi\n\n    echo \"✅ $target $type binaries installed at $prefix.\"\n}\n\n"@
}

/// The whole script, around its four functions.
pub open spec fn script_text(usage: Seq<char>, main: Seq<char>) -> Seq<char> {
    "#!/bin/sh\nset -e\n\nif [ -n \"$NO_COLOR\" ]; then\n    BOLD=\"\"\n    RESET=\"\"\nelse\n    BOLD=\"\\033[1m\"\n    RESET=\"\\033[0m\"\nfi\n\n"@
        + usage
        + "\n\n"@
        + current_target_text()
        + "\n\n"@
        + process_arguments_text()
        + "\n\n"@
        + main
        + "\n\nmain \"$@\"\n"@
}

/// The script for version `version` and the registry `assets`.
pub open spec fn install_sh_text(version: Seq<char>, assets: Seq<GeneratedAsset>) -> Seq<char> {
    script_text(
        usage_text(version, joined(install_targets(assets), ", "@)),
        main_text(joined(install_cases(assets), "\n"@)),
    )
}

/// The `usage` function, listing `targets`.
pub fn part_usage(version: &str, targets: &str) -> (r: String)
    ensures
        r@ == usage_text(version@, targets@),
{
    let mut s = String::from_str("\nusage() {\n    cat <<EOF\nsqlite-hello-install ");
    s.append(version);
    s.append("\n\nUSAGE:\n    $0 [static|loadable] [--target=target] [--prefix=path]\n\nOPTIONS:\n    --target\n            Specify a different target platform to install. Available targets: ");
    s.append(targets);
    s.append("\n\n    --prefix\n            Specify a different directory to save the binaries. Defaults to the current working directory.\nEOF\n}\n\n");
    s
}

/// The `current_target` function.
pub fn part_current_target() -> (r: String)
    ensures
        r@ == current_target_text(),
{
    String::from_str(
        "\ncurrent_target() {\n  if [ \"$OS\" = \"Windows_NT\" ]; then\n    # TODO disambiguate between x86 and arm windows\n    target=\"windows-x86_64\"\n    return 0\n  fi\n  case $(uname -sm) in\n  \"Darwin x86_64\") target=macos-x86_64 ;;\n  \"Darwin arm64\") target=macos-aarch64 ;;\n  \"Linux x86_64\") target=linux-x86_64 ;;\n  *) target=$(uname -sm);;\n  esac\n}\n",
    )
}

/// The `process_arguments` function.
pub fn part_process_arguments() -> (r: String)
    ensures
        r@ == process_arguments_text(),
{
    String::from_str(
        "\nprocess_arguments() {\n  while [[ $# -gt 0 ]]; do\n      case \"$1\" in\n          --help)\n              usage\n              exit 0\n              ;;\n          --target=*)\n              target=\"\\${1#*=}\"\n              ;;\n          --prefix=*)\n              prefix=\"\\${1#*=}\"\n              ;;\n          static|loadable)\n              type=\"$1\"\n              ;;\n          *)\n              echo \"Unrecognized option: $1\"\n              usage\n              exit 1\n              ;;\n      esac\n      shift\n  done\n  if [ -z \"$type\" ]; then\n    type=loadable\n  fi\n  if [ \"$type\" != \"static\" ] && [ \"$type\" != \"loadable\" ]; then\n      echo \"Invalid type '$type'. It must be either 'static' or 'loadable'.\"\n      usage\n      exit 1\n  fi\n  if [ -z \"$prefix\" ]; then\n    prefix=\"$PWD\"\n  fi\n  if [ -z \"$target\" ]; then\n    current_target\n  fi\n}\n\n",
    )
}

/// The `case` arm for `c`.
pub fn case(c: &Case) -> (r: String)
    ensures
        r@ == case_text(c.os, c.cpu, c.type_@, c.url@, c.checksum@),
{
    let mut s = String::from_str("    \"");
    s.append(c.os.to_string().as_str());
    s.append("-");
    s.append(c.cpu.to_string().as_str());
    s.append("-");
    s.append(c.type_.as_str());
    s.append("\")\n      url=\"");
    s.append(c.url.as_str());
    s.append("\"\n      checksum=\"");
    s.append(c.checksum.as_str());
    s.append("\"\n      ;;");
    s
}

/// The `main` function, with an arm for each of `cases`, in order.
pub fn part_main(cases: &Vec<Case>) -> (r: String)
    ensures
        r@ == main_text(
            joined(
                cases@.map_values(|c: Case| case_text(c.os, c.cpu, c.type_@, c.url@, c.checksum@)),
                "\n"@,
            ),
        ),
{
    let mut arms: Vec<String> = Vec::new();
    let mut i: usize = 0;
    while i < cases.len()
        invariant
            i <= cases@.len(),
            arms@.map_values(|s: String| s@) == cases@.take(i as int).map_values(
                |c: Case| case_text(c.os, c.cpu, c.type_@, c.url@, c.checksum@),
            ),
        decreases cases@.len() - i,
    {
        let ghost before = arms@;
        let ghost c = cases@[i as int];
        arms.push(case(&cases[i]));
        assert(cases@.take(i + 1) =~= cases@.take(i as int).push(c));
        assert(arms@.map_values(|s: String| s@) =~= before.map_values(|s: String| s@).push(
            case_text(c.os, c.cpu, c.type_@, c.url@, c.checksum@),
        ));
        assert(arms@.map_values(|s: String| s@) =~= cases@.take(i + 1).map_values(
            |c: Case| case_text(c.os, c.cpu, c.type_@, c.url@, c.checksum@),
        ));
        i = i + 1;
    }
    assert(cases@.take(cases@.len() as int) =~= cases@);
    let cases_text = join(&arms, "\n");
    let mut s = String::from_str("\nmain() {\n    local type=\"\"\n    local target=\"\"\n    local prefix=\"\"\n    local url=\"\"\n    local checksum=\"\"\n\n    process_arguments \"$@\"\n\n    echo \"${BOLD}Type${RESET}: $type\"\n    echo \"${BOLD}Target${RESET}: $target\"\n    echo \"${BOLD}Prefix${RESET}: $prefix\"\n\n    case \"$target-$type\" in\n");
    s.append(cases_text.as_str());
    s.append("\n    *)\n      echo \"Unsupported platform $target\" 1>&2\n      exit 1\n      ;;\n    esac\n\n    extension=\"\\${url##*.}\"\n\n    if [ \"$extension\" = \"zip\" ]; then\n      tmpfile=\"$prefix/tmp.zip\"\n    else\n      tmpfile=\"$prefix/tmp.tar.gz\"\n    fi\n\n    curl --fail --location --progress-bar --output \"$tmpfile\" \"$url\"\n\n    if ! echo \"$checksum $tmpfile\" | sha256sum --check --status; then\n      echo \"Checksum fail!\"  1>&2\n      rm $tmpfile\n      exit 1\n    fi\n\n    if [ \"$extension\" = \"zip\" ]; then\n      unzip \"$tmpfile\" -d $prefix\n      rm $tmpfile\n    else\n      tar -xzf \"$tmpfile\" -C $prefix\n      rm $tmpfile\n    fi\n\n    echo \"✅ $target $type binaries installed at $prefix.\"\n}\n\n");

    s
}

fn has_release(assets: &[GeneratedAsset], os: Os, cpu: Cpu) -> (r: bool)
    ensures
        r == has_release_for(assets@, (os, cpu)),
{
    let mut i: usize = 0;
    while i < assets.len()
        invariant
            i <= assets@.len(),
            forall|k: int| 0 <= k < i ==> #[trigger] release_platform(assets@[k]) != Some((os, cpu)),
        decreases assets@.len() - i,
    {
        let found = match &assets[i].kind {
            GeneratedAssetKind::GithubReleaseLoadable(gr) => gr.platform.0 == os && gr.platform.1 == cpu,
            GeneratedAssetKind::GithubReleaseStatic(gr) => gr.platform.0 == os && gr.platform.1 == cpu,
            _ => false,
        };
        if found {
            assert(release_platform(assets@[i as int]) == Some((os, cpu)));
            return true;
        }
        i = i + 1;
    }
    false
}

fn platform_label_string(p: (Os, Cpu)) -> (r: String)
    ensures
        r@ == platform_label(p),
{
    let mut s = p.0.to_string();
    s.append("-");
    s.append(p.1.to_string().as_str());
    s
}

/// The labels of the platforms that have a release tarball among `assets`.
pub fn install_target_labels(assets: &[GeneratedAsset]) -> (r: Vec<String>)
    ensures
        r@.map_values(|s: String| s@) == install_targets(assets@),
{
    let mut all: Vec<(Os, Cpu)> = Vec::new();
    all.push((Os::Linux, Cpu::Aarch64));
    all.push((Os::Linux, Cpu::X86_64));
    all.push((Os::Macos, Cpu::Aarch64));
    all.push((Os::Macos, Cpu::X86_64));
    all.push((Os::Windows, Cpu::Aarch64));
    all.push((Os::Windows, Cpu::X86_64));
    assert(all@ =~= platforms_by_label());
    let ghost f = |p: (Os, Cpu)| has_release_for(assets@, p);
    let mut labels: Vec<String> = Vec::new();
    let mut i: usize = 0;
    while i < all.len()
        invariant
            all@ == platforms_by_label(),
            i <= all@.len(),
            f == (|p: (Os, Cpu)| has_release_for(assets@, p)),
            labels@.map_values(|s: String| s@) == all@.take(i as int).filter(f).map_values(
                |p: (Os, Cpu)| platform_label(p),
            ),
        decreases all@.len() - i,
    {
        let p = all[i];
        proof {
            reveal(Seq::filter);
            assert(all@.take(i + 1).drop_last() =~= all@.take(i as int));
        }
        if has_release(assets, p.0, p.1) {
            let ghost before = labels@;
            labels.push(platform_label_string(p));
            assert(labels@.map_values(|s: String| s@) =~= before.map_values(|s: String| s@).push(
                platform_label(p),
            ));
        }
        i = i + 1;
    }
    assert(all@.take(all@.len() as int) =~= all@);
    labels
}

/// The cases of the release tarballs among `assets`, in registry order.
pub fn install_case_list(assets: &[GeneratedAsset]) -> (r: Vec<Case>)
    ensures
        r@.map_values(|c: Case| case_text(c.os, c.cpu, c.type_@, c.url@, c.checksum@))
            == install_cases(assets@),
{
    let mut cases: Vec<Case> = Vec::new();
    let mut i: usize = 0;
    while i < assets.len()
        invariant
            i <= assets@.len(),
            cases@.map_values(|c: Case| case_text(c.os, c.cpu, c.type_@, c.url@, c.checksum@))
                == install_cases(assets@.take(i as int)),
        decreases assets@.len() - i,
    {
        let a = &assets[i];
        assert(assets@.take(i + 1).drop_last() =~= assets@.take(i as int));
        let c = match &a.kind {
            GeneratedAssetKind::GithubReleaseLoadable(gr) => Some(
                Case {
                    os: gr.platform.0,
                    cpu: gr.platform.1,
                    type_: String::from_str("loadable"),
                    url: gr.url.clone(),
                    checksum: a.checksum_sha256.clone(),
                },
            ),
            GeneratedAssetKind::GithubReleaseStatic(gr) => Some(
                Case {
                    os: gr.platform.0,
                    cpu: gr.platform.1,
                    type_: String::from_str("static"),
                    url: gr.url.clone(),
                    checksum: a.checksum_sha256.clone(),
                },
            ),
            _ => None,
        };
        match c {
            Some(c) => {
                let ghost before = cases@;
                let ghost text = case_text(c.os, c.cpu, c.type_@, c.url@, c.checksum@);
                assert(case_of(assets@[i as int]) == Some(text));
                cases.push(c);
                assert(cases@.map_values(
                    |c: Case| case_text(c.os, c.cpu, c.type_@, c.url@, c.checksum@),
                ) =~= before.map_values(
                    |c: Case| case_text(c.os, c.cpu, c.type_@, c.url@, c.checksum@),
                ).push(text));
            },
            None => {},
        }
        i = i + 1;
    }
    assert(assets@.take(assets@.len() as int) =~= assets@);
    cases
}

/// The install script for `project`, offering every GitHub release tarball
/// in `assets`: its usage lists the platforms that have one, and its `main`
/// has a `case` arm for each, in registry order.
pub fn install_sh(project: &Project, assets: &[GeneratedAsset]) -> (r: String)
    ensures
        r@ == install_sh_text(version_text(project.version), assets@),
{
    let targets = join(&install_target_labels(assets), ", ");
    let cases = install_case_list(assets);
    let usage = part_usage(project.version.to_string().as_str(), targets.as_str());
    let current = part_current_target();
    let process = part_process_arguments();
    let main = part_main(&cases);
    let mut s = String::from_str("#!/bin/sh\nset -e\n\nif [ -n \"$NO_COLOR\" ]; then\n    BOLD=\"\"\n    RESET=\"\"\nelse\n    BOLD=\"\\033[1m\"\n    RESET=\"\\033[0m\"\nfi\n\n");
    s.append(usage.as_str());
    s.append("\n\n");
    s.append(current.as_str());
    s.append("\n\n");
    s.append(process.as_str());
    s.append("\n\n");
    s.append(main.as_str());
    s.append("\n\nmain \"$@\"\n");
    s
}

} // verus!
