//! The order in which a build runs its stages, decided from the enabled
//! targets: GitHub release tarballs before the descriptors that reference
//! them, every target before the checksum list, install script and manifest.
use vstd::prelude::*;
use crate::spec::Targets;

verus! {

/// One step of a build.
#[derive(Clone, Copy, Debug, PartialEq, Eq, Structural)]
pub enum Stage {
    /// Build the GitHub release tarballs.
    GithubReleases,
    /// Register the GitHub release tarballs just built.
    RegisterGithubReleases,
    Sqlpkg,
    Spm,
    Amalgamation,
    Pip,
    Datasette,
    SqliteUtils,
    Npm,
    Gem,
    ChecksumList,
    InstallScript,
    Manifest,
}

/// The position of a stage in the order of a full build.
pub open spec fn rank(s: Stage) -> int {
    match s {
        Stage::GithubReleases => 0,
        Stage::RegisterGithubReleases => 1,
        Stage::Sqlpkg => 2,
        Stage::Spm => 3,
        Stage::Amalgamation => 4,
        Stage::Pip => 5,
        Stage::Datasette => 6,
        Stage::SqliteUtils => 7,
        Stage::Npm => 8,
        Stage::Gem => 9,
        Stage::ChecksumList => 10,
        Stage::InstallScript => 11,
        Stage::Manifest => 12,
    }
}

/// Whether a build with targets `t` runs stage `s`. The descriptors and the
/// amalgamation are built only beside GitHub releases, the plugin wheels
/// only beside the base wheels.
pub open spec fn enabled(t: Targets, s: Stage) -> bool {
    match s {
        Stage::GithubReleases => t.github_releases is Some,
        Stage::RegisterGithubReleases => t.github_releases is Some,
        Stage::Sqlpkg => t.sqlpkg is Some && t.github_releases is Some,
        Stage::Spm => t.spm is Some && t.github_releases is Some,
        Stage::Amalgamation => t.amalgamation is Some && t.github_releases is Some,
        Stage::Pip => t.pip is Some,
        Stage::Datasette => t.datasette is Some && t.pip is Some,
        Stage::SqliteUtils => t.sqlite_utils is Some && t.pip is Some,
        Stage::Npm => t.npm is Some,
        Stage::Gem => t.gem is Some,
        Stage::ChecksumList => true,
        Stage::InstallScript => true,
        Stage::Manifest => true,
    }
}

fn is_enabled(t: &Targets, s: Stage) -> (r: bool)
    ensures
        r == enabled(*t, s),
{
    match s {
        Stage::GithubReleases => t.github_releases.is_some(),
        Stage::RegisterGithubReleases => t.github_releases.is_some(),
        Stage::Sqlpkg => t.sqlpkg.is_some() && t.github_releases.is_some(),
        Stage::Spm => t.spm.is_some() && t.github_releases.is_some(),
        Stage::Amalgamation => t.amalgamation.is_some() && t.github_releases.is_some(),
        Stage::Pip => t.pip.is_some(),
        Stage::Datasette => t.datasette.is_some() && t.pip.is_some(),
        Stage::SqliteUtils => t.sqlite_utils.is_some() && t.pip.is_some(),
        Stage::Npm => t.npm.is_some(),
        Stage::Gem => t.gem.is_some(),
        Stage::ChecksumList => true,
        Stage::InstallScript => true,
        Stage::Manifest => true,
    }
}

/// Every stage, in the order of a full build.
fn all_stages() -> (r: Vec<Stage>)
    ensures
        r@.len() == 13,
        forall|k: int| 0 <= k < 13 ==> rank(#[trigger] r@[k]) == k,
{
    let v = vec![
        Stage::GithubReleases,
        Stage::RegisterGithubReleases,
        Stage::Sqlpkg,
        Stage::Spm,
        Stage::Amalgamation,
        Stage::Pip,
        Stage::Datasette,
        Stage::SqliteUtils,
        Stage::Npm,
        Stage::Gem,
        Stage::ChecksumList,
        Stage::InstallScript,
        Stage::Manifest,
    ];
    v
}

/// Whether `p` holds exactly the stages enabled by `t`, in increasing rank.
pub open spec fn is_plan(t: Targets, p: Seq<Stage>) -> bool {
    &&& forall|s: Stage| #[trigger] p.contains(s) <==> enabled(t, s)
    &&& forall|i: int, j: int| 0 <= i < j < p.len() ==> rank(p[i]) < rank(p[j])
}

fn enabled_in_order(targets: &Targets) -> (r: Vec<Stage>)
    ensures
        is_plan(*targets, r@),
{
    let all = all_stages();
    let mut plan: Vec<Stage> = Vec::new();
    let mut k: usize = 0;
    while k < all.len()
        invariant
            all@.len() == 13,
            forall|m: int| 0 <= m < 13 ==> rank(#[trigger] all@[m]) == m,
            k <= 13,
            forall|i: int, j: int| 0 <= i < j < plan@.len() ==> rank(plan@[i]) < rank(plan@[j]),
            forall|i: int| 0 <= i < plan@.len() ==> rank(#[trigger] plan@[i]) < k,
            forall|x: Stage| #[trigger] plan@.contains(x) <==> (enabled(*targets, x) && rank(x) < k),
        decreases 13 - k,
    {
        let s = all[k];
        assert(rank(s) == k);
        let on = is_enabled(targets, s);
        let ghost before = plan@;
        if on {
            plan.push(s);
        }
        proof { lemma_step(*targets, before, plan@, s, on, k as int); }
        k = k + 1;
    }
    plan
}

proof fn lemma_step(t: Targets, before: Seq<Stage>, after: Seq<Stage>, s: Stage, on: bool, k: int)
    requires
        rank(s) == k,
        on == enabled(t, s),
        after == if on { before.push(s) } else { before },
        forall|x: Stage| #[trigger] before.contains(x) <==> (enabled(t, x) && rank(x) < k),
    ensures
        forall|x: Stage| #[trigger] after.contains(x) <==> (enabled(t, x) && rank(x) < k + 1),
{
    assert forall|x: Stage| #[trigger] after.contains(x) <==> (enabled(t, x) && rank(x) < k + 1) by {
        if after.contains(x) {
            let i = choose|i: int| 0 <= i < after.len() && after[i] == x;
            if i < before.len() {
                assert(before[i] == x);
                assert(before.contains(x));
            } else {
                assert(x == s);
            }
        }
        if enabled(t, x) && rank(x) < k + 1 {
            if rank(x) < k {
                assert(before.contains(x));
                let i = choose|i: int| 0 <= i < before.len() && before[i] == x;
                assert(after[i] == x);
            } else {
                assert(x == s);
                assert(after[before.len() as int] == x);
            }
        }
    }
}

/// Whether `s` is one of the stages that finish a build.
pub open spec fn is_finishing(s: Stage) -> bool {
    s == Stage::ChecksumList || s == Stage::InstallScript || s == Stage::Manifest
}

/// The stages of a build with targets `targets`: exactly the enabled ones,
/// each once, in the order of a full build. So the GitHub release tarballs
/// are built and registered before the sqlpkg and spm descriptors that
/// reference them, and
/// the checksum list, install script and manifest come after every target.
pub fn build_plan(targets: &Targets) -> (r: Vec<Stage>)
    ensures
        forall|s: Stage| #[trigger] r@.contains(s) <==> enabled(*targets, s),
        forall|i: int, j: int| 0 <= i < j < r@.len() ==> rank(r@[i]) < rank(r@[j]),
        forall|i: int, j: int|
            0 <= i < r@.len() && 0 <= j < r@.len() && (r@[i] == Stage::GithubReleases || r@[i]
                == Stage::RegisterGithubReleases) && (r@[j] == Stage::Sqlpkg || r@[j] == Stage::Spm)
                ==> i < j,
        forall|i: int, j: int|
            0 <= i < r@.len() && 0 <= j < r@.len() && !is_finishing(r@[i]) && is_finishing(r@[j])
                ==> i < j,
{
    let plan = enabled_in_order(targets);
    proof {
        assert forall|i: int, j: int|
            0 <= i < plan@.len() && 0 <= j < plan@.len() && (plan@[i] == Stage::GithubReleases
                || plan@[i] == Stage::RegisterGithubReleases) && (plan@[j] == Stage::Sqlpkg
                || plan@[j] == Stage::Spm) implies i < j by {
            if j < i {
                assert(rank(plan@[j]) < rank(plan@[i]));
            }
        }
        assert forall|i: int, j: int|
            0 <= i < plan@.len() && 0 <= j < plan@.len() && !is_finishing(plan@[i]) && is_finishing(
                plan@[j],
            ) implies i < j by {
            if j < i {
                assert(rank(plan@[j]) < rank(plan@[i]));
            }
        }
    }
    plan
}

} // verus!
