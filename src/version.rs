//! Semantic versions, their rendering, and their translation into the
//! Python version scheme.
use vstd::prelude::*;
use crate::text::{decimal, decimal_string, find_char, index_of, lemma_index_of_bounds, str_eq};

verus! {

/// A semantic version `major.minor.patch[-pre][+build]`; an empty `pre` or
/// `build` means that part is absent.
#[derive(Debug)]
pub struct SemVersion {
    pub major: u64,
    pub minor: u64,
    pub patch: u64,
    pub pre: String,
    pub build: String,
}

/// What `semver::Version::parse` reads from `s`: major, minor, patch,
/// pre-release and build metadata, or nothing where `s` is not a version.
pub uninterp spec fn semver_parse(s: Seq<char>) -> Option<(u64, u64, u64, Seq<char>, Seq<char>)>;

/// `major.minor.patch`.
pub open spec fn core_text(major: u64, minor: u64, patch: u64) -> Seq<char> {
    decimal(major as nat) + "."@ + decimal(minor as nat) + "."@ + decimal(patch as nat)
}

/// The text of a version: `major.minor.patch`, then `-pre` and `+build`
/// where present.
pub open spec fn version_text(v: SemVersion) -> Seq<char> {
    core_text(v.major, v.minor, v.patch) + (if v.pre@.len() == 0 {
        Seq::empty()
    } else {
        "-"@ + v.pre@
    }) + (if v.build@.len() == 0 {
        Seq::empty()
    } else {
        "+"@ + v.build@
    })
}

/// The Python version of `v`, where there is one: the version text as it is
/// without a pre-release; `base` followed by `a`, `b` or `rc` and the number
/// for a pre-release `alpha.N`, `beta.N` or `rc.N` without build metadata;
/// none for any other pre-release, or a pre-release with build metadata.
pub open spec fn pip_version(v: SemVersion) -> Option<Seq<char>> {
    if v.pre@.len() == 0 {
        Some(version_text(v))
    } else if v.build@.len() != 0 {
        None
    } else {
        let k = index_of(v.pre@, '.');
        let label = v.pre@.take(k);
        let number = v.pre@.skip(k + 1);
        let base = core_text(v.major, v.minor, v.patch);
        if k == v.pre@.len() {
            None
        } else if label == "alpha"@ {
            Some(base + "a"@ + number)
        } else if label == "beta"@ {
            Some(base + "b"@ + number)
        } else if label == "rc"@ {
            Some(base + "rc"@ + number)
        } else {
            None
        }
    }
}

/// Relies on `semver::Version::parse`, read field by field.
#[verifier::external_body]
fn semver_version_parse(s: &str) -> (r: Option<SemVersion>)
    ensures
        match r {
            Some(v) => semver_parse(s@) == Some((v.major, v.minor, v.patch, v.pre@, v.build@)),
            None => semver_parse(s@) is None,
        },
{
    match semver::Version::parse(s) {
        Ok(v) => Some(
            SemVersion {
                major: v.major,
                minor: v.minor,
                patch: v.patch,
                pre: v.pre.as_str().to_string(),
                build: v.build.as_str().to_string(),
            },
        ),
        Err(_) => None,
    }
}

fn core_string(major: u64, minor: u64, patch: u64) -> (r: String)
    ensures
        r@ == core_text(major, minor, patch),
{
    let mut s = decimal_string(major);
    s.append(".");
    s.append(decimal_string(minor).as_str());
    s.append(".");
    s.append(decimal_string(patch).as_str());
    s
}

impl SemVersion {
    /// Reads a semantic version, as `semver` does.
    pub fn parse(s: &str) -> (r: Option<SemVersion>)
        ensures
            match r {
                Some(v) => semver_parse(s@) == Some((v.major, v.minor, v.patch, v.pre@, v.build@)),
                None => semver_parse(s@) is None,
            },
    {
        semver_version_parse(s)
    }

    /// The version's text.
    pub fn to_string(&self) -> (r: String)
        ensures
            r@ == version_text(*self),
    {
        let mut s = core_string(self.major, self.minor, self.patch);
        if self.pre.unicode_len() != 0 {
            s.append("-");
            s.append(self.pre.as_str());
        }
        if self.build.unicode_len() != 0 {
            s.append("+");
            s.append(self.build.as_str());
        }
        s
    }
}

/// The Python version of `v`: `1.2.3` stays `1.2.3`, `1.2.3-alpha.4` becomes
/// `1.2.3a4`, `1.2.3-beta.1` becomes `1.2.3b1`, `1.2.3-rc.2` becomes
/// `1.2.3rc2`. Any other pre-release, and a pre-release together with build
/// metadata, has no Python version: the result is then `None`.
pub fn semver_to_pip_version(v: &SemVersion) -> (r: Option<String>)
    ensures
        match r {
            Some(s) => pip_version(*v) == Some(s@),
            None => pip_version(*v) is None,
        },
{
    let pre = v.pre.as_str();
    let n = pre.unicode_len();
    if n == 0 {
        return Some(v.to_string());
    }
    if v.build.unicode_len() != 0 {
        return None;
    }
    let k = find_char(pre, '.');
    proof { lemma_index_of_bounds(v.pre@, '.'); }
    if k == n {
        return None;
    }
    let label = pre.substring_char(0, k);
    let number = pre.substring_char(k + 1, n);
    assert(label@ =~= v.pre@.take(k as int));
    assert(number@ =~= v.pre@.skip(k + 1));
    let mut s = core_string(v.major, v.minor, v.patch);
    if str_eq(label, "alpha") {
        s.append("a");
    } else if str_eq(label, "beta") {
        s.append("b");
    } else if str_eq(label, "rc") {
        s.append("rc");
    } else {
        return None;
    }
    s.append(number);
    Some(s)
}

} // verus!
