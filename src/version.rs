//! Versions, releases and the resolution of a version target against a
//! list of releases.
use vstd::prelude::*;

verus! {

/// A release version: either a plain number or a semantic version triple.
/// Every plain number orders before every semantic version; within a kind the
/// order is numeric (lexicographic for triples).
#[derive(Clone, Copy, Debug, PartialEq, Eq, Structural)]
pub enum Version {
    Number(u64),
    Semver(u64, u64, u64),
}

/// The key that orders versions: a kind tag followed by the components.
pub open spec fn version_key(v: Version) -> (int, int, int, int) {
    match v {
        Version::Number(n) => (0, n as int, 0, 0),
        Version::Semver(a, b, c) => (1, a as int, b as int, c as int),
    }
}

/// Strict lexicographic order on four integers.
pub open spec fn key_lt(x: (int, int, int, int), y: (int, int, int, int)) -> bool {
    x.0 < y.0 || (x.0 == y.0 && (x.1 < y.1 || (x.1 == y.1 && (x.2 < y.2 || (x.2 == y.2
        && x.3 < y.3)))))
}

/// `a` is strictly older than `b`.
pub open spec fn version_lt(a: Version, b: Version) -> bool {
    key_lt(version_key(a), version_key(b))
}

/// The version order is a strict total order: irreflexive, transitive, and any
/// two distinct versions are comparable.
pub proof fn lemma_version_total_order(a: Version, b: Version, c: Version)
    ensures
        !version_lt(a, a),
        version_lt(a, b) && version_lt(b, c) ==> version_lt(a, c),
        a != b ==> (version_lt(a, b) || version_lt(b, a)),
        !(version_lt(a, b) && version_lt(b, a)),
{
}

impl Version {
    /// A plain numbered version.
    pub fn new_number(n: u64) -> (r: Version)
        ensures
            r == Version::Number(n),
    {
        Version::Number(n)
    }

    /// A semantic version `major.minor.patch`.
    pub fn new_semver(major: u64, minor: u64, patch: u64) -> (r: Version)
        ensures
            r == Version::Semver(major, minor, patch),
    {
        Version::Semver(major, minor, patch)
    }

    /// Whether the two versions are the same.
    pub fn same_as(&self, other: &Version) -> (r: bool)
        ensures
            r == (*self == *other),
    {
        match (*self, *other) {
            (Version::Number(x), Version::Number(y)) => x == y,
            (Version::Semver(a, b, c), Version::Semver(x, y, z)) => a == x && b == y && c == z,
            _ => false,
        }
    }

    /// Whether `self` is strictly older than `other`.
    pub fn older_than(&self, other: &Version) -> (r: bool)
        ensures
            r == version_lt(*self, *other),
    {
        match (*self, *other) {
            (Version::Number(_), Version::Semver(_, _, _)) => true,
            (Version::Semver(_, _, _), Version::Number(_)) => false,
            (Version::Number(x), Version::Number(y)) => x < y,
            (Version::Semver(a, b, c), Version::Semver(x, y, z)) => {
                a < x || (a == x && (b < y || (b == y && c < z)))
            },
        }
    }
}

/// A downloadable file belonging to a release.
#[derive(Clone, Debug)]
pub struct File {
    pub name: String,
    pub url: String,
    pub requires_authorization: bool,
}

/// A release of a package: a name, a version and its files, in order.
#[derive(Clone, Debug)]
pub struct Release {
    pub name: String,
    pub version: Version,
    pub files: Vec<File>,
}

/// Which version of a package to install.
#[derive(Clone, Copy, Debug, PartialEq, Eq, Structural)]
pub enum VersionTarget {
    Latest,
    Specific(Version),
}

/// Why a version target could not be resolved.
#[derive(Clone, Copy, Debug, PartialEq, Eq, Structural)]
pub enum VersionResolutionError {
    /// The release list was empty.
    NoReleases,
    /// No release carries the requested version.
    NotFound(Version),
}

/// Index `i` holds the first release of greatest version.
pub open spec fn is_first_latest(rs: Seq<Release>, i: int) -> bool {
    &&& 0 <= i < rs.len()
    &&& forall|j: int| 0 <= j < rs.len() ==> !version_lt(rs[i].version, #[trigger] rs[j].version)
    &&& forall|j: int| 0 <= j < i ==> version_lt(#[trigger] rs[j].version, rs[i].version)
}

/// Index `i` holds the first release whose version is `v`.
pub open spec fn is_first_match(rs: Seq<Release>, v: Version, i: int) -> bool {
    &&& 0 <= i < rs.len()
    &&& rs[i].version == v
    &&& forall|j: int| 0 <= j < i ==> #[trigger] rs[j].version != v
}

/// What resolving `t` against `rs` yields: the index of the chosen release.
pub open spec fn resolves_to(t: VersionTarget, rs: Seq<Release>, r: Result<usize, VersionResolutionError>) -> bool {
    match t {
        VersionTarget::Latest => match r {
            Ok(i) => is_first_latest(rs, i as int),
            Err(e) => rs.len() == 0 && e == VersionResolutionError::NoReleases,
        },
        VersionTarget::Specific(v) => match r {
            Ok(i) => is_first_match(rs, v, i as int),
            Err(e) => (forall|j: int| 0 <= j < rs.len() ==> #[trigger] rs[j].version != v)
                && e == VersionResolutionError::NotFound(v),
        },
    }
}

impl VersionTarget {
    /// Picks the release this target designates: the first of greatest
    /// version for `Latest`, the first exact match for `Specific`.
    pub fn resolve(&self, releases: &Vec<Release>) -> (r: Result<usize, VersionResolutionError>)
        ensures
            resolves_to(*self, releases@, r),
    {
        match *self {
            VersionTarget::Latest => {
                if releases.len() == 0 {
                    return Err(VersionResolutionError::NoReleases);
                }
                let mut best: usize = 0;
                let mut i: usize = 1;
                while i < releases.len()
                    invariant
                        1 <= i <= releases.len(),
                        best < i,
                        forall|j: int| 0 <= j < i ==> !version_lt(releases@[best as int].version, #[trigger] releases@[j].version),
                        forall|j: int| 0 <= j < best ==> version_lt(#[trigger] releases@[j].version, releases@[best as int].version),
                    decreases releases.len() - i,
                {
                    if releases[best].version.older_than(&releases[i].version) {
                        proof {
                            assert forall|j: int| 0 <= j < i implies version_lt(#[trigger] releases@[j].version, releases@[i as int].version) by {
                                lemma_version_total_order(releases@[j].version, releases@[best as int].version, releases@[i as int].version);
                            }
                        }
                        best = i;
                    }
                    proof {
                        lemma_version_total_order(releases@[best as int].version, releases@[i as int].version, releases@[best as int].version);
                    }
                    i = i + 1;
                }
                Ok(best)
            },
            VersionTarget::Specific(v) => {
                let mut i: usize = 0;
                while i < releases.len()
                    invariant
                        i <= releases.len(),
                        *self == VersionTarget::Specific(v),
                        forall|j: int| 0 <= j < i ==> #[trigger] releases@[j].version != v,
                    decreases releases.len() - i,
                {
                    if releases[i].version.same_as(&v) {
                        return Ok(i);
                    }
                    i = i + 1;
                }
                Err(VersionResolutionError::NotFound(v))
            },
        }
    }

    /// The same target pinned to the concrete version it resolves to.
    pub fn pin(&self, releases: &Vec<Release>) -> (r: Result<VersionTarget, VersionResolutionError>)
        ensures
            match r {
                Ok(t) => exists|i: usize| #[trigger] resolves_to(*self, releases@, Ok(i))
                    && t == VersionTarget::Specific(releases@[i as int].version),
                Err(e) => resolves_to(*self, releases@, Err(e)),
            },
    {
        match self.resolve(releases) {
            Ok(i) => Ok(VersionTarget::Specific(releases[i].version)),
            Err(e) => Err(e),
        }
    }
}

} // verus!
