//! Configuration structures, the binding of a package to its release source,
//! and the one-shot cache of that source's releases.
use vstd::prelude::*;
use crate::version::{Release, Version};

verus! {

/// A TOML value holding a source's own configuration; carried, never read.
#[verifier::external_type_specification]
#[verifier::external_body]
pub struct ExTomlValue(toml::Value);

/// The release sources compiled into the installer.
#[derive(Clone, Copy, Debug, PartialEq, Eq, Structural)]
pub enum SourceKind {
    GDrive,
}

/// The source kind registered under a name, if any.
pub open spec fn source_kind_of(name: Seq<char>) -> Option<SourceKind> {
    if name == "gdrive"@ {
        Some(SourceKind::GDrive)
    } else {
        None
    }
}

/// Looks up the source kind registered under `name`.
pub fn source_by_name(name: &String) -> (r: Option<SourceKind>)
    ensures
        r == source_kind_of(name@),
{
    let gdrive = "gdrive".to_string();
    proof {
        reveal_strlit("gdrive");
    }
    if *name == gdrive {
        Some(SourceKind::GDrive)
    } else {
        None
    }
}

/// Why the releases of a package could not be had.
#[derive(Clone, Debug)]
pub enum SourceError {
    /// No source is registered under this name.
    SourceNotFound(String),
    /// The source failed to fetch or parse its releases.
    SourceFetchError(String),
    /// The releases were already delivered by an earlier call.
    NoCachedReleases,
}

/// Fetches the current releases of a source kind. Implementations do the
/// network and parsing work of each kind.
pub trait ReleaseSource {
    fn get_current_releases(&self, kind: SourceKind, config: &toml::Value) -> Result<Vec<Release>, String>;
}

/// Description of the source of a package.
#[derive(Debug)]
pub struct PackageSource {
    pub name: String,
    pub match_regex: String,
    pub allow_version_control: bool,
    pub config: toml::Value,
    pub cached_releases: ReleaseCache,
}

/// The one-shot store of a source's releases.
#[derive(Clone, Debug)]
pub struct ReleaseCache {
    resolved: bool,
    cached: Option<Result<Vec<Release>, SourceError>>,
}

/// The cache of a package source: whether its source was asked yet, and
/// what is stored.
pub struct CacheState {
    pub resolved: bool,
    pub cached: Option<Result<Vec<Release>, SourceError>>,
}

/// What a read of the cache delivers: the stored outcome, or the report that
/// nothing is stored.
pub open spec fn read_once(cached: Option<Result<Vec<Release>, SourceError>>) -> Result<Vec<Release>, SourceError> {
    match cached {
        Some(c) => c,
        None => Err(SourceError::NoCachedReleases),
    }
}

/// One query of the releases from cache state `s`, where `fetched` is what
/// the source would answer: the first query stores the answer, and every
/// query takes what is stored out of the cache.
pub open spec fn query_step(s: CacheState, fetched: Result<Vec<Release>, SourceError>) -> (CacheState, Result<Vec<Release>, SourceError>) {
    let stored = if s.resolved {
        s.cached
    } else {
        Some(fetched)
    };
    (CacheState { resolved: true, cached: None }, read_once(stored))
}

/// On a fresh source, the first query delivers the source's answer and the
/// second reports that no releases are cached, whatever the source answers.
pub proof fn lemma_releases_delivered_once(
    first: Result<Vec<Release>, SourceError>,
    second: Result<Vec<Release>, SourceError>,
)
    ensures
        ({
            let (s1, r1) = query_step(CacheState { resolved: false, cached: None }, first);
            let (s2, r2) = query_step(s1, second);
            &&& r1 == first
            &&& r2 == Err::<Vec<Release>, SourceError>(SourceError::NoCachedReleases)
        }),
{
}

/// What asking the source registered under `name` can deliver: a missing
/// registration exactly when no source has that name, else the source's own
/// answer (its releases, or its failure), never a report on the cache.
pub open spec fn fetched_by(name: String, r: Result<Vec<Release>, SourceError>) -> bool {
    &&& source_kind_of(name@) is None ==> r == Err::<Vec<Release>, SourceError>(
        SourceError::SourceNotFound(name),
    )
    &&& source_kind_of(name@) is Some ==> !(r matches Err(SourceError::SourceNotFound(_)))
    &&& !(r matches Err(SourceError::NoCachedReleases))
}

impl ReleaseCache {
    /// The state of the cache.
    pub closed spec fn state(&self) -> CacheState {
        CacheState { resolved: self.resolved, cached: self.cached }
    }

    /// A cache whose source has not been asked yet.
    pub fn new() -> (r: ReleaseCache)
        ensures
            r.state() == (CacheState { resolved: false, cached: None }),
    {
        ReleaseCache { resolved: false, cached: None }
    }

    /// Whether the source has not been asked yet.
    pub fn needs_fetch(&self) -> (r: bool)
        ensures
            r == !self.state().resolved,
    {
        !self.resolved
    }

    /// One query of the releases, given what the source answers (used only
    /// if it has not been asked yet).
    pub fn query_with(&mut self, fetched: Result<Vec<Release>, SourceError>) -> (r: Result<Vec<Release>, SourceError>)
        ensures
            (final(self).state(), r) == query_step(old(self).state(), fetched),
    {
        if !self.resolved {
            self.resolved = true;
            self.cached = Some(fetched);
        }
        match self.cached.take() {
            Some(c) => c,
            None => Err(SourceError::NoCachedReleases),
        }
    }
}

impl PackageSource {
    /// The state of the release cache.
    pub open spec fn cache(&self) -> CacheState {
        self.cached_releases.state()
    }

    /// A source binding with an empty cache.
    pub fn new(name: String, match_regex: String, allow_version_control: bool, config: toml::Value) -> (r: PackageSource)
        ensures
            r.name == name,
            r.match_regex == match_regex,
            r.allow_version_control == allow_version_control,
            r.config == config,
            r.cache() == (CacheState { resolved: false, cached: None }),
    {
        PackageSource { name, match_regex, allow_version_control, config, cached_releases: ReleaseCache::new() }
    }

    /// Asks the source bound by name for its releases.
    pub fn fetch_releases<S: ReleaseSource>(&self, sources: &S) -> (r: Result<Vec<Release>, SourceError>)
        ensures
            fetched_by(self.name, r),
    {
        match source_by_name(&self.name) {
            None => Err(SourceError::SourceNotFound(self.name.clone())),
            Some(kind) => match sources.get_current_releases(kind, &self.config) {
                Ok(releases) => Ok(releases),
                Err(m) => Err(SourceError::SourceFetchError(m)),
            },
        }
    }

    /// The current releases of the package. The first call asks the source
    /// and stores its answer; every call takes what is stored, so a later
    /// call reports that no releases are cached.
    pub fn get_current_releases<S: ReleaseSource>(&mut self, sources: &S) -> (r: Result<Vec<Release>, SourceError>)
        ensures
            exists|fetched: Result<Vec<Release>, SourceError>|
                (final(self).cache(), r) == #[trigger] query_step(old(self).cache(), fetched),
            !old(self).cache().resolved ==> fetched_by(old(self).name, r),
            old(self).cache().resolved ==> r == read_once(old(self).cache().cached),
            final(self).name == old(self).name,
            final(self).match_regex == old(self).match_regex,
            final(self).allow_version_control == old(self).allow_version_control,
            final(self).config == old(self).config,
    {
        if self.cached_releases.needs_fetch() {
            let fetched = self.fetch_releases(sources);
            self.cached_releases.query_with(fetched)
        } else {
            self.cached_releases.query_with(Err(SourceError::NoCachedReleases))
        }
    }
}

} // verus!

verus! {

/// Describes if/how a shortcut should be built for a package.
#[derive(Clone, Debug)]
pub struct PackageShortcut {
    pub name: String,
    pub relative_path: String,
    pub description: String,
    pub args: Vec<String>,
    pub has_desktop_shortcut: bool,
    pub icon_relative_path: String,
}

/// Extra description for the authentication and authorization state of a
/// package.
#[derive(Clone, Debug)]
pub struct PackageExtendedDescription {
    pub no_action_description: Option<String>,
    pub need_authentication_description: Option<String>,
    pub need_link_description: Option<String>,
    pub need_subscription_description: Option<String>,
    pub need_reward_tier_description: Option<String>,
}

/// Describes an overview of an individual package.
#[derive(Debug)]
pub struct PackageDescription {
    pub name: String,
    pub description: String,
    pub icon: Option<String>,
    pub default: Option<bool>,
    pub launch_after_install: bool,
    pub source: PackageSource,
    pub shortcuts: Vec<PackageShortcut>,
    pub requires_authorization: Option<bool>,
    pub is_new: Option<bool>,
    pub extended_description: Option<PackageExtendedDescription>,
}

/// Configuration for validating the authentication token.
#[derive(Clone, Debug)]
pub struct JWTValidation {
    pub iss: Option<String>,
    pub aud: Option<String>,
}

/// How users authenticate for this installation.
#[derive(Clone, Debug)]
pub struct AuthenticationConfig {
    pub pub_key_base64: String,
    pub auth_url: String,
    pub validation: Option<JWTValidation>,
}

/// Describes the application itself.
#[derive(Clone, Debug)]
pub struct BaseAttributes {
    pub name: String,
    pub target_url: String,
    pub recovery: bool,
}

/// The installer's configuration.
#[derive(Debug)]
pub struct Config {
    pub installing_message: String,
    /// URL to a new updater, if required.
    pub new_tool: Option<String>,
    pub packages: Vec<PackageDescription>,
    pub hide_advanced: bool,
    pub authentication: Option<AuthenticationConfig>,
}

/// One entry of a package's version listing.
#[derive(Clone, Debug)]
pub struct PackageVersionInfo {
    pub version: Version,
    pub name: String,
}

/// The listing of releases: each release's version and name, in order.
pub open spec fn listing_of(rs: Seq<Release>) -> Seq<(Version, Seq<char>)> {
    rs.map_values(|r: Release| (r.version, r.name@))
}

/// Lists the version and name of each release, in order.
pub fn version_listing(releases: &Vec<Release>) -> (r: Vec<PackageVersionInfo>)
    ensures
        r@.map_values(|v: PackageVersionInfo| (v.version, v.name@)) == listing_of(releases@),
{
    let mut out: Vec<PackageVersionInfo> = Vec::new();
    let mut i: usize = 0;
    while i < releases.len()
        invariant
            i <= releases@.len(),
            out@.map_values(|v: PackageVersionInfo| (v.version, v.name@)) == listing_of(releases@.take(i as int)),
        decreases releases@.len() - i,
    {
        let release = &releases[i];
        out.push(PackageVersionInfo { version: release.version, name: release.name.clone() });
        assert(releases@.take(i + 1) =~= releases@.take(i as int).push(releases@[i as int]));
        assert(out@.map_values(|v: PackageVersionInfo| (v.version, v.name@)) =~= listing_of(releases@.take(i as int)).push((releases@[i as int].version, releases@[i as int].name@)));
        i = i + 1;
    }
    assert(releases@.take(i as int) =~= releases@);
    out
}

/// The index of the last package named `name` among the first `k` packages.
pub open spec fn last_named(ps: Seq<PackageDescription>, name: Seq<char>, k: int) -> Option<int>
    decreases k,
{
    if k <= 0 || k > ps.len() {
        None
    } else if ps[k - 1].name@ == name {
        Some(k - 1)
    } else {
        last_named(ps, name, k - 1)
    }
}

proof fn lemma_last_named_in_range(ps: Seq<PackageDescription>, name: Seq<char>, k: int)
    ensures
        last_named(ps, name, k) matches Some(i) ==> 0 <= i < k && i < ps.len() && ps[i].name@ == name,
    decreases k,
{
    if k > 0 && k <= ps.len() {
        lemma_last_named_in_range(ps, name, k - 1);
    }
}

impl Config {
    /// The index of the last package named `name`, if any.
    pub fn find_package(&self, name: &String) -> (r: Option<usize>)
        ensures
            match last_named(self.packages@, name@, self.packages@.len() as int) {
                None => r is None,
                Some(i) => r == Some(i as usize),
            },
    {
        let mut i: usize = self.packages.len();
        while i > 0
            invariant
                i <= self.packages@.len(),
                last_named(self.packages@, name@, self.packages@.len() as int) == last_named(self.packages@, name@, i as int),
            decreases i,
        {
            if self.packages[i - 1].name == *name {
                return Some(i - 1);
            }
            i = i - 1;
        }
        None
    }

    /// The current releases of the package named `name`: an empty list when
    /// no package has that name. Otherwise the source of every package of that
    /// name is asked, in order, and the answer for the last one is returned.
    /// The configuration, with the release caches it holds, is left as it is.
    pub fn releases_of<S: ReleaseSource>(&self, name: &String, sources: &S) -> (r: Result<Vec<Release>, SourceError>)
        ensures
            match last_named(self.packages@, name@, self.packages@.len() as int) {
                None => r matches Ok(v) && v@.len() == 0,
                Some(i) => fetched_by(self.packages@[i].source.name, r),
            },
    {
        let mut current: Result<Vec<Release>, SourceError> = Ok(Vec::new());
        let mut k: usize = 0;
        while k < self.packages.len()
            invariant
                k <= self.packages@.len(),
                match last_named(self.packages@, name@, k as int) {
                    None => current matches Ok(v) && v@.len() == 0,
                    Some(i) => fetched_by(self.packages@[i].source.name, current),
                },
            decreases self.packages@.len() - k,
        {
            if self.packages[k].name == *name {
                current = self.packages[k].source.fetch_releases(sources);
            }
            k = k + 1;
        }
        current
    }
}

} // verus!
