use vstd::prelude::*;
use crate::error::Error;
use crate::profile::{profile_name, Profile};
use crate::text::{contains_spec, join_spec, opt_view, path_join, str_contains, str_equal};

verus! {

/// The engine version to use: the project's configured version, else the
/// environment override, else the latest known version.
pub open spec fn version_spec(
    configured: Option<Seq<char>>,
    env_override: Option<Seq<char>>,
    latest: Option<Seq<char>>,
) -> Option<Seq<char>> {
    match configured {
        Some(v) => Some(v),
        None => match env_override {
            Some(v) => Some(v),
            None => latest,
        },
    }
}

/// Picks the engine version by precedence: configuration, then environment
/// override, then the latest known version; fails when none is given.
pub fn resolve_version(
    configured: Option<String>,
    env_override: Option<String>,
    latest: Option<String>,
) -> (r: Result<String, Error>)
    ensures
        match version_spec(opt_view(configured), opt_view(env_override), opt_view(latest)) {
            Some(v) => r is Ok && r->Ok_0@ == v,
            None => r == Err::<String, Error>(Error::EngineVersionUnavailable),
        },
{
    match configured {
        Some(v) => Ok(v),
        None => match env_override {
            Some(v) => Ok(v),
            None => match latest {
                Some(v) => Ok(v),
                None => Err(Error::EngineVersionUnavailable),
            },
        },
    }
}

/// The file name of the engine library on the platform of a target triple.
pub open spec fn engine_file_spec(triple: Seq<char>) -> Option<Seq<char>> {
    if contains_spec(triple, "linux"@) {
        Some("libflutter_engine.so"@)
    } else if contains_spec(triple, "apple"@) {
        Some("FlutterEmbedder.framework"@)
    } else if contains_spec(triple, "windows"@) {
        Some("flutter_engine.dll"@)
    } else {
        None
    }
}

/// The cache key of an engine: its version, target triple and profile.
pub struct EngineKey {
    pub version: Seq<char>,
    pub triple: Seq<char>,
    pub profile: Profile,
}

/// The directory that holds the engine of `k` under the cache root.
pub open spec fn engine_dir_spec(root: Seq<char>, k: EngineKey) -> Seq<char> {
    join_spec(
        join_spec(join_spec(join_spec(root, "flutter-engine"@), k.version), k.triple),
        profile_name(k.profile),
    )
}

/// Where the engine of `k` lives under the cache root, if its platform has one.
pub open spec fn engine_path_spec(root: Seq<char>, k: EngineKey) -> Option<Seq<char>> {
    match engine_file_spec(k.triple) {
        Some(f) => Some(join_spec(engine_dir_spec(root, k), f)),
        None => None,
    }
}

/// Where a download of the engine at `path` is written before it is moved
/// into place.
pub open spec fn staging_spec(path: Seq<char>) -> Seq<char> {
    path + ".partial"@
}

/// Where the release archive of the engine of `k` is published.
pub open spec fn download_url_spec(k: EngineKey) -> Seq<char> {
    "https://github.com/flutter-rs/engine-builds/releases/download/f-"@ + k.version + "/"@ + k.triple
        + "-"@ + profile_name(k.profile) + ".zip"@
}

/// A runtime engine for one version, target triple and build profile.
pub struct EngineDescriptor {
    pub version: String,
    pub triple: String,
    pub profile: Profile,
}

impl View for EngineDescriptor {
    type V = EngineKey;

    open spec fn view(&self) -> EngineKey {
        EngineKey { version: self.version@, triple: self.triple@, profile: self.profile }
    }
}

/// The file name of the engine library for a target triple.
pub fn engine_file_name(triple: &str) -> (r: Option<&'static str>)
    ensures
        match r {
            Some(f) => engine_file_spec(triple@) == Some(f@),
            None => engine_file_spec(triple@) is None,
        },
{
    if str_contains(triple, "linux") {
        Some("libflutter_engine.so")
    } else if str_contains(triple, "apple") {
        Some("FlutterEmbedder.framework")
    } else if str_contains(triple, "windows") {
        Some("flutter_engine.dll")
    } else {
        None
    }
}

impl EngineDescriptor {
    pub fn new(version: String, triple: String, profile: Profile) -> (r: EngineDescriptor)
        ensures
            r@ == (EngineKey { version: version@, triple: triple@, profile }),
    {
        EngineDescriptor { version, triple, profile }
    }

    /// The cache directory of this engine under `root`.
    pub fn engine_dir(&self, root: &str) -> (r: String)
        ensures
            r@ == engine_dir_spec(root@, self@),
    {
        let a = path_join(root, "flutter-engine");
        let b = path_join(a.as_str(), self.version.as_str());
        let c = path_join(b.as_str(), self.triple.as_str());
        path_join(c.as_str(), self.profile.name())
    }

    /// The path of this engine's library under `root`; fails for a target
    /// triple whose platform has no engine library.
    pub fn engine_path(&self, root: &str) -> (r: Result<String, Error>)
        ensures
            match engine_path_spec(root@, self@) {
                Some(p) => r is Ok && r->Ok_0@ == p,
                None => r == Err::<String, Error>(Error::UnsupportedTarget),
            },
    {
        match engine_file_name(self.triple.as_str()) {
            Some(f) => {
                let d = self.engine_dir(root);
                Ok(path_join(d.as_str(), f))
            },
            None => Err(Error::UnsupportedTarget),
        }
    }

    /// Where the release archive of this engine is published.
    pub fn download_url(&self) -> (r: String)
        ensures
            r@ == download_url_spec(self@),
    {
        String::from_str("https://github.com/flutter-rs/engine-builds/releases/download/f-").concat(
            self.version.as_str(),
        ).concat("/").concat(self.triple.as_str()).concat("-").concat(self.profile.name()).concat(".zip")
    }

    /// Whether two descriptors name the same engine.
    pub fn same_engine(&self, other: &EngineDescriptor) -> (r: bool)
        ensures
            r == (self@ == other@),
    {
        str_equal(self.version.as_str(), other.version.as_str()) && str_equal(
            self.triple.as_str(),
            other.triple.as_str(),
        ) && self.profile == other.profile
    }
}

/// Whether the store holds the engine `k`.
pub open spec fn store_has(s: Seq<EngineKey>, k: EngineKey) -> bool {
    exists|i: int| 0 <= i < s.len() && s[i] == k
}

/// The store after the engine `k` has been resolved.
pub open spec fn store_after(s: Seq<EngineKey>, k: EngineKey) -> Seq<EngineKey> {
    if store_has(s, k) {
        s
    } else {
        s.push(k)
    }
}

/// The result of resolving an engine: where it lives, where a download goes
/// before it is published there, and whether it has to be fetched.
pub struct Resolution {
    pub path: String,
    pub staging: String,
    pub fetch: bool,
}

/// The engines that are known to be present in the cache, keyed by version,
/// triple and profile.
pub struct EngineStore {
    cached: Vec<EngineDescriptor>,
}

impl View for EngineStore {
    type V = Seq<EngineKey>;

    closed spec fn view(&self) -> Seq<EngineKey> {
        self.cached@.map_values(|d: EngineDescriptor| d@)
    }
}

impl EngineStore {
    /// A store that holds nothing yet.
    pub fn new() -> (r: EngineStore)
        ensures
            r@ == Seq::<EngineKey>::empty(),
    {
        let r = EngineStore { cached: Vec::new() };
        assert(r@ =~= Seq::<EngineKey>::empty());
        r
    }

    /// Whether the store holds `desc`.
    pub fn contains(&self, desc: &EngineDescriptor) -> (r: bool)
        ensures
            r == store_has(self@, desc@),
    {
        let mut i: usize = 0;
        while i < self.cached.len()
            invariant
                i <= self.cached@.len(),
                self@.len() == self.cached@.len(),
                forall|k: int| 0 <= k < i ==> self@[k] != desc@,
            decreases self.cached@.len() - i,
        {
            if self.cached[i].same_engine(desc) {
                assert(self@[i as int] == desc@);
                return true;
            }
            i = i + 1;
        }
        false
    }

    /// Records that `desc` is present, for instance because it was found on
    /// disk.
    pub fn insert(&mut self, desc: EngineDescriptor)
        ensures
            final(self)@ == store_after(old(self)@, desc@),
    {
        if !self.contains(&desc) {
            let ghost k = desc@;
            self.cached.push(desc);
            assert(self@ =~= old(self)@.push(k));
        }
    }

    /// Resolves an engine to its path under `root`, and says whether it has
    /// to be fetched: only when the store does not hold it yet. Afterwards the
    /// store holds it.
    pub fn resolve(&mut self, root: &str, desc: EngineDescriptor) -> (r: Result<Resolution, Error>)
        ensures
            match engine_path_spec(root@, desc@) {
                Some(p) => {
                    &&& r is Ok
                    &&& r->Ok_0.path@ == p
                    &&& r->Ok_0.staging@ == staging_spec(p)
                    &&& r->Ok_0.fetch == !store_has(old(self)@, desc@)
                    &&& final(self)@ == store_after(old(self)@, desc@)
                },
                None => {
                    &&& r == Err::<Resolution, Error>(Error::UnsupportedTarget)
                    &&& final(self)@ == old(self)@
                },
            },
    {
        let path = match desc.engine_path(root) {
            Ok(p) => p,
            Err(e) => return Err(e),
        };
        let fetch = !self.contains(&desc);
        let staging = path.clone().concat(".partial");
        proof {
            reveal_strlit(".partial");
        }
        self.insert(desc);
        Ok(Resolution { path, staging, fetch })
    }
}

/// Resolving the same engine twice fetches it at most once: after the first
/// resolution the store holds it, so the second fetches nothing and leaves
/// the store as it was. The path itself is a function of the root and the
/// key alone, so both resolutions yield the same one.
pub proof fn lemma_resolve_twice(s: Seq<EngineKey>, k: EngineKey)
    ensures
        store_has(store_after(s, k), k),
        store_after(store_after(s, k), k) == store_after(s, k),
{
    if !store_has(s, k) {
        assert(store_after(s, k)[s.len() as int] == k);
    }
}

} // verus!
