use vstd::prelude::*;

use crate::error::FsError;
use crate::file::{root_id, root_view, AliyunFile, FileView};
use crate::path::{find_in_listing, lookup, opt_view, parent_of};

verus! {

/// Seconds after its insertion at which a directory entry expires.
pub const DIR_TTL_SECS: u64 = 3600;

/// Seconds without access after which a directory entry is evicted.
pub const DIR_IDLE_SECS: u64 = 1800;

/// The longest expiry that the underlying cache accepts: a thousand years.
pub const MAX_EXPIRY_SECS: u64 = 31536000000;

#[verifier::external_type_specification]
#[verifier::external_body]
#[verifier::reject_recursive_types(K)]
#[verifier::reject_recursive_types(V)]
#[verifier::reject_recursive_types(S)]
pub struct ExMokaCache<K, V, S>(moka::sync::Cache<K, V, S>);

/// The entry bound that a cache was built with.
pub uninterp spec fn cache_capacity(c: moka::sync::Cache<String, Vec<AliyunFile>>) -> u64;

/// The time to live, in seconds, that a cache was built with.
pub uninterp spec fn cache_ttl_secs(c: moka::sync::Cache<String, Vec<AliyunFile>>) -> u64;

/// The time to idle, in seconds, that a cache was built with.
pub uninterp spec fn cache_idle_secs(c: moka::sync::Cache<String, Vec<AliyunFile>>) -> u64;

/// Relies on moka's `CacheBuilder` (`max_capacity`, `time_to_live`, `time_to_idle`,
/// `build`): a concurrent cache bounded to `capacity` entries with the two expiries,
/// which stay as built. `build` panics on an expiry over a thousand years, hence the
/// bounds.
#[verifier::external_body]
fn build_cache(capacity: u64, ttl_secs: u64, idle_secs: u64) -> (r: moka::sync::Cache<
    String,
    Vec<AliyunFile>,
>)
    requires
        ttl_secs <= MAX_EXPIRY_SECS,
        idle_secs <= MAX_EXPIRY_SECS,
    ensures
        cache_capacity(r) == capacity,
        cache_ttl_secs(r) == ttl_secs,
        cache_idle_secs(r) == idle_secs,
{
    moka::sync::Cache::builder().max_capacity(capacity).time_to_live(
        std::time::Duration::from_secs(ttl_secs),
    ).time_to_idle(std::time::Duration::from_secs(idle_secs)).build()
}

/// Relies on moka's `Cache::get`. Entries expire with time and the cache is shared,
/// so nothing is promised of what comes back.
#[verifier::external_body]
fn cache_get(c: &moka::sync::Cache<String, Vec<AliyunFile>>, key: &str) -> (r: Option<
    Vec<AliyunFile>,
>) {
    c.get(key)
}

/// Relies on moka's `Cache::insert`, which replaces any entry under `key`.
#[verifier::external_body]
fn cache_insert(c: &moka::sync::Cache<String, Vec<AliyunFile>>, key: String, files: Vec<AliyunFile>) {
    c.insert(key, files)
}

/// What to do to list a directory.
pub enum ReadDirPlan {
    /// Nothing is cached: list the directory `parent_id` on the drive, then hand the
    /// outcome to `DirCache::finish_fetch`.
    Fetch { parent_id: String },
    /// A listing is cached: list `parent_id` again in the background, wait a bounded
    /// time for it, and give both to `settle_refresh`.
    Refresh { parent_id: String, cached: Vec<AliyunFile> },
}

/// The plan for listing directory `key`, given the file that `key` names (if it
/// was found) and the cached listing of `key` (if any). The root's identifier is
/// `"root"`; another directory that cannot be found is `NotFound`.
pub open spec fn plan_matches(
    key: Seq<char>,
    dir: Option<FileView>,
    cached: Option<Seq<AliyunFile>>,
    r: Result<ReadDirPlan, FsError>,
) -> bool {
    if key.len() > 0 && dir is None {
        r == Err::<ReadDirPlan, FsError>(FsError::NotFound)
    } else {
        let id = if key.len() == 0 {
            root_id()
        } else {
            dir.unwrap().id
        };
        match r {
            Ok(ReadDirPlan::Fetch { parent_id }) => parent_id@ == id && cached is None,
            Ok(ReadDirPlan::Refresh { parent_id, cached: c }) => parent_id@ == id && cached
                == Some(c@),
            Err(_) => false,
        }
    }
}

/// The view of an optional listing.
pub open spec fn opt_listing(o: Option<Vec<AliyunFile>>) -> Option<Seq<AliyunFile>> {
    match o {
        Some(v) => Some(v@),
        None => None,
    }
}

/// Decides how to list directory `key` from the file that it names and its cached listing.
pub fn plan_read_dir_from(
    key: &str,
    dir: Option<AliyunFile>,
    cached: Option<Vec<AliyunFile>>,
) -> (r: Result<ReadDirPlan, FsError>)
    ensures
        plan_matches(key@, opt_view(dir), opt_listing(cached), r),
{
    let parent_id = if key.unicode_len() == 0 {
        let id = String::from_str("root");
        proof {
            reveal_strlit("root");
            assert(id@ =~= root_id());
        }
        id
    } else {
        match dir {
            Some(f) => f.id,
            None => return Err(FsError::NotFound),
        }
    };
    match cached {
        Some(c) => Ok(ReadDirPlan::Refresh { parent_id, cached: c }),
        None => Ok(ReadDirPlan::Fetch { parent_id }),
    }
}

/// The listing that a read of a cached directory returns: the refreshed one when
/// it came back in time, else exactly the cached one.
pub fn settle_refresh(cached: Vec<AliyunFile>, refreshed: Option<Vec<AliyunFile>>) -> (r: Vec<
    AliyunFile,
>)
    ensures
        match refreshed {
            Some(f) => r == f,
            None => r == cached,
        },
{
    match refreshed {
        Some(f) => f,
        None => cached,
    }
}

/// Directory listings keyed by relative path (the root is `""`), shared by all
/// operations of one filesystem. Entries expire an hour after insertion and are
/// evicted after half an hour without access.
pub struct DirCache {
    inner: moka::sync::Cache<String, Vec<AliyunFile>>,
}

impl DirCache {
    /// The most directories that the cache holds.
    pub closed spec fn capacity(&self) -> u64 {
        cache_capacity(self.inner)
    }

    /// Seconds after its insertion at which an entry expires.
    pub closed spec fn ttl_secs(&self) -> u64 {
        cache_ttl_secs(self.inner)
    }

    /// Seconds without access after which an entry is evicted.
    pub closed spec fn idle_secs(&self) -> u64 {
        cache_idle_secs(self.inner)
    }

    /// An empty cache of at most `capacity` directories, whose entries live an hour
    /// after insertion and half an hour without access.
    pub fn new(capacity: u64) -> (r: DirCache)
        ensures
            r.capacity() == capacity,
            r.ttl_secs() == DIR_TTL_SECS,
            r.idle_secs() == DIR_IDLE_SECS,
    {
        DirCache { inner: build_cache(capacity, DIR_TTL_SECS, DIR_IDLE_SECS) }
    }

    /// The cached listing of directory `key`, if it is still there.
    pub fn get(&self, key: &str) -> (r: Option<Vec<AliyunFile>>) {
        cache_get(&self.inner, key)
    }

    /// Caches `files` as the whole listing of directory `key`, replacing any older one.
    pub fn cache_dir(&self, key: String, files: Vec<AliyunFile>) {
        cache_insert(&self.inner, key, files)
    }

    /// Caches a listing just fetched for `key` and hands it back.
    pub fn cache_listing(&self, key: String, files: Vec<AliyunFile>) -> (r: Vec<AliyunFile>)
        ensures
            r == files,
    {
        self.cache_dir(key, files.clone());
        files
    }

    /// Resolves `path` from the cache alone: the root for `""`, else the first child
    /// named like the leaf in the cached listing of the parent, if that is cached.
    pub fn find_in_cache(&self, path: &str) -> (r: Option<AliyunFile>)
        ensures
            exists|l: Option<Seq<AliyunFile>>| opt_view(r) == lookup(path@, l),
            path@.len() == 0 ==> opt_view(r) == Some(root_view()),
    {
        if path.unicode_len() == 0 {
            let r = find_in_listing(path, None);
            assert(opt_view(r) == lookup(path@, None));
            return r;
        }
        let parent = parent_of(path);
        let listing = self.get(parent.as_str());
        let r = match &listing {
            Some(files) => find_in_listing(path, Some(files)),
            None => find_in_listing(path, None),
        };
        assert(opt_view(r) == lookup(path@, opt_listing(listing)));
        r
    }

    /// Decides how to list directory `key`, which the resolver has resolved to `dir`
    /// (`None` when it names nothing; the root needs no resolving): its identifier,
    /// and whether a listing of it is cached.
    pub fn plan_read_dir(&self, key: &str, dir: Option<AliyunFile>) -> (r: Result<
        ReadDirPlan,
        FsError,
    >)
        ensures
            exists|c: Option<Seq<AliyunFile>>| plan_matches(key@, opt_view(dir), c, r),
            (key@.len() == 0 || dir is Some) ==> r is Ok,
    {
        let ghost d = opt_view(dir);
        let cached = self.get(key);
        let ghost c = opt_listing(cached);
        let r = plan_read_dir_from(key, dir, cached);
        assert(plan_matches(key@, d, c, r));
        r
    }

    /// Completes a listing of directory `key` that nothing was cached for: a listing
    /// that came back is cached and returned; a failed one is `NotFound`.
    pub fn finish_fetch(&self, key: String, fetched: Option<Vec<AliyunFile>>) -> (r: Result<
        Vec<AliyunFile>,
        FsError,
    >)
        ensures
            match fetched {
                Some(f) => r == Ok::<Vec<AliyunFile>, FsError>(f),
                None => r == Err::<Vec<AliyunFile>, FsError>(FsError::NotFound),
            },
    {
        match fetched {
            Some(files) => Ok(self.cache_listing(key, files)),
            None => Err(FsError::NotFound),
        }
    }
}

} // verus!
