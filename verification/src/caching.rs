//! The cache of what was seen at the last successful fetch, and the decision
//! whether a repository has to be transferred again.

use crate::repo::{RepoDescriptor, Timestamp};
use vstd::hash_map::StringHashMap;
use vstd::prelude::*;

verus! {

/// The name of the file under the backup root that holds the cache.
pub const CACHE_FILE_NAME: &'static str = "cache.json";

/// What was recorded about a repository when it was last fetched.
#[derive(Clone, Debug)]
pub struct CachedRepo {
    pub full_name: String,
    /// The time when this repository was last fetched.
    pub last_fetched: Timestamp,
    /// Reserved for a content hash; nothing reads it yet.
    pub hash: String,
    /// The time of the last push that the remote reported at the time of caching.
    pub reported_last_push: Timestamp,
    /// The size that the remote reported at the time of caching.
    pub reported_size: u32,
}

impl CachedRepo {
    /// The remote reports both a size and a push time, and both are the recorded ones.
    pub open spec fn matches_remote(&self, repo: &RepoDescriptor) -> bool {
        &&& repo.size == Some(self.reported_size)
        &&& repo.pushed_at == Some(self.reported_last_push)
    }

    /// A transfer is needed unless the local copy exists and the record matches the remote.
    pub open spec fn need_download_spec(&self, repo: &RepoDescriptor, local_path_exists: bool) -> bool {
        !local_path_exists || !self.matches_remote(repo)
    }

    /// Decides whether `repo` has to be transferred although this record exists for it.
    ///
    /// A missing local copy always forces a transfer. So does a size or push time
    /// that the remote does not report: absent metadata never counts as unchanged.
    pub fn need_download(&self, repo: &RepoDescriptor, local_path_exists: bool) -> (needed: bool)
        ensures
            needed == self.need_download_spec(repo, local_path_exists),
    {
        if !local_path_exists {
            return true;
        }
        match (repo.size, repo.pushed_at) {
            (Some(size), Some(pushed_at)) => {
                !(self.reported_size == size && self.reported_last_push == pushed_at)
            },
            _ => true,
        }
    }
}

/// Whether a repository must be transferred, given the record the cache holds for it, if any.
pub open spec fn needs_transfer_spec(
    cached: Option<CachedRepo>,
    repo: &RepoDescriptor,
    local_path_exists: bool,
) -> bool {
    match cached {
        Some(record) => record.need_download_spec(repo, local_path_exists),
        None => true,
    }
}

/// Decides whether `repo` must be transferred.
///
/// The answer is `false` only when a record exists, the local copy exists, and the
/// remote reports the recorded size and the recorded push time.
pub fn needs_transfer(
    cached: Option<&CachedRepo>,
    repo: &RepoDescriptor,
    local_path_exists: bool,
) -> (needed: bool)
    ensures
        needed == needs_transfer_spec(
            match cached {
                Some(record) => Some(*record),
                None => None,
            },
            repo,
            local_path_exists,
        ),
{
    match cached {
        Some(record) => record.need_download(repo, local_path_exists),
        None => true,
    }
}

/// The records of all repositories, keyed by repository identifier. A run
/// loads it once and only reads it afterwards.
pub struct Cache {
    pub repos: StringHashMap<CachedRepo>,
}

impl View for Cache {
    type V = Map<Seq<char>, CachedRepo>;

    open spec fn view(&self) -> Map<Seq<char>, CachedRepo> {
        self.repos@
    }
}

/// The mapping that a list of entries describes. Where an identifier occurs more
/// than once, its last entry counts.
pub open spec fn entries_map(entries: Seq<(String, CachedRepo)>) -> Map<Seq<char>, CachedRepo>
    decreases entries.len(),
{
    if entries.len() == 0 {
        Map::empty()
    } else {
        entries_map(entries.drop_last()).insert(entries.last().0@, entries.last().1)
    }
}

impl Cache {
    /// A cache without records, as a first run finds it.
    pub fn new() -> (cache: Cache)
        ensures
            cache@ == Map::<Seq<char>, CachedRepo>::empty(),
    {
        Cache { repos: StringHashMap::new() }
    }

    /// Builds the cache from the entries of a persisted mapping.
    pub fn from_entries(entries: Vec<(String, CachedRepo)>) -> (cache: Cache)
        ensures
            cache@ == entries_map(entries@),
    {
        let ghost all = entries@;
        let mut cache = Cache::new();
        for entry in it: entries
            invariant
                it.seq() == all,
                cache@ == entries_map(all.take(it.index())),
        {
            proof {
                assert(all.take(it.index() + 1).drop_last() == all.take(it.index()));
            }
            let (identifier, record) = entry;
            cache.insert(identifier, record);
        }
        assert(all.take(all.len() as int) == all);
        cache
    }

    /// Records `record` for `identifier`, in place of any earlier record for it.
    pub fn insert(&mut self, identifier: String, record: CachedRepo)
        ensures
            final(self)@ == old(self)@.insert(identifier@, record),
    {
        self.repos.insert(identifier, record);
    }

    /// The record for `identifier`, if there is one.
    pub fn get(&self, identifier: &str) -> (found: Option<&CachedRepo>)
        ensures
            match found {
                Some(record) => self@.contains_key(identifier@) && *record == self@[identifier@],
                None => !self@.contains_key(identifier@),
            },
    {
        self.repos.get(identifier)
    }

    /// The number of records.
    pub fn len(&self) -> (count: usize)
        ensures
            count == self@.len(),
    {
        self.repos.len()
    }
}

/// An unchanged repository with a local copy is skipped.
pub proof fn lemma_unchanged_repository_is_skipped(record: CachedRepo, repo: RepoDescriptor)
    requires
        repo.size == Some(record.reported_size),
        repo.pushed_at == Some(record.reported_last_push),
    ensures
        !needs_transfer_spec(Some(record), &repo, true),
{
}

/// Any single difference forces a transfer: a missing local copy, a size that is
/// absent or differs from the recorded one, or a push time that is absent or differs.
pub proof fn lemma_any_difference_forces_transfer(
    record: CachedRepo,
    repo: RepoDescriptor,
    local_path_exists: bool,
)
    requires
        !local_path_exists || repo.size != Some(record.reported_size) || repo.pushed_at != Some(
            record.reported_last_push,
        ),
    ensures
        needs_transfer_spec(Some(record), &repo, local_path_exists),
{
}

/// Without a record the repository is always transferred.
pub proof fn lemma_missing_record_forces_transfer(repo: RepoDescriptor, local_path_exists: bool)
    ensures
        needs_transfer_spec(None, &repo, local_path_exists),
{
}

} // verus!
