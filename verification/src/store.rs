//! The profile store: scanning profile files, caching content,
//! classifying activation status against the live settings, and
//! validating switch requests.
//!
//! All file system access happens outside: the caller hands in
//! directory entries, file contents and probed modification times, and
//! this store holds the decisions and the cached state.

use vstd::prelude::*;
use vstd::string::*;

use crate::assoc::{assoc_lookup, lemma_assoc_found, lemma_assoc_push, lemma_assoc_update};
use crate::errors::{AppError, AppResult};
use crate::json::{
    json_error_message, json_ok, json_sem, normalize_json_object, parse_json, sem_eq,
    sem_is_object, sem_without, strip_field, value_sem, values_equal,
};
use crate::text::{lemma_concat_starts_with, spec_starts_with, strip_suffix_str};
use crate::types::{FileMetadata, Profile, ProfileStatus};

verus! {

/// How long a cache entry stays fresh: one minute, in milliseconds.
pub const CACHE_TTL_MILLIS: u64 = 60000;

/// The single field ignored by the field-tolerant comparison.
pub open spec fn spec_ignored_field() -> Seq<char> {
    "model"@
}

/// One slot of the content cache.
pub struct CacheEntry {
    pub path: String,
    pub metadata: FileMetadata,
    pub content: String,
    pub cached_at: u64,
}

/// The key of a cache entry: its path.
pub open spec fn cache_key() -> spec_fn(CacheEntry) -> Seq<char> {
    |e: CacheEntry| e.path@
}

/// The first cache entry for a path, if any.
pub open spec fn spec_cache_lookup(entries: Seq<CacheEntry>, path: Seq<char>) -> Option<
    CacheEntry,
> {
    assoc_lookup(entries, cache_key(), path)
}

/// A cache entry may be served at `now` for a file whose probed
/// modification time is `disk_mtime`: it must be TTL-fresh and the file
/// unchanged since it was cached.  An unknown modification time
/// disqualifies the entry.
pub open spec fn spec_cache_usable(
    entry: CacheEntry,
    now: u64,
    disk_mtime: Option<u64>,
    ttl: u64,
) -> bool {
    &&& entry.cached_at <= now
    &&& now - entry.cached_at < ttl
    &&& disk_mtime is Some
    &&& disk_mtime->Some_0 <= entry.metadata.modified_time
}

/// The key of a profile: its name.
pub open spec fn profile_key() -> spec_fn(Profile) -> Seq<char> {
    |p: Profile| p.name@
}

/// The first profile with a name, if any.
pub open spec fn spec_find_profile(profiles: Seq<Profile>, name: Seq<char>) -> Option<Profile> {
    assoc_lookup(profiles, profile_key(), name)
}

/// A profile is active when its content and the cached live settings
/// both parse and are deep-equal.
pub open spec fn spec_is_active(content: Seq<char>, live: Option<(String, u64)>) -> bool {
    &&& live is Some
    &&& json_ok(live->Some_0.0@)
    &&& json_ok(content)
    &&& sem_eq(json_sem(content), json_sem(live->Some_0.0@))
}

/// What `status_of` must return for a profile content against a live
/// content: an error when either side does not parse, a full match on
/// deep equality, a partial match when equality holds with the
/// designated field removed from both sides, and no match otherwise.
pub open spec fn status_matches(profile: Seq<char>, live: Seq<char>, r: ProfileStatus) -> bool {
    if !json_ok(live) || !json_ok(profile) {
        r is Error
    } else if sem_eq(json_sem(profile), json_sem(live)) {
        r == ProfileStatus::FullMatch
    } else if sem_eq(
        sem_without(json_sem(profile), spec_ignored_field()),
        sem_without(json_sem(live), spec_ignored_field()),
    ) {
        r == ProfileStatus::PartialMatch
    } else {
        r == ProfileStatus::NoMatch
    }
}

/// Classify a profile content against a live settings content: exact
/// comparison first, then the field-tolerant comparison, in that order.
pub fn status_of_contents(profile_content: &str, live_content: &str) -> (r: ProfileStatus)
    ensures
        status_matches(profile_content@, live_content@, r),
        r is Error <==> !(json_ok(profile_content@) && json_ok(live_content@)),
        !json_ok(live_content@) ==> spec_starts_with(
            r->Error_0@,
            "Invalid default settings JSON: "@,
        ),
        json_ok(live_content@) && !json_ok(profile_content@) ==> spec_starts_with(
            r->Error_0@,
            "Invalid profile JSON: "@,
        ),
{
    let live_value = match parse_json(live_content) {
        Ok(v) => v,
        Err(e) => {
            let detail = json_error_message(&e);
            proof {
                lemma_concat_starts_with("Invalid default settings JSON: "@, detail@);
            }
            return ProfileStatus::Error(
                String::from_str("Invalid default settings JSON: ").concat(detail.as_str()),
            );
        },
    };
    let profile_value = match parse_json(profile_content) {
        Ok(v) => v,
        Err(e) => {
            let detail = json_error_message(&e);
            proof {
                lemma_concat_starts_with("Invalid profile JSON: "@, detail@);
            }
            return ProfileStatus::Error(
                String::from_str("Invalid profile JSON: ").concat(detail.as_str()),
            );
        },
    };
    if values_equal(&profile_value, &live_value) {
        return ProfileStatus::FullMatch;
    }
    let profile_stripped = strip_field(&profile_value, "model");
    let live_stripped = strip_field(&live_value, "model");
    if values_equal(&profile_stripped, &live_stripped) {
        ProfileStatus::PartialMatch
    } else {
        ProfileStatus::NoMatch
    }
}

/// A directory entry handed to the scan: the file's name and its
/// content, `None` when the file could not be read.
pub struct ScanEntry {
    pub file_name: String,
    pub content: Option<String>,
}

/// The profile name carried by a file name: the stem before the
/// `.settings.json` suffix, when it is non-empty and at most 255
/// characters.  The live settings file itself (`settings.json`) does
/// not carry the suffix and is never a profile.
pub open spec fn spec_profile_stem(file_name: Seq<char>) -> Option<Seq<char>> {
    let suffix = ".settings.json"@;
    if file_name.len() >= suffix.len() && file_name.subrange(
        file_name.len() - suffix.len(),
        file_name.len() as int,
    ) == suffix && file_name.len() - suffix.len() >= 1 && file_name.len() - suffix.len() <= 255 {
        Some(file_name.take(file_name.len() - suffix.len()))
    } else {
        None
    }
}

/// Whether a scanned entry becomes a profile: a profile file name whose
/// content was read and parses as JSON.
pub open spec fn spec_scan_accepted(e: ScanEntry) -> bool {
    &&& spec_profile_stem(e.file_name@) is Some
    &&& e.content is Some
    &&& json_ok(e.content->Some_0@)
}

/// The profile built from an accepted entry, as its field views.
pub open spec fn spec_scan_profile(
    dir: Seq<char>,
    live: Option<(String, u64)>,
    e: ScanEntry,
) -> (Seq<char>, Seq<char>, Seq<char>, bool) {
    (
        spec_profile_stem(e.file_name@)->Some_0,
        dir + "/"@ + e.file_name@,
        e.content->Some_0@,
        spec_is_active(e.content->Some_0@, live),
    )
}

/// The profiles a scan produces from a list of directory entries, in
/// order, keeping the accepted ones.
pub open spec fn spec_scan(
    dir: Seq<char>,
    live: Option<(String, u64)>,
    entries: Seq<ScanEntry>,
) -> Seq<(Seq<char>, Seq<char>, Seq<char>, bool)>
    decreases entries.len(),
{
    if entries.len() == 0 {
        Seq::empty()
    } else {
        let front = spec_scan(dir, live, entries.drop_last());
        if spec_scan_accepted(entries.last()) {
            front.push(spec_scan_profile(dir, live, entries.last()))
        } else {
            front
        }
    }
}

/// Every profile a scan produces carries a name the scan validated:
/// non-empty and at most 255 characters.
pub proof fn lemma_scan_names_valid(
    dir: Seq<char>,
    live: Option<(String, u64)>,
    entries: Seq<ScanEntry>,
)
    ensures
        forall|k: int|
            0 <= k < spec_scan(dir, live, entries).len() ==> {
                let name = (#[trigger] spec_scan(dir, live, entries)[k]).0;
                1 <= name.len() <= 255
            },
    decreases entries.len(),
{
    if entries.len() > 0 {
        lemma_scan_names_valid(dir, live, entries.drop_last());
        let front = spec_scan(dir, live, entries.drop_last());
        let whole = spec_scan(dir, live, entries);
        assert forall|k: int|
            0 <= k < whole.len() implies {
            let name = (#[trigger] whole[k]).0;
            1 <= name.len() <= 255
        } by {
            if k < front.len() {
                assert(whole[k] == front[k]);
                assert(1 <= front[k].0.len() <= 255);
            } else {
                let e = entries.last();
                assert(spec_scan_accepted(e));
                assert(whole[k] == spec_scan_profile(dir, live, e));
                let fname = e.file_name@;
                let suffix = ".settings.json"@;
                assert(spec_profile_stem(fname)->Some_0.len() == fname.len() - suffix.len());
            }
        }
    }
}

/// The plan a validated switch request produces: nothing to do because
/// the profile is already active, or the normalized content to install.
#[derive(Debug, PartialEq)]
pub enum SwitchPlan {
    AlreadyActive,
    Replace(String),
}

/// The profile store.
pub struct ConfigService {
    claude_dir: String,
    profiles: Vec<Profile>,
    default_settings_path: String,
    profile_cache: Vec<CacheEntry>,
    default_settings_cache: Option<(String, u64)>,
    cache_ttl_millis: u64,
}

impl ConfigService {
    /// The watched directory.
    pub closed spec fn dir(self) -> Seq<char> {
        self.claude_dir@
    }

    /// The profiles found by the last scan.
    pub closed spec fn profiles_view(self) -> Seq<Profile> {
        self.profiles@
    }

    /// The path of the live settings file.
    pub closed spec fn settings_path(self) -> Seq<char> {
        self.default_settings_path@
    }

    /// The content cache.
    pub closed spec fn cache(self) -> Seq<CacheEntry> {
        self.profile_cache@
    }

    /// The cached live settings content and the time it was cached.
    pub closed spec fn live_cache(self) -> Option<(String, u64)> {
        self.default_settings_cache
    }

    /// The cache TTL in milliseconds.
    pub closed spec fn ttl(self) -> u64 {
        self.cache_ttl_millis
    }

    /// Every stored profile carries a name the scan admits: non-empty
    /// and at most 255 characters.
    pub open spec fn wf(self) -> bool {
        forall|i: int|
            0 <= i < self.profiles_view().len() ==> {
                let name = (#[trigger] self.profiles_view()[i]).name@;
                1 <= name.len() <= 255
            }
    }

    /// A store for the given directory, with no profiles and empty
    /// caches; the live settings file is `settings.json` inside it.
    pub fn new(claude_dir: String) -> (r: Self)
        ensures
            r.wf(),
            r.dir() == claude_dir@,
            r.settings_path() == claude_dir@ + "/settings.json"@,
            r.profiles_view() == Seq::<Profile>::empty(),
            r.cache() == Seq::<CacheEntry>::empty(),
            r.live_cache() is None,
            r.ttl() == CACHE_TTL_MILLIS,
    {
        let default_settings_path = claude_dir.clone().concat("/settings.json");
        ConfigService {
            claude_dir,
            profiles: Vec::new(),
            default_settings_path,
            profile_cache: Vec::new(),
            default_settings_cache: None,
            cache_ttl_millis: CACHE_TTL_MILLIS,
        }
    }

    /// Drop every cached content; profiles and paths stay.
    pub fn clear_cache(&mut self)
        ensures
            final(self).cache() == Seq::<CacheEntry>::empty(),
            final(self).live_cache() is None,
            final(self).dir() == old(self).dir(),
            final(self).settings_path() == old(self).settings_path(),
            final(self).profiles_view() == old(self).profiles_view(),
            final(self).ttl() == old(self).ttl(),
    {
        self.profile_cache.clear();
        self.default_settings_cache = None;
    }

    /// Whether a cache timestamp is still TTL-fresh at `now`.
    pub fn is_cache_valid(&self, last_updated: u64, now: u64) -> (r: bool)
        ensures
            r == (last_updated <= now && now - last_updated < self.ttl()),
    {
        last_updated <= now && now - last_updated < self.cache_ttl_millis
    }

    /// The cached content for a path, when a usable entry exists: the
    /// entry must be TTL-fresh at `now` and the file's probed
    /// modification time must not exceed the cached one.
    pub fn get_cached_content(&self, path: &str, now: u64, disk_mtime: Option<u64>) -> (r: Option<
        String,
    >)
        ensures
            r is Some <==> ({
                let e = spec_cache_lookup(self.cache(), path@);
                e is Some && spec_cache_usable(e->Some_0, now, disk_mtime, self.ttl())
            }),
            r is Some ==> r->Some_0@ == spec_cache_lookup(self.cache(), path@)->Some_0.content@,
    {
        match cache_find_index(&self.profile_cache, path) {
            Some(i) => {
                let entry = &self.profile_cache[i];
                if !self.is_cache_valid(entry.cached_at, now) {
                    return None;
                }
                match disk_mtime {
                    Some(mtime) => {
                        if mtime <= entry.metadata.modified_time {
                            Some(entry.content.clone())
                        } else {
                            None
                        }
                    },
                    None => None,
                }
            },
            None => None,
        }
    }

    /// Record freshly read content for a path, replacing any earlier
    /// entry for it and leaving every other path's entry alone.
    pub fn store_content(&mut self, path: &str, content: String, metadata: FileMetadata, now: u64)
        ensures
            ({
                let e = spec_cache_lookup(final(self).cache(), path@);
                &&& e is Some
                &&& e->Some_0.path@ == path@
                &&& e->Some_0.content == content
                &&& e->Some_0.metadata == metadata
                &&& e->Some_0.cached_at == now
            }),
            forall|q: Seq<char>|
                q != path@ ==> #[trigger] spec_cache_lookup(final(self).cache(), q)
                    == spec_cache_lookup(old(self).cache(), q),
            final(self).dir() == old(self).dir(),
            final(self).settings_path() == old(self).settings_path(),
            final(self).profiles_view() == old(self).profiles_view(),
            final(self).live_cache() == old(self).live_cache(),
            final(self).ttl() == old(self).ttl(),
    {
        let entry = CacheEntry { path: path.to_owned(), metadata, content, cached_at: now };
        match cache_find_index(&self.profile_cache, path) {
            Some(i) => {
                proof {
                    lemma_assoc_update(self.profile_cache@, cache_key(), i as int, entry);
                }
                self.profile_cache.remove(i);
                self.profile_cache.insert(i, entry);
                proof {
                    assert(self.profile_cache@ =~= old(self).cache().update(i as int, entry));
                }
            },
            None => {
                proof {
                    lemma_assoc_push(self.profile_cache@, cache_key(), entry);
                }
                self.profile_cache.push(entry);
            },
        }
    }

    /// The cached live settings content, when the single-slot cache is
    /// usable under the same policy as the content cache.
    pub fn get_cached_live_settings(&self, now: u64, disk_mtime: Option<u64>) -> (r: Option<
        String,
    >)
        ensures
            r is Some <==> ({
                let lc = self.live_cache();
                &&& lc is Some
                &&& lc->Some_0.1 <= now
                &&& now - lc->Some_0.1 < self.ttl()
                &&& disk_mtime is Some
                &&& disk_mtime->Some_0 <= lc->Some_0.1
            }),
            r is Some ==> r->Some_0@ == self.live_cache()->Some_0.0@,
    {
        match &self.default_settings_cache {
            Some((content, cached_at)) => {
                if !self.is_cache_valid(*cached_at, now) {
                    return None;
                }
                match disk_mtime {
                    Some(mtime) => {
                        if mtime <= *cached_at {
                            Some(content.clone())
                        } else {
                            None
                        }
                    },
                    None => None,
                }
            },
            None => None,
        }
    }

    /// Install a freshly read live settings content into the
    /// single-slot cache.
    pub fn store_live_settings(&mut self, content: String, now: u64)
        ensures
            final(self).live_cache() == Some((content, now)),
            final(self).dir() == old(self).dir(),
            final(self).settings_path() == old(self).settings_path(),
            final(self).profiles_view() == old(self).profiles_view(),
            final(self).cache() == old(self).cache(),
            final(self).ttl() == old(self).ttl(),
    {
        self.default_settings_cache = Some((content, now));
    }

    /// Classify a profile content against the cached live settings; an
    /// empty live cache is an error, as an unreadable live file is.
    pub fn get_detailed_profile_status(&self, profile_content: &str) -> (r: ProfileStatus)
        ensures
            profile_status_matches(*self, profile_content@, r),
    {
        match &self.default_settings_cache {
            Some((live_content, _)) => status_of_contents(profile_content, live_content.as_str()),
            None => ProfileStatus::Error(
                String::from_str("Failed to read default settings: live settings not loaded"),
            ),
        }
    }

    /// Whether two configuration texts parse to deep-equal JSON values;
    /// false when either side does not parse.
    pub fn compare_configurations(&self, profile_content: &str, default_content: &str) -> (r: bool)
        ensures
            r == (json_ok(profile_content@) && json_ok(default_content@) && sem_eq(
                json_sem(profile_content@),
                json_sem(default_content@),
            )),
    {
        let profile_value = match parse_json(profile_content) {
            Ok(v) => v,
            Err(_) => {
                return false;
            },
        };
        let default_value = match parse_json(default_content) {
            Ok(v) => v,
            Err(_) => {
                return false;
            },
        };
        values_equal(&profile_value, &default_value)
    }

    /// Whether two configuration texts parse to JSON values that are
    /// deep-equal once the named top-level field is removed from both;
    /// false when either side does not parse.
    pub fn compare_json_ignoring_field(
        &self,
        profile_content: &str,
        default_content: &str,
        ignore_field: &str,
    ) -> (r: bool)
        ensures
            r == (json_ok(profile_content@) && json_ok(default_content@) && sem_eq(
                sem_without(json_sem(profile_content@), ignore_field@),
                sem_without(json_sem(default_content@), ignore_field@),
            )),
    {
        let profile_value = match parse_json(profile_content) {
            Ok(v) => v,
            Err(_) => {
                return false;
            },
        };
        let default_value = match parse_json(default_content) {
            Ok(v) => v,
            Err(_) => {
                return false;
            },
        };
        let profile_stripped = strip_field(&profile_value, ignore_field);
        let default_stripped = strip_field(&default_value, ignore_field);
        values_equal(&profile_stripped, &default_stripped)
    }

    /// The status of every profile, in order, against the cached live
    /// settings.
    pub fn compare_profiles(&self) -> (r: Vec<ProfileStatus>)
        ensures
            r@.len() == self.profiles_view().len(),
            forall|i: int|
                0 <= i < r@.len() ==> #[trigger] profile_status_matches(
                    *self,
                    self.profiles_view()[i].content@,
                    r@[i],
                ),
    {
        let n = self.profiles.len();
        let mut statuses: Vec<ProfileStatus> = Vec::new();
        let mut i: usize = 0;
        while i < n
            invariant
                n == self.profiles_view().len(),
                i <= n,
                statuses@.len() == i,
                forall|j: int|
                    0 <= j < i ==> #[trigger] profile_status_matches(
                        *self,
                        self.profiles_view()[j].content@,
                        statuses@[j],
                    ),
            decreases n - i,
        {
            let status = self.get_detailed_profile_status(self.profiles[i].content.as_str());
            statuses.push(status);
            i = i + 1;
        }
        statuses
    }

    /// The status of the named profile, or an error when no profile
    /// carries the name.
    pub fn get_profile_status(&self, profile_name: &str) -> (r: ProfileStatus)
        ensures
            spec_find_profile(self.profiles_view(), profile_name@) is None ==> r is Error
                && r->Error_0@ == "Profile '"@ + profile_name@ + "' not found"@,
            spec_find_profile(self.profiles_view(), profile_name@) is Some
                ==> profile_status_matches(
                *self,
                spec_find_profile(self.profiles_view(), profile_name@)->Some_0.content@,
                r,
            ),
    {
        match find_profile_index(&self.profiles, profile_name) {
            Some(i) => self.get_detailed_profile_status(self.profiles[i].content.as_str()),
            None => ProfileStatus::Error(
                String::from_str("Profile '").concat(profile_name).concat("' not found"),
            ),
        }
    }

    /// Recompute every profile's active flag against the cached live
    /// settings; names, paths and contents stay as they are.
    pub fn refresh_profile_status(&mut self) -> (r: AppResult<()>)
        ensures
            r is Ok,
            old(self).wf() ==> final(self).wf(),
            final(self).profiles_view().len() == old(self).profiles_view().len(),
            forall|i: int|
                0 <= i < final(self).profiles_view().len() ==> {
                    let p = #[trigger] final(self).profiles_view()[i];
                    let q = old(self).profiles_view()[i];
                    p.name == q.name && p.path == q.path && p.content == q.content && p.is_active
                        == spec_is_active(q.content@, old(self).live_cache())
                },
            final(self).dir() == old(self).dir(),
            final(self).settings_path() == old(self).settings_path(),
            final(self).cache() == old(self).cache(),
            final(self).live_cache() == old(self).live_cache(),
            final(self).ttl() == old(self).ttl(),
    {
        let live_value = match &self.default_settings_cache {
            Some((live_content, _)) => {
                match parse_json(live_content.as_str()) {
                    Ok(v) => Some(v),
                    Err(_) => None,
                }
            },
            None => None,
        };
        let n = self.profiles.len();
        let mut updated: Vec<Profile> = Vec::new();
        let mut i: usize = 0;
        while i < n
            invariant
                n == old(self).profiles_view().len(),
                *self == *old(self),
                i <= n,
                updated@.len() == i,
                match live_value {
                    Some(v) => self.live_cache() is Some && json_ok(self.live_cache()->Some_0.0@)
                        && value_sem(v) == json_sem(self.live_cache()->Some_0.0@),
                    None => self.live_cache() is None || !json_ok(self.live_cache()->Some_0.0@),
                },
                forall|j: int|
                    0 <= j < i ==> {
                        let p = #[trigger] updated@[j];
                        let q = old(self).profiles_view()[j];
                        p.name == q.name && p.path == q.path && p.content == q.content
                            && p.is_active == spec_is_active(q.content@, old(self).live_cache())
                    },
            decreases n - i,
        {
            let profile = &self.profiles[i];
            let is_active = match &live_value {
                Some(v) => {
                    match parse_json(profile.content.as_str()) {
                        Ok(pv) => values_equal(&pv, v),
                        Err(_) => false,
                    }
                },
                None => false,
            };
            updated.push(
                Profile {
                    name: profile.name.clone(),
                    path: profile.path.clone(),
                    content: profile.content.clone(),
                    is_active,
                },
            );
            i = i + 1;
        }
        self.profiles = updated;
        proof {
            if old(self).wf() {
                assert forall|j: int|
                    0 <= j < self.profiles_view().len() implies {
                    let name = (#[trigger] self.profiles_view()[j]).name@;
                    1 <= name.len() <= 255
                } by {
                    assert(self.profiles_view()[j].name == old(self).profiles_view()[j].name);
                    assert(1 <= old(self).profiles_view()[j].name@.len() <= 255);
                }
            }
        }
        Ok(())
    }

    /// The CRC32 checksum of a content text, for change detection.
    pub fn calculate_checksum(content: &str) -> (r: u32)
        ensures
            r == crate::checksum::text_checksum(content@),
    {
        crate::checksum::calculate_checksum(content)
    }

    /// The live settings path followed by every profile's path: what
    /// the monitor watches.
    pub fn get_monitored_files(&self) -> (r: Vec<String>)
        ensures
            r@.len() == 1 + self.profiles_view().len(),
            r@[0]@ == self.settings_path(),
            forall|i: int|
                0 <= i < self.profiles_view().len() ==> #[trigger] r@[i + 1]@
                    == self.profiles_view()[i].path@,
    {
        let mut files: Vec<String> = Vec::new();
        files.push(self.default_settings_path.clone());
        let n = self.profiles.len();
        let mut i: usize = 0;
        while i < n
            invariant
                n == self.profiles_view().len(),
                i <= n,
                files@.len() == 1 + i,
                files@[0]@ == self.settings_path(),
                forall|j: int|
                    0 <= j < i ==> #[trigger] files@[j + 1]@ == self.profiles_view()[j].path@,
            decreases n - i,
        {
            files.push(self.profiles[i].path.clone());
            i = i + 1;
        }
        files
    }

    /// The profiles found by the last scan.
    pub fn get_profiles(&self) -> (r: &Vec<Profile>)
        ensures
            r@ == self.profiles_view(),
    {
        &self.profiles
    }

    /// The watched directory.
    pub fn get_claude_dir(&self) -> (r: &str)
        ensures
            r@ == self.dir(),
    {
        self.claude_dir.as_str()
    }

    /// Build the profile list from the given directory entries: keep
    /// each file named `<name>.settings.json` (the live `settings.json`
    /// itself never qualifies) whose name is non-empty and at most 255
    /// characters, whose content was read, and whose content parses as
    /// JSON; compute each kept profile's active flag against the cached
    /// live settings; and replace the stored list wholesale.  A
    /// rejected entry never aborts the scan.
    pub fn scan_profiles(&mut self, entries: Vec<ScanEntry>) -> (r: AppResult<Vec<Profile>>)
        ensures
            r is Ok,
            final(self).wf(),
            r->Ok_0@.map_values(|p: Profile| p.repr()) == spec_scan(
                old(self).dir(),
                old(self).live_cache(),
                entries@,
            ),
            final(self).profiles_view() == r->Ok_0@,
            final(self).dir() == old(self).dir(),
            final(self).settings_path() == old(self).settings_path(),
            final(self).cache() == old(self).cache(),
            final(self).live_cache() == old(self).live_cache(),
            final(self).ttl() == old(self).ttl(),
    {
        let live_value = match &self.default_settings_cache {
            Some((live_content, _)) => {
                match parse_json(live_content.as_str()) {
                    Ok(v) => Some(v),
                    Err(_) => None,
                }
            },
            None => None,
        };
        let n = entries.len();
        let mut profiles: Vec<Profile> = Vec::new();
        let mut i: usize = 0;
        while i < n
            invariant
                n == entries@.len(),
                *self == *old(self),
                i <= n,
                match live_value {
                    Some(v) => self.live_cache() is Some && json_ok(self.live_cache()->Some_0.0@)
                        && value_sem(v) == json_sem(self.live_cache()->Some_0.0@),
                    None => self.live_cache() is None || !json_ok(self.live_cache()->Some_0.0@),
                },
                profiles@.map_values(|p: Profile| p.repr()) == spec_scan(
                    self.dir(),
                    self.live_cache(),
                    entries@.take(i as int),
                ),
            decreases n - i,
        {
            let entry = &entries[i];
            proof {
                assert(entries@.take(i as int + 1).drop_last() =~= entries@.take(i as int));
                assert(entries@.take(i as int + 1).last() == entries@[i as int]);
            }
            match profile_stem(entry.file_name.as_str()) {
                Some(stem) => {
                    match &entry.content {
                        Some(content) => {
                            match parse_json(content.as_str()) {
                                Ok(value) => {
                                    let is_active = match &live_value {
                                        Some(v) => values_equal(&value, v),
                                        None => false,
                                    };
                                    let path = self.claude_dir.clone().concat("/").concat(
                                        entry.file_name.as_str(),
                                    );
                                    let profile = Profile {
                                        name: stem,
                                        path,
                                        content: content.clone(),
                                        is_active,
                                    };
                                    let ghost pre = profiles@;
                                    let ghost added = profile;
                                    profiles.push(profile);
                                    proof {
                                        assert(profiles@ =~= pre.push(added));
                                        assert(profiles@.map_values(|p: Profile| p.repr())
                                            =~= pre.map_values(|p: Profile| p.repr()).push(
                                            added.repr(),
                                        ));
                                        assert(added.repr() == spec_scan_profile(
                                            self.dir(),
                                            self.live_cache(),
                                            entries@[i as int],
                                        ));
                                    }
                                },
                                Err(_) => {},
                            }
                        },
                        None => {},
                    }
                },
                None => {},
            }
            i = i + 1;
        }
        proof {
            assert(entries@.take(n as int) =~= entries@);
        }
        self.profiles = clone_profiles(&profiles);
        proof {
            lemma_scan_names_valid(self.dir(), self.live_cache(), entries@);
            assert forall|i: int|
                0 <= i < self.profiles_view().len() implies {
                let name = (#[trigger] self.profiles_view()[i]).name@;
                1 <= name.len() <= 255
            } by {
                assert(profiles@.map_values(|p: Profile| p.repr())[i] == profiles@[i].repr());
                assert(spec_scan(self.dir(), self.live_cache(), entries@)[i].0
                    == profiles@[i].name@);
            }
        }
        Ok(profiles)
    }

    /// Validate a switch request: the name must be non-empty and name a
    /// known profile; an already active profile needs no action — under
    /// the store's name invariant this holds of every found profile,
    /// with nothing assumed of the requested name; else the profile's
    /// content must be a JSON object, and the plan carries its
    /// canonical normalized form, whose value is deep-equal to the
    /// profile's content.
    pub fn prepare_switch(&self, profile_name: &str) -> (r: Result<SwitchPlan, AppError>)
        ensures
            self.wf() && spec_find_profile(self.profiles_view(), profile_name@) is Some
                && spec_find_profile(self.profiles_view(), profile_name@)->Some_0.is_active ==> r
                == Ok::<SwitchPlan, AppError>(SwitchPlan::AlreadyActive),
            r is Err ==> r->Err_0 is ConfigError,
            profile_name@.len() == 0 ==> r is Err && r->Err_0->ConfigError_0@
                == "Profile name cannot be empty"@,
            profile_name@.len() > 0 && spec_find_profile(self.profiles_view(), profile_name@)
                is None ==> r is Err && r->Err_0->ConfigError_0@ == "Profile '"@ + profile_name@
                + "' not found"@,
            ({
                let f = spec_find_profile(self.profiles_view(), profile_name@);
                profile_name@.len() > 0 && f is Some ==> {
                    let p = f->Some_0;
                    &&& (p.is_active ==> r == Ok::<SwitchPlan, AppError>(SwitchPlan::AlreadyActive))
                    &&& (!p.is_active && json_ok(p.content@) && sem_is_object(json_sem(p.content@))
                        ==> r is Ok && r->Ok_0 is Replace && r->Ok_0->Replace_0@ == json_sem(
                        p.content@,
                    ) && json_ok(r->Ok_0->Replace_0@) && json_sem(r->Ok_0->Replace_0@) == json_sem(
                        p.content@,
                    ))
                    &&& (!p.is_active && !(json_ok(p.content@) && sem_is_object(
                        json_sem(p.content@),
                    )) ==> r is Err)
                }
            }),
    {
        if profile_name.unicode_len() == 0 {
            proof {
                if self.wf() && spec_find_profile(self.profiles_view(), profile_name@) is Some {
                    lemma_assoc_found(self.profiles_view(), profile_key(), profile_name@);
                    let k = choose|k: int|
                        0 <= k < self.profiles_view().len() && #[trigger] self.profiles_view()[k]
                            == spec_find_profile(self.profiles_view(), profile_name@)->Some_0
                            && profile_key()(self.profiles_view()[k]) == profile_name@;
                    assert(self.profiles_view()[k].name@ == profile_name@);
                    assert(1 <= self.profiles_view()[k].name@.len());
                }
            }
            return Err(AppError::ConfigError(String::from_str("Profile name cannot be empty")));
        }
        match find_profile_index(&self.profiles, profile_name) {
            Some(i) => {
                let profile = &self.profiles[i];
                if profile.is_active {
                    Ok(SwitchPlan::AlreadyActive)
                } else {
                    match normalize_json_object(profile.content.as_str()) {
                        Ok(normalized) => Ok(SwitchPlan::Replace(normalized)),
                        Err(e) => Err(e),
                    }
                }
            },
            None => Err(
                AppError::ConfigError(
                    String::from_str("Profile '").concat(profile_name).concat("' not found"),
                ),
            ),
        }
    }

    /// Whether the named profile's content is deep-equal to the given
    /// live settings content, as read back after a switch.
    pub fn validate_switch(&self, profile_name: &str, current_content: &str) -> (r: AppResult<
        bool,
    >)
        ensures
            r is Ok <==> spec_find_profile(self.profiles_view(), profile_name@) is Some,
            r is Err ==> r->Err_0 is ConfigError && r->Err_0->ConfigError_0@ == "Profile '"@
                + profile_name@ + "' not found"@,
            r is Ok ==> r->Ok_0 == ({
                let p = spec_find_profile(self.profiles_view(), profile_name@)->Some_0;
                json_ok(p.content@) && json_ok(current_content@) && sem_eq(
                    json_sem(p.content@),
                    json_sem(current_content@),
                )
            }),
    {
        match find_profile_index(&self.profiles, profile_name) {
            Some(i) => {
                let matches_live = self.compare_configurations(
                    self.profiles[i].content.as_str(),
                    current_content,
                );
                Ok(matches_live)
            },
            None => Err(
                AppError::ConfigError(
                    String::from_str("Profile '").concat(profile_name).concat("' not found"),
                ),
            ),
        }
    }
}

/// What `compare_profiles` and `get_profile_status` promise per entry:
/// an error naming the missing live settings when none are cached, else
/// the classification against the cached live content, with any parse
/// error's reason naming the side that failed.
pub open spec fn profile_status_matches(
    service: ConfigService,
    content: Seq<char>,
    r: ProfileStatus,
) -> bool {
    match service.live_cache() {
        None => r is Error && r->Error_0@
            == "Failed to read default settings: live settings not loaded"@,
        Some(lc) => {
            &&& status_matches(content, lc.0@, r)
            &&& (!json_ok(lc.0@) ==> spec_starts_with(
                r->Error_0@,
                "Invalid default settings JSON: "@,
            ))
            &&& (json_ok(lc.0@) && !json_ok(content) ==> spec_starts_with(
                r->Error_0@,
                "Invalid profile JSON: "@,
            ))
        },
    }
}

/// The profile name carried by a file name, as `spec_profile_stem`.
pub fn profile_stem(file_name: &str) -> (r: Option<String>)
    ensures
        r is Some <==> spec_profile_stem(file_name@) is Some,
        r is Some ==> r->Some_0@ == spec_profile_stem(file_name@)->Some_0,
{
    match strip_suffix_str(file_name, ".settings.json") {
        Some(stem) => {
            let stem_len = stem.as_str().unicode_len();
            if stem_len >= 1 && stem_len <= 255 {
                proof {
                    assert(stem@ =~= file_name@.take(file_name@.len() - ".settings.json"@.len()));
                }
                Some(stem)
            } else {
                None
            }
        },
        None => None,
    }
}

/// A field-for-field copy of a profile.
fn clone_profile(p: &Profile) -> (r: Profile)
    ensures
        r == *p,
{
    Profile {
        name: p.name.clone(),
        path: p.path.clone(),
        content: p.content.clone(),
        is_active: p.is_active,
    }
}

/// A field-for-field copy of a profile list.
fn clone_profiles(v: &Vec<Profile>) -> (r: Vec<Profile>)
    ensures
        r@ == v@,
{
    let n = v.len();
    let mut out: Vec<Profile> = Vec::new();
    let mut i: usize = 0;
    while i < n
        invariant
            n == v@.len(),
            i <= n,
            out@ =~= v@.take(i as int),
        decreases n - i,
    {
        out.push(clone_profile(&v[i]));
        proof {
            assert(out@ =~= v@.take(i as int + 1));
        }
        i = i + 1;
    }
    proof {
        assert(v@.take(n as int) =~= v@);
    }
    out
}

/// The index of the first profile with a name, as `spec_find_profile`.
fn find_profile_index(profiles: &Vec<Profile>, name: &str) -> (r: Option<usize>)
    ensures
        match r {
            Some(i) => i < profiles@.len() && profiles@[i as int].name@ == name@
                && spec_find_profile(profiles@, name@) == Some(profiles@[i as int]) && (forall|j: int|
                0 <= j < i ==> #[trigger] profiles@[j].name@ != name@),
            None => spec_find_profile(profiles@, name@) is None,
        },
{
    let n = profiles.len();
    let mut i: usize = 0;
    proof {
        assert(profiles@.skip(0) =~= profiles@);
    }
    while i < n
        invariant
            n == profiles@.len(),
            i <= n,
            spec_find_profile(profiles@, name@) == assoc_lookup(
                profiles@.skip(i as int),
                profile_key(),
                name@,
            ),
            forall|j: int| 0 <= j < i ==> #[trigger] profiles@[j].name@ != name@,
        decreases n - i,
    {
        proof {
            assert(profiles@.skip(i as int).first() == profiles@[i as int]);
            assert(profiles@.skip(i as int).drop_first() =~= profiles@.skip(i as int + 1));
        }
        if crate::text::str_eq(profiles[i].name.as_str(), name) {
            return Some(i);
        }
        i = i + 1;
    }
    proof {
        assert(profiles@.skip(n as int) =~= Seq::<Profile>::empty());
    }
    None
}

/// The index of the first cache entry for a path, as
/// `spec_cache_lookup`.
fn cache_find_index(entries: &Vec<CacheEntry>, path: &str) -> (r: Option<usize>)
    ensures
        match r {
            Some(i) => i < entries@.len() && entries@[i as int].path@ == path@
                && spec_cache_lookup(entries@, path@) == Some(entries@[i as int]) && (forall|j: int|
                0 <= j < i ==> #[trigger] entries@[j].path@ != path@),
            None => spec_cache_lookup(entries@, path@) is None,
        },
{
    let n = entries.len();
    let mut i: usize = 0;
    proof {
        assert(entries@.skip(0) =~= entries@);
    }
    while i < n
        invariant
            n == entries@.len(),
            i <= n,
            spec_cache_lookup(entries@, path@) == assoc_lookup(
                entries@.skip(i as int),
                cache_key(),
                path@,
            ),
            forall|j: int| 0 <= j < i ==> #[trigger] entries@[j].path@ != path@,
        decreases n - i,
    {
        proof {
            assert(entries@.skip(i as int).first() == entries@[i as int]);
            assert(entries@.skip(i as int).drop_first() =~= entries@.skip(i as int + 1));
        }
        if crate::text::str_eq(entries[i].path.as_str(), path) {
            return Some(i);
        }
        i = i + 1;
    }
    proof {
        assert(entries@.skip(n as int) =~= Seq::<CacheEntry>::empty());
    }
    None
}

} // verus!
