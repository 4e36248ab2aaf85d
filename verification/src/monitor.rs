//! The change monitor: a bounded list of watched paths, a path-keyed
//! fingerprint cache, a diff step that turns probed observations into
//! change events, and a fail-stop policy for repeated probe failures.
//!
//! Probing itself (reading sizes, times and contents) is the caller's
//! job; each tick it hands in one observation per watched path and this
//! monitor decides the events, updates the cache in a batch, and
//! tracks consecutive failures with exponential backoff up to a ceiling
//! after which it stops itself.

use vstd::prelude::*;
use vstd::string::*;

use crate::assoc::{
    assoc_lookup, assoc_unique, lemma_assoc_found, lemma_assoc_not_found, lemma_assoc_push,
    lemma_assoc_remove, lemma_assoc_update,
};
use crate::errors::{AppError, AppResult};
use crate::fingerprint::{compare_metadata, spec_metadata_changed};
use crate::types::{ChangeType, ConfigFileChange, FileMetadata, MonitoringStats};

verus! {

/// Files larger than this (10 MiB) are never watched.
pub const MAX_MONITORED_FILE_SIZE: u64 = 10485760;

/// The watch list holds at most this many paths; beyond it the
/// earliest-added path is evicted.
pub const MAX_MONITORED_FILES: usize = 50;

/// The fingerprint cache is pruned to watched paths once it grows past
/// this many entries.
pub const METADATA_CACHE_LIMIT: usize = 100;

/// After this many consecutive failed ticks the monitor stops itself.
pub const MAX_SCAN_ERRORS: u32 = 10;

/// What probing a path for the watch list found.
#[derive(Debug, Clone, Copy)]
pub enum FileProbe {
    /// No file exists at the path.
    Missing,
    /// The path exists but is not a regular file.
    NotAFile,
    /// A regular file of the given byte size.
    File(u64),
}

/// What probing a watched path during a tick found.
#[derive(Debug, Clone, Copy)]
pub enum ProbeOutcome {
    /// The file exists and fingerprinted to this.
    Present(FileMetadata),
    /// The file no longer exists.
    Missing,
    /// The probe itself failed (the file may or may not exist).
    Failed,
}

/// One watched path's probe result for a tick.
#[derive(Debug)]
pub struct Observation {
    pub path: String,
    pub outcome: ProbeOutcome,
}

/// The key of a fingerprint-cache entry: its path.
pub open spec fn metadata_key() -> spec_fn((String, FileMetadata)) -> Seq<char> {
    |e: (String, FileMetadata)| e.0@
}

/// The cached fingerprint for a path, if any.
pub open spec fn spec_metadata_lookup(
    entries: Seq<(String, FileMetadata)>,
    path: Seq<char>,
) -> Option<(String, FileMetadata)> {
    assoc_lookup(entries, metadata_key(), path)
}

/// Whether some path in the list reads as `path`.
pub open spec fn spec_has_path(paths: Seq<String>, path: Seq<char>) -> bool {
    exists|i: int| 0 <= i < paths.len() && (#[trigger] paths[i])@ == path
}

/// Whether an observation list carries the path.
pub open spec fn spec_observed(obs: Seq<Observation>, path: Seq<char>) -> bool {
    exists|i: int| 0 <= i < obs.len() && (#[trigger] obs[i]).path@ == path
}

/// The event one observation produces against the tick's cache
/// snapshot: a deletion for a missing-but-known path, a creation for a
/// present-but-unknown one, a modification for a known one whose
/// fingerprint changed, and nothing otherwise.
pub open spec fn spec_event_for(
    snapshot: Seq<(String, FileMetadata)>,
    ob: Observation,
) -> Option<(Seq<char>, ChangeType)> {
    let known = spec_metadata_lookup(snapshot, ob.path@);
    match ob.outcome {
        ProbeOutcome::Missing => if known is Some {
            Some((ob.path@, ChangeType::Deleted))
        } else {
            None
        },
        ProbeOutcome::Present(m) => if known is None {
            Some((ob.path@, ChangeType::Created))
        } else if spec_metadata_changed(known->Some_0.1, m) {
            Some((ob.path@, ChangeType::Modified))
        } else {
            None
        },
        ProbeOutcome::Failed => None,
    }
}

/// The events a tick produces, in observation order, all judged against
/// the same snapshot of the cache.
pub open spec fn spec_scan_events(
    snapshot: Seq<(String, FileMetadata)>,
    obs: Seq<Observation>,
) -> Seq<(Seq<char>, ChangeType)>
    decreases obs.len(),
{
    if obs.len() == 0 {
        Seq::empty()
    } else {
        let front = spec_scan_events(snapshot, obs.drop_last());
        match spec_event_for(snapshot, obs.last()) {
            Some(ev) => front.push(ev),
            None => front,
        }
    }
}

/// The cached fingerprint a path holds after the tick's batch update:
/// removed when missing, the observed fingerprint for a created or
/// modified file, the old entry for an unchanged one, and untouched
/// when the probe failed.
pub open spec fn spec_entry_after(
    snapshot: Seq<(String, FileMetadata)>,
    ob: Observation,
) -> Option<FileMetadata> {
    let known = spec_metadata_lookup(snapshot, ob.path@);
    match ob.outcome {
        ProbeOutcome::Missing => None,
        ProbeOutcome::Failed => match known {
            Some(e) => Some(e.1),
            None => None,
        },
        ProbeOutcome::Present(m) => match known {
            None => Some(m),
            Some(e) => if spec_metadata_changed(e.1, m) {
                Some(m)
            } else {
                Some(e.1)
            },
        },
    }
}

/// The batch update settled one observation's path: the cache now
/// holds exactly what `spec_entry_after` prescribes for it.
pub open spec fn spec_cache_updated_for(
    cache_after: Seq<(String, FileMetadata)>,
    snapshot: Seq<(String, FileMetadata)>,
    ob: Observation,
) -> bool {
    let after = spec_metadata_lookup(cache_after, ob.path@);
    match spec_entry_after(snapshot, ob) {
        Some(m) => after is Some && after->Some_0.0@ == ob.path@ && after->Some_0.1 == m,
        None => after is None,
    }
}

/// No two observations carry the same path.
pub open spec fn spec_obs_paths_unique(obs: Seq<Observation>) -> bool {
    forall|a: int, b: int|
        0 <= a < b < obs.len() ==> (#[trigger] obs[a]).path@ != (#[trigger] obs[b]).path@
}

/// Whether an observation list holds a failed probe.
pub open spec fn spec_any_failed(obs: Seq<Observation>) -> bool {
    exists|i: int| 0 <= i < obs.len() && (#[trigger] obs[i]).outcome is Failed
}

/// The cache entries kept by the pruning pass: those whose path is
/// still watched, in order.
pub open spec fn spec_retain_watched(
    cache: Seq<(String, FileMetadata)>,
    files: Seq<String>,
) -> Seq<(String, FileMetadata)>
    decreases cache.len(),
{
    if cache.len() == 0 {
        Seq::empty()
    } else {
        let front = spec_retain_watched(cache.drop_last(), files);
        if spec_has_path(files, cache.last().0@) {
            front.push(cache.last())
        } else {
            front
        }
    }
}

/// The pruning pass: once the cache exceeds the limit, keep only
/// entries for watched paths; below the limit it is left alone.
pub open spec fn spec_optimized(
    cache: Seq<(String, FileMetadata)>,
    files: Seq<String>,
    limit: nat,
) -> Seq<(String, FileMetadata)> {
    if cache.len() > limit {
        spec_retain_watched(cache, files)
    } else {
        cache
    }
}

/// The exponential backoff before the next tick after consecutive
/// failures: base 30 seconds, doubling, capped at 300 seconds.
pub open spec fn spec_backoff_secs(errors: u32) -> u64 {
    if errors == 0 {
        0
    } else if errors == 1 {
        30
    } else if errors == 2 {
        60
    } else if errors == 3 {
        120
    } else if errors == 4 {
        240
    } else {
        300
    }
}

/// The change monitor.
pub struct MonitorService {
    monitored_files: Vec<String>,
    file_metadata: Vec<(String, FileMetadata)>,
    monitor_interval_minutes: u64,
    is_running: bool,
    max_cache_size: usize,
    scan_error_count: u32,
    max_scan_errors: u32,
}

impl MonitorService {
    /// The watched paths, in the order they were added.
    pub closed spec fn files_view(self) -> Seq<String> {
        self.monitored_files@
    }

    /// The fingerprint cache.
    pub closed spec fn cache_view(self) -> Seq<(String, FileMetadata)> {
        self.file_metadata@
    }

    /// The poll interval in minutes.
    pub closed spec fn interval(self) -> u64 {
        self.monitor_interval_minutes
    }

    /// Whether the poll loop should keep ticking.
    pub closed spec fn running(self) -> bool {
        self.is_running
    }

    /// Consecutive failed ticks so far.
    pub closed spec fn error_count(self) -> u32 {
        self.scan_error_count
    }

    /// The failure ceiling.
    pub closed spec fn max_errors(self) -> u32 {
        self.max_scan_errors
    }

    /// The cache size the pruning pass allows.
    pub closed spec fn cache_limit(self) -> usize {
        self.max_cache_size
    }

    /// The cache never holds two entries for one path.
    pub open spec fn wf(self) -> bool {
        assoc_unique(self.cache_view(), metadata_key())
    }

    /// A stopped monitor with the given interval, nothing watched and
    /// an empty cache.
    pub fn new(interval_minutes: u64) -> (r: Self)
        ensures
            r.wf(),
            r.files_view() == Seq::<String>::empty(),
            r.cache_view() == Seq::<(String, FileMetadata)>::empty(),
            r.interval() == interval_minutes,
            !r.running(),
            r.error_count() == 0,
            r.cache_limit() == METADATA_CACHE_LIMIT,
            r.max_errors() == MAX_SCAN_ERRORS,
    {
        MonitorService {
            monitored_files: Vec::new(),
            file_metadata: Vec::new(),
            monitor_interval_minutes: interval_minutes,
            is_running: false,
            max_cache_size: METADATA_CACHE_LIMIT,
            scan_error_count: 0,
            max_scan_errors: MAX_SCAN_ERRORS,
        }
    }

    /// Set the poll interval, rejected outside [1, 60] minutes.  When
    /// the interval actually changes while the monitor runs, the
    /// monitor stops: the caller must restart it with its callback.
    pub fn set_monitor_interval(&mut self, minutes: u64) -> (r: AppResult<()>)
        requires
            old(self).wf(),
        ensures
            final(self).wf(),
            r is Ok <==> 1 <= minutes <= 60,
            r is Err ==> *final(self) == *old(self) && r->Err_0 is MonitorError,
            r is Ok ==> final(self).interval() == minutes,
            r is Ok ==> final(self).running() == (old(self).running() && old(self).interval()
                == minutes),
            final(self).files_view() == old(self).files_view(),
            final(self).cache_view() == old(self).cache_view(),
            final(self).error_count() == old(self).error_count(),
            final(self).max_errors() == old(self).max_errors(),
            final(self).cache_limit() == old(self).cache_limit(),
    {
        if minutes < 1 || minutes > 60 {
            return Err(
                AppError::MonitorError(
                    String::from_str("Invalid monitor interval: must be between 1 and 60 minutes"),
                ),
            );
        }
        if self.monitor_interval_minutes != minutes {
            if self.is_running {
                self.is_running = false;
            }
            self.monitor_interval_minutes = minutes;
        }
        Ok(())
    }

    /// Add a path to the watch list.  Missing paths, non-files and
    /// files over the size ceiling are ignored, as is a path already
    /// watched.  When the list outgrows its bound, the earliest-added
    /// path is evicted together with its cached fingerprint.
    pub fn add_file_to_monitor(&mut self, path: String, probe: FileProbe)
        requires
            old(self).wf(),
        ensures
            final(self).wf(),
            !(probe is File && probe->File_0 <= MAX_MONITORED_FILE_SIZE) ==> *final(self) == *old(
                self,
            ),
            (probe is File && probe->File_0 <= MAX_MONITORED_FILE_SIZE && spec_has_path(
                old(self).files_view(),
                path@,
            )) ==> *final(self) == *old(self),
            (probe is File && probe->File_0 <= MAX_MONITORED_FILE_SIZE && !spec_has_path(
                old(self).files_view(),
                path@,
            )) ==> {
                &&& (old(self).files_view().len() < MAX_MONITORED_FILES ==> final(self).files_view()
                    == old(self).files_view().push(path) && final(self).cache_view() == old(
                    self,
                ).cache_view())
                &&& (old(self).files_view().len() >= MAX_MONITORED_FILES ==> {
                    let evicted = old(self).files_view()[0]@;
                    &&& final(self).files_view() == old(self).files_view().drop_first().push(path)
                    &&& spec_metadata_lookup(final(self).cache_view(), evicted) is None
                    &&& forall|q: Seq<char>|
                        q != evicted ==> #[trigger] spec_metadata_lookup(
                            final(self).cache_view(),
                            q,
                        ) == spec_metadata_lookup(old(self).cache_view(), q)
                })
            },
            final(self).interval() == old(self).interval(),
            final(self).running() == old(self).running(),
            final(self).error_count() == old(self).error_count(),
            final(self).max_errors() == old(self).max_errors(),
            final(self).cache_limit() == old(self).cache_limit(),
    {
        let acceptable = match probe {
            FileProbe::File(size) => size <= MAX_MONITORED_FILE_SIZE,
            _ => false,
        };
        if !acceptable {
            return ;
        }
        if self.path_is_watched(path.as_str()) {
            return ;
        }
        self.monitored_files.push(path);
        if self.monitored_files.len() > MAX_MONITORED_FILES {
            let evicted = self.monitored_files.remove(0);
            proof {
                assert(old(self).files_view().push(path).remove(0) =~= old(
                    self,
                ).files_view().drop_first().push(path));
            }
            self.remove_metadata(evicted.as_str());
        }
    }

    /// Whether the path is on the watch list.
    fn path_is_watched(&self, path: &str) -> (r: bool)
        ensures
            r == spec_has_path(self.files_view(), path@),
    {
        let n = self.monitored_files.len();
        let mut i: usize = 0;
        while i < n
            invariant
                n == self.files_view().len(),
                i <= n,
                forall|j: int| 0 <= j < i ==> #[trigger] self.files_view()[j]@ != path@,
            decreases n - i,
        {
            if crate::text::str_eq(self.monitored_files[i].as_str(), path) {
                return true;
            }
            i = i + 1;
        }
        false
    }

    /// Record a fingerprint for a path, replacing any earlier entry.
    fn upsert_metadata(&mut self, path: &str, m: FileMetadata)
        requires
            old(self).wf(),
        ensures
            final(self).wf(),
            ({
                let e = spec_metadata_lookup(final(self).cache_view(), path@);
                e is Some && e->Some_0.0@ == path@ && e->Some_0.1 == m
            }),
            forall|q: Seq<char>|
                q != path@ ==> #[trigger] spec_metadata_lookup(final(self).cache_view(), q)
                    == spec_metadata_lookup(old(self).cache_view(), q),
            final(self).files_view() == old(self).files_view(),
            final(self).interval() == old(self).interval(),
            final(self).running() == old(self).running(),
            final(self).error_count() == old(self).error_count(),
            final(self).max_errors() == old(self).max_errors(),
            final(self).cache_limit() == old(self).cache_limit(),
    {
        let entry = (path.to_owned(), m);
        match metadata_find_index(&self.file_metadata, path) {
            Some(i) => {
                proof {
                    lemma_assoc_update(self.file_metadata@, metadata_key(), i as int, entry);
                }
                let ghost pre = self.file_metadata@;
                self.file_metadata.remove(i);
                self.file_metadata.insert(i, entry);
                proof {
                    assert(self.file_metadata@ =~= pre.update(i as int, entry));
                    let cur = self.file_metadata@;
                    assert forall|a: int, b: int|
                        0 <= a < b < cur.len() implies #[trigger] metadata_key()(cur[a])
                        != #[trigger] metadata_key()(cur[b]) by {
                        assert(metadata_key()(cur[a]) == metadata_key()(pre[a]));
                        assert(metadata_key()(cur[b]) == metadata_key()(pre[b]));
                    }
                }
            },
            None => {
                proof {
                    lemma_assoc_push(self.file_metadata@, metadata_key(), entry);
                    lemma_assoc_not_found(self.file_metadata@, metadata_key(), path@);
                }
                let ghost pre = self.file_metadata@;
                self.file_metadata.push(entry);
                proof {
                    let cur = self.file_metadata@;
                    assert forall|a: int, b: int|
                        0 <= a < b < cur.len() implies #[trigger] metadata_key()(cur[a])
                        != #[trigger] metadata_key()(cur[b]) by {
                        if b == pre.len() {
                            assert(metadata_key()(cur[a]) == metadata_key()(pre[a]));
                        } else {
                            assert(metadata_key()(cur[a]) == metadata_key()(pre[a]));
                            assert(metadata_key()(cur[b]) == metadata_key()(pre[b]));
                        }
                    }
                }
            },
        }
    }

    /// Drop the fingerprint cached for a path, if any.
    fn remove_metadata(&mut self, path: &str)
        requires
            old(self).wf(),
        ensures
            final(self).wf(),
            spec_metadata_lookup(final(self).cache_view(), path@) is None,
            forall|q: Seq<char>|
                q != path@ ==> #[trigger] spec_metadata_lookup(final(self).cache_view(), q)
                    == spec_metadata_lookup(old(self).cache_view(), q),
            final(self).files_view() == old(self).files_view(),
            final(self).interval() == old(self).interval(),
            final(self).running() == old(self).running(),
            final(self).error_count() == old(self).error_count(),
            final(self).max_errors() == old(self).max_errors(),
            final(self).cache_limit() == old(self).cache_limit(),
    {
        match metadata_find_index(&self.file_metadata, path) {
            Some(i) => {
                proof {
                    lemma_assoc_remove(self.file_metadata@, metadata_key(), i as int);
                }
                let ghost pre = self.file_metadata@;
                self.file_metadata.remove(i);
                proof {
                    let cur = self.file_metadata@;
                    assert forall|a: int, b: int|
                        0 <= a < b < cur.len() implies #[trigger] metadata_key()(cur[a])
                        != #[trigger] metadata_key()(cur[b]) by {
                        let a0 = if a < i { a } else { a + 1 };
                        let b0 = if b < i { b } else { b + 1 };
                        assert(cur[a] == pre[a0]);
                        assert(cur[b] == pre[b0]);
                    }
                }
            },
            None => {},
        }
    }

    /// One tick's diff step: judge every observation against the same
    /// snapshot of the cache, emit the events in order, batch-apply the
    /// cache updates afterwards, and account for probe failures — any
    /// failed probe counts one consecutive failure, a clean tick resets
    /// the count, and at the ceiling the monitor stops itself.
    pub fn scan_tick(&mut self, observations: Vec<Observation>) -> (r: Vec<ConfigFileChange>)
        requires
            old(self).wf(),
            spec_obs_paths_unique(observations@),
        ensures
            final(self).wf(),
            r@.map_values(|c: ConfigFileChange| c.repr()) == spec_scan_events(
                old(self).cache_view(),
                observations@,
            ),
            forall|j: int|
                0 <= j < observations@.len() ==> #[trigger] spec_cache_updated_for(
                    final(self).cache_view(),
                    old(self).cache_view(),
                    observations@[j],
                ),
            forall|q: Seq<char>|
                !spec_observed(observations@, q) ==> #[trigger] spec_metadata_lookup(
                    final(self).cache_view(),
                    q,
                ) == spec_metadata_lookup(old(self).cache_view(), q),
            spec_any_failed(observations@) ==> final(self).error_count() as int == (if old(
                self,
            ).error_count() < u32::MAX {
                old(self).error_count() + 1
            } else {
                old(self).error_count() as int
            }),
            !spec_any_failed(observations@) ==> final(self).error_count() == 0,
            final(self).running() == (old(self).running() && !(spec_any_failed(observations@)
                && final(self).error_count() >= old(self).max_errors())),
            final(self).files_view() == old(self).files_view(),
            final(self).interval() == old(self).interval(),
            final(self).max_errors() == old(self).max_errors(),
            final(self).cache_limit() == old(self).cache_limit(),
    {
        let ghost snapshot = self.file_metadata@;
        let n = observations.len();
        let mut changes: Vec<ConfigFileChange> = Vec::new();
        let mut any_failed = false;
        let mut i: usize = 0;
        while i < n
            invariant
                n == observations@.len(),
                *self == *old(self),
                snapshot == self.cache_view(),
                i <= n,
                changes@.map_values(|c: ConfigFileChange| c.repr()) == spec_scan_events(
                    snapshot,
                    observations@.take(i as int),
                ),
                any_failed == spec_any_failed(observations@.take(i as int)),
            decreases n - i,
        {
            let ob = &observations[i];
            proof {
                assert(observations@.take(i as int + 1).drop_last() =~= observations@.take(
                    i as int,
                ));
                assert(observations@.take(i as int + 1).last() == observations@[i as int]);
                if observations@[i as int].outcome is Failed {
                    assert(observations@.take(i as int + 1)[i as int] == observations@[i as int]);
                    assert(spec_any_failed(observations@.take(i as int + 1)));
                } else {
                    assert(spec_any_failed(observations@.take(i as int + 1)) == spec_any_failed(
                        observations@.take(i as int),
                    )) by {
                        let before = observations@.take(i as int);
                        let upto = observations@.take(i as int + 1);
                        if spec_any_failed(before) {
                            let w = choose|w: int|
                                0 <= w < before.len() && (#[trigger] before[w]).outcome is Failed;
                            assert(upto[w] == before[w]);
                            assert(spec_any_failed(upto));
                        }
                        if spec_any_failed(upto) {
                            let w = choose|w: int|
                                0 <= w < upto.len() && (#[trigger] upto[w]).outcome is Failed;
                            if w < i {
                                assert(before[w] == upto[w]);
                                assert(spec_any_failed(before));
                            } else {
                                assert(upto[w] == observations@[i as int]);
                            }
                        }
                    }
                }
            }
            let known = metadata_find_index(&self.file_metadata, ob.path.as_str());
            let event: Option<ChangeType> = match &ob.outcome {
                ProbeOutcome::Missing => {
                    match known {
                        Some(_) => Some(ChangeType::Deleted),
                        None => None,
                    }
                },
                ProbeOutcome::Present(m) => {
                    match known {
                        None => Some(ChangeType::Created),
                        Some(k) => {
                            let cached = self.file_metadata[k].1;
                            if compare_metadata(&cached, m) {
                                Some(ChangeType::Modified)
                            } else {
                                None
                            }
                        },
                    }
                },
                ProbeOutcome::Failed => {
                    any_failed = true;
                    None
                },
            };
            match event {
                Some(change_type) => {
                    let ghost pre = changes@;
                    changes.push(
                        ConfigFileChange { file_path: ob.path.clone(), change_type },
                    );
                    proof {
                        assert(changes@.map_values(|c: ConfigFileChange| c.repr()) =~= pre
                            .map_values(|c: ConfigFileChange| c.repr()).push(
                            changes@.last().repr(),
                        ));
                    }
                },
                None => {},
            }
            i = i + 1;
        }
        proof {
            assert(observations@.take(n as int) =~= observations@);
        }
        let mut k: usize = 0;
        while k < n
            invariant
                n == observations@.len(),
                self.wf(),
                spec_obs_paths_unique(observations@),
                snapshot == old(self).cache_view(),
                k <= n,
                self.files_view() == old(self).files_view(),
                self.interval() == old(self).interval(),
                self.running() == old(self).running(),
                self.error_count() == old(self).error_count(),
                self.max_errors() == old(self).max_errors(),
                self.cache_limit() == old(self).cache_limit(),
                forall|j: int|
                    0 <= j < k ==> #[trigger] spec_cache_updated_for(
                        self.cache_view(),
                        snapshot,
                        observations@[j],
                    ),
                forall|q: Seq<char>|
                    !spec_observed(observations@.take(k as int), q) ==> #[trigger]
                    spec_metadata_lookup(self.cache_view(), q) == spec_metadata_lookup(snapshot, q),
            decreases n - k,
        {
            let ob = &observations[k];
            let ghost cur_pre = self.file_metadata@;
            proof {
                assert(cur_pre == self.cache_view());
                assert(!spec_observed(observations@.take(k as int), observations@[k as int].path@))
                    by {
                    let taken = observations@.take(k as int);
                    if spec_observed(taken, observations@[k as int].path@) {
                        let w = choose|w: int|
                            0 <= w < taken.len() && (#[trigger] taken[w]).path@
                                == observations@[k as int].path@;
                        assert(taken[w] == observations@[w]);
                        assert(observations@[w].path@ != observations@[k as int].path@);
                    }
                }
                assert forall|j: int|
                    0 <= j < k implies (#[trigger] observations@[j]).path@ != observations@[k
                    as int].path@ by {
                }
            }
            match &ob.outcome {
                ProbeOutcome::Missing => {
                    self.remove_metadata(ob.path.as_str());
                },
                ProbeOutcome::Present(m) => {
                    match metadata_find_index(&self.file_metadata, ob.path.as_str()) {
                        None => {
                            self.upsert_metadata(ob.path.as_str(), *m);
                        },
                        Some(idx) => {
                            let cached = self.file_metadata[idx].1;
                            if compare_metadata(&cached, m) {
                                self.upsert_metadata(ob.path.as_str(), *m);
                            }
                        },
                    }
                },
                ProbeOutcome::Failed => {},
            }
            proof {
                let path_k = observations@[k as int].path@;
                assert(spec_metadata_lookup(cur_pre, path_k) == spec_metadata_lookup(
                    snapshot,
                    path_k,
                ));
                assert forall|j: int|
                    0 <= j < k as int + 1 implies #[trigger] spec_cache_updated_for(
                    self.cache_view(),
                    snapshot,
                    observations@[j],
                ) by {
                    if j == k as int {
                        if spec_metadata_lookup(snapshot, path_k) is Some {
                            lemma_assoc_found(snapshot, metadata_key(), path_k);
                        }
                    } else {
                        assert(spec_cache_updated_for(cur_pre, snapshot, observations@[j]));
                        assert(observations@[j].path@ != path_k);
                        assert(spec_metadata_lookup(self.cache_view(), observations@[j].path@)
                            == spec_metadata_lookup(cur_pre, observations@[j].path@));
                    }
                }
                assert forall|q: Seq<char>|
                    !spec_observed(observations@.take(k as int + 1), q) implies #[trigger]
                    spec_metadata_lookup(self.cache_view(), q) == spec_metadata_lookup(
                    snapshot,
                    q,
                ) by {
                    let upto = observations@.take(k as int + 1);
                    assert(upto[k as int] == observations@[k as int]);
                    assert(q != observations@[k as int].path@);
                    assert(!spec_observed(observations@.take(k as int), q)) by {
                        let taken = observations@.take(k as int);
                        if spec_observed(taken, q) {
                            let w = choose|w: int|
                                0 <= w < taken.len() && (#[trigger] taken[w]).path@ == q;
                            assert(upto[w] == taken[w]);
                            assert(spec_observed(upto, q));
                        }
                    }
                }
            }
            k = k + 1;
        }
        proof {
            assert(observations@.take(n as int) =~= observations@);
        }
        if any_failed {
            if self.scan_error_count < u32::MAX {
                self.scan_error_count = self.scan_error_count + 1;
            }
            if self.scan_error_count >= self.max_scan_errors {
                self.is_running = false;
            }
        } else {
            self.scan_error_count = 0;
        }
        changes
    }

    /// The backoff to sleep before the next tick, per the consecutive
    /// failure count.
    pub fn backoff_secs(&self) -> (r: u64)
        ensures
            r == spec_backoff_secs(self.error_count()),
    {
        if self.scan_error_count == 0 {
            0
        } else if self.scan_error_count == 1 {
            30
        } else if self.scan_error_count == 2 {
            60
        } else if self.scan_error_count == 3 {
            120
        } else if self.scan_error_count == 4 {
            240
        } else {
            300
        }
    }

    /// Mark the monitor running and reset the failure count; the
    /// caller owns the timer loop that then feeds `scan_tick`.
    pub fn start_monitoring(&mut self) -> (r: AppResult<()>)
        requires
            old(self).wf(),
        ensures
            final(self).wf(),
            r is Ok,
            final(self).running(),
            final(self).error_count() == 0,
            final(self).files_view() == old(self).files_view(),
            final(self).cache_view() == old(self).cache_view(),
            final(self).interval() == old(self).interval(),
            final(self).max_errors() == old(self).max_errors(),
            final(self).cache_limit() == old(self).cache_limit(),
    {
        self.scan_error_count = 0;
        self.is_running = true;
        Ok(())
    }

    /// Ask the poll loop to stop at its next tick, and prune the cache.
    pub fn stop_monitoring(&mut self)
        requires
            old(self).wf(),
        ensures
            final(self).wf(),
            !final(self).running(),
            final(self).cache_view() == spec_optimized(
                old(self).cache_view(),
                old(self).files_view(),
                old(self).cache_limit() as nat,
            ),
            final(self).files_view() == old(self).files_view(),
            final(self).interval() == old(self).interval(),
            final(self).error_count() == old(self).error_count(),
            final(self).max_errors() == old(self).max_errors(),
            final(self).cache_limit() == old(self).cache_limit(),
    {
        self.is_running = false;
        self.optimize_metadata_cache();
    }

    /// Prune cache entries for paths no longer watched, once the cache
    /// has outgrown its limit.
    fn optimize_metadata_cache(&mut self)
        requires
            old(self).wf(),
        ensures
            final(self).wf(),
            final(self).cache_view() == spec_optimized(
                old(self).cache_view(),
                old(self).files_view(),
                old(self).cache_limit() as nat,
            ),
            final(self).files_view() == old(self).files_view(),
            final(self).interval() == old(self).interval(),
            final(self).running() == old(self).running(),
            final(self).error_count() == old(self).error_count(),
            final(self).max_errors() == old(self).max_errors(),
            final(self).cache_limit() == old(self).cache_limit(),
    {
        if self.file_metadata.len() <= self.max_cache_size {
            return ;
        }
        let ghost pre = self.file_metadata@;
        let n = self.file_metadata.len();
        let mut kept: Vec<(String, FileMetadata)> = Vec::new();
        let mut i: usize = 0;
        while i < n
            invariant
                n == pre.len(),
                pre == self.cache_view(),
                *self == *old(self),
                i <= n,
                kept@ == spec_retain_watched(pre.take(i as int), old(self).files_view()),
            decreases n - i,
        {
            proof {
                assert(pre.take(i as int + 1).drop_last() =~= pre.take(i as int));
                assert(pre.take(i as int + 1).last() == pre[i as int]);
            }
            let entry = &self.file_metadata[i];
            if self.path_is_watched(entry.0.as_str()) {
                let ghost prev_kept = kept@;
                kept.push((entry.0.clone(), entry.1));
                proof {
                    assert(kept@ =~= prev_kept.push(pre[i as int]));
                }
            }
            i = i + 1;
        }
        proof {
            assert(pre.take(n as int) =~= pre);
            lemma_retain_watched_unique(pre, old(self).files_view());
        }
        self.file_metadata = kept;
    }

    /// Drop every cached fingerprint and reset the failure count.
    pub fn clear_cache(&mut self)
        requires
            old(self).wf(),
        ensures
            final(self).wf(),
            final(self).cache_view() == Seq::<(String, FileMetadata)>::empty(),
            final(self).error_count() == 0,
            final(self).files_view() == old(self).files_view(),
            final(self).interval() == old(self).interval(),
            final(self).running() == old(self).running(),
            final(self).max_errors() == old(self).max_errors(),
            final(self).cache_limit() == old(self).cache_limit(),
    {
        self.file_metadata.clear();
        self.scan_error_count = 0;
    }

    /// Prune the cache without stopping.
    pub fn force_optimize_cache(&mut self)
        requires
            old(self).wf(),
        ensures
            final(self).wf(),
            final(self).cache_view() == spec_optimized(
                old(self).cache_view(),
                old(self).files_view(),
                old(self).cache_limit() as nat,
            ),
            final(self).files_view() == old(self).files_view(),
            final(self).interval() == old(self).interval(),
            final(self).running() == old(self).running(),
            final(self).error_count() == old(self).error_count(),
            final(self).max_errors() == old(self).max_errors(),
            final(self).cache_limit() == old(self).cache_limit(),
    {
        self.optimize_metadata_cache();
    }

    /// A snapshot of the monitor's state.
    pub fn get_monitoring_stats(&self) -> (r: MonitoringStats)
        ensures
            r.monitored_files_count == self.files_view().len(),
            r.cached_metadata_count == self.cache_view().len(),
            r.current_error_count == self.error_count(),
            r.is_running == self.running(),
            r.interval_minutes == self.interval(),
            r.cache_size_limit == self.cache_limit(),
            r.max_scan_errors == self.max_errors(),
    {
        MonitoringStats {
            monitored_files_count: self.monitored_files.len(),
            cached_metadata_count: self.file_metadata.len(),
            current_error_count: self.scan_error_count,
            is_running: self.is_running,
            interval_minutes: self.monitor_interval_minutes,
            cache_size_limit: self.max_cache_size,
            max_scan_errors: self.max_scan_errors,
        }
    }

    /// Whether the poll loop should keep ticking.
    pub fn is_monitoring(&self) -> (r: bool)
        ensures
            r == self.running(),
    {
        self.is_running
    }

    /// The poll interval in minutes.
    pub fn get_monitor_interval(&self) -> (r: u64)
        ensures
            r == self.interval(),
    {
        self.monitor_interval_minutes
    }

    /// The watched paths, in the order they were added.
    pub fn get_monitored_files(&self) -> (r: &Vec<String>)
        ensures
            r@ == self.files_view(),
    {
        &self.monitored_files
    }

    /// Forget every watched path and every cached fingerprint.
    pub fn clear_monitored_files(&mut self)
        requires
            old(self).wf(),
        ensures
            final(self).wf(),
            final(self).files_view() == Seq::<String>::empty(),
            final(self).cache_view() == Seq::<(String, FileMetadata)>::empty(),
            final(self).interval() == old(self).interval(),
            final(self).running() == old(self).running(),
            final(self).error_count() == old(self).error_count(),
            final(self).max_errors() == old(self).max_errors(),
            final(self).cache_limit() == old(self).cache_limit(),
    {
        self.monitored_files.clear();
        self.file_metadata.clear();
    }
}

/// The backoff between failing ticks never exceeds its five-minute
/// ceiling, and a clean run sleeps nothing extra.
pub proof fn lemma_backoff_capped(errors: u32)
    ensures
        spec_backoff_secs(errors) <= 300,
        errors == 0 ==> spec_backoff_secs(errors) == 0,
{
}

/// Retaining a subsequence keeps keys unique.
proof fn lemma_retain_watched_unique(cache: Seq<(String, FileMetadata)>, files: Seq<String>)
    requires
        assoc_unique(cache, metadata_key()),
    ensures
        assoc_unique(spec_retain_watched(cache, files), metadata_key()),
    decreases cache.len(),
{
    if cache.len() > 0 {
        lemma_retain_watched_unique(cache.drop_last(), files);
        let front = spec_retain_watched(cache.drop_last(), files);
        lemma_retain_watched_membership(cache.drop_last(), files);
        if spec_has_path(files, cache.last().0@) {
            let whole = front.push(cache.last());
            assert forall|a: int, b: int|
                0 <= a < b < whole.len() implies #[trigger] metadata_key()(whole[a])
                != #[trigger] metadata_key()(whole[b]) by {
                if b == front.len() {
                    assert(whole[b] == cache.last());
                    let w = choose|w: int|
                        0 <= w < cache.drop_last().len() && cache.drop_last()[w] == front[a];
                    assert(cache[w] == front[a]);
                    assert(metadata_key()(cache[w]) != metadata_key()(
                        cache[cache.len() - 1],
                    ));
                } else {
                    assert(whole[a] == front[a] && whole[b] == front[b]);
                }
            }
        }
    }
}

/// Every retained entry comes from the cache.
proof fn lemma_retain_watched_membership(cache: Seq<(String, FileMetadata)>, files: Seq<String>)
    ensures
        forall|a: int|
            0 <= a < spec_retain_watched(cache, files).len() ==> exists|w: int|
                0 <= w < cache.len() && cache[w] == #[trigger] spec_retain_watched(
                    cache,
                    files,
                )[a],
    decreases cache.len(),
{
    if cache.len() > 0 {
        lemma_retain_watched_membership(cache.drop_last(), files);
        let front = spec_retain_watched(cache.drop_last(), files);
        let whole = spec_retain_watched(cache, files);
        assert forall|a: int|
            0 <= a < whole.len() implies exists|w: int|
            0 <= w < cache.len() && cache[w] == #[trigger] whole[a] by {
            if a < front.len() {
                assert(whole[a] == front[a]);
                let w = choose|w: int|
                    0 <= w < cache.drop_last().len() && cache.drop_last()[w] == front[a];
                assert(cache[w] == whole[a]);
            } else {
                assert(whole[a] == cache.last());
                assert(cache[cache.len() - 1] == whole[a]);
            }
        }
    }
}

/// The index of the first cache entry for a path, as
/// `spec_metadata_lookup`.
fn metadata_find_index(entries: &Vec<(String, FileMetadata)>, path: &str) -> (r: Option<usize>)
    ensures
        match r {
            Some(i) => i < entries@.len() && entries@[i as int].0@ == path@
                && spec_metadata_lookup(entries@, path@) == Some(entries@[i as int]) && (forall|
                j: int,
            |
                0 <= j < i ==> #[trigger] entries@[j].0@ != path@),
            None => spec_metadata_lookup(entries@, path@) is None,
        },
{
    let n = entries.len();
    let mut i: usize = 0;
    proof {
        assert(entries@.skip(0) =~= entries@);
    }
    while i < n
        invariant
            n == entries@.len(),
            i <= n,
            spec_metadata_lookup(entries@, path@) == assoc_lookup(
                entries@.skip(i as int),
                metadata_key(),
                path@,
            ),
            forall|j: int| 0 <= j < i ==> #[trigger] entries@[j].0@ != path@,
        decreases n - i,
    {
        proof {
            assert(entries@.skip(i as int).first() == entries@[i as int]);
            assert(entries@.skip(i as int).drop_first() =~= entries@.skip(i as int + 1));
        }
        if crate::text::str_eq(entries[i].0.as_str(), path) {
            return Some(i);
        }
        i = i + 1;
    }
    proof {
        assert(entries@.skip(n as int) =~= Seq::<(String, FileMetadata)>::empty());
    }
    None
}

} // verus!
