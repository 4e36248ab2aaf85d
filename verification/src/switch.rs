//! The atomic switch protocol: validate, back up, write a sibling temp
//! file, verify it, rename it over the live settings, verify again —
//! and on any failure after the backup, restore from it.
//!
//! The transaction here decides every step; the caller performs the
//! file operations and reports each outcome.  The live settings file is
//! never mutated before a backup exists, a verification mismatch is a
//! distinct corruption error, and a failed restore is a distinct fatal
//! error that is never retried.

use vstd::prelude::*;
use vstd::multiset::Multiset;
use vstd::seq_lib::lemma_multiset_commutative;
use vstd::string::*;

use crate::errors::{AppError, AppResult};
use crate::json::{json_ok, json_sem};
use crate::text::{spec_dec_str, u64_to_string};

verus! {

/// How many backup files are retained after a successful switch.
pub const BACKUPS_KEPT: usize = 5;

/// Where a switch transaction stands.
#[derive(Debug, Clone, Copy, PartialEq, Eq, Structural)]
pub enum SwitchPhase {
    /// The plan is validated; nothing on disk has been touched.
    Validated,
    /// The live file exists and its directory accepts writes.
    PreflightDone,
    /// A backup of the live settings exists.
    BackedUp,
    /// The intended content has been written to the temp file.
    TempWritten,
    /// The temp file read back byte-identical to the intended content.
    TempVerified,
    /// The temp file has been renamed over the live settings.
    Renamed,
    /// The live file read back byte-identical: the switch is done.
    Committed,
    /// A step failed after the backup; the backup must be restored.
    RollingBack,
    /// The backup was restored; the switch failed cleanly.
    RolledBack,
    /// Restoring the backup failed: user intervention is required.
    FatallyInconsistent,
    /// A step failed before anything was mutated; nothing to restore.
    Aborted,
}

/// The file operation the caller must perform next.
#[derive(Debug, Clone, Copy, PartialEq, Eq, Structural)]
pub enum SwitchStep {
    /// Check that the live settings file exists and its directory is
    /// writable (a throwaway write-then-delete).
    CheckPreflight,
    /// Copy the live settings file to the backup path.
    CreateBackup,
    /// Write the intended content to the sibling temp file.
    WriteTempFile,
    /// Read the temp file back and report its content.
    ReadBackTemp,
    /// Atomically rename the temp file over the live settings file.
    RenameTempOverLive,
    /// Read the live settings file back and report its content.
    ReadBackLive,
    /// Copy the backup back over the live settings file.
    RestoreBackup,
    /// The transaction is finished; collect the result.
    Done,
}

/// What the caller observed performing a step.
#[derive(Debug)]
pub enum StepOutcome {
    Succeeded,
    ReadContent(String),
    Failed(String),
}

/// The step each phase asks for.
pub open spec fn spec_next_step(phase: SwitchPhase) -> SwitchStep {
    match phase {
        SwitchPhase::Validated => SwitchStep::CheckPreflight,
        SwitchPhase::PreflightDone => SwitchStep::CreateBackup,
        SwitchPhase::BackedUp => SwitchStep::WriteTempFile,
        SwitchPhase::TempWritten => SwitchStep::ReadBackTemp,
        SwitchPhase::TempVerified => SwitchStep::RenameTempOverLive,
        SwitchPhase::Renamed => SwitchStep::ReadBackLive,
        SwitchPhase::RollingBack => SwitchStep::RestoreBackup,
        SwitchPhase::Committed => SwitchStep::Done,
        SwitchPhase::RolledBack => SwitchStep::Done,
        SwitchPhase::FatallyInconsistent => SwitchStep::Done,
        SwitchPhase::Aborted => SwitchStep::Done,
    }
}

/// Phases in which the transaction is finished.
pub open spec fn spec_terminal(phase: SwitchPhase) -> bool {
    ||| phase is Committed
    ||| phase is RolledBack
    ||| phase is FatallyInconsistent
    ||| phase is Aborted
}

/// A switch in flight: the content to install, the phase reached, and
/// the failure recorded so far.
pub struct SwitchTransaction {
    intended: String,
    phase: SwitchPhase,
    failure: Option<AppError>,
}

impl SwitchTransaction {
    /// The content this transaction installs.
    pub closed spec fn intended_view(self) -> Seq<char> {
        self.intended@
    }

    /// The phase reached.
    pub closed spec fn phase(self) -> SwitchPhase {
        self.phase
    }

    /// The failure recorded, if any.
    pub closed spec fn failure_opt(self) -> Option<AppError> {
        self.failure
    }

    /// A failure is recorded exactly in the phases that one produced.
    pub open spec fn wf(self) -> bool {
        &&& (self.phase() is RollingBack || self.phase() is RolledBack || self.phase() is Aborted
            || self.phase() is FatallyInconsistent) <==> self.failure_opt() is Some
        &&& (self.phase() is FatallyInconsistent ==> self.failure_opt()->Some_0 is RollbackFailed)
    }

    /// Open a transaction for a validated plan's normalized content.
    pub fn start(intended_content: String) -> (r: Self)
        ensures
            r.wf(),
            r.phase() == SwitchPhase::Validated,
            r.intended_view() == intended_content@,
            r.failure_opt() is None,
    {
        SwitchTransaction {
            intended: intended_content,
            phase: SwitchPhase::Validated,
            failure: None,
        }
    }

    /// The intended content, for the caller to write.
    pub fn intended_content(&self) -> (r: &str)
        ensures
            r@ == self.intended_view(),
    {
        self.intended.as_str()
    }

    /// The file operation to perform next.
    pub fn next_step(&self) -> (r: SwitchStep)
        ensures
            r == spec_next_step(self.phase()),
    {
        match self.phase {
            SwitchPhase::Validated => SwitchStep::CheckPreflight,
            SwitchPhase::PreflightDone => SwitchStep::CreateBackup,
            SwitchPhase::BackedUp => SwitchStep::WriteTempFile,
            SwitchPhase::TempWritten => SwitchStep::ReadBackTemp,
            SwitchPhase::TempVerified => SwitchStep::RenameTempOverLive,
            SwitchPhase::Renamed => SwitchStep::ReadBackLive,
            SwitchPhase::RollingBack => SwitchStep::RestoreBackup,
            SwitchPhase::Committed => SwitchStep::Done,
            SwitchPhase::RolledBack => SwitchStep::Done,
            SwitchPhase::FatallyInconsistent => SwitchStep::Done,
            SwitchPhase::Aborted => SwitchStep::Done,
        }
    }

    /// Advance the transaction with the outcome of the step it asked
    /// for.  Failures before the backup abort with nothing to restore;
    /// failures after it — a failed write, a failed or mismatching
    /// read-back, a failed rename — turn to a rollback; a verification
    /// mismatch is recorded as corruption; a failed restore is fatal.
    /// A content report belongs only to the two read-back steps, and
    /// those two steps report either content or a failure.
    pub fn apply(&mut self, outcome: StepOutcome)
        requires
            old(self).wf(),
            !spec_terminal(old(self).phase()),
            outcome is ReadContent ==> (old(self).phase() is TempWritten || old(self).phase()
                is Renamed),
            (old(self).phase() is TempWritten || old(self).phase() is Renamed) ==> !(outcome
                is Succeeded),
        ensures
            final(self).wf(),
            final(self).intended_view() == old(self).intended_view(),
            old(self).phase() is Validated ==> match outcome {
                StepOutcome::Succeeded => final(self).phase() == SwitchPhase::PreflightDone
                    && final(self).failure_opt() is None,
                _ => final(self).phase() == SwitchPhase::Aborted && final(self).failure_opt()
                    is Some && final(self).failure_opt()->Some_0 is FileSystemError,
            },
            old(self).phase() is PreflightDone ==> match outcome {
                StepOutcome::Succeeded => final(self).phase() == SwitchPhase::BackedUp && final(self).failure_opt() is None,
                _ => final(self).phase() == SwitchPhase::Aborted && final(self).failure_opt()
                    is Some && final(self).failure_opt()->Some_0 is FileSystemError,
            },
            old(self).phase() is BackedUp ==> match outcome {
                StepOutcome::Succeeded => final(self).phase() == SwitchPhase::TempWritten && final(self).failure_opt() is None,
                _ => final(self).phase() == SwitchPhase::RollingBack && final(self).failure_opt()
                    is Some && final(self).failure_opt()->Some_0 is FileSystemError,
            },
            old(self).phase() is TempWritten ==> match outcome {
                StepOutcome::ReadContent(c) => {
                    if c@ == old(self).intended_view() {
                        final(self).phase() == SwitchPhase::TempVerified && final(self).failure_opt() is None
                    } else {
                        final(self).phase() == SwitchPhase::RollingBack && final(self).failure_opt() is Some && final(self).failure_opt()->Some_0
                            is CorruptionDetected
                    }
                },
                _ => final(self).phase() == SwitchPhase::RollingBack && final(self).failure_opt()
                    is Some && final(self).failure_opt()->Some_0 is FileSystemError,
            },
            old(self).phase() is TempVerified ==> match outcome {
                StepOutcome::Succeeded => final(self).phase() == SwitchPhase::Renamed && final(self).failure_opt() is None,
                _ => final(self).phase() == SwitchPhase::RollingBack && final(self).failure_opt()
                    is Some && final(self).failure_opt()->Some_0 is FileSystemError,
            },
            old(self).phase() is Renamed ==> match outcome {
                StepOutcome::ReadContent(c) => {
                    if c@ == old(self).intended_view() {
                        final(self).phase() == SwitchPhase::Committed && final(self).failure_opt()
                            is None
                    } else {
                        final(self).phase() == SwitchPhase::RollingBack && final(self).failure_opt() is Some && final(self).failure_opt()->Some_0
                            is CorruptionDetected
                    }
                },
                _ => final(self).phase() == SwitchPhase::RollingBack && final(self).failure_opt()
                    is Some && final(self).failure_opt()->Some_0 is FileSystemError,
            },
            old(self).phase() is RollingBack ==> match outcome {
                StepOutcome::Succeeded => final(self).phase() == SwitchPhase::RolledBack && final(self).failure_opt() == old(self).failure_opt(),
                _ => final(self).phase() == SwitchPhase::FatallyInconsistent && final(self).failure_opt() is Some && final(self).failure_opt()->Some_0 is RollbackFailed,
            },
    {
        match outcome {
            StepOutcome::Succeeded => {
                match self.phase {
                    SwitchPhase::Validated => {
                        self.phase = SwitchPhase::PreflightDone;
                    },
                    SwitchPhase::PreflightDone => {
                        self.phase = SwitchPhase::BackedUp;
                    },
                    SwitchPhase::BackedUp => {
                        self.phase = SwitchPhase::TempWritten;
                    },
                    SwitchPhase::TempVerified => {
                        self.phase = SwitchPhase::Renamed;
                    },
                    SwitchPhase::RollingBack => {
                        self.phase = SwitchPhase::RolledBack;
                    },
                    _ => {
                        self.phase = SwitchPhase::RolledBack;
                    },
                }
            },
            StepOutcome::ReadContent(content) => {
                let verified = crate::text::str_eq(content.as_str(), self.intended.as_str());
                match self.phase {
                    SwitchPhase::TempWritten => {
                        if verified {
                            self.phase = SwitchPhase::TempVerified;
                        } else {
                            self.phase = SwitchPhase::RollingBack;
                            self.failure = Some(
                                AppError::CorruptionDetected(
                                    String::from_str(
                                        "temp file verification failed before rename",
                                    ),
                                ),
                            );
                        }
                    },
                    _ => {
                        if verified {
                            self.phase = SwitchPhase::Committed;
                        } else {
                            self.phase = SwitchPhase::RollingBack;
                            self.failure = Some(
                                AppError::CorruptionDetected(
                                    String::from_str("final file verification failed after rename"),
                                ),
                            );
                        }
                    },
                }
            },
            StepOutcome::Failed(message) => {
                match self.phase {
                    SwitchPhase::Validated => {
                        self.phase = SwitchPhase::Aborted;
                        self.failure = Some(
                            AppError::FileSystemError(
                                String::from_str("preflight check failed: ").concat(
                                    message.as_str(),
                                ),
                            ),
                        );
                    },
                    SwitchPhase::PreflightDone => {
                        self.phase = SwitchPhase::Aborted;
                        self.failure = Some(
                            AppError::FileSystemError(
                                String::from_str("failed to create backup before switching: ")
                                    .concat(message.as_str()),
                            ),
                        );
                    },
                    SwitchPhase::RollingBack => {
                        let original = match &self.failure {
                            Some(e) => e.message(),
                            None => String::new(),
                        };
                        self.phase = SwitchPhase::FatallyInconsistent;
                        self.failure = Some(
                            AppError::RollbackFailed(
                                String::from_str("switch failed and restoring the backup failed; ")
                                    .concat(original.as_str()).concat("; ").concat(
                                    message.as_str(),
                                ),
                            ),
                        );
                    },
                    _ => {
                        self.phase = SwitchPhase::RollingBack;
                        self.failure = Some(
                            AppError::FileSystemError(
                                String::from_str("switch step failed: ").concat(message.as_str()),
                            ),
                        );
                    },
                }
            },
        }
    }

    /// The outcome of a finished transaction: success only for a
    /// committed switch, else the recorded failure.
    pub fn result(&self) -> (r: AppResult<()>)
        requires
            self.wf(),
            spec_terminal(self.phase()),
        ensures
            r is Ok <==> self.phase() is Committed,
            !(self.phase() is Committed) ==> r == Err::<(), AppError>(
                self.failure_opt()->Some_0,
            ),
    {
        match self.phase {
            SwitchPhase::Committed => Ok(()),
            _ => {
                match &self.failure {
                    Some(e) => Err(clone_app_error(e)),
                    None => Err(AppError::FileSystemError(String::from_str("switch failed"))),
                }
            },
        }
    }
}

/// A field-for-field copy of an error.
fn clone_app_error(e: &AppError) -> (r: AppError)
    ensures
        r == *e,
{
    match e {
        AppError::ClaudeNotFound => AppError::ClaudeNotFound,
        AppError::ConfigError(s) => AppError::ConfigError(s.clone()),
        AppError::FileSystemError(s) => AppError::FileSystemError(s.clone()),
        AppError::SettingsError(s) => AppError::SettingsError(s.clone()),
        AppError::MonitorError(s) => AppError::MonitorError(s.clone()),
        AppError::I18nError(s) => AppError::I18nError(s.clone()),
        AppError::CorruptionDetected(s) => AppError::CorruptionDetected(s.clone()),
        AppError::RollbackFailed(s) => AppError::RollbackFailed(s.clone()),
    }
}

/// The live settings file is only mutated by the write, rename and
/// restore steps, and those are only ever asked for from phases the
/// backup precedes: nothing is written before the backup exists.
pub proof fn lemma_no_mutation_before_backup(phase: SwitchPhase)
    ensures
        (spec_next_step(phase) == SwitchStep::WriteTempFile || spec_next_step(phase)
            == SwitchStep::RenameTempOverLive || spec_next_step(phase)
            == SwitchStep::RestoreBackup) ==> (phase is BackedUp || phase is TempVerified || phase
            is RollingBack),
{
}

/// Round trip: a committed switch leaves the live settings holding the
/// canonical form of the profile's content, so re-reading and parsing
/// the live file yields a value deep-equal to the profile's parsed
/// content.  `normalized` is what the plan carried (the canonical form
/// of the profile content), and a transaction commits only after the
/// live file read back equal to it.  The conclusion equates the
/// canonical forms as texts, which is stronger than deep equality:
/// parsing a canonical form reconstructs its value exactly.
pub proof fn lemma_switch_round_trip(
    profile_content: Seq<char>,
    normalized: Seq<char>,
    live_after: Seq<char>,
)
    requires
        json_ok(profile_content),
        normalized == json_sem(profile_content),
        json_ok(normalized),
        json_sem(normalized) == json_sem(profile_content),
        live_after == normalized,
    ensures
        json_ok(live_after),
        json_sem(live_after) == json_sem(profile_content),
{
}

/// Backups are ordered newest first.
pub open spec fn spec_sorted_desc(s: Seq<(String, u64)>) -> bool {
    forall|i: int, j: int| 0 <= i < j < s.len() ==> #[trigger] s[i].1 >= #[trigger] s[j].1
}

/// The sibling backup path for the live settings at a Unix timestamp.
pub fn backup_path_for(settings_path: &str, timestamp: u64) -> (r: String)
    ensures
        r@ == settings_path@ + ".backup."@ + spec_dec_str(timestamp as nat),
{
    settings_path.to_owned().concat(".backup.").concat(u64_to_string(timestamp).as_str())
}

/// The prefix every backup of the live settings file starts with.
pub fn backup_prefix_for(settings_path: &str) -> (r: String)
    ensures
        r@ == settings_path@ + ".backup."@,
{
    settings_path.to_owned().concat(".backup.")
}

/// The sibling temp path the switch writes before the rename.
pub fn temp_path_for(settings_path: &str) -> (r: String)
    ensures
        r@ == settings_path@ + ".tmp"@,
{
    settings_path.to_owned().concat(".tmp")
}

/// The sibling temp path a restore copies the backup to.
pub fn restore_temp_path_for(settings_path: &str) -> (r: String)
    ensures
        r@ == settings_path@ + ".restore_tmp"@,
{
    settings_path.to_owned().concat(".restore_tmp")
}

/// Insert a backup into a list sorted newest first, keeping it sorted.
fn insert_sorted(sorted: &mut Vec<(String, u64)>, item: (String, u64))
    requires
        spec_sorted_desc(old(sorted)@),
    ensures
        spec_sorted_desc(final(sorted)@),
        final(sorted)@.to_multiset() == old(sorted)@.to_multiset().insert(item),
        final(sorted)@.len() == old(sorted)@.len() + 1,
{
    let n = sorted.len();
    let mut i: usize = 0;
    while i < n && sorted[i].1 >= item.1
        invariant
            n == sorted@.len(),
            *sorted == *old(sorted),
            i <= n,
            forall|j: int| 0 <= j < i ==> #[trigger] sorted@[j].1 >= item.1,
        decreases n - i,
    {
        i = i + 1;
    }
    let ghost pre = sorted@;
    sorted.insert(i, item);
    proof {
        let s = sorted@;
        assert(s == pre.insert(i as int, item));
        assert forall|a: int, b: int| 0 <= a < b < s.len() implies #[trigger] s[a].1
            >= #[trigger] s[b].1 by {
            if b < i {
                assert(s[a] == pre[a] && s[b] == pre[b]);
            } else if b == i {
                assert(s[a] == pre[a] && s[b] == item);
            } else {
                assert(s[b] == pre[b - 1]);
                assert(i < n && pre[i as int].1 < item.1);
                if a == i {
                    assert(s[a] == item);
                    assert(pre[b - 1].1 <= pre[i as int].1);
                } else if a < i {
                    assert(s[a] == pre[a]);
                } else {
                    assert(s[a] == pre[a - 1]);
                }
            }
        }
        assert(pre.insert(i as int, item) =~= pre.take(i as int).push(item) + pre.skip(i as int));
        lemma_multiset_commutative(pre.take(i as int).push(item), pre.skip(i as int));
        lemma_multiset_commutative(pre.take(i as int), pre.skip(i as int));
        assert(pre.take(i as int) + pre.skip(i as int) =~= pre);
        broadcast use vstd::seq_lib::group_to_multiset_ensures;

        assert(pre.take(i as int).push(item).to_multiset() =~= pre.take(
            i as int,
        ).to_multiset().insert(item));
        assert(s.to_multiset() =~= pre.to_multiset().insert(item));
    }
}

/// Order backups newest first and split them: the first five (or all,
/// when there are no more) are kept, the rest are pruned.  Every kept
/// backup is at least as new as every pruned one, and nothing is lost
/// or invented.
pub fn split_backups(backups: Vec<(String, u64)>) -> (r: (Vec<(String, u64)>, Vec<(String, u64)>))
    ensures
        (r.0@ + r.1@).to_multiset() == backups@.to_multiset(),
        spec_sorted_desc(r.0@ + r.1@),
        r.0@.len() == (if backups@.len() <= 5 {
            backups@.len() as int
        } else {
            5
        }),
        r.0@.len() + r.1@.len() == backups@.len(),
        forall|a: int, b: int|
            0 <= a < r.0@.len() && 0 <= b < r.1@.len() ==> #[trigger] r.0@[a].1
                >= #[trigger] r.1@[b].1,
{
    let n = backups.len();
    let mut sorted: Vec<(String, u64)> = Vec::new();
    let mut i: usize = 0;
    proof {
        broadcast use vstd::seq_lib::group_to_multiset_ensures;

        assert(backups@.take(0) =~= Seq::<(String, u64)>::empty());
        assert(Seq::<(String, u64)>::empty().to_multiset() =~= Multiset::<(String, u64)>::empty());
    }
    while i < n
        invariant
            n == backups@.len(),
            i <= n,
            spec_sorted_desc(sorted@),
            sorted@.len() == i,
            sorted@.to_multiset() == backups@.take(i as int).to_multiset(),
        decreases n - i,
    {
        let entry = &backups[i];
        let item = (entry.0.clone(), entry.1);
        proof {
            broadcast use vstd::seq_lib::group_to_multiset_ensures;

            assert(item == backups@[i as int]);
            assert(backups@.take(i as int + 1) =~= backups@.take(i as int).push(
                backups@[i as int],
            ));
        }
        insert_sorted(&mut sorted, item);
        i = i + 1;
    }
    proof {
        assert(backups@.take(n as int) =~= backups@);
    }
    let keep_len = if n <= BACKUPS_KEPT {
        n
    } else {
        BACKUPS_KEPT
    };
    let ghost whole = sorted@;
    let prune = sorted.split_off(keep_len);
    proof {
        assert(sorted@ + prune@ =~= whole);
    }
    (sorted, prune)
}

} // verus!
