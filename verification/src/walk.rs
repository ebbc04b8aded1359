//! The decisions of a backup walk over one directory, as a state machine: the driver reports
//! what happened to the current directory entry, and the machine counts it and says what to
//! do next.

use vstd::prelude::*;
use crate::stats::{ComparisonEvent, Stats};

verus! {

/// What kind of file system object a directory entry is (without following symlinks).
#[derive(Debug, Clone, Copy, PartialEq, Eq)]
pub enum EntryKind {
    Directory,
    Symlink,
    Other,
}

/// Where the handling of the current directory entry stands.
#[derive(Debug, Clone, Copy, PartialEq, Eq)]
pub enum Phase {
    /// Waiting for the next entry of the directory.
    NextEntry,
    /// Waiting for the entry's file type.
    FileType,
    /// Waiting for what the entry's symlink points to.
    SymlinkTarget,
    /// Waiting to learn whether the file is an image.
    Image,
    /// Waiting for the database to say whether the image's content hash is known.
    Duplicate,
    /// Waiting for the image to be copied to the backup folder.
    Backup,
    /// Waiting for the image to be recorded in the database.
    Record,
    /// Waiting for the recorded image to be looked up again.
    Lookup,
}

/// What the driver observed.
#[derive(Debug, Clone, Copy, PartialEq, Eq)]
pub enum Event {
    EntryUnreadable,
    EntryRead,
    FileTypeUnknown,
    FileTypeRead(EntryKind),
    TargetIsDirectory,
    TargetIsFile,
    TargetUnreadable,
    NotAnImage,
    ImageOpened,
    AlreadyRecorded,
    NotYetRecorded,
    DuplicateCheckFailed,
    BackupFailed,
    BackedUp,
    RecordFailed,
    Recorded,
    LookupFound,
    LookupMissing,
    LookupFailed,
}

/// What the driver is to do next.
#[derive(Debug, Clone, Copy, PartialEq, Eq)]
pub enum Action {
    /// Read the next directory entry; stop when there is none.
    ReadEntry,
    /// Read the entry's file type.
    ReadFileType,
    /// Read what the entry's symlink points to.
    ReadSymlinkTarget,
    /// Walk the entry's directory, then read the next entry.
    Descend,
    /// Open the file as an image.
    OpenImage,
    /// Compute the content hash and ask the database whether it is known.
    CheckDuplicate,
    /// Compute the perceptual hash and copy the file to the backup folder.
    BackUp,
    /// Record the hashes and the backup file name in the database.
    Record,
    /// Look the recorded image up by its content hash.
    LookUpRecorded,
    /// Compare the looked-up image with the others, then read the next entry.
    CompareRecorded,
}

/// The phase that follows a step and the action that goes with it.
#[derive(Debug, Clone, Copy, PartialEq, Eq)]
pub struct Transition {
    pub phase: Phase,
    pub action: Action,
}

/// The message for a walk asked to start at something that is not a directory.
pub const NOT_A_DIRECTORY: &'static str = "Path provided is not a directory: ";

/// Checks where a walk starts: only a directory can be walked. `is_dir` says whether `path`
/// (followed through symlinks) is one; if not, the error message names the path.
pub fn check_walk_root(path: &str, is_dir: bool) -> (res: Result<(), String>)
    ensures
        match res {
            Ok(()) => is_dir,
            Err(message) => !is_dir && message@ == NOT_A_DIRECTORY@ + path@,
        },
{
    if is_dir {
        Ok(())
    } else {
        Err(String::from_str(NOT_A_DIRECTORY).concat(path))
    }
}

/// The entry is done with: read the next one.
pub open spec fn done_with_entry(stats: Stats) -> (Stats, Transition) {
    (stats, Transition { phase: Phase::NextEntry, action: Action::ReadEntry })
}

/// The step of the walk: for an event that fits the phase, the counters afterwards and the
/// transition; `None` for an event that does not fit.
pub open spec fn walk_step(s: Stats, phase: Phase, event: Event, compare_on_run: bool) -> Option<
    (Stats, Transition),
> {
    match (phase, event) {
        (Phase::NextEntry, Event::EntryUnreadable) => Some(
            done_with_entry(Stats { file_read_error: (s.file_read_error + 1) as u64, ..s }),
        ),
        (Phase::NextEntry, Event::EntryRead) => Some(
            (s, Transition { phase: Phase::FileType, action: Action::ReadFileType }),
        ),
        (Phase::FileType, Event::FileTypeUnknown) => Some(
            done_with_entry(Stats { file_read_error: (s.file_read_error + 1) as u64, ..s }),
        ),
        (Phase::FileType, Event::FileTypeRead(EntryKind::Directory)) => Some(
            (
                Stats { directories_found: (s.directories_found + 1) as u64, ..s },
                Transition { phase: Phase::NextEntry, action: Action::Descend },
            ),
        ),
        (Phase::FileType, Event::FileTypeRead(EntryKind::Symlink)) => Some(
            (s, Transition { phase: Phase::SymlinkTarget, action: Action::ReadSymlinkTarget }),
        ),
        (Phase::FileType, Event::FileTypeRead(EntryKind::Other)) => Some(
            (
                Stats { files_seen: (s.files_seen + 1) as u64, ..s },
                Transition { phase: Phase::Image, action: Action::OpenImage },
            ),
        ),
        (Phase::SymlinkTarget, Event::TargetIsDirectory) => Some(
            done_with_entry(Stats { symlinks_skipped: (s.symlinks_skipped + 1) as u64, ..s }),
        ),
        (Phase::SymlinkTarget, Event::TargetUnreadable) => Some(
            done_with_entry(Stats { symlinks_skipped: (s.symlinks_skipped + 1) as u64, ..s }),
        ),
        (Phase::SymlinkTarget, Event::TargetIsFile) => Some(
            (
                Stats {
                    symlinks_allowed: (s.symlinks_allowed + 1) as u64,
                    files_seen: (s.files_seen + 1) as u64,
                    ..s
                },
                Transition { phase: Phase::Image, action: Action::OpenImage },
            ),
        ),
        (Phase::Image, Event::NotAnImage) => Some(done_with_entry(s)),
        (Phase::Image, Event::ImageOpened) => Some(
            (
                Stats { image_files_seen: (s.image_files_seen + 1) as u64, ..s },
                Transition { phase: Phase::Duplicate, action: Action::CheckDuplicate },
            ),
        ),
        (Phase::Duplicate, Event::AlreadyRecorded) => Some(
            done_with_entry(
                Stats { duplicates_detected: (s.duplicates_detected + 1) as u64, ..s },
            ),
        ),
        (Phase::Duplicate, Event::NotYetRecorded) => Some(
            (s, Transition { phase: Phase::Backup, action: Action::BackUp }),
        ),
        (Phase::Duplicate, Event::DuplicateCheckFailed) => Some(
            done_with_entry(Stats { database_errors: (s.database_errors + 1) as u64, ..s }),
        ),
        (Phase::Backup, Event::BackupFailed) => Some(
            done_with_entry(Stats { copy_errors: (s.copy_errors + 1) as u64, ..s }),
        ),
        (Phase::Backup, Event::BackedUp) => Some(
            (s, Transition { phase: Phase::Record, action: Action::Record }),
        ),
        (Phase::Record, Event::RecordFailed) => Some(
            done_with_entry(Stats { database_errors: (s.database_errors + 1) as u64, ..s }),
        ),
        (Phase::Record, Event::Recorded) => {
            let t = Stats { image_files_copied: (s.image_files_copied + 1) as u64, ..s };
            if compare_on_run {
                Some((t, Transition { phase: Phase::Lookup, action: Action::LookUpRecorded }))
            } else {
                Some(done_with_entry(t))
            }
        },
        (Phase::Lookup, Event::LookupFound) => Some(
            (s, Transition { phase: Phase::NextEntry, action: Action::CompareRecorded }),
        ),
        (Phase::Lookup, Event::LookupMissing) => Some(done_with_entry(s)),
        (Phase::Lookup, Event::LookupFailed) => Some(
            done_with_entry(Stats { database_errors: (s.database_errors + 1) as u64, ..s }),
        ),
        _ => None,
    }
}

/// Whether the counters that `event` raises in `phase` can still be counted up by one.
pub open spec fn room_for_step(s: Stats, phase: Phase, event: Event) -> bool {
    match (phase, event) {
        (Phase::NextEntry, Event::EntryUnreadable) | (Phase::FileType, Event::FileTypeUnknown) =>
            s.file_read_error < u64::MAX,
        (Phase::FileType, Event::FileTypeRead(EntryKind::Directory)) => s.directories_found
            < u64::MAX,
        (Phase::FileType, Event::FileTypeRead(EntryKind::Other)) => s.files_seen < u64::MAX,
        (Phase::SymlinkTarget, Event::TargetIsDirectory) | (
            Phase::SymlinkTarget,
            Event::TargetUnreadable,
        ) => s.symlinks_skipped < u64::MAX,
        (Phase::SymlinkTarget, Event::TargetIsFile) => s.symlinks_allowed < u64::MAX
            && s.files_seen < u64::MAX,
        (Phase::Image, Event::ImageOpened) => s.image_files_seen < u64::MAX,
        (Phase::Duplicate, Event::AlreadyRecorded) => s.duplicates_detected < u64::MAX,
        (Phase::Duplicate, Event::DuplicateCheckFailed) | (Phase::Record, Event::RecordFailed) | (
            Phase::Lookup,
            Event::LookupFailed,
        ) => s.database_errors < u64::MAX,
        (Phase::Backup, Event::BackupFailed) => s.copy_errors < u64::MAX,
        (Phase::Record, Event::Recorded) => s.image_files_copied < u64::MAX,
        _ => true,
    }
}

/// Whether the counters that `event` raises in `phase` can still be counted up by one.
pub fn room_for(stats: &Stats, phase: Phase, event: Event) -> (res: bool)
    ensures
        res == room_for_step(*stats, phase, event),
{
    match (phase, event) {
        (Phase::NextEntry, Event::EntryUnreadable) | (Phase::FileType, Event::FileTypeUnknown) =>
            stats.file_read_error < u64::MAX,
        (Phase::FileType, Event::FileTypeRead(EntryKind::Directory)) => stats.directories_found
            < u64::MAX,
        (Phase::FileType, Event::FileTypeRead(EntryKind::Other)) => stats.files_seen < u64::MAX,
        (Phase::SymlinkTarget, Event::TargetIsDirectory) | (
            Phase::SymlinkTarget,
            Event::TargetUnreadable,
        ) => stats.symlinks_skipped < u64::MAX,
        (Phase::SymlinkTarget, Event::TargetIsFile) => stats.symlinks_allowed < u64::MAX
            && stats.files_seen < u64::MAX,
        (Phase::Image, Event::ImageOpened) => stats.image_files_seen < u64::MAX,
        (Phase::Duplicate, Event::AlreadyRecorded) => stats.duplicates_detected < u64::MAX,
        (Phase::Duplicate, Event::DuplicateCheckFailed) | (Phase::Record, Event::RecordFailed) | (
            Phase::Lookup,
            Event::LookupFailed,
        ) => stats.database_errors < u64::MAX,
        (Phase::Backup, Event::BackupFailed) => stats.copy_errors < u64::MAX,
        (Phase::Record, Event::Recorded) => stats.image_files_copied < u64::MAX,
        _ => true,
    }
}

/// Advances the walk by one event. Unreadable entries and file types count as read errors;
/// directories are counted and walked; a symlink to a directory, or one whose target cannot be
/// read, is skipped, and one to a file is allowed and handled as a file; each file is counted,
/// and each image among them; an image whose content hash is known is a duplicate; otherwise it
/// is copied and recorded, and when `compare_on_run` is set, looked up and compared. Failures
/// of the database and of copying are counted. An event that does not fit the phase changes
/// nothing and gives `None`.
pub fn step(stats: &mut Stats, phase: Phase, event: Event, compare_on_run: bool) -> (res: Option<
    Transition,
>)
    requires
        room_for_step(*old(stats), phase, event),
    ensures
        match walk_step(*old(stats), phase, event, compare_on_run) {
            Some((next, t)) => res == Some(t) && *final(stats) == next,
            None => res is None && *final(stats) == *old(stats),
        },
{
    let done = Transition { phase: Phase::NextEntry, action: Action::ReadEntry };
    match (phase, event) {
        (Phase::NextEntry, Event::EntryUnreadable) => {
            stats.file_read_error = stats.file_read_error + 1;
            Some(done)
        },
        (Phase::NextEntry, Event::EntryRead) => Some(
            Transition { phase: Phase::FileType, action: Action::ReadFileType },
        ),
        (Phase::FileType, Event::FileTypeUnknown) => {
            stats.file_read_error = stats.file_read_error + 1;
            Some(done)
        },
        (Phase::FileType, Event::FileTypeRead(EntryKind::Directory)) => {
            stats.directories_found = stats.directories_found + 1;
            Some(Transition { phase: Phase::NextEntry, action: Action::Descend })
        },
        (Phase::FileType, Event::FileTypeRead(EntryKind::Symlink)) => Some(
            Transition { phase: Phase::SymlinkTarget, action: Action::ReadSymlinkTarget },
        ),
        (Phase::FileType, Event::FileTypeRead(EntryKind::Other)) => {
            stats.files_seen = stats.files_seen + 1;
            Some(Transition { phase: Phase::Image, action: Action::OpenImage })
        },
        (Phase::SymlinkTarget, Event::TargetIsDirectory) => {
            stats.symlinks_skipped = stats.symlinks_skipped + 1;
            Some(done)
        },
        (Phase::SymlinkTarget, Event::TargetUnreadable) => {
            stats.symlinks_skipped = stats.symlinks_skipped + 1;
            Some(done)
        },
        (Phase::SymlinkTarget, Event::TargetIsFile) => {
            stats.symlinks_allowed = stats.symlinks_allowed + 1;
            stats.files_seen = stats.files_seen + 1;
            Some(Transition { phase: Phase::Image, action: Action::OpenImage })
        },
        (Phase::Image, Event::NotAnImage) => Some(done),
        (Phase::Image, Event::ImageOpened) => {
            stats.image_files_seen = stats.image_files_seen + 1;
            Some(Transition { phase: Phase::Duplicate, action: Action::CheckDuplicate })
        },
        (Phase::Duplicate, Event::AlreadyRecorded) => {
            stats.duplicates_detected = stats.duplicates_detected + 1;
            Some(done)
        },
        (Phase::Duplicate, Event::NotYetRecorded) => Some(
            Transition { phase: Phase::Backup, action: Action::BackUp },
        ),
        (Phase::Duplicate, Event::DuplicateCheckFailed) => {
            stats.database_errors = stats.database_errors + 1;
            Some(done)
        },
        (Phase::Backup, Event::BackupFailed) => {
            stats.copy_errors = stats.copy_errors + 1;
            Some(done)
        },
        (Phase::Backup, Event::BackedUp) => Some(
            Transition { phase: Phase::Record, action: Action::Record },
        ),
        (Phase::Record, Event::RecordFailed) => {
            stats.database_errors = stats.database_errors + 1;
            Some(done)
        },
        (Phase::Record, Event::Recorded) => {
            stats.image_files_copied = stats.image_files_copied + 1;
            if compare_on_run {
                Some(Transition { phase: Phase::Lookup, action: Action::LookUpRecorded })
            } else {
                Some(done)
            }
        },
        (Phase::Lookup, Event::LookupFound) => Some(
            Transition { phase: Phase::NextEntry, action: Action::CompareRecorded },
        ),
        (Phase::Lookup, Event::LookupMissing) => Some(done),
        (Phase::Lookup, Event::LookupFailed) => {
            stats.database_errors = stats.database_errors + 1;
            Some(done)
        },
        _ => None,
    }
}

/// Whether an image is being handled whose outcome is not counted yet.
pub open spec fn image_pending(phase: Phase) -> nat {
    match phase {
        Phase::Duplicate | Phase::Backup | Phase::Record => 1,
        _ => 0,
    }
}

/// Whether a file is being handled that is not yet known to be an image or not.
pub open spec fn file_pending(phase: Phase) -> nat {
    match phase {
        Phase::Image => 1,
        _ => 0,
    }
}

/// How the counters of a walk relate, given the phase: images are among the files seen,
/// allowed symlinks are among the files seen, and each image seen ends in at most one of
/// duplicate, copy error or copy.
pub open spec fn walk_consistent(s: Stats, phase: Phase) -> bool {
    &&& s.image_files_seen + file_pending(phase) <= s.files_seen
    &&& s.symlinks_allowed <= s.files_seen
    &&& s.duplicates_detected + s.copy_errors + s.image_files_copied + image_pending(phase)
        <= s.image_files_seen
}

/// How the counters of a walk without comparisons on the run have moved since `base`, the
/// counters when the walk began: each image seen has ended in exactly one of duplicate, copy
/// error, copy or database error, except the one still being handled in `phase`; every image
/// was a file seen; no comparison was made; no counter went down; and no recorded image is
/// being looked up again, which only comparing on the run does.
pub open spec fn walk_accounted(base: Stats, s: Stats, phase: Phase) -> bool {
    &&& phase != Phase::Lookup
    &&& s.grew_from(base)
    &&& (s.image_files_seen - base.image_files_seen) + file_pending(phase) <= s.files_seen
        - base.files_seen
    &&& (s.duplicates_detected - base.duplicates_detected) + (s.copy_errors - base.copy_errors) + (
    s.image_files_copied - base.image_files_copied) + (s.database_errors - base.database_errors)
        + image_pending(phase) == s.image_files_seen - base.image_files_seen
    &&& s.comparisons_performed == base.comparisons_performed
    &&& s.comparison_errors == base.comparison_errors
}

/// Before the first entry nothing has moved.
pub proof fn law_walk_accounting_starts(base: Stats)
    ensures
        walk_accounted(base, base, Phase::NextEntry),
{
}

/// With comparisons left for after the walk, every step keeps the exact accounting of images:
/// each image seen ends in exactly one of duplicate, copy error, copy or database error.
pub proof fn law_step_keeps_accounting(
    base: Stats,
    s: Stats,
    phase: Phase,
    event: Event,
)
    requires
        room_for_step(s, phase, event),
        walk_accounted(base, s, phase),
    ensures
        walk_step(s, phase, event, false) matches Some((next, t)) ==> walk_accounted(
            base,
            next,
            t.phase,
        ),
{
}

/// A walk of a subdirectory, finished between two entries of the walk that descended into it,
/// adds up with it: the accounting of the whole walk holds from the outer walk's start.
pub proof fn law_accounting_composes(base: Stats, mid: Stats, s: Stats, phase: Phase)
    requires
        walk_accounted(base, mid, Phase::NextEntry),
        walk_accounted(mid, s, phase),
    ensures
        walk_accounted(base, s, phase),
{
}

/// The counters after a step, if the event fitted.
pub open spec fn stats_after(r: Option<(Stats, Transition)>) -> Option<Stats> {
    match r {
        Some((next, _)) => Some(next),
        None => None,
    }
}

/// The action after a step, if the event fitted.
pub open spec fn action_after(r: Option<(Stats, Transition)>) -> Option<Action> {
    match r {
        Some((_, t)) => Some(t.action),
        None => None,
    }
}

/// Comparing on the run changes only what the walk does next, never what it counts: for every
/// phase and event, the counters after a step are the same with and without it.
pub proof fn law_counts_independent_of_compare_on_run(s: Stats, phase: Phase, event: Event)
    ensures
        stats_after(walk_step(s, phase, event, true)) == stats_after(
            walk_step(s, phase, event, false),
        ),
{
}

/// Recording a backed-up image counts it as copied, exactly once and nothing else, whether or
/// not it is compared on the run; only then is it looked up for comparison, or the next entry
/// read.
pub proof fn law_recorded_image_counted_as_copied(s: Stats, compare_on_run: bool)
    requires
        s.image_files_copied < u64::MAX,
    ensures
        stats_after(walk_step(s, Phase::Record, Event::Recorded, compare_on_run)) == Some(
            Stats { image_files_copied: (s.image_files_copied + 1) as u64, ..s },
        ),
        action_after(walk_step(s, Phase::Record, Event::Recorded, compare_on_run)) == Some(
            if compare_on_run {
                Action::LookUpRecorded
            } else {
                Action::ReadEntry
            },
        ),
{
}

/// With comparing on the run, every image seen still ends in exactly one of duplicate, copy
/// error, copy or database error by the time it is recorded: the image accounting holds for
/// every step before the look-up, and a copied image is counted before it is looked up.
pub proof fn law_step_keeps_accounting_when_comparing(
    base: Stats,
    s: Stats,
    phase: Phase,
    event: Event,
)
    requires
        room_for_step(s, phase, event),
        walk_accounted(base, s, phase),
    ensures
        walk_step(s, phase, event, true) matches Some((next, t)) ==> (if t.phase == Phase::Lookup {
            walk_accounted(base, next, Phase::NextEntry)
        } else {
            walk_accounted(base, next, t.phase)
        }),
{
}

/// A walk starts consistent: all counters at zero, waiting for the first entry.
pub proof fn law_walk_starts_consistent()
    ensures
        walk_consistent(Stats::zero(), Phase::NextEntry),
{
}

/// Every step of the walk keeps the counters consistent and never lowers a counter.
pub proof fn law_step_keeps_consistency(s: Stats, phase: Phase, event: Event, compare_on_run: bool)
    requires
        room_for_step(s, phase, event),
        walk_consistent(s, phase),
    ensures
        walk_step(s, phase, event, compare_on_run) matches Some((next, t)) ==> {
            &&& walk_consistent(next, t.phase)
            &&& next.grew_from(s)
        },
{
}

/// Counting comparisons, which happens between entries, keeps the walk's counters consistent.
pub proof fn law_comparisons_keep_consistency(s: Stats, event: ComparisonEvent)
    requires
        s.room_for_comparison(event),
        walk_consistent(s, Phase::NextEntry),
    ensures
        walk_consistent(s.after_comparison(event), Phase::NextEntry),
{
}

/// An image is copied to the backup folder only after the database said that its content
/// hash is not recorded yet: duplicates are never backed up.
pub proof fn law_backup_only_new_images(s: Stats, phase: Phase, event: Event, compare_on_run: bool)
    ensures
        walk_step(s, phase, event, compare_on_run) matches Some((_, t)) && t.action
            == Action::BackUp ==> phase == Phase::Duplicate && event == Event::NotYetRecorded,
{
}

/// A directory reached through a symlink is never walked: only directory entries that are
/// themselves directories are descended into.
pub proof fn law_symlinks_not_descended(s: Stats, phase: Phase, event: Event, compare_on_run: bool)
    ensures
        walk_step(s, phase, event, compare_on_run) matches Some((_, t)) && t.action
            == Action::Descend ==> phase == Phase::FileType && event == Event::FileTypeRead(
            EntryKind::Directory,
        ),
{
}

/// A directory entry that is a plain file but not an image is counted as a file seen and as
/// nothing else.
pub proof fn law_non_image_counted_as_file_only(s: Stats)
    requires
        s.files_seen < u64::MAX,
    ensures
        ({
            let (s1, t1) = walk_step(s, Phase::NextEntry, Event::EntryRead, false).unwrap();
            let (s2, t2) = walk_step(s1, t1.phase, Event::FileTypeRead(EntryKind::Other), false).unwrap();
            let (s3, t3) = walk_step(s2, t2.phase, Event::NotAnImage, false).unwrap();
            &&& s3 == Stats { files_seen: (s.files_seen + 1) as u64, ..s }
            &&& t3.action == Action::ReadEntry
        }),
{
}

} // verus!
