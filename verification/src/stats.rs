//! The counters that a backup or comparison run reports.

use vstd::prelude::*;

verus! {

/// What a run has seen and done so far.
#[derive(Debug, Clone, Copy, PartialEq, Eq)]
pub struct Stats {
    pub directories_found: u64,
    pub files_seen: u64,
    pub file_read_error: u64,
    pub image_files_copied: u64,
    pub copy_errors: u64,
    pub duplicates_detected: u64,
    pub image_files_seen: u64,
    pub database_errors: u64,
    pub symlinks_skipped: u64,
    pub symlinks_allowed: u64,
    /// Perceptual-hash comparisons recorded.
    pub comparisons_performed: u64,
    pub comparison_errors: u64,
}

impl Default for Stats {
    /// All counters at zero.
    fn default() -> (s: Self)
        ensures
            s == Stats::zero(),
    {
        Stats {
            directories_found: 0,
            files_seen: 0,
            file_read_error: 0,
            image_files_copied: 0,
            copy_errors: 0,
            duplicates_detected: 0,
            image_files_seen: 0,
            database_errors: 0,
            symlinks_skipped: 0,
            symlinks_allowed: 0,
            comparisons_performed: 0,
            comparison_errors: 0,
        }
    }
}

/// What happened while comparing one image with the others.
#[derive(Debug, Clone, Copy, PartialEq, Eq)]
pub enum ComparisonEvent {
    /// The images to compare with could not be read from the database.
    FetchFailed,
    /// Two hashes could not be compared.
    Incomparable,
    /// A comparison was stored.
    Recorded,
    /// A comparison could not be stored.
    RecordFailed,
}

impl Stats {
    /// All counters at zero.
    pub open spec fn zero() -> Stats {
        Stats {
            directories_found: 0,
            files_seen: 0,
            file_read_error: 0,
            image_files_copied: 0,
            copy_errors: 0,
            duplicates_detected: 0,
            image_files_seen: 0,
            database_errors: 0,
            symlinks_skipped: 0,
            symlinks_allowed: 0,
            comparisons_performed: 0,
            comparison_errors: 0,
        }
    }

    /// No counter of `self` is below the same counter of `earlier`.
    pub open spec fn grew_from(self, earlier: Stats) -> bool {
        &&& earlier.directories_found <= self.directories_found
        &&& earlier.files_seen <= self.files_seen
        &&& earlier.file_read_error <= self.file_read_error
        &&& earlier.image_files_copied <= self.image_files_copied
        &&& earlier.copy_errors <= self.copy_errors
        &&& earlier.duplicates_detected <= self.duplicates_detected
        &&& earlier.image_files_seen <= self.image_files_seen
        &&& earlier.database_errors <= self.database_errors
        &&& earlier.symlinks_skipped <= self.symlinks_skipped
        &&& earlier.symlinks_allowed <= self.symlinks_allowed
        &&& earlier.comparisons_performed <= self.comparisons_performed
        &&& earlier.comparison_errors <= self.comparison_errors
    }

    /// The counters after a comparison event.
    pub open spec fn after_comparison(self, event: ComparisonEvent) -> Stats {
        match event {
            ComparisonEvent::FetchFailed => Stats {
                database_errors: (self.database_errors + 1) as u64,
                ..self
            },
            ComparisonEvent::Incomparable => Stats {
                comparison_errors: (self.comparison_errors + 1) as u64,
                ..self
            },
            ComparisonEvent::Recorded => Stats {
                comparisons_performed: (self.comparisons_performed + 1) as u64,
                ..self
            },
            ComparisonEvent::RecordFailed => Stats {
                database_errors: (self.database_errors + 1) as u64,
                ..self
            },
        }
    }

    /// Whether the counter that `event` raises can still be counted up by one.
    pub open spec fn room_for_comparison(self, event: ComparisonEvent) -> bool {
        match event {
            ComparisonEvent::FetchFailed | ComparisonEvent::RecordFailed => self.database_errors
                < u64::MAX,
            ComparisonEvent::Incomparable => self.comparison_errors < u64::MAX,
            ComparisonEvent::Recorded => self.comparisons_performed < u64::MAX,
        }
    }

    /// Whether the counter that `event` raises can still be counted up by one.
    pub fn can_note(&self, event: ComparisonEvent) -> (res: bool)
        ensures
            res == self.room_for_comparison(event),
    {
        match event {
            ComparisonEvent::FetchFailed | ComparisonEvent::RecordFailed => self.database_errors
                < u64::MAX,
            ComparisonEvent::Incomparable => self.comparison_errors < u64::MAX,
            ComparisonEvent::Recorded => self.comparisons_performed < u64::MAX,
        }
    }

    /// Counts a comparison event: a failed read or write of the database is a database error,
    /// hashes that cannot be compared a comparison error, a stored comparison a comparison
    /// performed.
    pub fn note_comparison(&mut self, event: ComparisonEvent)
        requires
            old(self).room_for_comparison(event),
        ensures
            *final(self) == old(self).after_comparison(event),
    {
        match event {
            ComparisonEvent::FetchFailed => {
                self.database_errors = self.database_errors + 1;
            },
            ComparisonEvent::Incomparable => {
                self.comparison_errors = self.comparison_errors + 1;
            },
            ComparisonEvent::Recorded => {
                self.comparisons_performed = self.comparisons_performed + 1;
            },
            ComparisonEvent::RecordFailed => {
                self.database_errors = self.database_errors + 1;
            },
        }
    }
}

/// A comparison event changes one counter, by one.
pub proof fn law_comparison_counts_once(stats: Stats, event: ComparisonEvent)
    requires
        stats.room_for_comparison(event),
    ensures
        stats.after_comparison(event).grew_from(stats),
        stats.after_comparison(event).database_errors + stats.after_comparison(
            event,
        ).comparison_errors + stats.after_comparison(event).comparisons_performed
            == stats.database_errors + stats.comparison_errors + stats.comparisons_performed + 1,
{
}

} // verus!
