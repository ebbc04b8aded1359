use copycatch::db::{
    comparison_key, comparison_order, image_comparisons_query, ImageRecord, PHashEntry,
    SimilarEntry,
};
use copycatch::hashes::{HexString, PHashHexString};
use copycatch::location::{validate_db_location, validate_save_location, LocationError};
use copycatch::stats::{ComparisonEvent, Stats};
use copycatch::walk::{room_for, step, Action, EntryKind, Event, Phase, Transition};
use copycatch::db::{plan_comparisons, planned_outcome};
use copycatch::hamming::HammingError;

fn run(stats: &mut Stats, events: &[Event], compare_on_run: bool) -> Vec<Action> {
    let mut phase = Phase::NextEntry;
    let mut actions = Vec::new();
    for e in events {
        let t = step(stats, phase, *e, compare_on_run).expect("event fits the phase");
        phase = t.phase;
        actions.push(t.action);
    }
    actions
}

#[test]
fn non_image_file_is_seen_but_not_an_image() {
    let mut stats = Stats::default();
    let actions = run(
        &mut stats,
        &[Event::EntryRead, Event::FileTypeRead(EntryKind::Other), Event::NotAnImage],
        false,
    );
    assert_eq!(actions, vec![Action::ReadFileType, Action::OpenImage, Action::ReadEntry]);
    assert_eq!(stats.files_seen, 1);
    assert_eq!(stats.image_files_seen, 0);
    assert_eq!(stats.database_errors, 0);
    assert_eq!(stats, Stats { files_seen: 1, ..Stats::default() });
}

#[test]
fn new_image_is_backed_up_and_recorded() {
    let mut stats = Stats::default();
    let actions = run(
        &mut stats,
        &[
            Event::EntryRead,
            Event::FileTypeRead(EntryKind::Other),
            Event::ImageOpened,
            Event::NotYetRecorded,
            Event::BackedUp,
            Event::Recorded,
        ],
        false,
    );
    assert_eq!(
        actions,
        vec![
            Action::ReadFileType,
            Action::OpenImage,
            Action::CheckDuplicate,
            Action::BackUp,
            Action::Record,
            Action::ReadEntry
        ]
    );
    assert_eq!(stats.image_files_copied, 1);
    assert_eq!(stats.image_files_seen, 1);
    assert_eq!(stats.files_seen, 1);
}

#[test]
fn recorded_image_is_compared_when_asked() {
    let mut stats = Stats::default();
    let actions = run(
        &mut stats,
        &[
            Event::EntryRead,
            Event::FileTypeRead(EntryKind::Other),
            Event::ImageOpened,
            Event::NotYetRecorded,
            Event::BackedUp,
            Event::Recorded,
            Event::LookupFound,
        ],
        true,
    );
    assert_eq!(actions[5], Action::LookUpRecorded);
    assert_eq!(actions[6], Action::CompareRecorded);
}

#[test]
fn duplicate_is_counted_and_not_copied() {
    let mut stats = Stats::default();
    let actions = run(
        &mut stats,
        &[
            Event::EntryRead,
            Event::FileTypeRead(EntryKind::Other),
            Event::ImageOpened,
            Event::AlreadyRecorded,
        ],
        false,
    );
    assert_eq!(actions.last(), Some(&Action::ReadEntry));
    assert!(!actions.contains(&Action::BackUp));
    assert_eq!(stats.duplicates_detected, 1);
    assert_eq!(stats.image_files_copied, 0);
}

#[test]
fn symlinks() {
    let mut stats = Stats::default();
    let actions = run(
        &mut stats,
        &[Event::EntryRead, Event::FileTypeRead(EntryKind::Symlink), Event::TargetIsDirectory],
        false,
    );
    assert_eq!(actions, vec![Action::ReadFileType, Action::ReadSymlinkTarget, Action::ReadEntry]);
    assert_eq!(stats.symlinks_skipped, 1);
    let actions = run(
        &mut stats,
        &[Event::EntryRead, Event::FileTypeRead(EntryKind::Symlink), Event::TargetIsFile],
        false,
    );
    assert_eq!(actions[2], Action::OpenImage);
    assert_eq!(stats.symlinks_allowed, 1);
    assert_eq!(stats.files_seen, 1);
}

#[test]
fn directories_are_descended() {
    let mut stats = Stats::default();
    let actions = run(&mut stats, &[Event::EntryRead, Event::FileTypeRead(EntryKind::Directory)], false);
    assert_eq!(actions[1], Action::Descend);
    assert_eq!(stats.directories_found, 1);
}

#[test]
fn failures_are_counted() {
    let mut stats = Stats::default();
    run(&mut stats, &[Event::EntryUnreadable], false);
    run(&mut stats, &[Event::EntryRead, Event::FileTypeUnknown], false);
    assert_eq!(stats.file_read_error, 2);
    run(
        &mut stats,
        &[Event::EntryRead, Event::FileTypeRead(EntryKind::Other), Event::ImageOpened, Event::DuplicateCheckFailed],
        false,
    );
    run(
        &mut stats,
        &[Event::EntryRead, Event::FileTypeRead(EntryKind::Other), Event::ImageOpened, Event::NotYetRecorded, Event::BackupFailed],
        false,
    );
    assert_eq!(stats.database_errors, 1);
    assert_eq!(stats.copy_errors, 1);
}

#[test]
fn event_out_of_turn_changes_nothing() {
    let mut stats = Stats::default();
    assert_eq!(step(&mut stats, Phase::NextEntry, Event::Recorded, false), None);
    assert_eq!(stats, Stats::default());
    assert_eq!(
        step(&mut stats, Phase::Lookup, Event::LookupMissing, true),
        Some(Transition { phase: Phase::NextEntry, action: Action::ReadEntry })
    );
}

#[test]
fn comparison_events_are_counted() {
    let mut stats = Stats::default();
    stats.note_comparison(ComparisonEvent::Recorded);
    stats.note_comparison(ComparisonEvent::Recorded);
    stats.note_comparison(ComparisonEvent::Incomparable);
    stats.note_comparison(ComparisonEvent::RecordFailed);
    stats.note_comparison(ComparisonEvent::FetchFailed);
    assert_eq!(stats.comparisons_performed, 2);
    assert_eq!(stats.comparison_errors, 1);
    assert_eq!(stats.database_errors, 2);
    assert!(stats.can_note(ComparisonEvent::Recorded));
    let full = Stats { comparison_errors: u64::MAX, ..Stats::default() };
    assert!(!full.can_note(ComparisonEvent::Incomparable));
    assert!(full.can_note(ComparisonEvent::Recorded));
}

#[test]
fn comparison_keys_put_the_smaller_id_first() {
    assert_eq!(comparison_key(5, 3), (3, 5));
    assert_eq!(comparison_key(3, 5), (3, 5));
    assert_eq!(comparison_key(4, 4), (4, 4));
    assert_eq!(comparison_key(-1, i64::MIN), (i64::MIN, -1));
}

#[test]
fn comparisons_query_sorts_as_asked() {
    let expected = |order: &str| {
        format!(
            "SELECT ih.id AS id, ih.file_path AS name, p.hamming_distance as hamming_distance
        FROM phash_comparisons AS p
        INNER JOIN image_hashes AS ih
           ON ih.id = CASE WHEN p.image_id_1 = ?1 THEN p.image_id_2 ELSE p.image_id_1 END
        WHERE p.image_id_1 = ?1 OR p.image_id_2 = ?1
        ORDER BY p.hamming_distance {};
        ",
            order
        )
    };
    assert_eq!(image_comparisons_query(true), expected("ASC"));
    assert_eq!(image_comparisons_query(false), expected("DESC"));
    assert_eq!(comparison_order(true), "ASC");
    assert_eq!(comparison_order(false), "DESC");
}

#[test]
fn save_location_checks() {
    assert_eq!(validate_save_location("backup/", Some(true), true), Ok(()));
    assert_eq!(
        validate_save_location("backup/", Some(false), false),
        Err(LocationError::NotFound { message: "Directory does not exist: backup/".to_string() })
    );
    assert_eq!(validate_save_location("x", None, false), Err(LocationError::Undetermined));
}

#[test]
fn save_location_must_be_a_directory() {
    assert_eq!(
        validate_save_location("notes.txt", Some(true), false),
        Err(LocationError::NotADirectory { message: "Not a directory: notes.txt".to_string() })
    );
}

#[test]
fn database_location_checks() {
    assert_eq!(validate_db_location(Some(true)), Ok(()));
    assert_eq!(
        validate_db_location(Some(false)),
        Err(LocationError::NotFound { message: "Database file does not exist".to_string() })
    );
    assert_eq!(validate_db_location(None), Err(LocationError::Undetermined));
}

#[test]
fn records_hold_their_fields() {
    let record = ImageRecord {
        crypto_hash: HexString::new("ab".to_string()),
        p_hash: PHashHexString::new("cd".to_string()),
        id: 7,
        file_path: "a.png".to_string(),
        created_at: "2024-01-01 00:00:00".to_string(),
    };
    let copy = record.clone();
    assert_eq!(copy.crypto_hash.get_hex(), "ab");
    assert_eq!(copy.p_hash.get_hex(), "cd");
    let entry = PHashEntry(7, record.p_hash);
    assert_eq!(entry.0, 7);
    let similar = SimilarEntry(8, "b.png".to_string(), 3);
    assert_eq!((similar.0, similar.1.as_str(), similar.2), (8, "b.png", 3));
}

#[test]
fn walk_starts_only_at_a_directory() {
    assert_eq!(copycatch::walk::check_walk_root("photos", true), Ok(()));
    assert_eq!(
        copycatch::walk::check_walk_root("photos/a.png", false),
        Err("Path provided is not a directory: photos/a.png".to_string())
    );
}

#[test]
fn counters_stay_consistent_over_a_walk() {
    let mut stats = Stats::default();
    let images = [
        vec![Event::EntryRead, Event::FileTypeRead(EntryKind::Other), Event::ImageOpened, Event::NotYetRecorded, Event::BackedUp, Event::Recorded],
        vec![Event::EntryRead, Event::FileTypeRead(EntryKind::Other), Event::ImageOpened, Event::AlreadyRecorded],
        vec![Event::EntryRead, Event::FileTypeRead(EntryKind::Symlink), Event::TargetIsFile, Event::ImageOpened, Event::NotYetRecorded, Event::BackupFailed],
        vec![Event::EntryRead, Event::FileTypeRead(EntryKind::Other), Event::NotAnImage],
        vec![Event::EntryRead, Event::FileTypeRead(EntryKind::Other), Event::ImageOpened, Event::NotYetRecorded, Event::BackedUp, Event::RecordFailed],
    ];
    for events in images.iter() {
        run(&mut stats, events, false);
        assert!(stats.image_files_seen <= stats.files_seen);
        assert!(stats.symlinks_allowed <= stats.files_seen);
        assert!(stats.duplicates_detected + stats.copy_errors + stats.image_files_copied <= stats.image_files_seen);
    }
    assert_eq!(stats.files_seen, 5);
    assert_eq!(stats.image_files_seen, 4);
    assert_eq!((stats.image_files_copied, stats.duplicates_detected, stats.copy_errors), (1, 1, 1));
    assert_eq!(stats.database_errors, 1);
    // Each image seen ended in exactly one outcome, and nothing was compared.
    assert_eq!(
        stats.duplicates_detected + stats.copy_errors + stats.image_files_copied + stats.database_errors,
        stats.image_files_seen
    );
    assert_eq!((stats.comparisons_performed, stats.comparison_errors), (0, 0));
}

#[test]
fn five_images_have_ten_comparison_keys() {
    let ids = [4i64, 9, 1, 7, 2];
    let mut keys = std::collections::BTreeSet::new();
    for a in ids {
        for b in ids {
            if a != b {
                keys.insert(comparison_key(a, b));
            }
        }
    }
    assert_eq!(keys.len(), 5 * 4 / 2);
}

#[test]
fn room_is_needed_only_in_the_counter_raised() {
    let full = Stats { copy_errors: u64::MAX, ..Stats::default() };
    assert!(!room_for(&full, Phase::Backup, Event::BackupFailed));
    assert!(room_for(&full, Phase::Backup, Event::BackedUp));
    assert!(room_for(&full, Phase::NextEntry, Event::EntryRead));
    let mut stats = full;
    assert_eq!(
        step(&mut stats, Phase::Image, Event::ImageOpened, false),
        Some(Transition { phase: Phase::Duplicate, action: Action::CheckDuplicate })
    );
    assert_eq!(stats.image_files_seen, 1);
}

#[test]
fn comparisons_are_planned_per_candidate() {
    let phash = PHashHexString::new("ff00".to_string());
    let entries = vec![
        PHashEntry(2, PHashHexString::new("0f00".to_string())),
        PHashEntry(9, PHashHexString::new("zz".to_string())),
        PHashEntry(5, PHashHexString::new("ff".to_string())),
    ];
    let plan = plan_comparisons(7, &phash, &entries);
    assert_eq!(plan.len(), 3);
    assert_eq!(plan[0], Ok(((2, 7), 4)));
    assert!(matches!(plan[1], Err(HammingError::InvalidHash2(_))));
    assert_eq!(plan[2], Err(HammingError::LengthMismatch));

    let mut stats = Stats::default();
    for (item, stored) in plan.iter().zip([false, false, false]) {
        stats.note_comparison(planned_outcome(item, stored));
    }
    assert_eq!((stats.comparisons_performed, stats.comparison_errors, stats.database_errors), (0, 2, 1));
    assert_eq!(planned_outcome(&plan[0], true), ComparisonEvent::Recorded);
}
