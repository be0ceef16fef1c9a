use hybrid_rm::engine::{
    bulk_result, failure, fanout_result, file_result, plan_entry, tally, EntryKind, Meta, Outcome,
    Plan, Role, WalkEntry,
};
use hybrid_rm::stats::Stats;

fn stats(files: u64, dirs: u64, bytes: u64, errors: u64) -> Stats {
    Stats { files_deleted: files, dirs_deleted: dirs, bytes_deleted: bytes, errors }
}

#[test]
fn symlink_to_directory_is_a_single_entity() {
    let plan = plan_entry(Meta::Found { kind: EntryKind::Symlink, size: 7 });
    assert_eq!(plan, Plan::RemoveFile { size: 7 });
    assert_eq!(file_result(7, Outcome::Done), stats(1, 0, 7, 0));
}

#[test]
fn real_directory_is_probed() {
    assert_eq!(plan_entry(Meta::Found { kind: EntryKind::Dir, size: 4096 }), Plan::ProbeDir);
    assert_eq!(plan_entry(Meta::Found { kind: EntryKind::Other, size: 0 }), Plan::RemoveFile { size: 0 });
}

#[test]
fn unreadable_metadata_is_one_error() {
    assert_eq!(plan_entry(Meta::Failed), Plan::Fail);
    assert_eq!(failure(), stats(0, 0, 0, 1));
}

#[test]
fn not_found_removals_count_nothing() {
    assert_eq!(file_result(10, Outcome::NotFound), Stats::new());
    assert_eq!(fanout_result(stats(3, 1, 30, 0), Outcome::NotFound, Role::Entry), stats(3, 1, 30, 0));
    assert_eq!(bulk_result(stats(3, 1, 30, 2), Outcome::NotFound, Role::Entry), stats(0, 0, 0, 2));
}

#[test]
fn failed_file_removal_is_one_error_and_no_success() {
    assert_eq!(file_result(10, Outcome::Failed), stats(0, 0, 0, 1));
}

#[test]
fn failed_bulk_removal_drops_walk_counts() {
    let mut walk = Stats::new();
    tally(&mut walk, WalkEntry::Dir);
    tally(&mut walk, WalkEntry::NonDir { size: Some(8) });
    tally(&mut walk, WalkEntry::Unreadable);
    assert_eq!(walk, stats(1, 1, 8, 1));
    assert_eq!(bulk_result(walk, Outcome::Failed, Role::Entry), stats(0, 0, 0, 2));
    assert_eq!(bulk_result(walk, Outcome::Done, Role::Entry), stats(1, 2, 8, 1));
    assert_eq!(bulk_result(walk, Outcome::Done, Role::Root), stats(1, 1, 8, 1));
}

#[test]
fn file_without_length_counts_no_bytes() {
    let mut walk = Stats::new();
    tally(&mut walk, WalkEntry::NonDir { size: None });
    assert_eq!(walk, stats(1, 0, 0, 0));
}

#[test]
fn failed_directory_removal_keeps_children() {
    let children = stats(4, 2, 100, 0);
    assert_eq!(fanout_result(children, Outcome::Failed, Role::Entry), stats(4, 2, 100, 1));
    assert_eq!(fanout_result(children, Outcome::Done, Role::Entry), stats(4, 3, 100, 0));
    assert_eq!(fanout_result(children, Outcome::Done, Role::Root), children);
}
