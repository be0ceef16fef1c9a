use hybrid_rm::dispatch::{flatten, RootListing};
use hybrid_rm::engine::{
    bulk_result, fanout_result, file_result, plan_entry, tally, EntryKind, Meta, Outcome, Plan,
    Role, WalkEntry,
};
use hybrid_rm::policy::{Policy, SizeClass};
use hybrid_rm::stats::Stats;

fn stats(files: u64, dirs: u64, bytes: u64, errors: u64) -> Stats {
    Stats { files_deleted: files, dirs_deleted: dirs, bytes_deleted: bytes, errors }
}

#[test]
fn small_tree_under_one_root() {
    // x/ holds a.txt (10 bytes), b/ holding c.txt (5 bytes), and an empty d/.
    let policy = Policy::new();
    let a = file_result(10, Outcome::Done);

    assert_eq!(policy.classify(1), SizeClass::Small);
    let mut walk_b = Stats::new();
    tally(&mut walk_b, WalkEntry::NonDir { size: Some(5) });
    let b = bulk_result(walk_b, Outcome::Done, Role::Entry);

    assert_eq!(policy.classify(0), SizeClass::Small);
    let d = bulk_result(Stats::new(), Outcome::Done, Role::Entry);

    let children = a.merge(&b).merge(&d);
    let total = fanout_result(children, Outcome::Done, Role::Root);
    assert_eq!(total, stats(2, 2, 15, 0));
}

#[test]
fn small_tree_routed_by_fan_out() {
    // The same tree when b/ and d/ fan out instead of being removed in bulk.
    let a = file_result(10, Outcome::Done);
    let b = fanout_result(file_result(5, Outcome::Done), Outcome::Done, Role::Entry);
    let d = fanout_result(Stats::new(), Outcome::Done, Role::Entry);
    let total = fanout_result(a.merge(&b).merge(&d), Outcome::Done, Role::Root);
    assert_eq!(total, stats(2, 2, 15, 0));
}

#[test]
fn missing_root_and_present_file() {
    // Two roots: one missing, one file of 10 bytes.
    assert_eq!(plan_entry(Meta::Missing), Plan::Skip);
    let missing = Stats::new();
    let plan = plan_entry(Meta::Found { kind: EntryKind::File, size: 10 });
    assert_eq!(plan, Plan::RemoveFile { size: 10 });
    let present = file_result(10, Outcome::Done);
    let total = missing.merge(&present);
    assert_eq!(total, stats(1, 0, 10, 0));
}

#[test]
fn flattened_roots_keep_files_as_single_tasks() {
    let listings = vec![RootListing::NotDir, RootListing::Listed { children: 3 }];
    let tasks = flatten(&listings);
    assert_eq!(tasks.len(), 4);
    assert_eq!(tasks[0].root, 0);
    assert_eq!(tasks[0].child, None);
    assert_eq!(tasks[0].role(), Role::Root);
    assert_eq!(tasks[3].root, 1);
    assert_eq!(tasks[3].child, Some(2));
    assert_eq!(tasks[3].role(), Role::Entry);
}
