use hybrid_rm::stats::Stats;

fn stats(files: u64, dirs: u64, bytes: u64, errors: u64) -> Stats {
    Stats { files_deleted: files, dirs_deleted: dirs, bytes_deleted: bytes, errors }
}

#[test]
fn increments_add_one_each() {
    let mut s = Stats::new();
    s.increment_files();
    s.increment_files();
    s.increment_dirs();
    s.add_bytes(1234);
    s.increment_errors();
    assert_eq!(s, stats(2, 1, 1234, 1));
}

#[test]
fn counters_saturate_instead_of_wrapping() {
    let mut s = stats(u64::MAX, 0, u64::MAX - 1, 0);
    s.increment_files();
    s.add_bytes(5);
    assert_eq!(s, stats(u64::MAX, 0, u64::MAX, 0));
    assert_eq!(s.merge(&stats(1, 1, 1, 1)), stats(u64::MAX, 1, u64::MAX, 1));
}

#[test]
fn merge_order_does_not_matter() {
    // A thousand single-file parts merged one by one, and in a balanced tree of pairs.
    let parts: Vec<Stats> = (0..1000u64).map(|i| stats(1, i % 3, i, 0)).collect();
    let mut sequential = Stats::new();
    for p in &parts {
        sequential = sequential.merge(p);
    }
    let mut level = parts.clone();
    level.reverse();
    while level.len() > 1 {
        let mut next = Vec::new();
        for pair in level.chunks(2) {
            if pair.len() == 2 {
                next.push(pair[0].merge(&pair[1]));
            } else {
                next.push(pair[0]);
            }
        }
        level = next;
    }
    assert_eq!(level[0], sequential);
    assert_eq!(sequential, stats(1000, 999, 499500, 0));
}

#[test]
fn merge_with_empty_part_is_identity() {
    let s = stats(3, 4, 5, 6);
    assert_eq!(s.merge(&Stats::new()), s);
    assert_eq!(Stats::new().merge(&s), s);
}
