use vstd::prelude::*;

use crate::engine::{
    bulk_result_of, fanout_result_of, file_result_of, plan_of, self_of, tallied, Meta, Outcome,
    Plan, Role, WalkEntry,
};
use crate::stats::{lemma_merge_associative, lemma_merge_counted, lemma_merge_identity, Stats};

verus! {

/// A static directory tree: a non-directory entry (a file, a symlink, or another kind)
/// of some length, or a directory with its children.
pub enum Tree {
    Leaf { size: u64 },
    Dir { children: Seq<Tree> },
}

/// Exact counts of the entries of a tree.
pub struct Tally {
    pub files: nat,
    pub dirs: nat,
    pub bytes: nat,
}

/// The counts of `t` and everything below it.
pub open spec fn tree_tally(t: Tree) -> Tally
    decreases t, 0nat,
{
    match t {
        Tree::Leaf { size } => Tally { files: 1, dirs: 0, bytes: size as nat },
        Tree::Dir { children } => {
            let c = forest_tally(children, children.len());
            Tally { files: c.files, dirs: c.dirs + 1, bytes: c.bytes }
        },
    }
}

/// The counts of the first `n` trees of `cs`.
pub open spec fn forest_tally(cs: Seq<Tree>, n: nat) -> Tally
    decreases cs, n,
{
    if n == 0 || n > cs.len() {
        Tally { files: 0, dirs: 0, bytes: 0 }
    } else {
        let a = forest_tally(cs, (n - 1) as nat);
        let b = tree_tally(cs[n - 1]);
        Tally { files: a.files + b.files, dirs: a.dirs + b.dirs, bytes: a.bytes + b.bytes }
    }
}

pub open spec fn stats_of_tally(c: Tally) -> Stats {
    Stats::counted(c.files, c.dirs, c.bytes, 0)
}

/// What deleting `t` should report: every non-directory entry and every directory in
/// it, with their bytes. A root directory is cleared but not itself counted.
pub open spec fn expected(t: Tree, role: Role) -> Stats {
    match t {
        Tree::Leaf { .. } => stats_of_tally(tree_tally(t)),
        Tree::Dir { children } => match role {
            Role::Entry => stats_of_tally(tree_tally(t)),
            Role::Root => stats_of_tally(forest_tally(children, children.len())),
        },
    }
}

/// The counting walk of a bulk removal over `t`, starting from `acc`.
pub open spec fn walked(t: Tree, acc: Stats) -> Stats
    decreases t, 0nat,
{
    match t {
        Tree::Leaf { size } => tallied(acc, WalkEntry::NonDir { size: Some(size) }),
        Tree::Dir { children } => walked_forest(
            children,
            children.len(),
            tallied(acc, WalkEntry::Dir),
        ),
    }
}

pub open spec fn walked_forest(cs: Seq<Tree>, n: nat, acc: Stats) -> Stats
    decreases cs, n,
{
    if n == 0 || n > cs.len() {
        acc
    } else {
        walked(cs[n - 1], walked_forest(cs, (n - 1) as nat, acc))
    }
}

/// What the engine reports for deleting `t` when every call succeeds, where `small`
/// says for each directory whether it was removed in bulk or by fanning out.
pub open spec fn removed(t: Tree, role: Role, small: spec_fn(Tree) -> bool) -> Stats
    decreases t, 0nat,
{
    match t {
        Tree::Leaf { size } => file_result_of(size, Outcome::Done),
        Tree::Dir { children } => if small(t) {
            bulk_result_of(
                walked_forest(children, children.len(), Stats::zero()),
                Outcome::Done,
                role,
            )
        } else {
            fanout_result_of(removed_forest(children, children.len(), small), Outcome::Done, role)
        },
    }
}

pub open spec fn removed_forest(cs: Seq<Tree>, n: nat, small: spec_fn(Tree) -> bool) -> Stats
    decreases cs, n,
{
    if n == 0 || n > cs.len() {
        Stats::zero()
    } else {
        removed_forest(cs, (n - 1) as nat, small).merged(removed(cs[n - 1], Role::Entry, small))
    }
}

proof fn lemma_counted_sum(a: Tally, b: Tally)
    ensures
        stats_of_tally(a).merged(stats_of_tally(b)) == stats_of_tally(
            Tally { files: a.files + b.files, dirs: a.dirs + b.dirs, bytes: a.bytes + b.bytes },
        ),
{
    lemma_merge_counted(a.files, a.dirs, a.bytes, 0, b.files, b.dirs, b.bytes, 0);
}

proof fn lemma_walked(t: Tree, acc: Stats)
    ensures
        walked(t, acc) == acc.merged(stats_of_tally(tree_tally(t))),
    decreases t, 0nat,
{
    match t {
        Tree::Leaf { .. } => {},
        Tree::Dir { children } => {
            let d = Stats::counted(0, 1, 0, 0);
            let c = forest_tally(children, children.len());
            lemma_walked_forest(children, children.len(), acc.merged(d));
            lemma_merge_associative(acc, d, stats_of_tally(c));
            lemma_counted_sum(Tally { files: 0, dirs: 1, bytes: 0 }, c);
        },
    }
}

proof fn lemma_walked_forest(cs: Seq<Tree>, n: nat, acc: Stats)
    ensures
        walked_forest(cs, n, acc) == acc.merged(stats_of_tally(forest_tally(cs, n))),
    decreases cs, n,
{
    if n == 0 || n > cs.len() {
        lemma_merge_identity(acc);
    } else {
        let prev = walked_forest(cs, (n - 1) as nat, acc);
        let a = forest_tally(cs, (n - 1) as nat);
        let b = tree_tally(cs[n - 1]);
        lemma_walked_forest(cs, (n - 1) as nat, acc);
        lemma_walked(cs[n - 1], prev);
        lemma_merge_associative(acc, stats_of_tally(a), stats_of_tally(b));
        lemma_counted_sum(a, b);
    }
}

proof fn lemma_removed_forest(cs: Seq<Tree>, n: nat, small: spec_fn(Tree) -> bool)
    ensures
        removed_forest(cs, n, small) == stats_of_tally(forest_tally(cs, n)),
    decreases cs, n,
{
    if n > 0 && n <= cs.len() {
        lemma_removed_forest(cs, (n - 1) as nat, small);
        lemma_counts_exact(cs[n - 1], Role::Entry, small);
        lemma_counted_sum(forest_tally(cs, (n - 1) as nat), tree_tally(cs[n - 1]));
    }
}

/// Law: deleting a static tree reports exactly its non-directory entries, its
/// directories and the bytes of its files, however each directory in it was routed
/// between bulk removal and fan-out.
pub proof fn lemma_counts_exact(t: Tree, role: Role, small: spec_fn(Tree) -> bool)
    ensures
        removed(t, role, small) == expected(t, role),
    decreases t, 1nat,
{
    match t {
        Tree::Leaf { .. } => {},
        Tree::Dir { children } => {
            let c = stats_of_tally(forest_tally(children, children.len()));
            if small(t) {
                lemma_walked_forest(children, children.len(), Stats::zero());
                lemma_merge_identity(c);
            } else {
                lemma_removed_forest(children, children.len(), small);
            }
            lemma_merge_identity(c);
            lemma_counted_sum(
                forest_tally(children, children.len()),
                Tally { files: 0, dirs: 1, bytes: 0 },
            );
            assert(c.merged(self_of(role)) == expected(t, role));
        },
    }
}

/// Law: two runs over identical static trees report the same statistics, bytes
/// included, whichever classification each directory received in either run.
pub proof fn lemma_route_independent(
    t: Tree,
    role: Role,
    small1: spec_fn(Tree) -> bool,
    small2: spec_fn(Tree) -> bool,
)
    ensures
        removed(t, role, small1) == removed(t, role, small2),
{
    lemma_counts_exact(t, role, small1);
    lemma_counts_exact(t, role, small2);
}

/// Law: a path that is already gone is a no-op: it is skipped, and a removal that finds
/// nothing adds neither a success nor an error.
pub proof fn lemma_not_found_is_noop(size: u64, walk: Stats, children: Stats, role: Role)
    ensures
        plan_of(Meta::Missing) == Plan::Skip,
        file_result_of(size, Outcome::NotFound) == Stats::zero(),
        fanout_result_of(children, Outcome::NotFound, role) == children,
        bulk_result_of(walk, Outcome::NotFound, role).errors == walk.errors,
        bulk_result_of(walk, Outcome::NotFound, role).files_deleted == 0,
        bulk_result_of(walk, Outcome::NotFound, role).dirs_deleted == 0,
        bulk_result_of(walk, Outcome::NotFound, role).bytes_deleted == 0,
{
}

} // verus!
