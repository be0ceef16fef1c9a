use vstd::prelude::*;

use crate::stats::Stats;

verus! {

/// The type of a filesystem entry as its metadata reports it, without following symlinks.
#[derive(Clone, Copy, Debug, PartialEq, Eq, Structural)]
pub enum EntryKind {
    Dir,
    Symlink,
    File,
    Other,
}

/// What reading an entry's metadata (without following symlinks) gave.
#[derive(Clone, Copy, Debug, PartialEq, Eq, Structural)]
pub enum Meta {
    /// The entry does not exist.
    Missing,
    /// The read failed for another reason.
    Failed,
    Found { kind: EntryKind, size: u64 },
}

/// How a removal or listing call ended.
#[derive(Clone, Copy, Debug, PartialEq, Eq, Structural)]
pub enum Outcome {
    Done,
    /// The entry was already gone: a no-op, neither a success nor an error.
    NotFound,
    Failed,
}

/// Whether a directory being removed is itself an entry of the tree being deleted, or
/// one of the roots the caller named, which is cleared but not counted.
#[derive(Clone, Copy, Debug, PartialEq, Eq, Structural)]
pub enum Role {
    Root,
    Entry,
}

/// What to do with one path after its metadata was read.
#[derive(Clone, Copy, Debug, PartialEq, Eq, Structural)]
pub enum Plan {
    /// Nothing: the path is already gone.
    Skip,
    /// Count one error and stop.
    Fail,
    /// Delete it as a single entity of `size` bytes.
    RemoveFile { size: u64 },
    /// A real directory: probe its size, then remove it in bulk or by fanning out.
    ProbeDir,
}

/// One item met by the counting walk that precedes a bulk removal.
#[derive(Clone, Copy, Debug, PartialEq, Eq, Structural)]
pub enum WalkEntry {
    /// A directory listing, a listed entry, or its file type could not be read.
    Unreadable,
    Dir,
    /// A non-directory entry, with its length where its metadata could be read.
    NonDir { size: Option<u64> },
}

pub open spec fn plan_of(meta: Meta) -> Plan {
    match meta {
        Meta::Missing => Plan::Skip,
        Meta::Failed => Plan::Fail,
        Meta::Found { kind, size } => if kind == EntryKind::Dir {
            Plan::ProbeDir
        } else {
            Plan::RemoveFile { size }
        },
    }
}

/// Decides how to delete a path from its metadata. A symlink is always removed as a
/// single entity, never traversed, even where it points at a directory.
pub fn plan_entry(meta: Meta) -> (r: Plan)
    ensures
        r == plan_of(meta),
        r == Plan::Skip <==> meta == Meta::Missing,
        r == Plan::ProbeDir <==> meta matches Meta::Found { kind: EntryKind::Dir, .. },
        meta matches Meta::Found { kind: EntryKind::Symlink, size } ==> r == (Plan::RemoveFile { size }),
{
    match meta {
        Meta::Missing => Plan::Skip,
        Meta::Failed => Plan::Fail,
        Meta::Found { kind, size } => match kind {
            EntryKind::Dir => Plan::ProbeDir,
            _ => Plan::RemoveFile { size },
        },
    }
}

/// One error, and nothing else.
pub open spec fn failure_of() -> Stats {
    Stats::counted(0, 0, 0, 1)
}

/// The statistics of a path that failed before any removal was tried.
pub fn failure() -> (r: Stats)
    ensures
        r == failure_of(),
{
    let mut s = Stats::new();
    s.increment_errors();
    s
}

pub open spec fn file_result_of(size: u64, outcome: Outcome) -> Stats {
    match outcome {
        Outcome::Done => Stats::counted(1, 0, size as nat, 0),
        Outcome::NotFound => Stats::zero(),
        Outcome::Failed => failure_of(),
    }
}

/// The statistics of removing one non-directory entry of `size` bytes.
pub fn file_result(size: u64, outcome: Outcome) -> (r: Stats)
    ensures
        r == file_result_of(size, outcome),
{
    let mut s = Stats::new();
    match outcome {
        Outcome::Done => {
            s.increment_files();
            s.add_bytes(size);
        },
        Outcome::NotFound => {},
        Outcome::Failed => s.increment_errors(),
    }
    s
}

pub open spec fn tallied(walk: Stats, e: WalkEntry) -> Stats {
    match e {
        WalkEntry::Unreadable => walk.merged(Stats::counted(0, 0, 0, 1)),
        WalkEntry::Dir => walk.merged(Stats::counted(0, 1, 0, 0)),
        WalkEntry::NonDir { size } => walk.merged(
            Stats::counted(1, 0, if let Some(n) = size { n as nat } else { 0 }, 0),
        ),
    }
}

/// Counts one item of the walk that precedes a bulk removal. A non-directory whose
/// length cannot be read still counts as a file, with no bytes.
pub fn tally(walk: &mut Stats, e: WalkEntry)
    ensures
        *final(walk) == tallied(*old(walk), e),
{
    match e {
        WalkEntry::Unreadable => walk.increment_errors(),
        WalkEntry::Dir => walk.increment_dirs(),
        WalkEntry::NonDir { size } => {
            let ghost w0 = *walk;
            walk.increment_files();
            match size {
                Some(n) => {
                    let ghost w1 = *walk;
                    walk.add_bytes(n);
                    proof {
                        crate::stats::lemma_merge_associative(
                            w0,
                            Stats::counted(1, 0, 0, 0),
                            Stats::counted(0, 0, n as nat, 0),
                        );
                    }
                },
                None => {},
            }
        },
    }
}

/// The directory itself, where it counts.
pub open spec fn self_of(role: Role) -> Stats {
    match role {
        Role::Entry => Stats::counted(0, 1, 0, 0),
        Role::Root => Stats::zero(),
    }
}

pub open spec fn bulk_result_of(walk: Stats, outcome: Outcome, role: Role) -> Stats {
    match outcome {
        Outcome::Done => walk.merged(self_of(role)),
        Outcome::NotFound => Stats::counted(0, 0, 0, walk.errors as nat),
        Outcome::Failed => Stats::counted(0, 0, 0, walk.errors as nat).merged(failure_of()),
    }
}

/// The statistics of a bulk removal: the counting walk `walk` of the directory's
/// contents, then one whole-subtree removal that ended in `outcome`. What the walk
/// counted as deleted is kept only when the removal succeeded; its errors are kept
/// in any case, and a failed removal is one more error.
pub fn bulk_result(walk: Stats, outcome: Outcome, role: Role) -> (r: Stats)
    ensures
        r == bulk_result_of(walk, outcome, role),
{
    match outcome {
        Outcome::Done => {
            let mut r = walk;
            if let Role::Entry = role {
                r.increment_dirs();
            }
            r
        },
        Outcome::NotFound => Stats { files_deleted: 0, dirs_deleted: 0, bytes_deleted: 0, errors: walk.errors },
        Outcome::Failed => {
            let mut r = Stats { files_deleted: 0, dirs_deleted: 0, bytes_deleted: 0, errors: walk.errors };
            r.increment_errors();
            r
        },
    }
}

pub open spec fn fanout_result_of(children: Stats, outcome: Outcome, role: Role) -> Stats {
    match outcome {
        Outcome::Done => children.merged(self_of(role)),
        Outcome::NotFound => children,
        Outcome::Failed => children.merged(failure_of()),
    }
}

/// The statistics of a fan-out removal: `children` is the merged result of every
/// child's task, and `outcome` is how removing the emptied directory ended.
pub fn fanout_result(children: Stats, outcome: Outcome, role: Role) -> (r: Stats)
    ensures
        r == fanout_result_of(children, outcome, role),
{
    let mut r = children;
    match outcome {
        Outcome::Done => {
            if let Role::Entry = role {
                r.increment_dirs();
            }
        },
        Outcome::NotFound => {},
        Outcome::Failed => r.increment_errors(),
    }
    r
}

} // verus!
