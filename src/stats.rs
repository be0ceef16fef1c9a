use vstd::prelude::*;

verus! {

/// A counter value clamped to what a `u64` can hold: counters saturate and never wrap,
/// so they only ever increase during a run.
pub open spec fn sat(n: nat) -> nat {
    if n > u64::MAX {
        u64::MAX as nat
    } else {
        n
    }
}

/// Aggregate statistics of a deletion run, or of one part of it.
///
/// Each concurrent task builds its own `Stats` and the parts are combined with
/// [`Stats::merge`]; the merge is commutative and associative, so the total does not
/// depend on how the work was split across threads or in which order parts were joined.
#[derive(Clone, Copy, Debug, PartialEq, Eq, Structural)]
pub struct Stats {
    pub files_deleted: u64,
    pub dirs_deleted: u64,
    pub bytes_deleted: u64,
    pub errors: u64,
}

impl Stats {
    /// Statistics with every counter at zero.
    pub open spec fn zero() -> Stats {
        Stats { files_deleted: 0, dirs_deleted: 0, bytes_deleted: 0, errors: 0 }
    }

    /// Statistics holding the given exact counts, each clamped to the counter range.
    pub open spec fn counted(files: nat, dirs: nat, bytes: nat, errors: nat) -> Stats {
        Stats {
            files_deleted: sat(files) as u64,
            dirs_deleted: sat(dirs) as u64,
            bytes_deleted: sat(bytes) as u64,
            errors: sat(errors) as u64,
        }
    }

    /// The counter-wise saturating sum of two parts.
    pub open spec fn merged(self, o: Stats) -> Stats {
        Stats::counted(
            (self.files_deleted + o.files_deleted) as nat,
            (self.dirs_deleted + o.dirs_deleted) as nat,
            (self.bytes_deleted + o.bytes_deleted) as nat,
            (self.errors + o.errors) as nat,
        )
    }

    pub fn new() -> (r: Stats)
        ensures
            r == Stats::zero(),
    {
        Stats { files_deleted: 0, dirs_deleted: 0, bytes_deleted: 0, errors: 0 }
    }

    /// One more file (or symlink, or other non-directory entry) deleted.
    pub fn increment_files(&mut self)
        ensures
            *final(self) == old(self).merged(Stats::counted(1, 0, 0, 0)),
    {
        self.files_deleted = self.files_deleted.saturating_add(1);
    }

    /// One more empty directory removed.
    pub fn increment_dirs(&mut self)
        ensures
            *final(self) == old(self).merged(Stats::counted(0, 1, 0, 0)),
    {
        self.dirs_deleted = self.dirs_deleted.saturating_add(1);
    }

    /// `bytes` more bytes reclaimed.
    pub fn add_bytes(&mut self, bytes: u64)
        ensures
            *final(self) == old(self).merged(Stats::counted(0, 0, bytes as nat, 0)),
    {
        self.bytes_deleted = self.bytes_deleted.saturating_add(bytes);
    }

    /// One more failed operation.
    pub fn increment_errors(&mut self)
        ensures
            *final(self) == old(self).merged(Stats::counted(0, 0, 0, 1)),
    {
        self.errors = self.errors.saturating_add(1);
    }

    /// Combines the statistics of two independent parts of a run.
    pub fn merge(&self, o: &Stats) -> (r: Stats)
        ensures
            r == self.merged(*o),
    {
        Stats {
            files_deleted: self.files_deleted.saturating_add(o.files_deleted),
            dirs_deleted: self.dirs_deleted.saturating_add(o.dirs_deleted),
            bytes_deleted: self.bytes_deleted.saturating_add(o.bytes_deleted),
            errors: self.errors.saturating_add(o.errors),
        }
    }
}

/// Clamping part of a sum first does not change the clamped total.
pub proof fn lemma_sat_absorbs(a: nat, b: nat)
    ensures
        sat(sat(a) + b) == sat(a + b),
        sat(a + sat(b)) == sat(a + b),
{
}

/// Merging exact counts gives the clamped exact sums.
pub proof fn lemma_merge_counted(
    f1: nat, d1: nat, b1: nat, e1: nat,
    f2: nat, d2: nat, b2: nat, e2: nat,
)
    ensures
        Stats::counted(f1, d1, b1, e1).merged(Stats::counted(f2, d2, b2, e2))
            == Stats::counted(f1 + f2, d1 + d2, b1 + b2, e1 + e2),
{
    lemma_sat_absorbs(f1, f2);
    lemma_sat_absorbs(sat(f1), f2);
    lemma_sat_absorbs(d1, d2);
    lemma_sat_absorbs(sat(d1), d2);
    lemma_sat_absorbs(b1, b2);
    lemma_sat_absorbs(sat(b1), b2);
    lemma_sat_absorbs(e1, e2);
    lemma_sat_absorbs(sat(e1), e2);
}

/// Every `Stats` value is the clamped form of its own counters.
pub proof fn lemma_counted_self(s: Stats)
    ensures
        s == Stats::counted(
            s.files_deleted as nat,
            s.dirs_deleted as nat,
            s.bytes_deleted as nat,
            s.errors as nat,
        ),
{
}

/// Law: the order in which two parts are merged does not matter.
pub proof fn lemma_merge_commutative(a: Stats, b: Stats)
    ensures
        a.merged(b) == b.merged(a),
{
}

/// Law: how parts are grouped when merged does not matter, so any split of the
/// work across threads and any join tree yields the same totals.
pub proof fn lemma_merge_associative(a: Stats, b: Stats, c: Stats)
    ensures
        a.merged(b).merged(c) == a.merged(b.merged(c)),
{
    lemma_counted_self(a);
    lemma_counted_self(b);
    lemma_counted_self(c);
    lemma_merge_counted(
        a.files_deleted as nat, a.dirs_deleted as nat, a.bytes_deleted as nat, a.errors as nat,
        b.files_deleted as nat, b.dirs_deleted as nat, b.bytes_deleted as nat, b.errors as nat,
    );
    lemma_merge_counted(
        b.files_deleted as nat, b.dirs_deleted as nat, b.bytes_deleted as nat, b.errors as nat,
        c.files_deleted as nat, c.dirs_deleted as nat, c.bytes_deleted as nat, c.errors as nat,
    );
    lemma_merge_counted(
        (a.files_deleted + b.files_deleted) as nat,
        (a.dirs_deleted + b.dirs_deleted) as nat,
        (a.bytes_deleted + b.bytes_deleted) as nat,
        (a.errors + b.errors) as nat,
        c.files_deleted as nat, c.dirs_deleted as nat, c.bytes_deleted as nat, c.errors as nat,
    );
    lemma_merge_counted(
        a.files_deleted as nat, a.dirs_deleted as nat, a.bytes_deleted as nat, a.errors as nat,
        (b.files_deleted + c.files_deleted) as nat,
        (b.dirs_deleted + c.dirs_deleted) as nat,
        (b.bytes_deleted + c.bytes_deleted) as nat,
        (b.errors + c.errors) as nat,
    );
}

/// Law: an empty part changes nothing when merged.
pub proof fn lemma_merge_identity(a: Stats)
    ensures
        a.merged(Stats::zero()) == a,
        Stats::zero().merged(a) == a,
{
}

} // verus!
