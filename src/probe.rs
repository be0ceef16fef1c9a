use vstd::prelude::*;

verus! {

/// One entry met while probing a directory listing.
#[derive(Clone, Copy, Debug, PartialEq, Eq, Structural)]
pub enum ProbeEntry {
    /// The listing could not produce this entry: it is dropped from the estimate.
    Unlisted,
    /// The entry was listed but its file type could not be read: it is counted and
    /// not descended into.
    Untyped,
    /// A non-directory entry.
    NonDir,
    /// A directory, known to the caller under `id`, to be probed in turn.
    Dir { id: usize },
}

/// A bounded estimate of how many entries a directory tree holds.
///
/// The probe walks depth first with an explicit stack of pending directories (named by
/// caller-chosen ids). The caller lists each directory that [`Probe::next_dir`] hands
/// out and feeds its entries to [`Probe::record`]. Once more than `cap` entries have
/// been counted the probe stops: the estimate only has to tell small from large.
#[derive(Debug)]
pub struct Probe {
    pub count: usize,
    pub cap: usize,
    pub pending: Vec<usize>,
}

impl Probe {
    /// The probe has seen enough entries to stop.
    pub open spec fn saturated(&self) -> bool {
        self.count > self.cap
    }

    /// A probe of the tree rooted at the directory `root`.
    pub fn new(root: usize, cap: usize) -> (r: Probe)
        ensures
            r.count == 0,
            r.cap == cap,
            r.pending@ == seq![root],
    {
        let mut pending: Vec<usize> = Vec::new();
        pending.push(root);
        Probe { count: 0, cap, pending }
    }

    /// The next directory to list, taken from the top of the stack; `None` once the
    /// probe is saturated or no directory is left.
    pub fn next_dir(&mut self) -> (r: Option<usize>)
        ensures
            old(self).saturated() || old(self).pending@.len() == 0 ==> {
                &&& r is None
                &&& final(self).count == old(self).count
                &&& final(self).cap == old(self).cap
                &&& final(self).pending@ == old(self).pending@
            },
            !old(self).saturated() && old(self).pending@.len() > 0 ==> {
                &&& r == Some(old(self).pending@.last())
                &&& final(self).pending@ == old(self).pending@.drop_last()
                &&& final(self).count == old(self).count
                &&& final(self).cap == old(self).cap
            },
    {
        if self.count > self.cap {
            None
        } else {
            self.pending.pop()
        }
    }

    /// Feeds one listed entry to the probe. Returns whether the caller should go on
    /// reading the current listing.
    pub fn record(&mut self, e: ProbeEntry) -> (more: bool)
        requires
            old(self).cap < usize::MAX,
        ensures
            final(self).cap == old(self).cap,
            more == !final(self).saturated(),
            old(self).saturated() || e is Unlisted ==> *final(self) == *old(self),
            !old(self).saturated() && !(e is Unlisted) ==> {
                &&& final(self).count == old(self).count + 1
                &&& final(self).pending@ == if e is Dir && !final(self).saturated() {
                    old(self).pending@.push(e->id)
                } else {
                    old(self).pending@
                }
            },
    {
        if self.count > self.cap {
            return false;
        }
        match e {
            ProbeEntry::Unlisted => true,
            _ => {
                self.count = self.count + 1;
                if self.count > self.cap {
                    false
                } else {
                    if let ProbeEntry::Dir { id } = e {
                        self.pending.push(id);
                    }
                    true
                }
            },
        }
    }
}

} // verus!
