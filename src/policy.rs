use vstd::prelude::*;

verus! {

/// Default number of probed entries from which a directory counts as large.
pub const LARGE_DIR_THRESHOLD: usize = 100;

/// Default bound on the number of entries a size probe looks at.
pub const PROBE_CAP: usize = 1000;

/// Whether a directory is deleted in one bulk call or by fanning out over its children.
#[derive(Clone, Copy, Debug, PartialEq, Eq, Structural)]
pub enum SizeClass {
    Small,
    Large,
}

/// The tuning knobs of the hybrid deletion policy.
#[derive(Clone, Copy, Debug, PartialEq, Eq, Structural)]
pub struct Policy {
    /// A directory whose probe counts at least this many entries is large.
    pub large_threshold: usize,
    /// The probe stops once it has counted more than this many entries.
    pub probe_cap: usize,
}

impl Policy {
    /// The default policy: large from 100 probed entries, probe capped at 1000.
    pub fn new() -> (r: Policy)
        ensures
            r.large_threshold == LARGE_DIR_THRESHOLD,
            r.probe_cap == PROBE_CAP,
    {
        Policy { large_threshold: LARGE_DIR_THRESHOLD, probe_cap: PROBE_CAP }
    }

    pub open spec fn class_of(self, probed: nat) -> SizeClass {
        if probed < self.large_threshold {
            SizeClass::Small
        } else {
            SizeClass::Large
        }
    }

    /// Classifies a directory by the entry count its probe reported.
    pub fn classify(&self, probed: usize) -> (r: SizeClass)
        ensures
            r == self.class_of(probed as nat),
            r == SizeClass::Small <==> probed < self.large_threshold,
    {
        if probed < self.large_threshold {
            SizeClass::Small
        } else {
            SizeClass::Large
        }
    }
}

} // verus!
