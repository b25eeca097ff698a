//! Line statistics of a commit's diff.

use vstd::prelude::*;

verus! {

/// Insertions and deletions of a diff, as values.
pub ghost struct DiffModel {
    pub insertions: nat,
    pub deletions: nat,
}

impl DiffModel {
    /// All changed lines.
    pub open spec fn total(self) -> nat {
        self.insertions + self.deletions
    }
}

/// Statistics of a specific diff.
pub struct DiffInfo {
    insertions: usize,
    deletions: usize,
    diff_total: usize,
}

impl View for DiffInfo {
    type V = DiffModel;

    closed spec fn view(&self) -> DiffModel {
        DiffModel { insertions: self.insertions as nat, deletions: self.deletions as nat }
    }
}

impl DiffInfo {
    #[verifier::type_invariant]
    spec fn wf(&self) -> bool {
        self.diff_total == self.insertions + self.deletions
    }

    pub fn new(insertions: usize, deletions: usize) -> (r: DiffInfo)
        requires
            insertions + deletions <= usize::MAX,
        ensures
            r@ == (DiffModel { insertions: insertions as nat, deletions: deletions as nat }),
    {
        DiffInfo { insertions, deletions, diff_total: insertions + deletions }
    }

    pub fn insertions(&self) -> (r: usize)
        ensures
            r == self@.insertions,
    {
        self.insertions
    }

    pub fn deletions(&self) -> (r: usize)
        ensures
            r == self@.deletions,
    {
        self.deletions
    }

    pub fn diff_total(&self) -> (r: usize)
        ensures
            r == self@.total(),
    {
        proof {
            use_type_invariant(self);
        }
        self.diff_total
    }
}

} // verus!
