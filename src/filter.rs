//! Filters that drop commits: pre-filters on metadata, before any parsing
//! or diffing, and post-filters on the scored commit.

use vstd::prelude::*;

use crate::grade::{spec_matches, GradeSpec};
use crate::metadata::CommitMetadata;
use crate::score::Score;
use crate::scorer::ScoredCommit;
use crate::text::str_eq;

verus! {

/// A single commit filter. Filters apply at different stages of the
/// pipeline; a stage's descriptor holds what its filters may inspect.
pub trait Filter {
    type Descriptor;

    /// Whether the filter lets `descriptor` through.
    spec fn accepts(&self, descriptor: &Self::Descriptor) -> bool;

    fn accept(&self, descriptor: &Self::Descriptor) -> (r: bool)
        ensures
            r == self.accepts(descriptor),
    ;
}

/// Whether each of `filters` accepts `descriptor`.
pub open spec fn all_accept<F: Filter>(filters: Seq<F>, descriptor: &F::Descriptor) -> bool {
    forall|i: int| 0 <= i < filters.len() ==> #[trigger] filters[i].accepts(descriptor)
}

/// Filters of one stage, applied in order; a descriptor passes the chain
/// iff it passes each of them.
pub struct FilterChain<F> {
    filters: Vec<F>,
}

impl<F> View for FilterChain<F> {
    type V = Seq<F>;

    closed spec fn view(&self) -> Seq<F> {
        self.filters@
    }
}

impl<F: Filter> FilterChain<F> {
    pub fn new(filters: Vec<F>) -> (r: FilterChain<F>)
        ensures
            r@ == filters@,
    {
        FilterChain { filters }
    }

    /// Whether every filter accepts `descriptor`; stops at the first that does not.
    pub fn accept(&self, descriptor: &F::Descriptor) -> (r: bool)
        ensures
            r == all_accept(self@, descriptor),
    {
        let n = self.filters.len();
        let mut i: usize = 0;
        while i < n
            invariant
                i <= n,
                n == self@.len(),
                forall|j: int| 0 <= j < i ==> #[trigger] self@[j].accepts(descriptor),
            decreases n - i,
        {
            if !self.filters[i].accept(descriptor) {
                return false;
            }
            i = i + 1;
        }
        true
    }
}

/// Accepts only commits of one author.
pub struct AuthorPreFilter {
    author: String,
}

impl AuthorPreFilter {
    pub fn new(author: &str) -> (r: AuthorPreFilter)
        ensures
            r.author() == author@,
    {
        AuthorPreFilter { author: author.to_owned() }
    }

    /// The author that this filter lets through.
    pub closed spec fn author(&self) -> Seq<char> {
        self.author@
    }
}

impl Filter for AuthorPreFilter {
    type Descriptor = CommitMetadata;

    open spec fn accepts(&self, metadata: &CommitMetadata) -> bool {
        metadata@.author == self.author()
    }

    fn accept(&self, metadata: &CommitMetadata) -> (r: bool) {
        str_eq(self.author.as_str(), metadata.author())
    }
}

/// Accepts only commits that are not merges (at most one parent).
#[derive(Clone, Copy, Debug)]
pub struct MergePreFilter;

impl Filter for MergePreFilter {
    type Descriptor = CommitMetadata;

    open spec fn accepts(&self, metadata: &CommitMetadata) -> bool {
        metadata@.parents <= 1
    }

    fn accept(&self, metadata: &CommitMetadata) -> (r: bool) {
        metadata.parents() <= 1
    }
}

/// The filters of the metadata stage.
pub enum PreFilter {
    Author(AuthorPreFilter),
    Merge(MergePreFilter),
}

impl Filter for PreFilter {
    type Descriptor = CommitMetadata;

    open spec fn accepts(&self, metadata: &CommitMetadata) -> bool {
        match self {
            PreFilter::Author(f) => f.accepts(metadata),
            PreFilter::Merge(f) => f.accepts(metadata),
        }
    }

    fn accept(&self, metadata: &CommitMetadata) -> (r: bool) {
        match self {
            PreFilter::Author(f) => f.accept(metadata),
            PreFilter::Merge(f) => f.accept(metadata),
        }
    }
}

/// Drops scored commits whose grade does not meet a spec; ignored
/// commits always pass.
#[derive(Clone, Copy, Debug)]
pub struct GradePostFilter {
    spec: GradeSpec,
}

impl GradePostFilter {
    pub fn new(spec: GradeSpec) -> (r: GradePostFilter)
        ensures
            r.spec() == spec,
    {
        GradePostFilter { spec }
    }

    pub closed spec fn spec(&self) -> GradeSpec {
        self.spec
    }
}

impl Filter for GradePostFilter {
    type Descriptor = ScoredCommit;

    open spec fn accepts(&self, commit: &ScoredCommit) -> bool {
        match commit@.score {
            Score::Ignored => true,
            Score::Scored { grade, .. } => spec_matches(self.spec(), grade),
        }
    }

    fn accept(&self, commit: &ScoredCommit) -> (r: bool) {
        match commit.score() {
            Score::Ignored => true,
            Score::Scored { grade, .. } => self.spec.matches(grade),
        }
    }
}

} // verus!
