//! The settings of a run, built from plain option values.

use vstd::prelude::*;

use crate::filter::{
    all_accept, AuthorPreFilter, Filter, FilterChain, GradePostFilter, MergePreFilter, PreFilter,
};
use crate::grade::{spec_matches, GradeSpec};
use crate::metadata::CommitMetadata;
use crate::score::Score;
use crate::scorer::ScoredCommit;

verus! {

/// The settings of a run, as values.
pub ghost struct AppConfigModel {
    pub pre_filters: Seq<PreFilter>,
    pub post_filters: Seq<GradePostFilter>,
    pub start_commit: Seq<char>,
    pub max_commits: Option<usize>,
    pub show_score: bool,
}

/// The settings of a run: which commits to show, from where, how many, and how.
pub struct AppConfig {
    pre_filters: FilterChain<PreFilter>,
    post_filters: FilterChain<GradePostFilter>,
    start_commit: String,
    max_commits: Option<usize>,
    show_score: bool,
}

impl View for AppConfig {
    type V = AppConfigModel;

    closed spec fn view(&self) -> AppConfigModel {
        AppConfigModel {
            pre_filters: self.pre_filters@,
            post_filters: self.post_filters@,
            start_commit: self.start_commit@,
            max_commits: self.max_commits,
            show_score: self.show_score,
        }
    }
}

/// What the pre-filters of a run let through: commits of `author`, if one
/// is given, and merges only when they are included.
pub open spec fn pre_filters_accept(
    author: Option<Seq<char>>,
    include_merges: bool,
    metadata: CommitMetadata,
) -> bool {
    &&& match author {
        Some(a) => metadata@.author == a,
        None => true,
    }
    &&& include_merges || metadata@.parents <= 1
}

/// What the post-filters of a run let through: every commit without a
/// grade spec; with one, ignored commits and those whose grade meets it.
pub open spec fn post_filters_accept(grades: Option<GradeSpec>, commit: ScoredCommit) -> bool {
    match grades {
        None => true,
        Some(spec) => match commit@.score {
            Score::Ignored => true,
            Score::Scored { grade, .. } => spec_matches(spec, grade),
        },
    }
}

/// The metadata filters: one on the author if one is given, and one that
/// drops merges unless they are included.
pub fn create_pre_filters(author: Option<&str>, include_merges: bool) -> (r: FilterChain<PreFilter>)
    ensures
        forall|m: CommitMetadata|
            all_accept(r@, &m) == pre_filters_accept(
                match author {
                    Some(a) => Some(a@),
                    None => None,
                },
                include_merges,
                m,
            ),
{
    let mut filters: Vec<PreFilter> = Vec::new();
    if let Some(a) = author {
        filters.push(PreFilter::Author(AuthorPreFilter::new(a)));
    }
    if !include_merges {
        filters.push(PreFilter::Merge(MergePreFilter));
    }
    let r = FilterChain::new(filters);
    assert forall|m: CommitMetadata|
        all_accept(r@, &m) == pre_filters_accept(
            match author {
                Some(a) => Some(a@),
                None => None,
            },
            include_merges,
            m,
        ) by {
        if let Some(a) = author {
            assert(r@[0].accepts(&m) == (m@.author == a@));
        }
        if !include_merges {
            assert(r@[r@.len() - 1].accepts(&m) == (m@.parents <= 1));
        }
    }
    r
}

/// The score filters: one on the grade if a grade spec is given.
pub fn create_post_filters(grades: Option<GradeSpec>) -> (r: FilterChain<GradePostFilter>)
    ensures
        forall|c: ScoredCommit| all_accept(r@, &c) == post_filters_accept(grades, c),
{
    let mut filters: Vec<GradePostFilter> = Vec::new();
    if let Some(spec) = grades {
        filters.push(GradePostFilter::new(spec));
    }
    let r = FilterChain::new(filters);
    assert forall|c: ScoredCommit| all_accept(r@, &c) == post_filters_accept(grades, c) by {
        if let Some(spec) = grades {
            assert(r@[0].accepts(&c) == post_filters_accept(grades, c));
        }
    }
    r
}

impl AppConfig {
    /// The settings for the given options.
    pub fn new(
        author: Option<&str>,
        grades: Option<GradeSpec>,
        include_merges: bool,
        start_commit: String,
        max_commits: Option<usize>,
        show_score: bool,
    ) -> (r: AppConfig)
        ensures
            forall|m: CommitMetadata|
                all_accept(r@.pre_filters, &m) == pre_filters_accept(
                    match author {
                        Some(a) => Some(a@),
                        None => None,
                    },
                    include_merges,
                    m,
                ),
            forall|c: ScoredCommit| all_accept(r@.post_filters, &c) == post_filters_accept(grades, c),
            r@.start_commit == start_commit@,
            r@.max_commits == max_commits,
            r@.show_score == show_score,
    {
        AppConfig {
            pre_filters: create_pre_filters(author, include_merges),
            post_filters: create_post_filters(grades),
            start_commit,
            max_commits,
            show_score,
        }
    }

    pub fn pre_filters(&self) -> (r: &FilterChain<PreFilter>)
        ensures
            r@ == self@.pre_filters,
    {
        &self.pre_filters
    }

    pub fn post_filters(&self) -> (r: &FilterChain<GradePostFilter>)
        ensures
            r@ == self@.post_filters,
    {
        &self.post_filters
    }

    pub fn max_commits(&self) -> (r: Option<usize>)
        ensures
            r == self@.max_commits,
    {
        self.max_commits
    }

    pub fn show_score(&self) -> (r: bool)
        ensures
            r == self@.show_score,
    {
        self.show_score
    }

    pub fn start_commit(&self) -> (r: &str)
        ensures
            r@ == self@.start_commit,
    {
        self.start_commit.as_str()
    }
}

} // verus!
