//! Scoring of commits: message metrics, classification, rules, a weighted
//! scorer with letter grades, and filters before and after scoring.

mod class;
mod commit;
mod config;
mod diff;
mod filter;
mod grade;
mod message;
mod metadata;
mod printer;
mod rule;
mod score;
mod scorer;
mod text;

pub use class::{CommitClass, CommitClasses};
pub use commit::{build_commit, CommitInfo};
pub use config::{create_post_filters, create_pre_filters, AppConfig};
pub use diff::DiffInfo;
pub use filter::{AuthorPreFilter, Filter, FilterChain, GradePostFilter, MergePreFilter, PreFilter};
pub use grade::{Grade, GradeSpec, GradeSpecError, Relation};
pub use message::MessageInfo;
pub use metadata::CommitMetadata;
pub use printer::{Printer, ScoreColor};
pub use rule::{
    AnyRule, BodyLenRule, BodyPresenceRule, BodyWrappingRule, MetadataLinesRule, Rule, RuleScore,
    SubjectBodyBreakRule, SubjectRule,
};
pub use score::Score;
pub use scorer::{ScoredCommit, Scorer, ScorerBuilder};
