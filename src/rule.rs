//! The scoring rules: each judges one aspect of a commit with a value
//! between 0 and 1. Neither the rule's weight nor the scale of the final
//! score concerns it; the scorer takes care of both.

use vstd::prelude::*;

use crate::class::CommitClass;
use crate::commit::{CommitInfo, CommitModel};
use crate::text::{chars_of, count_words, word_count};

verus! {

/// A rule's rating: the fraction `num / den`.
#[derive(Clone, Copy, Debug, PartialEq, Eq, Structural)]
pub struct RuleScore {
    pub num: u64,
    pub den: u64,
}

impl RuleScore {
    /// A fraction between 0 and 1.
    pub open spec fn wf(self) -> bool {
        0 < self.den && self.num <= self.den
    }

    pub open spec fn of(num: nat, den: nat) -> RuleScore {
        RuleScore { num: num as u64, den: den as u64 }
    }
}

/// Longest subject, in characters, with a full score.
pub const SUBJECT_LONGEST_GOOD: usize = 70;

/// Subject length past which a subject gets no score at all.
pub const SUBJECT_LONGEST: usize = 100;

/// Special commits (short, refactoring and initial ones) are judged in a
/// relaxed way by several rules.
pub open spec fn is_special(c: CommitModel) -> bool {
    ||| c.classes.contains(CommitClass::ShortCommit)
    ||| c.classes.contains(CommitClass::RefactorCommit)
    ||| c.classes.contains(CommitClass::InitialCommit)
}

/// The subject, or nothing.
pub open spec fn subject_of(c: CommitModel) -> Seq<char> {
    match c.msg.subject {
        Some(s) => s,
        None => Seq::empty(),
    }
}

/// The score of a subject of `len` characters, in hundredths: none up to 10,
/// a ramp up to 20, full from 21 to 70, then a slow decline that ends at 100.
pub open spec fn subject_length_score(len: nat) -> nat {
    if len <= 10 {
        0
    } else if len <= 20 {
        (10 * (len - 10)) as nat
    } else if len <= SUBJECT_LONGEST_GOOD {
        100
    } else if len <= SUBJECT_LONGEST {
        (100 - len) as nat
    } else {
        0
    }
}

/// Initial commits are forgiven their traditional short subject; a subject
/// of one word at most (a bare ticket id) gets nothing; otherwise its length decides.
pub open spec fn subject_rating(c: CommitModel) -> RuleScore {
    if c.classes.contains(CommitClass::InitialCommit) {
        RuleScore::of(100, 100)
    } else if word_count(subject_of(c)) <= 1 {
        RuleScore::of(0, 100)
    } else {
        RuleScore::of(subject_length_score(subject_of(c).len()), 100)
    }
}

/// Full score with a body, or for a special commit.
pub open spec fn body_presence_rating(c: CommitModel) -> RuleScore {
    if c.msg.body_len > 0 || is_special(c) {
        RuleScore::of(1, 1)
    } else {
        RuleScore::of(0, 1)
    }
}

/// With a body, full score iff an empty line separates it from the subject;
/// without one, full score iff the commit is special.
pub open spec fn subject_body_break_rating(c: CommitModel) -> RuleScore {
    if c.msg.body_len > 0 {
        if c.msg.break_after_subject {
            RuleScore::of(1, 1)
        } else {
            RuleScore::of(0, 1)
        }
    } else if is_special(c) {
        RuleScore::of(1, 1)
    } else {
        RuleScore::of(0, 1)
    }
}

/// `ln(body_len + 1) / ln(diff_total)` in thousandths (`body_log_ratio`),
/// capped at 1; full score for a special commit or one without a diff.
pub open spec fn body_len_rating(c: CommitModel, body_log_ratio: nat) -> RuleScore {
    if is_special(c) {
        RuleScore::of(1, 1)
    } else if c.diff is None {
        RuleScore::of(1, 1)
    } else if body_log_ratio > 1000 {
        RuleScore::of(1000, 1000)
    } else {
        RuleScore::of(body_log_ratio, 1000)
    }
}

/// The share of wrapped body lines; without a body, full score iff the
/// commit is special.
pub open spec fn body_wrapping_rating(c: CommitModel) -> RuleScore {
    if c.msg.body_lines == 0 {
        if is_special(c) {
            RuleScore::of(1, 1)
        } else {
            RuleScore::of(0, 1)
        }
    } else {
        RuleScore::of(
            (c.msg.body_lines - c.msg.body_unwrapped_lines) as nat,
            c.msg.body_lines,
        )
    }
}

/// A small bonus for trailer lines: 0, 0.6, 0.8, then 1 from three lines on.
pub open spec fn metadata_lines_rating(c: CommitModel) -> RuleScore {
    if c.msg.metadata_lines == 0 {
        RuleScore::of(0, 10)
    } else if c.msg.metadata_lines == 1 {
        RuleScore::of(6, 10)
    } else if c.msg.metadata_lines == 2 {
        RuleScore::of(8, 10)
    } else {
        RuleScore::of(10, 10)
    }
}

/// A scoring rule: it judges one aspect of a commit's quality.
///
/// `body_log_ratio` is `ln(body_len + 1) / ln(diff_total)` in thousandths,
/// as the caller measured it; only the body length rule reads it.
pub trait Rule {
    /// The rule's rating of the commit `c`.
    spec fn rating(&self, c: CommitModel, body_log_ratio: nat) -> RuleScore;

    fn score(&self, commit: &CommitInfo, body_log_ratio: u64) -> (r: RuleScore)
        ensures
            r == self.rating(commit@, body_log_ratio as nat),
            r.wf(),
    ;
}

fn special(commit: &CommitInfo) -> (r: bool)
    ensures
        r == is_special(commit@),
{
    let classes = commit.classes();
    classes.contains(CommitClass::ShortCommit) || classes.contains(CommitClass::RefactorCommit)
        || classes.contains(CommitClass::InitialCommit)
}

/// The subject (the first message line) must be there, long enough to
/// mean something and short enough for one-line logs.
#[derive(Clone, Copy, Debug)]
pub struct SubjectRule;

impl Rule for SubjectRule {
    open spec fn rating(&self, c: CommitModel, body_log_ratio: nat) -> RuleScore {
        subject_rating(c)
    }

    fn score(&self, commit: &CommitInfo, body_log_ratio: u64) -> (r: RuleScore) {
        if commit.classes().contains(CommitClass::InitialCommit) {
            return RuleScore { num: 100, den: 100 };
        }
        let subject = match commit.msg_info().subject() {
            Some(s) => s,
            None => "",
        };
        proof {
            reveal_strlit("");
        }
        if count_words(subject) <= 1 {
            return RuleScore { num: 0, den: 100 };
        }
        let len = chars_of(subject).len();
        let num: u64 = if len <= 10 {
            0
        } else if len <= 20 {
            10 * (len as u64 - 10)
        } else if len <= SUBJECT_LONGEST_GOOD {
            100
        } else if len <= SUBJECT_LONGEST {
            100 - len as u64
        } else {
            0
        };
        RuleScore { num, den: 100 }
    }
}

/// The commit has a body at all; special commits may do without.
#[derive(Clone, Copy, Debug)]
pub struct BodyPresenceRule;

impl Rule for BodyPresenceRule {
    open spec fn rating(&self, c: CommitModel, body_log_ratio: nat) -> RuleScore {
        body_presence_rating(c)
    }

    fn score(&self, commit: &CommitInfo, body_log_ratio: u64) -> (r: RuleScore) {
        if commit.msg_info().body_len() > 0 || special(commit) {
            RuleScore { num: 1, den: 1 }
        } else {
            RuleScore { num: 0, den: 1 }
        }
    }
}

/// Subject and body stand in separate paragraphs. Non-special commits
/// without a body are penalized here too, on purpose.
#[derive(Clone, Copy, Debug)]
pub struct SubjectBodyBreakRule;

impl Rule for SubjectBodyBreakRule {
    open spec fn rating(&self, c: CommitModel, body_log_ratio: nat) -> RuleScore {
        subject_body_break_rating(c)
    }

    fn score(&self, commit: &CommitInfo, body_log_ratio: u64) -> (r: RuleScore) {
        let msg_info = commit.msg_info();
        if msg_info.body_len() > 0 {
            if msg_info.break_after_subject() {
                RuleScore { num: 1, den: 1 }
            } else {
                RuleScore { num: 0, den: 1 }
            }
        } else if special(commit) {
            RuleScore { num: 1, den: 1 }
        } else {
            RuleScore { num: 0, den: 1 }
        }
    }
}

/// The longer the diff, the longer its explanation should be, though far
/// from linearly.
#[derive(Clone, Copy, Debug)]
pub struct BodyLenRule;

impl Rule for BodyLenRule {
    open spec fn rating(&self, c: CommitModel, body_log_ratio: nat) -> RuleScore {
        body_len_rating(c, body_log_ratio)
    }

    fn score(&self, commit: &CommitInfo, body_log_ratio: u64) -> (r: RuleScore) {
        if special(commit) {
            return RuleScore { num: 1, den: 1 };
        }
        if commit.diff_info().is_none() {
            // Only merge commits lack a diff, and they are never scored.
            return RuleScore { num: 1, den: 1 };
        }
        if body_log_ratio > 1000 {
            RuleScore { num: 1000, den: 1000 }
        } else {
            RuleScore { num: body_log_ratio, den: 1000 }
        }
    }
}

/// Body lines are wrapped; the score is the share of wrapped lines, so a
/// pasted log in an otherwise good message still leaves some.
#[derive(Clone, Copy, Debug)]
pub struct BodyWrappingRule;

impl Rule for BodyWrappingRule {
    open spec fn rating(&self, c: CommitModel, body_log_ratio: nat) -> RuleScore {
        body_wrapping_rating(c)
    }

    fn score(&self, commit: &CommitInfo, body_log_ratio: u64) -> (r: RuleScore) {
        let msg_info = commit.msg_info();
        let body_lines = msg_info.body_lines();
        if body_lines == 0 {
            if special(commit) {
                return RuleScore { num: 1, den: 1 };
            } else {
                return RuleScore { num: 0, den: 1 };
            }
        }
        let lines_unwrapped = msg_info.body_unwrapped_lines();
        RuleScore { num: (body_lines - lines_unwrapped) as u64, den: body_lines as u64 }
    }
}

/// A little bonus for well-known trailer lines, which may lift a commit
/// close to a grade boundary over it.
#[derive(Clone, Copy, Debug)]
pub struct MetadataLinesRule;

impl Rule for MetadataLinesRule {
    open spec fn rating(&self, c: CommitModel, body_log_ratio: nat) -> RuleScore {
        metadata_lines_rating(c)
    }

    fn score(&self, commit: &CommitInfo, body_log_ratio: u64) -> (r: RuleScore) {
        match commit.msg_info().metadata_lines() {
            0 => RuleScore { num: 0, den: 10 },
            1 => RuleScore { num: 6, den: 10 },
            2 => RuleScore { num: 8, den: 10 },
            _ => RuleScore { num: 10, den: 10 },
        }
    }
}

/// The rules that a scorer can hold.
#[derive(Clone, Copy, Debug)]
pub enum AnyRule {
    Subject(SubjectRule),
    BodyPresence(BodyPresenceRule),
    SubjectBodyBreak(SubjectBodyBreakRule),
    BodyLen(BodyLenRule),
    BodyWrapping(BodyWrappingRule),
    MetadataLines(MetadataLinesRule),
}

impl Rule for AnyRule {
    open spec fn rating(&self, c: CommitModel, body_log_ratio: nat) -> RuleScore {
        match self {
            AnyRule::Subject(r) => r.rating(c, body_log_ratio),
            AnyRule::BodyPresence(r) => r.rating(c, body_log_ratio),
            AnyRule::SubjectBodyBreak(r) => r.rating(c, body_log_ratio),
            AnyRule::BodyLen(r) => r.rating(c, body_log_ratio),
            AnyRule::BodyWrapping(r) => r.rating(c, body_log_ratio),
            AnyRule::MetadataLines(r) => r.rating(c, body_log_ratio),
        }
    }

    fn score(&self, commit: &CommitInfo, body_log_ratio: u64) -> (r: RuleScore) {
        match self {
            AnyRule::Subject(r) => r.score(commit, body_log_ratio),
            AnyRule::BodyPresence(r) => r.score(commit, body_log_ratio),
            AnyRule::SubjectBodyBreak(r) => r.score(commit, body_log_ratio),
            AnyRule::BodyLen(r) => r.score(commit, body_log_ratio),
            AnyRule::BodyWrapping(r) => r.score(commit, body_log_ratio),
            AnyRule::MetadataLines(r) => r.score(commit, body_log_ratio),
        }
    }
}

} // verus!
