//! Classes of commits that the scoring rules treat specially.

use vstd::prelude::*;

use crate::diff::{DiffInfo, DiffModel};
use crate::message::{MessageInfo, MessageModel};
use crate::metadata::{CommitMetadata, MetadataModel};
use crate::text::push_chars;

verus! {

/// Maximum diff size (lines total) below which a commit is short.
pub const SHORT_COMMIT_LENGTH: usize = 25;

/// Refactoring commits may differ in insertions and deletions by
/// `1 / REFACTOR_ALLOWED_DIFF_DIVISOR` (5%) of the whole diff, so that moves
/// which also fix imports and the like still count.
pub const REFACTOR_ALLOWED_DIFF_DIVISOR: usize = 20;

/// Commits of a different nature need special treatment even where their
/// diff or message looks like that of any other commit.
#[derive(Clone, Copy, Debug, PartialEq, Eq, Structural)]
pub enum CommitClass {
    /// A commit with two or more parents; it is not scored.
    MergeCommit,
    /// A commit without parents: "Initial commit" with a huge diff is usual.
    InitialCommit,
    /// A small change (a version bump, a typo) that needs no explanation.
    ShortCommit,
    /// A rename or a move: long, but a subject line says it all.
    RefactorCommit,
}

/// Whether `subject` holds one of the words "move", "moved", "rename" or
/// "renamed", in any case, as a whole word.
pub uninterp spec fn names_move_or_rename(subject: Seq<char>) -> bool;

/// Relies on `regex::Regex::new`, which compiles this fixed and valid pattern,
/// and on `Regex::is_match`, which tells whether it matches anywhere in `subject`.
#[verifier::external_body]
fn mentions_move_or_rename(subject: &str) -> (r: bool)
    ensures
        r == names_move_or_rename(subject@),
{
    regex::Regex::new(r"(?i)(\bmoved?\b)|(\brenamed?\b)").unwrap().is_match(subject)
}

/// The difference between deletions and insertions.
pub open spec fn ins_del_gap(d: DiffModel) -> nat {
    if d.deletions >= d.insertions {
        (d.deletions - d.insertions) as nat
    } else {
        (d.insertions - d.deletions) as nat
    }
}

/// The gap that a refactoring may show: 5% of the diff, rounded down.
pub open spec fn refactor_allowance(d: DiffModel) -> nat {
    d.total() / (REFACTOR_ALLOWED_DIFF_DIVISOR as nat)
}

/// Whether the subject of `msg` names a move or a rename.
pub open spec fn subject_names_move(msg: MessageModel) -> bool {
    match msg.subject {
        Some(s) => names_move_or_rename(s),
        None => false,
    }
}

/// A refactoring: the gap is small, and there is a subject that names a
/// move or a rename (`names_move` says whether it does).
pub open spec fn is_refactor_given(d: DiffModel, msg: MessageModel, names_move: bool) -> bool {
    &&& ins_del_gap(d) <= refactor_allowance(d)
    &&& msg.subject is Some
    &&& names_move
}

/// The classes of a commit with a diff, where `names_move` tells whether
/// its subject names a move or a rename.
pub open spec fn classify_given(
    m: MetadataModel,
    d: DiffModel,
    msg: MessageModel,
    names_move: bool,
) -> Set<CommitClass> {
    Set::new(
        |c: CommitClass|
            match c {
                CommitClass::MergeCommit => false,
                CommitClass::InitialCommit => m.parents == 0,
                CommitClass::ShortCommit => d.total() < SHORT_COMMIT_LENGTH,
                CommitClass::RefactorCommit => is_refactor_given(d, msg, names_move),
            },
    )
}

/// The classes of a commit with a diff.
pub open spec fn classify(m: MetadataModel, d: DiffModel, msg: MessageModel) -> Set<CommitClass> {
    classify_given(m, d, msg, subject_names_move(msg))
}

/// The one-letter tags of `s`, in the order M, I, S, R.
pub open spec fn render_classes(s: Set<CommitClass>) -> Seq<char> {
    (if s.contains(CommitClass::MergeCommit) { seq!['M'] } else { Seq::empty() }) + (if s.contains(
        CommitClass::InitialCommit,
    ) {
        seq!['I']
    } else {
        Seq::empty()
    }) + (if s.contains(CommitClass::ShortCommit) { seq!['S'] } else { Seq::empty() }) + (
    if s.contains(CommitClass::RefactorCommit) {
        seq!['R']
    } else {
        Seq::empty()
    })
}

/// A set of commit classes.
#[derive(Clone, Copy, Debug)]
pub struct CommitClasses {
    merge: bool,
    initial: bool,
    short: bool,
    refactor: bool,
}

impl View for CommitClasses {
    type V = Set<CommitClass>;

    closed spec fn view(&self) -> Set<CommitClass> {
        Set::new(
            |c: CommitClass|
                match c {
                    CommitClass::MergeCommit => self.merge,
                    CommitClass::InitialCommit => self.initial,
                    CommitClass::ShortCommit => self.short,
                    CommitClass::RefactorCommit => self.refactor,
                },
        )
    }
}

impl CommitClasses {
    /// The empty set.
    pub fn new() -> (r: CommitClasses)
        ensures
            r@ == Set::<CommitClass>::empty(),
    {
        let r = CommitClasses { merge: false, initial: false, short: false, refactor: false };
        assert(r@ =~= Set::<CommitClass>::empty());
        r
    }

    pub fn insert(&mut self, class: CommitClass)
        ensures
            final(self)@ == old(self)@.insert(class),
    {
        match class {
            CommitClass::MergeCommit => self.merge = true,
            CommitClass::InitialCommit => self.initial = true,
            CommitClass::ShortCommit => self.short = true,
            CommitClass::RefactorCommit => self.refactor = true,
        }
        assert(self@ =~= old(self)@.insert(class));
    }

    pub fn contains(&self, class: CommitClass) -> (r: bool)
        ensures
            r == self@.contains(class),
    {
        match class {
            CommitClass::MergeCommit => self.merge,
            CommitClass::InitialCommit => self.initial,
            CommitClass::ShortCommit => self.short,
            CommitClass::RefactorCommit => self.refactor,
        }
    }

    pub fn is_empty(&self) -> (r: bool)
        ensures
            r == (self@ == Set::<CommitClass>::empty()),
    {
        let r = !self.merge && !self.initial && !self.short && !self.refactor;
        if !r {
            assert(self@.contains(CommitClass::MergeCommit) || self@.contains(
                CommitClass::InitialCommit,
            ) || self@.contains(CommitClass::ShortCommit) || self@.contains(
                CommitClass::RefactorCommit,
            ));
        } else {
            assert(self@ =~= Set::<CommitClass>::empty());
        }
        r
    }

    /// The classes as one letter each: `M`, `I`, `S`, `R`, in that order.
    pub fn to_string(&self) -> (r: String)
        ensures
            r@ == render_classes(self@),
    {
        let mut r = String::new();
        if self.merge {
            push_chars(&mut r, &['M']);
        }
        if self.initial {
            push_chars(&mut r, &['I']);
        }
        if self.short {
            push_chars(&mut r, &['S']);
        }
        if self.refactor {
            push_chars(&mut r, &['R']);
        }
        assert(r@ =~= render_classes(self@));
        r
    }

    /// Classifies a commit that has a diff. Merge commits have none and
    /// are never classified here.
    pub fn classify_commit(
        metadata: &CommitMetadata,
        diff_info: &DiffInfo,
        msg_info: &MessageInfo,
    ) -> (r: CommitClasses)
        ensures
            r@ == classify(metadata@, diff_info@, msg_info@),
            r@.contains(CommitClass::InitialCommit) <==> metadata@.parents == 0,
            r@.contains(CommitClass::ShortCommit) <==> diff_info@.total() < SHORT_COMMIT_LENGTH,
            r@.contains(CommitClass::RefactorCommit) <==> {
                &&& ins_del_gap(diff_info@) <= diff_info@.total() / 20
                &&& match msg_info@.subject {
                    Some(s) => names_move_or_rename(s),
                    None => false,
                }
            },
            !r@.contains(CommitClass::MergeCommit),
    {
        let names_move = match msg_info.subject() {
            Some(subject) => mentions_move_or_rename(subject),
            None => false,
        };
        CommitClasses::classify_with_match(metadata, diff_info, msg_info, names_move)
    }

    /// Classifies a commit that has a diff, where `names_move` tells
    /// whether its subject names a move or a rename (as a whole word, in
    /// any case). Without a subject the commit is no refactoring.
    pub fn classify_with_match(
        metadata: &CommitMetadata,
        diff_info: &DiffInfo,
        msg_info: &MessageInfo,
        names_move: bool,
    ) -> (r: CommitClasses)
        ensures
            r@ == classify_given(metadata@, diff_info@, msg_info@, names_move),
            r@.contains(CommitClass::InitialCommit) <==> metadata@.parents == 0,
            r@.contains(CommitClass::ShortCommit) <==> diff_info@.total() < SHORT_COMMIT_LENGTH,
            r@.contains(CommitClass::RefactorCommit) <==> {
                &&& ins_del_gap(diff_info@) <= diff_info@.total() / 20
                &&& msg_info@.subject is Some
                &&& names_move
            },
            !r@.contains(CommitClass::MergeCommit),
    {
        let mut classes = CommitClasses::new();
        if metadata.parents() == 0 {
            classes.insert(CommitClass::InitialCommit);
        }
        let total = diff_info.diff_total();
        if total < SHORT_COMMIT_LENGTH {
            classes.insert(CommitClass::ShortCommit);
        }
        // Best effort: a rename mixed with other edits is missed, and that
        // other edit belongs in a commit of its own anyway.
        let allowed_diff = total / REFACTOR_ALLOWED_DIFF_DIVISOR;
        let insertions = diff_info.insertions();
        let deletions = diff_info.deletions();
        let actual_diff = if deletions >= insertions {
            deletions - insertions
        } else {
            insertions - deletions
        };
        if actual_diff <= allowed_diff && msg_info.subject().is_some() && names_move {
            classes.insert(CommitClass::RefactorCommit);
        }
        assert(classes@ =~= classify_given(metadata@, diff_info@, msg_info@, names_move));
        classes
    }
}

} // verus!
