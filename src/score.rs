//! The outcome of scoring one commit.

use vstd::prelude::*;

use crate::grade::Grade;
use crate::text::{decimal, push_chars, push_decimal};

verus! {

/// A commit's score: merge commits are ignored, all others get a number
/// from 0 to 100 and the grade it falls in.
#[derive(Clone, Copy, Debug, PartialEq, Eq, Structural)]
pub enum Score {
    Ignored,
    Scored { score: u8, grade: Grade },
}

/// A score as text: `-` when ignored, else the number or the grade's letter.
pub open spec fn render_score(score: Score, use_score: bool) -> Seq<char> {
    match score {
        Score::Ignored => seq!['-'],
        Score::Scored { score, grade } => if use_score {
            decimal(score as nat)
        } else {
            seq![grade.letter()]
        },
    }
}

impl Score {
    /// The score as text: the number when `use_score` is set, else the grade.
    pub fn to_string(self, use_score: bool) -> (r: String)
        ensures
            r@ == render_score(self, use_score),
    {
        let mut r = String::new();
        match self {
            Score::Ignored => push_chars(&mut r, &['-']),
            Score::Scored { score, grade } => {
                if use_score {
                    push_decimal(&mut r, score);
                } else {
                    push_chars(&mut r, &[grade.to_char()]);
                }
            },
        }
        assert(r@ =~= render_score(self, use_score));
        r
    }
}

} // verus!
