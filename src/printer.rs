//! What the listing shows for each commit; writing it out is left to the caller.

use vstd::prelude::*;

use crate::grade::Grade;
use crate::score::{render_score, Score};

verus! {

/// The colour in which a score is shown.
#[derive(Clone, Copy, Debug, PartialEq, Eq, Structural)]
pub enum ScoreColor {
    White,
    BrightGreen,
    BrightWhite,
    BrightYellow,
    BrightRed,
    Red,
}

/// The colour of a score: plain for ignored commits, from green for `A`
/// down to red for `F`.
pub open spec fn color_of(score: Score) -> ScoreColor {
    match score {
        Score::Ignored => ScoreColor::White,
        Score::Scored { grade, .. } => match grade {
            Grade::A => ScoreColor::BrightGreen,
            Grade::B => ScoreColor::BrightWhite,
            Grade::C => ScoreColor::BrightYellow,
            Grade::D => ScoreColor::BrightRed,
            Grade::F => ScoreColor::Red,
        },
    }
}

/// Decides how scores are listed: as numbers or as grades.
#[derive(Clone, Copy, Debug)]
pub struct Printer {
    show_score: bool,
}

impl Printer {
    pub fn new(show_score: bool) -> (r: Printer)
        ensures
            r.shows_score() == show_score,
    {
        Printer { show_score }
    }

    /// Whether scores are shown as numbers rather than grades.
    pub closed spec fn shows_score(&self) -> bool {
        self.show_score
    }

    pub fn show_score(&self) -> (r: bool)
        ensures
            r == self.shows_score(),
    {
        self.show_score
    }

    /// The heading of the score column.
    pub fn score_title(&self) -> (r: &'static str)
        ensures
            r@ == if self.shows_score() {
                "SCORE"@
            } else {
                "GRADE"@
            },
    {
        if self.show_score {
            "SCORE"
        } else {
            "GRADE"
        }
    }

    /// The text of the score column.
    pub fn score_text(&self, score: Score) -> (r: String)
        ensures
            r@ == render_score(score, self.shows_score()),
    {
        score.to_string(self.show_score)
    }

    /// The colour of the score column.
    pub fn score_color(&self, score: Score) -> (r: ScoreColor)
        ensures
            r == color_of(score),
    {
        match score {
            Score::Ignored => ScoreColor::White,
            Score::Scored { grade, .. } => match grade {
                Grade::A => ScoreColor::BrightGreen,
                Grade::B => ScoreColor::BrightWhite,
                Grade::C => ScoreColor::BrightYellow,
                Grade::D => ScoreColor::BrightRed,
                Grade::F => ScoreColor::Red,
            },
        }
    }
}

} // verus!
