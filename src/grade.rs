//! Letter grades and the grade specs that filter on them.

use vstd::prelude::*;

use crate::text::{chars_of, push_chars};

use core::cmp::Ordering;
use vstd::std_specs::cmp::PartialOrdSpec;

verus! {

/// A discrete grade, ordered from `F` (worst) up to `A` (best).
#[derive(Clone, Copy, Debug, PartialEq, Eq, Structural)]
pub enum Grade {
    F,
    D,
    C,
    B,
    A,
}

impl Grade {
    /// The position of the grade in the order `F < D < C < B < A`.
    pub open spec fn spec_rank(self) -> nat {
        match self {
            Grade::F => 0,
            Grade::D => 1,
            Grade::C => 2,
            Grade::B => 3,
            Grade::A => 4,
        }
    }

    pub fn rank(&self) -> (r: u8)
        ensures
            r == self.spec_rank(),
    {
        match self {
            Grade::F => 0,
            Grade::D => 1,
            Grade::C => 2,
            Grade::B => 3,
            Grade::A => 4,
        }
    }

    /// The grade's letter, in capitals.
    pub open spec fn letter(self) -> char {
        match self {
            Grade::F => 'F',
            Grade::D => 'D',
            Grade::C => 'C',
            Grade::B => 'B',
            Grade::A => 'A',
        }
    }

    pub fn to_char(&self) -> (r: char)
        ensures
            r == self.letter(),
    {
        match self {
            Grade::F => 'F',
            Grade::D => 'D',
            Grade::C => 'C',
            Grade::B => 'B',
            Grade::A => 'A',
        }
    }
}

/// How two ranks compare.
pub open spec fn compare_ranks(a: nat, b: nat) -> Ordering {
    if a < b {
        Ordering::Less
    } else if a == b {
        Ordering::Equal
    } else {
        Ordering::Greater
    }
}

impl PartialOrd for Grade {
    fn partial_cmp(&self, other: &Grade) -> (r: Option<Ordering>) {
        let a = self.rank();
        let b = other.rank();
        if a < b {
            Some(Ordering::Less)
        } else if a == b {
            Some(Ordering::Equal)
        } else {
            Some(Ordering::Greater)
        }
    }
}

impl vstd::std_specs::cmp::PartialOrdSpecImpl for Grade {
    open spec fn obeys_partial_cmp_spec() -> bool {
        true
    }

    open spec fn partial_cmp_spec(&self, other: &Grade) -> Option<Ordering> {
        Some(compare_ranks(self.spec_rank(), other.spec_rank()))
    }
}

/// Grades are totally ordered: any two compare, the order is transitive,
/// only equal grades compare as equal, and `F < D < C < B < A`.
pub proof fn lemma_grade_order(a: Grade, b: Grade, c: Grade)
    ensures
        a.partial_cmp_spec(&b) is Some,
        a.partial_cmp_spec(&b) == Some(Ordering::Equal) <==> a == b,
        a.partial_cmp_spec(&b) == Some(Ordering::Less) <==> b.partial_cmp_spec(&a) == Some(
            Ordering::Greater,
        ),
        a.partial_cmp_spec(&b) == Some(Ordering::Less) && b.partial_cmp_spec(&c) == Some(
            Ordering::Less,
        ) ==> a.partial_cmp_spec(&c) == Some(Ordering::Less),
        Grade::F.partial_cmp_spec(&Grade::D) == Some(Ordering::Less),
        Grade::D.partial_cmp_spec(&Grade::C) == Some(Ordering::Less),
        Grade::C.partial_cmp_spec(&Grade::B) == Some(Ordering::Less),
        Grade::B.partial_cmp_spec(&Grade::A) == Some(Ordering::Less),
{
}

/// A relation between grades.
#[derive(Clone, Copy, Debug, PartialEq, Eq, Structural)]
pub enum Relation {
    Eq,
    Le,
    Ge,
}

/// A spec for matching grades: the grade itself, at most it, or at least it.
#[derive(Clone, Copy, Debug, PartialEq, Eq, Structural)]
pub struct GradeSpec {
    pub grade: Grade,
    pub rel: Relation,
}

/// Why a text is no grade spec.
#[derive(Clone, Copy, Debug, PartialEq, Eq, Structural)]
pub enum GradeSpecError {
    /// The text is empty.
    MissingGrade,
    /// The first character is none of `A`, `B`, `C`, `D`, `F`, in either case.
    InvalidGrade,
    /// The second character is neither `+` nor `-`.
    InvalidRelation,
    /// There are more than two characters.
    TrailingInput,
}

impl GradeSpecError {
    pub fn message(&self) -> (r: &'static str)
        ensures
            r@ == match self {
                GradeSpecError::MissingGrade => "grade must be specified"@,
                GradeSpecError::InvalidGrade => "grade must be one of: A, B, C, D, F"@,
                GradeSpecError::InvalidRelation => "grade relation must be one of: +, -, <empty>"@,
                GradeSpecError::TrailingInput =>
                    "grade specification should not contain extra characters"@,
            },
    {
        match self {
            GradeSpecError::MissingGrade => "grade must be specified",
            GradeSpecError::InvalidGrade => "grade must be one of: A, B, C, D, F",
            GradeSpecError::InvalidRelation => "grade relation must be one of: +, -, <empty>",
            GradeSpecError::TrailingInput =>
                "grade specification should not contain extra characters",
        }
    }
}

/// The grade that a letter names, in either case.
pub open spec fn grade_of_char(c: char) -> Option<Grade> {
    if c == 'A' || c == 'a' {
        Some(Grade::A)
    } else if c == 'B' || c == 'b' {
        Some(Grade::B)
    } else if c == 'C' || c == 'c' {
        Some(Grade::C)
    } else if c == 'D' || c == 'd' {
        Some(Grade::D)
    } else if c == 'F' || c == 'f' {
        Some(Grade::F)
    } else {
        None
    }
}

/// The relation that a suffix character names.
pub open spec fn relation_of_char(c: char) -> Option<Relation> {
    if c == '+' {
        Some(Relation::Ge)
    } else if c == '-' {
        Some(Relation::Le)
    } else {
        None
    }
}

/// The grade spec that `s` denotes, or why it denotes none.
pub open spec fn parse_grade_spec(s: Seq<char>) -> Result<GradeSpec, GradeSpecError> {
    if s.len() == 0 {
        Err(GradeSpecError::MissingGrade)
    } else {
        match grade_of_char(s[0]) {
            None => Err(GradeSpecError::InvalidGrade),
            Some(grade) => if s.len() == 1 {
                Ok(GradeSpec { grade, rel: Relation::Eq })
            } else {
                match relation_of_char(s[1]) {
                    None => Err(GradeSpecError::InvalidRelation),
                    Some(rel) => if s.len() > 2 {
                        Err(GradeSpecError::TrailingInput)
                    } else {
                        Ok(GradeSpec { grade, rel })
                    },
                }
            },
        }
    }
}

/// The suffix that writes a relation.
pub open spec fn relation_suffix(rel: Relation) -> Seq<char> {
    match rel {
        Relation::Eq => Seq::empty(),
        Relation::Le => seq!['-'],
        Relation::Ge => seq!['+'],
    }
}

/// A grade spec written out: its letter, in capitals or in small letters,
/// then its relation's suffix.
pub open spec fn format_grade_spec(spec: GradeSpec, small: bool) -> Seq<char> {
    let letter = spec.grade.letter();
    seq![if small { ((letter as u8) + 32) as char } else { letter }] + relation_suffix(spec.rel)
}

/// Parsing a written-out grade spec, in either case, gives it back.
pub proof fn lemma_parse_format(spec: GradeSpec, small: bool)
    ensures
        parse_grade_spec(format_grade_spec(spec, small)) == Ok::<GradeSpec, GradeSpecError>(spec),
{
    let s = format_grade_spec(spec, small);
    assert(s[0] == (if small { ((spec.grade.letter() as u8) + 32) as char } else { spec.grade.letter() }));
    if spec.rel != Relation::Eq {
        assert(s[1] == relation_suffix(spec.rel)[0]);
    }
}

/// Whether `grade` meets `spec`.
pub open spec fn spec_matches(spec: GradeSpec, grade: Grade) -> bool {
    match spec.rel {
        Relation::Eq => grade == spec.grade,
        Relation::Ge => grade.spec_rank() >= spec.grade.spec_rank(),
        Relation::Le => grade.spec_rank() <= spec.grade.spec_rank(),
    }
}

impl GradeSpec {
    pub fn new(grade: Grade, rel: Relation) -> (r: GradeSpec)
        ensures
            r == (GradeSpec { grade, rel }),
    {
        GradeSpec { grade, rel }
    }

    /// Parses a spec such as `C`, `c+` or `B-`.
    pub fn parse(s: &str) -> (r: Result<GradeSpec, GradeSpecError>)
        ensures
            r == parse_grade_spec(s@),
    {
        let cs = chars_of(s);
        if cs.len() == 0 {
            return Err(GradeSpecError::MissingGrade);
        }
        let grade = match cs[0] {
            'A' | 'a' => Grade::A,
            'B' | 'b' => Grade::B,
            'C' | 'c' => Grade::C,
            'D' | 'd' => Grade::D,
            'F' | 'f' => Grade::F,
            _ => return Err(GradeSpecError::InvalidGrade),
        };
        if cs.len() == 1 {
            return Ok(GradeSpec { grade, rel: Relation::Eq });
        }
        let rel = match cs[1] {
            '+' => Relation::Ge,
            '-' => Relation::Le,
            _ => return Err(GradeSpecError::InvalidRelation),
        };
        if cs.len() > 2 {
            return Err(GradeSpecError::TrailingInput);
        }
        Ok(GradeSpec { grade, rel })
    }

    /// Whether `grade` meets this spec.
    pub fn matches(&self, grade: Grade) -> (r: bool)
        ensures
            r == spec_matches(*self, grade),
    {
        match self.rel {
            Relation::Eq => grade == self.grade,
            Relation::Ge => grade >= self.grade,
            Relation::Le => grade <= self.grade,
        }
    }

    /// The spec written out with a capital letter, as `parse` reads it.
    pub fn to_string(&self) -> (r: String)
        ensures
            r@ == format_grade_spec(*self, false),
    {
        let mut r = String::new();
        push_chars(&mut r, &[self.grade.to_char()]);
        match self.rel {
            Relation::Eq => {},
            Relation::Le => push_chars(&mut r, &['-']),
            Relation::Ge => push_chars(&mut r, &['+']),
        }
        assert(r@ =~= format_grade_spec(*self, false));
        r
    }
}

impl core::str::FromStr for GradeSpec {
    type Err = GradeSpecError;

    fn from_str(s: &str) -> (r: Result<GradeSpec, GradeSpecError>)
        ensures
            r == parse_grade_spec(s@),
    {
        GradeSpec::parse(s)
    }
}

} // verus!
