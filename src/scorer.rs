//! The scorer: weighted rules combined into a score from 0 to 100 and a grade.

use vstd::prelude::*;

use crate::class::CommitClass;
use crate::commit::{CommitInfo, CommitModel};
use crate::grade::Grade;
use crate::rule::{
    body_wrapping_rating, AnyRule, BodyLenRule, BodyPresenceRule, BodyWrappingRule,
    MetadataLinesRule, Rule, RuleScore, SubjectBodyBreakRule, SubjectRule,
};
use crate::score::Score;

use vstd::arithmetic::div_mod::lemma_div_multiples_vanish;

verus! {

/// A common multiple of the denominators of all rule ratings on `c`:
/// 100, 1000, 10, and the number of body lines.
pub open spec fn common_den(c: CommitModel) -> nat {
    1_000_000 * if c.msg.body_lines > 0 {
        c.msg.body_lines
    } else {
        1
    }
}

/// `v` in units of `1 / d`.
pub open spec fn scaled(v: RuleScore, d: nat) -> nat {
    (v.num * (d / (v.den as nat))) as nat
}

/// The weighted sum of the ratings of `items` on `c`, in points (weights
/// are in hundredths, ratings between 0 and 1) and in units of `1 / d`.
pub open spec fn weighted_sum(
    items: Seq<(AnyRule, u32)>,
    c: CommitModel,
    body_log_ratio: nat,
    d: nat,
) -> nat
    decreases items.len(),
{
    if items.len() == 0 {
        0
    } else {
        weighted_sum(items.drop_last(), c, body_log_ratio, d) + (items.last().1 as nat) * scaled(
            items.last().0.rating(c, body_log_ratio),
            d,
        )
    }
}

/// `total / d` points capped at 100, then rounded to the nearest integer
/// (halves up).
pub open spec fn rounded_points(total: nat, d: nat) -> nat {
    if total > 100 * d {
        100
    } else {
        (2 * total + d) / (2 * d)
    }
}

/// The grade that a score falls in.
pub open spec fn grade_for(points: nat) -> Grade {
    if points < 20 {
        Grade::F
    } else if points < 40 {
        Grade::D
    } else if points < 60 {
        Grade::C
    } else if points < 80 {
        Grade::B
    } else {
        Grade::A
    }
}

/// The score of `c` under the weighted rules `items`.
pub open spec fn score_commit(items: Seq<(AnyRule, u32)>, c: CommitModel, body_log_ratio: nat) -> Score {
    if c.classes.contains(CommitClass::MergeCommit) {
        Score::Ignored
    } else {
        let points = rounded_points(
            weighted_sum(items, c, body_log_ratio, common_den(c)),
            common_den(c),
        );
        Score::Scored { score: points as u8, grade: grade_for(points) }
    }
}

/// Combines weighted rules into a score. Weights are in hundredths: a rule
/// of weight 30 whose rating is 1 adds 30 points.
pub struct Scorer {
    rules: Vec<(AnyRule, u32)>,
}

/// Collects the weighted rules of a scorer.
pub struct ScorerBuilder {
    rules: Vec<(AnyRule, u32)>,
}

impl View for Scorer {
    type V = Seq<(AnyRule, u32)>;

    closed spec fn view(&self) -> Seq<(AnyRule, u32)> {
        self.rules@
    }
}

impl View for ScorerBuilder {
    type V = Seq<(AnyRule, u32)>;

    closed spec fn view(&self) -> Seq<(AnyRule, u32)> {
        self.rules@
    }
}

impl ScorerBuilder {
    pub fn new() -> (r: ScorerBuilder)
        ensures
            r@ == Seq::<(AnyRule, u32)>::empty(),
    {
        ScorerBuilder { rules: Vec::new() }
    }

    /// Adds `rule` with `weight` hundredths.
    pub fn with_rule(self, rule: AnyRule, weight: u32) -> (r: ScorerBuilder)
        ensures
            r@ == self@.push((rule, weight)),
    {
        let mut rules = self.rules;
        rules.push((rule, weight));
        ScorerBuilder { rules }
    }

    pub fn build(self) -> (r: Scorer)
        ensures
            r@ == self@,
    {
        Scorer { rules: self.rules }
    }
}

proof fn lemma_scaled_exact_by(v: RuleScore, d: nat, q: nat)
    requires
        v.den > 0,
        d == (v.den as nat) * q,
    ensures
        scaled(v, d) * (v.den as nat) == (v.num as nat) * d,
{
    lemma_div_multiples_vanish(q as int, v.den as int);
    assert((v.num as nat) * q * (v.den as nat) == (v.num as nat) * ((v.den as nat) * q))
        by (nonlinear_arith);
}

/// Each rule's rating of `c` is a fraction whose denominator divides
/// `common_den(c)`, so `scaled` loses nothing and `weighted_sum` is the
/// exact weighted sum of the ratings, times `common_den(c)`.
pub proof fn lemma_ratings_scale_exactly(rule: AnyRule, c: CommitModel, body_log_ratio: nat)
    requires
        c.msg.body_lines <= u64::MAX,
    ensures
        ({
            let v = rule.rating(c, body_log_ratio);
            &&& v.den > 0
            &&& scaled(v, common_den(c)) * (v.den as nat) == (v.num as nat) * common_den(c)
        }),
{
    let d = common_den(c);
    let m: nat = if c.msg.body_lines > 0 {
        c.msg.body_lines
    } else {
        1
    };
    let v = rule.rating(c, body_log_ratio);
    assert(d == 1_000_000 * m);
    if v.den == 1 {
        lemma_scaled_exact_by(v, d, d);
    } else if v.den == 10 {
        lemma_scaled_exact_by(v, d, 100_000 * m);
    } else if v.den == 100 {
        lemma_scaled_exact_by(v, d, 10_000 * m);
    } else if v.den == 1000 {
        lemma_scaled_exact_by(v, d, 1000 * m);
    } else {
        assert(v == body_wrapping_rating(c) && c.msg.body_lines > 0);
        assert(v.den as nat == m);
        lemma_scaled_exact_by(v, d, 1_000_000);
    }
}

proof fn lemma_scaled_bound(v: RuleScore, d: nat)
    requires
        v.wf(),
    ensures
        scaled(v, d) <= d,
{
    let q = d / (v.den as nat);
    assert(q * (v.den as nat) <= d) by (nonlinear_arith)
        requires
            q == d / (v.den as nat),
            v.den > 0,
    ;
    assert(v.num * q <= (v.den as nat) * q) by (nonlinear_arith)
        requires
            v.num <= v.den,
    ;
}

proof fn lemma_term_bound(w: nat, s: nat, d: nat)
    requires
        w <= u32::MAX,
        s <= d,
        d <= 1_000_000 * (usize::MAX as nat),
    ensures
        w * s <= u128::MAX,
{
    assert(w * s <= u32::MAX * d) by (nonlinear_arith)
        requires
            w <= u32::MAX,
            s <= d,
    ;
    assert(usize::MAX <= u64::MAX);
}

proof fn lemma_rounded_bound(total: nat, d: nat)
    requires
        d > 0,
        total <= 100 * d,
    ensures
        (2 * total + d) / (2 * d) <= 100,
{
    assert((2 * total + d) / (2 * d) <= 100) by (nonlinear_arith)
        requires
            d > 0,
            total <= 100 * d,
    ;
}

/// The rules of the standard scorer and their weights, in hundredths. The
/// weights add up to 105: a little headroom before the cap at 100.
pub open spec fn standard_rules() -> Seq<(AnyRule, u32)> {
    seq![
        (AnyRule::Subject(SubjectRule), 30u32),
        (AnyRule::BodyPresence(BodyPresenceRule), 10u32),
        (AnyRule::SubjectBodyBreak(SubjectBodyBreakRule), 10u32),
        (AnyRule::BodyLen(BodyLenRule), 25u32),
        (AnyRule::BodyWrapping(BodyWrappingRule), 25u32),
        (AnyRule::MetadataLines(MetadataLinesRule), 5u32),
    ]
}

impl Scorer {
    /// The standard scorer: subject 30, body presence 10, subject/body
    /// break 10, body length 25, body wrapping 25, trailer lines 5.
    pub fn standard() -> (r: Scorer)
        ensures
            r@ == standard_rules(),
    {
        let r = ScorerBuilder::new().with_rule(AnyRule::Subject(SubjectRule), 30).with_rule(
            AnyRule::BodyPresence(BodyPresenceRule),
            10,
        ).with_rule(AnyRule::SubjectBodyBreak(SubjectBodyBreakRule), 10).with_rule(
            AnyRule::BodyLen(BodyLenRule),
            25,
        ).with_rule(AnyRule::BodyWrapping(BodyWrappingRule), 25).with_rule(
            AnyRule::MetadataLines(MetadataLinesRule),
            5,
        ).build();
        assert(r@ =~= standard_rules());
        r
    }

    /// Scores `commit` and hands it back with its score.
    ///
    /// `body_log_ratio` is `ln(body_len + 1) / ln(diff_total)` in thousandths,
    /// as the caller measured it; only the body length rule reads it.
    pub fn score(&self, commit: CommitInfo, body_log_ratio: u64) -> (r: ScoredCommit)
        ensures
            r@.commit == commit@,
            r@.score == score_commit(self@, commit@, body_log_ratio as nat),
            commit@.classes.contains(CommitClass::MergeCommit) ==> r@.score == Score::Ignored,
            match r@.score {
                Score::Scored { score, .. } => score <= 100,
                Score::Ignored => true,
            },
    {
        let score = self.score_internal(&commit, body_log_ratio);
        ScoredCommit { commit, score }
    }

    fn score_internal(&self, commit: &CommitInfo, body_log_ratio: u64) -> (r: Score)
        ensures
            r == score_commit(self@, commit@, body_log_ratio as nat),
            match r {
                Score::Scored { score, .. } => score <= 100,
                Score::Ignored => true,
            },
    {
        if commit.classes().contains(CommitClass::MergeCommit) {
            return Score::Ignored;
        }
        let body_lines = commit.msg_info().body_lines();
        let d: u128 = 1_000_000 * (if body_lines > 0 {
            body_lines
        } else {
            1
        }) as u128;
        let ghost dn = common_den(commit@);
        assert(d == dn);
        let mut acc: u128 = 0;
        let n = self.rules.len();
        let mut i: usize = 0;
        while i < n
            invariant
                i <= n,
                n == self@.len(),
                d == dn,
                dn == common_den(commit@),
                dn <= 1_000_000 * (usize::MAX as nat),
                acc == if weighted_sum(self@.take(i as int), commit@, body_log_ratio as nat, dn)
                    > u128::MAX {
                    u128::MAX as nat
                } else {
                    weighted_sum(self@.take(i as int), commit@, body_log_ratio as nat, dn)
                },
            decreases n - i,
        {
            let (rule, weight) = self.rules[i];
            let v = rule.score(commit, body_log_ratio);
            let q = d / (v.den as u128);
            proof {
                lemma_scaled_bound(v, dn);
                lemma_term_bound(weight as nat, scaled(v, dn), dn);
                assert(v.num * q <= dn);
                assert(self@.take(i + 1 as int).drop_last() =~= self@.take(i as int));
                assert(self@.take(i + 1 as int).last() == self@[i as int]);
            }
            let term: u128 = (weight as u128) * ((v.num as u128) * q);
            acc = if acc > u128::MAX - term {
                u128::MAX
            } else {
                acc + term
            };
            i = i + 1;
        }
        proof {
            assert(self@.take(n as int) =~= self@);
        }
        let points: u8 = if acc > 100 * d {
            100
        } else {
            proof {
                lemma_rounded_bound(acc as nat, dn);
            }
            ((2 * acc + d) / (2 * d)) as u8
        };
        let grade = if points < 20 {
            Grade::F
        } else if points < 40 {
            Grade::D
        } else if points < 60 {
            Grade::C
        } else if points < 80 {
            Grade::B
        } else {
            Grade::A
        };
        Score::Scored { score: points, grade }
    }
}

/// A commit with its score, as values.
pub ghost struct ScoredModel {
    pub commit: CommitModel,
    pub score: Score,
}

/// A commit together with its score.
pub struct ScoredCommit {
    commit: CommitInfo,
    score: Score,
}

impl View for ScoredCommit {
    type V = ScoredModel;

    closed spec fn view(&self) -> ScoredModel {
        ScoredModel { commit: self.commit@, score: self.score }
    }
}

impl ScoredCommit {
    pub fn commit(&self) -> (r: &CommitInfo)
        ensures
            r@ == self@.commit,
    {
        &self.commit
    }

    pub fn score(&self) -> (r: Score)
        ensures
            r == self@.score,
    {
        self.score
    }
}

} // verus!
