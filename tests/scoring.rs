use commrate::{
    build_commit, create_post_filters, create_pre_filters, AnyRule, AppConfig, AuthorPreFilter,
    BodyLenRule, BodyPresenceRule, BodyWrappingRule, CommitClass, CommitClasses, CommitInfo, CommitMetadata,
    DiffInfo, Filter, Grade, GradePostFilter, GradeSpec, MergePreFilter, MessageInfo,
    MetadataLinesRule, Rule, RuleScore, Score, Scorer, ScorerBuilder, SubjectBodyBreakRule,
    SubjectRule,
};

fn meta(author: &str, parents: usize) -> CommitMetadata {
    CommitMetadata::new("0123456789abcdef".to_string(), author.to_string(), parents)
}

fn standard_scorer() -> Scorer {
    Scorer::standard()
}

fn commit(message: &str, insertions: usize, deletions: usize, parents: usize) -> CommitInfo {
    CommitInfo::new(
        meta("A", parents),
        DiffInfo::new(insertions, deletions),
        MessageInfo::new(message),
    )
}

const GOOD_MESSAGE: &str = "Add a parser for commit messages\n\nIt splits the text into lines and counts them.\n\nSigned-off-by: A <a@x.com>";

#[test]
fn trailer_after_blank_line_is_metadata() {
    let info = MessageInfo::new("Fix bug\n\nSigned-off-by: A <a@x.com>");

    assert_eq!(info.subject(), Some("Fix bug"));
    assert!(info.break_after_subject());
    assert_eq!(info.body_len(), 0);
    assert_eq!(info.body_lines(), 0);
    assert_eq!(info.body_unwrapped_lines(), 0);
    assert_eq!(info.metadata_lines(), 1);
}

#[test]
fn empty_message_has_no_subject() {
    let info = MessageInfo::new("");

    assert_eq!(info.subject(), None);
    assert!(!info.break_after_subject());
    assert_eq!(info.body_lines(), 0);
    assert_eq!(info.metadata_lines(), 0);

    let default = MessageInfo::default();
    assert_eq!(default.subject(), None);
    assert_eq!(default.body_len(), 0);
}

#[test]
fn single_line_message_is_all_subject() {
    let info = MessageInfo::new("Just a subject");

    assert_eq!(info.subject(), Some("Just a subject"));
    assert!(!info.break_after_subject());
    assert_eq!(info.body_len(), 0);
    assert_eq!(info.body_lines(), 0);
}

#[test]
fn body_lines_are_measured() {
    let long_line = "x".repeat(81);
    let exact_line = "y".repeat(80);
    let message = format!("Subject line\n\nShort line\n{}\n{}\n", long_line, exact_line);
    let info = MessageInfo::new(&message);

    assert!(info.break_after_subject());
    assert_eq!(info.body_lines(), 3);
    assert_eq!(info.body_len(), 10 + 81 + 80);
    assert_eq!(info.body_unwrapped_lines(), 1);
    assert_eq!(info.metadata_lines(), 0);
}

#[test]
fn crlf_line_endings_are_stripped() {
    let info = MessageInfo::new("Subject here\r\n\r\nBody text\r\n");

    assert_eq!(info.subject(), Some("Subject here"));
    assert!(info.break_after_subject());
    assert_eq!(info.body_len(), 9);
    assert_eq!(info.body_lines(), 1);
}

#[test]
fn trailer_keys_are_trimmed_and_case_insensitive() {
    let info = MessageInfo::new("Subject\n  REVIEWED-BY : x\nCc: y\nNote: not a trailer\nLink");

    assert!(!info.break_after_subject());
    assert_eq!(info.metadata_lines(), 3);
    assert_eq!(info.body_lines(), 1);
    assert_eq!(info.body_len(), "Note: not a trailer".len());
}

#[test]
fn long_subject_is_measured_in_characters() {
    let info = MessageInfo::new("Ünïcödé sübjéct");

    assert_eq!(info.subject(), Some("Ünïcödé sübjéct"));
    let info = MessageInfo::new("S\n\nÄÖÜ");
    assert_eq!(info.body_len(), 3);
}

#[test]
fn classes_follow_parents_and_diff_size() {
    let initial = commit("Initial commit", 0, 0, 0);
    let classes = initial.classes();
    assert!(classes.contains(CommitClass::InitialCommit));
    assert!(classes.contains(CommitClass::ShortCommit));
    assert!(!classes.contains(CommitClass::MergeCommit));

    let edge = commit("Update the docs", 20, 5, 1);
    assert!(!edge.classes().contains(CommitClass::ShortCommit));
    let below = commit("Update the docs", 20, 4, 1);
    assert!(below.classes().contains(CommitClass::ShortCommit));
}

#[test]
fn refactor_needs_whole_words_and_small_gap() {
    // 102 lines: the gap may be 5 at most.
    let within = commit("Rename the module", 50, 52, 1);
    assert!(within.classes().contains(CommitClass::RefactorCommit));
    let beyond = commit("Rename the module", 48, 54, 1);
    assert!(!beyond.classes().contains(CommitClass::RefactorCommit));
    let renamer = commit("Add a renamer tool", 50, 50, 1);
    assert!(!renamer.classes().contains(CommitClass::RefactorCommit));
    let moved = commit("Code MOVED here", 50, 50, 1);
    assert!(moved.classes().contains(CommitClass::RefactorCommit));
}

#[test]
fn merge_commit_is_ignored() {
    let merge = build_commit(meta("A", 2), None, MessageInfo::new("Merge branch 'x'"));
    assert!(merge.classes().contains(CommitClass::MergeCommit));
    assert!(merge.diff_info().is_none());

    let scored = standard_scorer().score(merge, 1000);
    assert_eq!(scored.score(), Score::Ignored);
}

#[test]
fn weighted_sum_over_one_hundred_is_capped() {
    // 30 + 10 + 10 + 25 + 25 + 3 points.
    let scored = standard_scorer().score(commit(GOOD_MESSAGE, 30, 10, 1), 1000);
    assert_eq!(scored.score(), Score::Scored { score: 100, grade: Grade::A });
}

#[test]
fn half_points_round_up() {
    // 30 + 10 + 10 + 12.5 + 25 + 3 points.
    let scored = standard_scorer().score(commit(GOOD_MESSAGE, 30, 10, 1), 500);
    assert_eq!(scored.score(), Score::Scored { score: 91, grade: Grade::A });
}

#[test]
fn bare_ticket_subject_scores_nothing() {
    let scored = standard_scorer().score(commit("JIRA-1234", 30, 10, 1), 0);
    assert_eq!(scored.score(), Score::Scored { score: 0, grade: Grade::F });
}

#[test]
fn short_commit_is_forgiven_a_missing_body() {
    // Subject 0, then 10 + 10 + 25 + 25 points.
    let scored = standard_scorer().score(commit("fix", 1, 0, 1), 0);
    assert_eq!(scored.score(), Score::Scored { score: 70, grade: Grade::B });
    // "Fix the bug" has 11 characters: 0.1 of the subject's 30 points.
    let scored = standard_scorer().score(commit("Fix the bug", 1, 0, 1), 0);
    assert_eq!(scored.score(), Score::Scored { score: 73, grade: Grade::B });
}

#[test]
fn unwrapped_lines_cost_their_share() {
    let message = format!(
        "Add a parser for commit messages\n\nIt splits the text into lines and counts them.\n{}",
        "x".repeat(81)
    );
    // 30 + 10 + 10 + 25 + 25 / 2 points.
    let scored = standard_scorer().score(commit(&message, 30, 10, 1), 1000);
    assert_eq!(scored.score(), Score::Scored { score: 88, grade: Grade::A });
}

#[test]
fn rules_judge_each_aspect() {
    let plain = commit("Improve the error messages of the parser", 30, 10, 1);
    assert_eq!(SubjectRule.score(&plain, 0), RuleScore { num: 100, den: 100 });
    assert_eq!(BodyPresenceRule.score(&plain, 0), RuleScore { num: 0, den: 1 });
    assert_eq!(SubjectBodyBreakRule.score(&plain, 0), RuleScore { num: 0, den: 1 });
    assert_eq!(BodyLenRule.score(&plain, 1500), RuleScore { num: 1000, den: 1000 });
    assert_eq!(BodyLenRule.score(&plain, 250), RuleScore { num: 250, den: 1000 });
    assert_eq!(BodyWrappingRule.score(&plain, 0), RuleScore { num: 0, den: 1 });
    assert_eq!(MetadataLinesRule.score(&plain, 0), RuleScore { num: 0, den: 10 });

    let long = "a ".repeat(40) + "end";
    let long_subject = commit(&long, 30, 10, 1);
    assert_eq!(SubjectRule.score(&long_subject, 0), RuleScore { num: 17, den: 100 });

    let trailers = commit("Fix it well now\n\nCc: a\nCc: b", 30, 10, 1);
    assert_eq!(MetadataLinesRule.score(&trailers, 0), RuleScore { num: 8, den: 10 });
}

#[test]
fn pre_filters_drop_merges_and_other_authors() {
    let chain = create_pre_filters(Some("A"), false);
    assert!(chain.accept(&meta("A", 1)));
    assert!(!chain.accept(&meta("A", 2)));
    assert!(!chain.accept(&meta("B", 1)));

    let open = create_pre_filters(None, true);
    assert!(open.accept(&meta("B", 5)));

    assert!(AuthorPreFilter::new("Leeroy").accept(&meta("Leeroy", 3)));
    assert!(!MergePreFilter.accept(&meta("Leeroy", 3)));
}

#[test]
fn grade_post_filter_passes_ignored_commits() {
    let spec = GradeSpec::parse("B+").unwrap();
    let filter = GradePostFilter::new(spec);
    let chain = create_post_filters(Some(spec));
    let scorer = standard_scorer();

    let merge = scorer.score(build_commit(meta("A", 2), None, MessageInfo::new("Merge")), 0);
    assert!(filter.accept(&merge));
    assert!(chain.accept(&merge));

    let good = scorer.score(commit(GOOD_MESSAGE, 30, 10, 1), 1000);
    assert!(chain.accept(&good));

    let poor = scorer.score(commit("JIRA-1234", 30, 10, 1), 0);
    assert!(!chain.accept(&poor));
    assert!(create_post_filters(None).accept(&poor));
}

#[test]
fn config_keeps_its_options() {
    let spec = GradeSpec::parse("c-").unwrap();
    let config = AppConfig::new(Some("A"), Some(spec), true, "HEAD".to_string(), Some(5), true);

    assert_eq!(config.start_commit(), "HEAD");
    assert_eq!(config.max_commits(), Some(5));
    assert!(config.show_score());
    assert!(config.pre_filters().accept(&meta("A", 2)));
    assert!(!config.pre_filters().accept(&meta("B", 1)));

    let scorer = standard_scorer();
    let good = scorer.score(commit(GOOD_MESSAGE, 30, 10, 1), 1000);
    assert!(!config.post_filters().accept(&good));
}

#[test]
fn builder_scores_with_its_own_weights() {
    let subject_only = ScorerBuilder::new()
        .with_rule(AnyRule::Subject(SubjectRule), 100)
        .build();
    // "Fix the bug" has 11 characters: a tenth of the subject score.
    let scored = subject_only.score(commit("Fix the bug", 30, 10, 1), 0);
    assert_eq!(scored.score(), Score::Scored { score: 10, grade: Grade::F });

    let doubled = ScorerBuilder::new()
        .with_rule(AnyRule::BodyWrapping(BodyWrappingRule), 60)
        .with_rule(AnyRule::BodyWrapping(BodyWrappingRule), 60)
        .build();
    let scored = doubled.score(commit(GOOD_MESSAGE, 30, 10, 1), 0);
    assert_eq!(scored.score(), Score::Scored { score: 100, grade: Grade::A });

    let empty = ScorerBuilder::new().build();
    let scored = empty.score(commit(GOOD_MESSAGE, 30, 10, 1), 0);
    assert_eq!(scored.score(), Score::Scored { score: 0, grade: Grade::F });
}

#[test]
fn grade_breakpoints() {
    let scorer = ScorerBuilder::new()
        .with_rule(AnyRule::Subject(SubjectRule), 100)
        .build();
    // Subjects of 12, 14, 16 and 18 characters score 20, 40, 60 and 80.
    let cases = [
        ("ab cdefghij", 10, Grade::F),
        ("ab cdefghijk", 20, Grade::D),
        ("ab cdefghijklm", 40, Grade::C),
        ("ab cdefghijklmno", 60, Grade::B),
        ("ab cdefghijklmnopq", 80, Grade::A),
        ("ab cdefghijklmnop", 70, Grade::B),
    ];
    for &(subject, points, grade) in cases.iter() {
        let scored = scorer.score(commit(subject, 30, 10, 1), 0);
        assert_eq!(scored.score(), Score::Scored { score: points, grade });
    }
}

#[test]
fn subject_length_curve_edges() {
    let scorer = ScorerBuilder::new()
        .with_rule(AnyRule::Subject(SubjectRule), 100)
        .build();
    let subject = |len: usize| format!("a {}", "b".repeat(len - 2));
    let cases = [(10, 0), (20, 100), (21, 100), (70, 100), (71, 29), (99, 1), (100, 0), (101, 0)];
    for &(len, points) in cases.iter() {
        let text = subject(len);
        assert_eq!(text.chars().count(), len);
        let scored = scorer.score(commit(&text, 30, 10, 1), 0);
        match scored.score() {
            Score::Scored { score, .. } => assert_eq!(score, points, "subject of {} characters", len),
            Score::Ignored => panic!("an ordinary commit is scored"),
        }
    }
}

#[test]
fn separator_line_is_not_body() {
    let with_break = MessageInfo::new("Subject line\n\nBody line\n\nSecond paragraph");
    assert!(with_break.break_after_subject());
    assert_eq!(with_break.body_lines(), 3);
    assert_eq!(with_break.body_len(), 25);

    let without_break = MessageInfo::new("Subject line\nBody line\n\nSecond paragraph");
    assert!(!without_break.break_after_subject());
    assert_eq!(without_break.body_lines(), 3);

    // A trailer alone earns no wrapping score for an ordinary commit.
    let trailer_only = commit("Fix the parser crash\n\nSigned-off-by: A <a@x.com>", 30, 10, 1);
    assert_eq!(BodyWrappingRule.score(&trailer_only, 0), RuleScore { num: 0, den: 1 });
}

#[test]
fn classification_follows_the_given_match() {
    let msg = MessageInfo::new("Shuffle the modules around");
    let diff = DiffInfo::new(50, 52);
    let yes = CommitClasses::classify_with_match(&meta("A", 1), &diff, &msg, true);
    let no = CommitClasses::classify_with_match(&meta("A", 1), &diff, &msg, false);
    assert!(yes.contains(CommitClass::RefactorCommit));
    assert!(!no.contains(CommitClass::RefactorCommit));

    let wide = DiffInfo::new(10, 500);
    let gap = CommitClasses::classify_with_match(&meta("A", 1), &wide, &msg, true);
    assert!(!gap.contains(CommitClass::RefactorCommit));

    let empty = MessageInfo::new("");
    let no_subject = CommitClasses::classify_with_match(&meta("A", 0), &diff, &empty, true);
    assert!(!no_subject.contains(CommitClass::RefactorCommit));
    assert!(no_subject.contains(CommitClass::InitialCommit));
}
