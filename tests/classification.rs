use commrate::{CommitClass, CommitClasses, CommitMetadata, DiffInfo, MessageInfo};

const COMMIT_ID: &str = "9335a4dc0e098830dec14fe3997c6a654695b935";

fn meta(parents: usize) -> CommitMetadata {
    CommitMetadata::new(COMMIT_ID.to_string(), "Leeroy Jenkins".to_string(), parents)
}

/// Ordinary commit metadata.
fn ordinary_meta() -> CommitMetadata {
    meta(1)
}

/// Initial commit metadata.
fn initial_meta() -> CommitMetadata {
    meta(0)
}

/// Merge commit metadata. Parents number may be huge.
fn merge_meta() -> CommitMetadata {
    meta(42)
}

fn msg_info_from_subject(subject: &str) -> MessageInfo {
    MessageInfo::new(subject)
}

fn classify(meta: &CommitMetadata, diff: &DiffInfo, msg_info: &MessageInfo) -> CommitClasses {
    CommitClasses::classify_commit(meta, diff, msg_info)
}

#[test]
fn empty_classes_are_rendered_as_empty_string() {
    let classes = CommitClasses::new();
    let rendered = classes.to_string();

    assert_eq!(rendered, "");
}

#[test]
fn full_classes_set_is_rendered_correctly() {
    let mut classes = CommitClasses::new();

    classes.insert(CommitClass::ShortCommit);
    classes.insert(CommitClass::MergeCommit);
    classes.insert(CommitClass::RefactorCommit);
    classes.insert(CommitClass::InitialCommit);

    let rendered = classes.to_string();

    assert_eq!(rendered, "MISR");
}

#[test]
fn ordinary_commit_gets_no_special_classes() {
    let diff = DiffInfo::new(53, 102);
    let msg_info = msg_info_from_subject("Lorem ipsum dolor sit amet");

    let classes = classify(&ordinary_meta(), &diff, &msg_info);

    assert!(classes.is_empty());
}

#[test]
fn class_initial_commit_is_classified_when_no_parents() {
    let diff = DiffInfo::new(0, 0);
    let msg_info = msg_info_from_subject("Initial commit");

    let classes = classify(&initial_meta(), &diff, &msg_info);

    assert!(classes.contains(CommitClass::InitialCommit));
}

#[test]
fn class_initial_commit_is_not_classified_when_parents_exist() {
    let diff = DiffInfo::new(0, 0);
    let diff2 = DiffInfo::new(42, 666);
    let msg_info = msg_info_from_subject("Initial commit");

    let classes = classify(&ordinary_meta(), &diff, &msg_info);
    let classes2 = classify(&ordinary_meta(), &diff2, &msg_info);
    let classes3 = classify(&merge_meta(), &diff, &msg_info);

    assert!(!classes.contains(CommitClass::InitialCommit));
    assert!(!classes2.contains(CommitClass::InitialCommit));
    assert!(!classes3.contains(CommitClass::InitialCommit));
}

#[test]
fn class_short_commit_is_classified_for_single_line_diff() {
    let diff = DiffInfo::new(1, 0);
    let msg_info = msg_info_from_subject("Fix NPE in CustomMetricsController");

    let classes = classify(&ordinary_meta(), &diff, &msg_info);

    assert!(classes.contains(CommitClass::ShortCommit));
}

#[test]
fn class_short_commit_is_not_classified_for_huge_diff() {
    let diff = DiffInfo::new(666, 42);
    let msg_info = msg_info_from_subject("Fix NPE in CustomMetricsController");

    let classes = classify(&ordinary_meta(), &diff, &msg_info);

    assert!(!classes.contains(CommitClass::ShortCommit));
}

#[test]
fn class_refactor_commit_is_classified_with_infinitive() {
    let diff = DiffInfo::new(42, 42);
    let msg_info = msg_info_from_subject("move Snowden to Russia");
    let msg_info2 = msg_info_from_subject("rename C# to Java");

    let classes = classify(&ordinary_meta(), &diff, &msg_info);
    let classes2 = classify(&ordinary_meta(), &diff, &msg_info2);

    assert!(classes.contains(CommitClass::RefactorCommit));
    assert!(classes2.contains(CommitClass::RefactorCommit));
}

#[test]
fn class_refactor_commit_is_classified_with_past() {
    let diff = DiffInfo::new(42, 42);
    let msg_info = msg_info_from_subject("moved Snowden to Russia");
    let msg_info2 = msg_info_from_subject("renamed C# to Java");

    let classes = classify(&ordinary_meta(), &diff, &msg_info);
    let classes2 = classify(&ordinary_meta(), &diff, &msg_info2);

    assert!(classes.contains(CommitClass::RefactorCommit));
    assert!(classes2.contains(CommitClass::RefactorCommit));
}

#[test]
fn class_refactor_commit_is_classified_with_mixed_case() {
    let diff = DiffInfo::new(42, 42);
    let msg_info = msg_info_from_subject("MoVe Snowden to Russia");
    let msg_info2 = msg_info_from_subject("ReNaMe C# to Java");

    let classes = classify(&ordinary_meta(), &diff, &msg_info);
    let classes2 = classify(&ordinary_meta(), &diff, &msg_info2);

    assert!(classes.contains(CommitClass::RefactorCommit));
    assert!(classes2.contains(CommitClass::RefactorCommit));
}

#[test]
fn class_refactor_commit_is_classified_with_keywords_in_middle() {
    let diff = DiffInfo::new(42, 42);
    let msg_info = msg_info_from_subject("I moved Snowden to Russia");
    let msg_info2 = msg_info_from_subject("I renamed C# to Java");

    let classes = classify(&ordinary_meta(), &diff, &msg_info);
    let classes2 = classify(&ordinary_meta(), &diff, &msg_info2);

    assert!(classes.contains(CommitClass::RefactorCommit));
    assert!(classes2.contains(CommitClass::RefactorCommit));
}

#[test]
fn class_refactor_commit_is_classified_with_small_ins_del_diff() {
    let diff = DiffInfo::new(50, 52);
    let msg_info = msg_info_from_subject("Move Snowden to Russia");
    let msg_info2 = msg_info_from_subject("Rename C# to Java");

    let classes = classify(&ordinary_meta(), &diff, &msg_info);
    let classes2 = classify(&ordinary_meta(), &diff, &msg_info2);

    assert!(classes.contains(CommitClass::RefactorCommit));
    assert!(classes2.contains(CommitClass::RefactorCommit));
}

#[test]
fn class_refactor_commit_is_not_classified_without_keywords() {
    let diff = DiffInfo::new(42, 42);
    let msg_info = msg_info_from_subject("Improve character movement rendering");
    let msg_info2 = msg_info_from_subject("Just for lulz bro");

    let classes = classify(&ordinary_meta(), &diff, &msg_info);
    let classes2 = classify(&ordinary_meta(), &diff, &msg_info2);

    assert!(!classes.contains(CommitClass::RefactorCommit));
    assert!(!classes2.contains(CommitClass::RefactorCommit));
}

#[test]
fn class_refactor_commit_is_not_classified_with_large_ins_del_diff() {
    let diff = DiffInfo::new(10, 500);
    let msg_info = msg_info_from_subject("Move Snowden to Russia");
    let msg_info2 = msg_info_from_subject("Rename C# to Java");

    let classes = classify(&ordinary_meta(), &diff, &msg_info);
    let classes2 = classify(&ordinary_meta(), &diff, &msg_info2);

    assert!(!classes.contains(CommitClass::RefactorCommit));
    assert!(!classes2.contains(CommitClass::RefactorCommit));
}

#[test]
fn commit_initial_commit_is_classified_when_no_parents() {
    let diff = DiffInfo::new(0, 0);
    let msg_info = msg_info_from_subject("Initial commit");

    let classes = classify(&initial_meta(), &diff, &msg_info);

    assert!(classes.contains(CommitClass::InitialCommit));
}

#[test]
fn commit_initial_commit_is_not_classified_when_parents_exist() {
    let diff = DiffInfo::new(0, 0);
    let diff2 = DiffInfo::new(42, 666);
    let msg_info = msg_info_from_subject("Initial commit");

    let classes = classify(&ordinary_meta(), &diff, &msg_info);
    let classes2 = classify(&ordinary_meta(), &diff2, &msg_info);
    let classes3 = classify(&merge_meta(), &diff, &msg_info);

    assert!(!classes.contains(CommitClass::InitialCommit));
    assert!(!classes2.contains(CommitClass::InitialCommit));
    assert!(!classes3.contains(CommitClass::InitialCommit));
}

#[test]
fn commit_short_commit_is_classified_for_single_line_diff() {
    let diff = DiffInfo::new(1, 0);
    let msg_info = msg_info_from_subject("Fix NPE in CustomMetricsController");

    let classes = classify(&ordinary_meta(), &diff, &msg_info);

    assert!(classes.contains(CommitClass::ShortCommit));
}

#[test]
fn commit_short_commit_is_not_classified_for_huge_diff() {
    let diff = DiffInfo::new(666, 42);
    let msg_info = msg_info_from_subject("Fix NPE in CustomMetricsController");

    let classes = classify(&ordinary_meta(), &diff, &msg_info);

    assert!(!classes.contains(CommitClass::ShortCommit));
}

#[test]
fn commit_refactor_commit_is_classified_with_infinitive() {
    let diff = DiffInfo::new(42, 42);
    let msg_info = msg_info_from_subject("move Snowden to Russia");
    let msg_info2 = msg_info_from_subject("rename C# to Java");

    let classes = classify(&ordinary_meta(), &diff, &msg_info);
    let classes2 = classify(&ordinary_meta(), &diff, &msg_info2);

    assert!(classes.contains(CommitClass::RefactorCommit));
    assert!(classes2.contains(CommitClass::RefactorCommit));
}

#[test]
fn commit_refactor_commit_is_classified_with_past() {
    let diff = DiffInfo::new(42, 42);
    let msg_info = msg_info_from_subject("moved Snowden to Russia");
    let msg_info2 = msg_info_from_subject("renamed C# to Java");

    let classes = classify(&ordinary_meta(), &diff, &msg_info);
    let classes2 = classify(&ordinary_meta(), &diff, &msg_info2);

    assert!(classes.contains(CommitClass::RefactorCommit));
    assert!(classes2.contains(CommitClass::RefactorCommit));
}

#[test]
fn commit_refactor_commit_is_classified_with_mixed_case() {
    let diff = DiffInfo::new(42, 42);
    let msg_info = msg_info_from_subject("MoVe Snowden to Russia");
    let msg_info2 = msg_info_from_subject("ReNaMe C# to Java");

    let classes = classify(&ordinary_meta(), &diff, &msg_info);
    let classes2 = classify(&ordinary_meta(), &diff, &msg_info2);

    assert!(classes.contains(CommitClass::RefactorCommit));
    assert!(classes2.contains(CommitClass::RefactorCommit));
}

#[test]
fn commit_refactor_commit_is_classified_with_keywords_in_middle() {
    let diff = DiffInfo::new(42, 42);
    let msg_info = msg_info_from_subject("I moved Snowden to Russia");
    let msg_info2 = msg_info_from_subject("I renamed C# to Java");

    let classes = classify(&ordinary_meta(), &diff, &msg_info);
    let classes2 = classify(&ordinary_meta(), &diff, &msg_info2);

    assert!(classes.contains(CommitClass::RefactorCommit));
    assert!(classes2.contains(CommitClass::RefactorCommit));
}

#[test]
fn commit_refactor_commit_is_classified_with_small_ins_del_diff() {
    let diff = DiffInfo::new(50, 52);
    let msg_info = msg_info_from_subject("Move Snowden to Russia");
    let msg_info2 = msg_info_from_subject("Rename C# to Java");

    let classes = classify(&ordinary_meta(), &diff, &msg_info);
    let classes2 = classify(&ordinary_meta(), &diff, &msg_info2);

    assert!(classes.contains(CommitClass::RefactorCommit));
    assert!(classes2.contains(CommitClass::RefactorCommit));
}

#[test]
fn commit_refactor_commit_is_not_classified_without_keywords() {
    let diff = DiffInfo::new(42, 42);
    let msg_info = msg_info_from_subject("Improve character movement rendering");
    let msg_info2 = msg_info_from_subject("Just for lulz bro");

    let classes = classify(&ordinary_meta(), &diff, &msg_info);
    let classes2 = classify(&ordinary_meta(), &diff, &msg_info2);

    assert!(!classes.contains(CommitClass::RefactorCommit));
    assert!(!classes2.contains(CommitClass::RefactorCommit));
}

#[test]
fn commit_refactor_commit_is_not_classified_with_large_ins_del_diff() {
    let diff = DiffInfo::new(10, 500);
    let msg_info = msg_info_from_subject("Move Snowden to Russia");
    let msg_info2 = msg_info_from_subject("Rename C# to Java");

    let classes = classify(&ordinary_meta(), &diff, &msg_info);
    let classes2 = classify(&ordinary_meta(), &diff, &msg_info2);

    assert!(!classes.contains(CommitClass::RefactorCommit));
    assert!(!classes2.contains(CommitClass::RefactorCommit));
}
