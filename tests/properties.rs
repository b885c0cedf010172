use pedit::pattern::{key_pattern, line_pattern, pair_pattern};
use pedit::{
    AbsentStatus, AnchorRelation, EditStatus, Ensure, LinesEditor, LinesEditorError, Pattern,
    Placement, PresentStatus, ReplaceStatus,
};

fn load(input: &str) -> LinesEditor {
    LinesEditor::load(input.lines().map(String::from).collect())
}

fn present_at(placement: Placement) -> Ensure {
    Ensure::Present { placement }
}

fn relative(relation: AnchorRelation, anchor: &str) -> Ensure {
    present_at(Placement::RelativeTo { relation, anchor: Pattern::new(anchor).unwrap() })
}

fn eq_separator() -> Pattern {
    Pattern::new(r#"(\s*=\s*)"#).unwrap()
}

#[test]
fn present_before_and_after_anchor() {
    let mut editor = load("foo\nbar\nbaz");
    let status = editor.edit_line("quix".to_string(), false, relative(AnchorRelation::Before, "bar")).unwrap();
    assert_eq!(status, EditStatus::Present(PresentStatus::InsertedPlacement));
    assert_eq!(editor.to_string(), "foo\nquix\nbar\nbaz\n");

    let mut editor = load("foo\nbar\nbaz");
    editor.edit_line("quix".to_string(), false, relative(AnchorRelation::After, "bar")).unwrap();
    assert_eq!(editor.to_string(), "foo\nbar\nquix\nbaz\n");
}

#[test]
fn present_at_top_and_end() {
    let mut editor = load("foo\nbar\nbaz");
    editor.edit_line("quix".to_string(), false, present_at(Placement::AtTop)).unwrap();
    assert_eq!(editor.to_string(), "quix\nfoo\nbar\nbaz\n");

    let mut editor = load("foo\nbar\nbaz");
    editor.edit_line("quix".to_string(), false, present_at(Placement::AtEnd)).unwrap();
    assert_eq!(editor.to_string(), "foo\nbar\nbaz\nquix\n");
}

#[test]
fn present_on_empty_text() {
    let mut editor = load("");
    assert_eq!(editor.to_string(), "");
    editor.edit_line("quix".to_string(), false, present_at(Placement::AtEnd)).unwrap();
    assert_eq!(editor.to_string(), "quix\n");
}

#[test]
fn present_value_already_there() {
    let mut editor = load("foo\nbar\nbaz");
    let status = editor.edit_line("bar".to_string(), false, present_at(Placement::AtTop)).unwrap();
    assert_eq!(status, EditStatus::Present(PresentStatus::AlreadyPresent));
    assert!(!status.has_changed());
    assert_eq!(editor.to_string(), "foo\nbar\nbaz\n");
}

#[test]
fn ambiguous_anchor_is_rejected() {
    let mut editor = load("foo\nfoo");
    let err = editor.edit_line("bar".to_string(), false, relative(AnchorRelation::Before, "foo")).unwrap_err();
    assert!(matches!(err, LinesEditorError::MultipleMatch));
    assert_eq!(editor.to_string(), "foo\nfoo\n");
}

#[test]
fn missing_anchor_is_not_applicable() {
    let mut editor = load("foo\nbar\nbaz");
    let err = editor.edit_line("quix".to_string(), false, relative(AnchorRelation::After, "nothing")).unwrap_err();
    match &err {
        LinesEditorError::NotApplicable(value) => assert_eq!(value, "quix"),
        other => panic!("unexpected error {:?}", other),
    }
    assert_eq!(err.to_string(), "Edit was not applicable");
    assert_eq!(editor.to_string(), "foo\nbar\nbaz\n");
}

#[test]
fn absent_removes_and_absent_value_is_left_alone() {
    let mut editor = load("foo\nbar\nbaz");
    let status = editor.edit_line("bar".to_string(), false, Ensure::Absent).unwrap();
    assert_eq!(status, EditStatus::Absent(AbsentStatus::Removed));
    assert_eq!(editor.to_string(), "foo\nbaz\n");

    let mut editor = load("foo\nbar\nbaz");
    let status = editor.edit_line("quix".to_string(), false, Ensure::Absent).unwrap();
    assert_eq!(status, EditStatus::Absent(AbsentStatus::AlreadyAbsent));
    assert!(!status.has_changed());
    assert_eq!(editor.to_string(), "foo\nbar\nbaz\n");
}

#[test]
fn second_application_changes_nothing() {
    let mut editor = load("foo\nbar\nbaz");
    let first = editor.edit_line("quix".to_string(), false, relative(AnchorRelation::Before, "baz")).unwrap();
    let once = editor.to_string();
    let second = editor.edit_line("quix".to_string(), false, relative(AnchorRelation::Before, "baz")).unwrap();
    assert!(first.has_changed());
    assert!(!second.has_changed());
    assert_eq!(editor.to_string(), once);

    let mut editor = load("foo = 1\nbar = 2");
    editor.edit_pair("bar = 4".to_string(), false, false, &eq_separator(), present_at(Placement::AtEnd)).unwrap();
    let once = editor.to_string();
    let second = editor.edit_pair("bar = 4".to_string(), false, false, &eq_separator(), present_at(Placement::AtEnd)).unwrap();
    assert_eq!(second, EditStatus::Replaced(ReplaceStatus::AlreadyPresent));
    assert_eq!(editor.to_string(), once);
}

#[test]
fn literal_value_is_not_a_regex() {
    let mut editor = load("axb");
    let status = editor.edit_line("a.b".to_string(), false, present_at(Placement::AtEnd)).unwrap();
    assert_eq!(status, EditStatus::Present(PresentStatus::InsertedPlacement));
    assert_eq!(editor.to_string(), "axb\na.b\n");
}

#[test]
fn whitespace_around_lines() {
    let mut editor = load("  foo  \nbar");
    let status = editor.edit_line("foo".to_string(), true, present_at(Placement::AtEnd)).unwrap();
    assert_eq!(status, EditStatus::Present(PresentStatus::AlreadyPresent));

    let mut editor = load("  foo  \nbar");
    let status = editor.edit_line("foo".to_string(), false, present_at(Placement::AtEnd)).unwrap();
    assert_eq!(status, EditStatus::Present(PresentStatus::InsertedPlacement));
    assert_eq!(editor.to_string(), "  foo  \nbar\nfoo\n");

    let mut editor = load("  foo  \nbar");
    let status = editor.edit_line("foo".to_string(), true, Ensure::Absent).unwrap();
    assert_eq!(status, EditStatus::Absent(AbsentStatus::Removed));
    assert_eq!(editor.to_string(), "bar\n");
}

#[test]
fn pair_replaces_or_inserts() {
    let mut editor = load("foo = 1\nbar = 2\nbaz = 3");
    let status = editor.edit_pair("bar = 4".to_string(), false, false, &eq_separator(), present_at(Placement::AtTop)).unwrap();
    assert_eq!(status, EditStatus::Replaced(ReplaceStatus::Replaced));
    assert_eq!(editor.to_string(), "foo = 1\nbar = 4\nbaz = 3\n");

    let mut editor = load("foo = 1\nbar = 2\nbaz = 3");
    let status = editor.edit_pair("bar = 4".to_string(), true, false, &eq_separator(), present_at(Placement::AtTop)).unwrap();
    assert_eq!(status, EditStatus::Present(PresentStatus::InsertedPlacement));
    assert_eq!(editor.to_string(), "bar = 4\nfoo = 1\nbar = 2\nbaz = 3\n");

    let mut editor = load("foo = 1\nbar = 2\nbaz = 3");
    let status = editor.edit_pair("quix = 5".to_string(), false, false, &eq_separator(), present_at(Placement::AtEnd)).unwrap();
    assert_eq!(status, EditStatus::Present(PresentStatus::InsertedPlacement));
    assert_eq!(editor.to_string(), "foo = 1\nbar = 2\nbaz = 3\nquix = 5\n");
}

#[test]
fn pair_already_present() {
    let mut editor = load("foo = 1\nbar = 2");
    let status = editor.edit_pair("bar=2".to_string(), false, false, &eq_separator(), present_at(Placement::AtTop)).unwrap();
    assert_eq!(status, EditStatus::Replaced(ReplaceStatus::AlreadyPresent));
    assert_eq!(editor.to_string(), "foo = 1\nbar = 2\n");

    let mut editor = load("bar = 1\nbar = 2");
    let status = editor.edit_pair("bar = 2".to_string(), true, false, &eq_separator(), present_at(Placement::AtTop)).unwrap();
    assert_eq!(status, EditStatus::Replaced(ReplaceStatus::AlreadyPresent));
    assert_eq!(editor.to_string(), "bar = 1\nbar = 2\n");
}

#[test]
fn pair_ambiguous_key_is_rejected() {
    let mut editor = load("bar = 1\nfoo = 0\nbar = 2");
    let err = editor.edit_pair("bar = 3".to_string(), false, false, &eq_separator(), present_at(Placement::AtTop)).unwrap_err();
    assert!(matches!(err, LinesEditorError::MultipleMatch));
    assert_eq!(editor.to_string(), "bar = 1\nfoo = 0\nbar = 2\n");
}

#[test]
fn pair_absent_needs_the_exact_value() {
    let mut editor = load("foo = 1\nbar = 2");
    let status = editor.edit_pair("bar = 3".to_string(), false, false, &eq_separator(), Ensure::Absent).unwrap();
    assert_eq!(status, EditStatus::Absent(AbsentStatus::AlreadyAbsent));
    assert_eq!(editor.to_string(), "foo = 1\nbar = 2\n");
}

#[test]
fn pair_without_separator_is_invalid() {
    let mut editor = load("foo = 1");
    let err = editor.edit_pair("bar".to_string(), false, false, &eq_separator(), present_at(Placement::AtTop)).unwrap_err();
    assert!(matches!(err, LinesEditorError::InvalidPairOrSeparator));
    assert_eq!(err.to_string(), "Failed to split given value as key and value pair with given separator pattern");
    assert_eq!(editor.to_string(), "foo = 1\n");
}

#[test]
fn invalid_expression_is_rejected() {
    let err = Pattern::new("foo(").unwrap_err();
    assert!(matches!(err, LinesEditorError::InvalidPattern));
    assert_eq!(err.to_string(), "Failed to compile pattern");
    assert_eq!(Pattern::new("a+b").unwrap().as_str(), "a+b");
}

#[test]
fn patterns_escape_literal_text() {
    assert_eq!(line_pattern("a.b*", false), r#"^a\.b\*$"#);
    assert_eq!(line_pattern("~/x (1)", true), r#"^\s*\~/x \(1\)\s*$"#);
    let separator = Pattern::new(" ").unwrap();
    assert_eq!(key_pattern("a-b", &separator, false), r#"^a\-b(?: )"#);
    assert_eq!(pair_pattern("a-b", &separator, "$HOME", true), r#"^\s*a\-b(?: )\$HOME\s*$"#);
}

#[test]
fn status_change_and_messages() {
    let unchanged = [
        EditStatus::Replaced(ReplaceStatus::AlreadyPresent),
        EditStatus::Present(PresentStatus::AlreadyPresent),
        EditStatus::Absent(AbsentStatus::AlreadyAbsent),
    ];
    for status in unchanged {
        assert!(!status.has_changed());
        assert_eq!(status.to_string(), "no change made");
    }
    assert!(EditStatus::from(ReplaceStatus::Replaced).has_changed());
    assert_eq!(EditStatus::from(ReplaceStatus::Replaced).to_string(), "value was replaced");
    assert_eq!(EditStatus::from(PresentStatus::InsertedPlacement).to_string(), "value was inserted");
    assert_eq!(EditStatus::from(AbsentStatus::Removed).to_string(), "value was removed");
    assert_eq!(LinesEditorError::MultipleMatch.to_string(), "Multiple candidates found");
}
