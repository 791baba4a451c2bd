use gitui::rebase_todo::{
    drop_commits_todo, fixup_commits_todo, parse_rebase_todo, write_rebase_todo, InteractiveOperation,
    RebaseCommit, TodoLineError,
};

#[test]
fn parses_long_and_short_operation_names() {
    assert!(InteractiveOperation::try_parse("pick") == Ok(InteractiveOperation::Pick));
    assert!(InteractiveOperation::try_parse("p") == Ok(InteractiveOperation::Pick));
    assert!(InteractiveOperation::try_parse("update-ref") == Ok(InteractiveOperation::UpdateRef));
    assert!(InteractiveOperation::try_parse("t") == Ok(InteractiveOperation::Reset));
    assert!(InteractiveOperation::try_parse("x") == Ok(InteractiveOperation::Exec));
    assert_eq!(InteractiveOperation::try_parse("frobnicate"), Err("Unknown operation: frobnicate".to_string()));
    assert_eq!(InteractiveOperation::Fixup.to_string(), "fixup");
}

#[test]
fn parses_todo_line() {
    let c = RebaseCommit::try_parse("  pick  abc1234 \"abc1234def\"  ").unwrap();
    assert!(c.op == InteractiveOperation::Pick);
    assert_eq!(c.hash, "abc1234");
    assert_eq!(c.full_hash, "abc1234def");
    assert_eq!(c.to_string(), "pick abc1234 \"abc1234def\"");
}

#[test]
fn todo_line_errors() {
    assert_eq!(RebaseCommit::try_parse("   ").err(), Some(TodoLineError::NoOp));
    assert_eq!(RebaseCommit::try_parse("# comment").err(), Some(TodoLineError::UnknownOperation));
    assert_eq!(RebaseCommit::try_parse("pick").err(), Some(TodoLineError::NoShortHash));
    assert_eq!(RebaseCommit::try_parse("pick abc").err(), Some(TodoLineError::NoFullHash));
}

#[test]
fn todo_round_trip() {
    for l in ["p abc \"full1\"", "drop   x1   full2 trailing words", "f h \"\"", "s h \"\"q\"\""] {
        let c = RebaseCommit::try_parse(l).unwrap();
        let again = RebaseCommit::try_parse(&c.to_string()).unwrap();
        assert!(again.op == c.op);
        assert_eq!(again.hash, c.hash);
        assert_eq!(again.full_hash, c.full_hash);
    }
}

#[test]
fn todo_file_drops_blank_and_comment_lines() {
    let content = "pick a1 \"aaa\"\n\n# a comment\npick b2 \"bbb\"\r\npick c3 \"ccc\"\n";
    let v = parse_rebase_todo(content);
    assert_eq!(v.len(), 3);
    assert_eq!(v[1].full_hash, "bbb");
    assert_eq!(write_rebase_todo(&v), "pick a1 \"aaa\"\npick b2 \"bbb\"\npick c3 \"ccc\"");
}

#[test]
fn drop_two_commits_scenario() {
    // commits A, B, C, D; B and C are marked; the rebase runs on parent(B) = A
    let todo = "pick b \"bbbb\"\npick c \"cccc\"\npick d \"dddd\"\n";
    let marked = vec!["bbbb".to_string(), "cccc".to_string()];
    assert_eq!(
        drop_commits_todo(todo, &marked),
        "drop b \"bbbb\"\ndrop c \"cccc\"\npick d \"dddd\""
    );
    assert_eq!(
        fixup_commits_todo(todo, &vec!["cccc".to_string()]),
        "pick b \"bbbb\"\nfixup c \"cccc\"\npick d \"dddd\""
    );
}

#[test]
fn control_check_is_exact() {
    assert!(gitui::diff_search::is_control('\u{0}'));
    assert!(gitui::diff_search::is_control('\u{9f}'));
    assert!(!gitui::diff_search::is_control(' '));
    assert!(!gitui::diff_search::is_control('\u{a0}'));
}
