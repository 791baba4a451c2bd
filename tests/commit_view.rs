use gitui::commit::CommitId;
use gitui::commit_list::{CommitList, Focused, KeyComboState, ListKey, ListRequest, LogEntry, MarkedAction, RepoState};
use gitui::popups::ExternalSearchRequest;

fn entry(n: u8, author: &str, msg: &str) -> LogEntry {
    LogEntry { id: CommitId::new([n; 20]), author: author.to_string(), msg: msg.to_string(), hash_full: format!("{:02x}", n) }
}

fn list() -> CommitList {
    let mut l = CommitList::new();
    l.items = vec![
        entry(1, "Ann", "Fix parser"),
        entry(2, "Bob", "Add tests"),
        entry(3, "Ann", "Refactor"),
        entry(4, "Cy", "fix typo"),
    ];
    l.set_count_total(4);
    l
}

#[test]
fn marks_stay_sorted_and_toggle() {
    let mut l = list();
    l.select_entry(2);
    l.mark();
    l.select_entry(0);
    l.mark();
    l.select_entry(3);
    l.mark();
    let pos: Vec<usize> = l.marked.iter().map(|m| m.0).collect();
    assert_eq!(pos, vec![0, 2, 3]);
    l.select_entry(2);
    l.mark();
    assert_eq!(l.marked_count(), 2);
    assert_eq!(l.marked_commits(), vec![CommitId::new([1; 20]), CommitId::new([4; 20])]);
    assert!(!l.is_marked(&CommitId::new([3; 20])));
}

#[test]
fn drop_with_nothing_marked_marks_the_selection() {
    let mut l = list();
    l.select_entry(1);
    let r = l.list_event(ListKey::Drop, RepoState::Clean, 1, 10);
    assert_eq!(r, (true, ListRequest::Confirm(MarkedAction::Drop)));
    assert_eq!(l.marked_count(), 1);
    let r = l.list_event(ListKey::Exit, RepoState::Clean, 1, 10);
    assert_eq!(r, (true, ListRequest::UpdateAll));
    assert_eq!(l.marked_count(), 0);
    let mut empty = CommitList::new();
    assert_eq!(
        empty.list_event(ListKey::Fixup, RepoState::Clean, 1, 10),
        (true, ListRequest::NothingMarked(MarkedAction::Fixup))
    );
}

#[test]
fn rebase_keys_depend_on_repo_state() {
    let mut l = list();
    l.select_entry(1);
    assert_eq!(l.list_event(ListKey::RebaseInteractive, RepoState::Clean, 1, 10), (true, ListRequest::RebaseInteractive));
    assert_eq!(l.list_event(ListKey::RebaseInteractive, RepoState::Rebase, 1, 10), (false, ListRequest::Nothing));
    assert_eq!(l.list_event(ListKey::RebaseContinue, RepoState::Rebase, 1, 10), (true, ListRequest::RebaseContinue));
    assert_eq!(l.list_event(ListKey::RebaseAbort, RepoState::Clean, 1, 10), (false, ListRequest::Nothing));
}

#[test]
fn movement_is_clamped() {
    let mut l = list();
    assert_eq!(l.list_event(ListKey::Down, RepoState::Clean, 3, 10), (true, ListRequest::Nothing));
    assert_eq!(l.selection, 3);
    assert_eq!(l.list_event(ListKey::Down, RepoState::Clean, 3, 10), (false, ListRequest::Nothing));
    l.list_event(ListKey::Home, RepoState::Clean, 1, 10);
    assert_eq!(l.selection, 0);
    l.set_count_total(0);
    assert_eq!(l.selection, 0);
}

#[test]
fn two_key_search_combo_and_search() {
    let mut l = list();
    l.list_event(ListKey::SearchInit, RepoState::Clean, 1, 10);
    assert!(l.combo_state == KeyComboState::SearchInitForward);
    l.list_event(ListKey::FilterAuthor, RepoState::Clean, 1, 10);
    assert!(l.combo_state == KeyComboState::Empty);
    assert!(l.search_visible && l.focused == Focused::InputSearch);
    assert!(l.search_options.author && !l.search_options.message && !l.search_options.sha);
    l.current_search = "ann".to_string();
    l.search_commit_forward();
    assert_eq!(l.selection, 2);
    l.search_commit_forward();
    assert_eq!(l.selection, 2);
    assert!(l.has_extended_search_request() == ExternalSearchRequest::Forward);
    l.search_commit_backward();
    assert_eq!(l.selection, 0);
    l.search_options.enable_all();
    l.current_search = "FIX".to_string();
    l.select_entry(0);
    l.search_commit_forward();
    assert_eq!(l.selection, 3);
}

#[test]
fn escape_closes_search_and_filter() {
    let mut l = list();
    l.list_event(ListKey::FilterInit, RepoState::Clean, 1, 10);
    l.list_event(ListKey::FilterMessage, RepoState::Clean, 1, 10);
    assert!(l.filter_visible && l.focused == Focused::InputFilter);
    l.toggle_input_focus();
    assert!(l.focused == Focused::List);
    l.path_filter = "src/lib/io.ext".to_string();
    assert_eq!(l.list_event(ListKey::Exit, RepoState::Clean, 1, 10), (true, ListRequest::UpdateAll));
    assert!(!l.filter_visible);
    assert_eq!(l.path_filter, "src/lib/io.ext");
    l.list_event(ListKey::Exit, RepoState::Clean, 1, 10);
    assert_eq!(l.path_filter, "");
}

#[test]
fn escape_clearing_path_filter_reloads_the_log() {
    let mut l = list();
    l.path_filter = "src/lib/io.ext".to_string();
    assert_eq!(l.list_event(ListKey::Exit, RepoState::Clean, 1, 10), (true, ListRequest::UpdateAll));
    assert_eq!(l.path_filter, "");
    assert_eq!(l.list_event(ListKey::Exit, RepoState::Clean, 1, 10), (true, ListRequest::Nothing));
}

#[test]
fn mark_at_a_position_taken_by_another_commit_replaces_it() {
    let mut l = list();
    l.select_entry(1);
    l.mark();
    // the batch is reloaded and another commit now sits at position 1
    l.items[1] = entry(9, "Dee", "Other");
    l.mark();
    assert_eq!(l.marked_count(), 1);
    assert_eq!(l.marked[0], (1, CommitId::new([9; 20])));
    assert_eq!(l.oldest_marked(), Some(CommitId::new([9; 20])));
    let (r, msg) = l.marked_action_done(MarkedAction::Drop, Err("conflict".to_string()));
    assert_eq!(r, ListRequest::UpdateAll);
    assert_eq!(msg, Some("Dropping commits failed: conflict".to_string()));
    assert_eq!(l.marked_count(), 1);
    let (_, msg) = l.marked_action_done(MarkedAction::Drop, Ok(()));
    assert_eq!(msg, None);
    assert_eq!(l.marked_count(), 0);
    assert_eq!(
        gitui::commit_list::failure_message(MarkedAction::Cherrypick, "boom"),
        "Could not perform cherrypick(s)\nboom"
    );
}

#[test]
fn path_filter_is_normalized() {
    let mut l = CommitList::new();
    assert_eq!(l.get_path_filter(), None);
    l.path_filter = "./src//lib/./io.ext".to_string();
    assert_eq!(l.get_path_filter(), Some("src/lib/io.ext".to_string()));
    l.path_filter = "src/lib/io.ext".to_string();
    assert_eq!(l.get_path_filter(), Some("src/lib/io.ext".to_string()));
}

#[test]
fn filter_admits_by_author_or_message() {
    let mut l = list();
    assert_eq!(l.filter_admits("ann", "Ann", "x"), None);
    l.show_filter();
    l.filter_options.author_only();
    assert_eq!(l.filter_admits("", "Ann", "x"), None);
    assert_eq!(l.filter_admits("ANN", "Ann Lee", "x"), Some(true));
    assert_eq!(l.filter_admits("fix", "Ann", "Fix parser"), Some(false));
    l.filter_options.enable_all();
    assert_eq!(l.filter_admits("fix", "Ann", "Fix parser"), Some(true));
}
