use gitui::branch_list::{BranchKey, BranchList, BranchRequest, BranchShortcutState};
use gitui::commit::CommitId;
use gitui::keys::{GituiKeyEvent, KeyCode, ALT};
use gitui::options::{Options, OptionsData};
use gitui::queue::{BranchDetails, BranchInfo};

fn branch(name: &str, head: bool) -> BranchInfo {
    BranchInfo {
        name: name.to_string(),
        reference: format!("refs/heads/{}", name),
        top_commit_message: String::new(),
        top_commit: CommitId::new([0; 20]),
        details: BranchDetails::Local { has_upstream: false, upstream_ref: None, is_head: head },
    }
}

fn list() -> BranchList {
    BranchList {
        branches: vec![branch("main", true), branch("dev", false), branch("topic", false)],
        selection: 0,
        local: true,
        has_remotes: false,
        visible: true,
        height: 10,
        shortcut_state: BranchShortcutState::Idle,
    }
}

#[test]
fn branch_shortcut_assign_and_trigger() {
    let mut o = Options::new(OptionsData::default());
    let mut l = list();
    let none = GituiKeyEvent::new(KeyCode::Null, 0);
    l.event(BranchKey::Down, none, &mut o);
    assert_eq!(l.selection, 1);
    l.event(BranchKey::AssignShortcut, none, &mut o);
    let alt_d = GituiKeyEvent::new(KeyCode::Char('d'), ALT);
    assert_eq!(l.event(BranchKey::Other, alt_d, &mut o), (true, BranchRequest::Nothing));
    assert_eq!(o.find_branch_by_key_event(&alt_d), Some("dev"));
    l.event(BranchKey::Home, none, &mut o);
    assert_eq!(l.selection, 0);
    l.event(BranchKey::TriggerShortcut, none, &mut o);
    assert_eq!(l.event(BranchKey::Other, alt_d, &mut o), (true, BranchRequest::SwitchToSelected));
    assert_eq!(l.selection, 1);
    // Escape cancels an assignment
    l.event(BranchKey::AssignShortcut, none, &mut o);
    let esc = GituiKeyEvent::new(KeyCode::Esc, 0);
    l.event(BranchKey::Other, esc, &mut o);
    assert_eq!(o.data.branch_shortcuts.len(), 1);
    l.event(BranchKey::ClearShortcut, none, &mut o);
    assert!(!o.has_any_branch_shortcuts());
}

#[test]
fn operations_on_current_branch_are_refused() {
    let mut o = Options::new(OptionsData::default());
    let mut l = list();
    let none = GituiKeyEvent::new(KeyCode::Null, 0);
    assert_eq!(l.event(BranchKey::Delete, none, &mut o), (true, BranchRequest::Nothing));
    l.event(BranchKey::End, none, &mut o);
    assert_eq!(l.selection, 2);
    assert_eq!(l.event(BranchKey::Merge, none, &mut o), (true, BranchRequest::Merge));
    assert_eq!(l.event(BranchKey::Fetch, none, &mut o), (true, BranchRequest::Nothing));
    assert_eq!(l.event(BranchKey::TabToggle, none, &mut o), (true, BranchRequest::Reload));
    assert!(!l.local);
    assert_eq!(l.event(BranchKey::CmdBarToggle, none, &mut o), (false, BranchRequest::Nothing));
}
