use gitui::config::{untracked_config_from_value, DiffOptions, ShowUntrackedFilesConfig};
use gitui::keys::{GituiKeyEvent, KeyCode, ALT};
use gitui::options::{Options, OptionsData};

fn fresh() -> Options {
    Options::new(OptionsData::default())
}

#[test]
fn adding_same_extern_command_twice_keeps_one() {
    let mut o = fresh();
    o.add_extern_command("ls -la");
    o.add_extern_command("ls -la");
    assert_eq!(o.extern_commands().len(), 1);
    assert_eq!(o.extern_commands()[0].0, "ls -la");
}

#[test]
fn new_extern_commands_go_to_the_front() {
    let mut o = fresh();
    o.add_extern_command("first");
    o.add_extern_command("second");
    assert_eq!(o.extern_commands()[0].0, "second");
    assert_eq!(o.extern_commands()[1].0, "first");
}

#[test]
fn commit_message_ring_keeps_newest_twenty() {
    let mut o = fresh();
    for i in 0..25 {
        o.add_commit_msg(&format!("msg {}", i));
    }
    assert_eq!(o.data.commit_msgs.len(), 20);
    assert_eq!(o.data.commit_msgs[0], "msg 5");
    assert_eq!(o.data.commit_msgs[19], "msg 24");
    assert_eq!(o.commit_msg(0), Some("msg 24".to_string()));
    assert_eq!(o.commit_msg(1), Some("msg 23".to_string()));
    // the index wraps around the history
    assert_eq!(o.commit_msg(20), Some("msg 24".to_string()));
}

#[test]
fn commit_msg_of_empty_history_is_none() {
    let o = fresh();
    assert!(!o.has_commit_msg_history());
    assert_eq!(o.commit_msg(3), None);
}

#[test]
fn removing_branch_shortcut_is_idempotent_and_clear_empties() {
    let mut o = fresh();
    let k = GituiKeyEvent::new(KeyCode::Char('m'), ALT);
    let d = GituiKeyEvent::new(KeyCode::Char('d'), ALT);
    o.assign_shortcut_for_branch("main", &k);
    o.assign_shortcut_for_branch("dev", &d);
    o.remove_shortcut_for_branch("main");
    let once: Vec<String> = o.data.branch_shortcuts.iter().map(|b| b.0.clone()).collect();
    o.remove_shortcut_for_branch("main");
    let twice: Vec<String> = o.data.branch_shortcuts.iter().map(|b| b.0.clone()).collect();
    assert_eq!(once, twice);
    assert_eq!(once, vec!["dev".to_string()]);
    o.clear_all_branch_shortcuts();
    assert!(!o.has_any_branch_shortcuts());
}

#[test]
fn branch_shortcut_is_replaced_not_added() {
    let mut o = fresh();
    let k1 = GituiKeyEvent::new(KeyCode::Char('1'), ALT);
    let k2 = GituiKeyEvent::new(KeyCode::Char('2'), ALT);
    o.assign_shortcut_for_branch("main", &k1);
    o.assign_shortcut_for_branch("main", &k2);
    assert_eq!(o.data.branch_shortcuts.len(), 1);
    assert_eq!(o.find_branch_shortcut_by_branch("main"), Some(&k2));
    assert_eq!(o.find_branch_by_key_event(&k2), Some("main"));
    assert_eq!(o.find_branch_by_key_event(&k1), None);
}

#[test]
fn extern_command_with_saved_shortcut_is_found() {
    let mut o = fresh();
    o.add_extern_command("echo hello");
    assert_eq!(o.extern_commands()[0].0, "echo hello");
    let alt_e = GituiKeyEvent::new(KeyCode::Char('e'), ALT);
    o.assign_shortcut_for_extern_command(0, Some(alt_e));
    assert_eq!(o.find_extern_cmd_for_shortcut(alt_e), Some("echo hello".to_string()));
    o.clear_all_shortcuts_for_extern_commands();
    assert_eq!(o.find_extern_cmd_for_shortcut(alt_e), None);
}

#[test]
fn remove_extern_command_returns_next_selection() {
    let mut o = fresh();
    o.add_extern_command("c");
    o.add_extern_command("b");
    o.add_extern_command("a");
    assert_eq!(o.remove_extern_command(2), 1);
    assert_eq!(o.remove_extern_command(0), 0);
    assert_eq!(o.remove_extern_command(5), 0);
    assert_eq!(o.extern_commands().len(), 1);
    assert_eq!(o.extern_commands()[0].0, "b");
}

#[test]
fn diff_settings_saturate() {
    let mut o = fresh();
    assert_eq!(o.diff_options(), DiffOptions { ignore_whitespace: false, context: 3, interhunk_lines: 0 });
    o.diff_hunk_lines_change(false);
    assert_eq!(o.diff_options().interhunk_lines, 0);
    o.diff_context_change(true);
    assert_eq!(o.diff_options().context, 4);
    o.diff_toggle_whitespace();
    assert!(o.diff_options().ignore_whitespace);
    o.set_current_tab(2);
    assert_eq!(o.current_tab(), 2);
}

#[test]
fn untracked_setting_from_config_value() {
    assert!(untracked_config_from_value(Some("no")) == ShowUntrackedFilesConfig::No);
    assert!(untracked_config_from_value(Some("normal")) == ShowUntrackedFilesConfig::Normal);
    assert!(untracked_config_from_value(Some("all")) == ShowUntrackedFilesConfig::All);
    assert!(untracked_config_from_value(None) == ShowUntrackedFilesConfig::All);
    assert!(ShowUntrackedFilesConfig::Normal.include_untracked());
    assert!(!ShowUntrackedFilesConfig::Normal.recurse_untracked_dirs());
    assert!(ShowUntrackedFilesConfig::No.include_none());
}
