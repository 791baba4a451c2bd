use gitui::extern_cmd::{CmdFocus, CmdKey, CmdOutcome, ExternalCommandPopup, ShortcutState};
use gitui::keys::{GituiKeyEvent, KeyCode, ALT};
use gitui::options::{Options, OptionsData};

fn run_of(o: CmdOutcome) -> Option<String> {
    match o {
        CmdOutcome::Run(c) => Some(c),
        _ => None,
    }
}

#[test]
fn external_command_with_saved_shortcut_scenario() {
    let mut options = Options::new(OptionsData::default());
    let mut popup = ExternalCommandPopup::new();
    let enter = GituiKeyEvent::new(KeyCode::Enter, 0);
    popup.visible = true;
    popup.cmdline = "echo hello".to_string();
    let r = popup.event(CmdKey::Enter, enter, &mut options);
    assert_eq!(run_of(r), Some("echo hello".to_string()));
    assert!(!popup.visible);
    assert_eq!(options.extern_commands()[0].0, "echo hello");

    // reopen, go to the list, assign Alt-h, close, press Alt-h
    popup.visible = true;
    let tab = GituiKeyEvent::new(KeyCode::Tab, 0);
    popup.event(CmdKey::ToggleFocus, tab, &mut options);
    assert!(popup.focused == CmdFocus::List);
    let a = GituiKeyEvent::new(KeyCode::Char('a'), 0);
    assert!(matches!(popup.event(CmdKey::AssignShortcut, a, &mut options), CmdOutcome::Consumed));
    assert!(popup.shortcut_state == ShortcutState::Assign);
    let alt_h = GituiKeyEvent::new(KeyCode::Char('h'), ALT);
    popup.event(CmdKey::Other, alt_h, &mut options);
    assert_eq!(options.extern_commands()[0].1, Some(alt_h));
    let esc = GituiKeyEvent::new(KeyCode::Esc, 0);
    popup.event(CmdKey::Exit, esc, &mut options);
    assert!(!popup.visible);
    popup.visible = true;
    let r = popup.event(CmdKey::Other, alt_h, &mut options);
    assert_eq!(run_of(r), Some("echo hello".to_string()));
    assert_eq!(options.extern_commands().len(), 1);
}

#[test]
fn list_navigation_and_delete() {
    let mut options = Options::new(OptionsData::default());
    options.add_extern_command("c");
    options.add_extern_command("b");
    options.add_extern_command("a");
    let mut popup = ExternalCommandPopup::new();
    popup.visible = true;
    popup.focused = CmdFocus::List;
    let k = GituiKeyEvent::new(KeyCode::Null, 0);
    popup.event(CmdKey::Down, k, &mut options);
    popup.event(CmdKey::Down, k, &mut options);
    popup.event(CmdKey::Down, k, &mut options);
    assert_eq!(popup.selected_idx, 2);
    popup.event(CmdKey::Delete, k, &mut options);
    assert_eq!(popup.selected_idx, 1);
    assert_eq!(options.extern_commands().len(), 2);
    assert!(matches!(popup.event(CmdKey::Other, k, &mut options), CmdOutcome::NotHandled));
}

#[test]
fn hidden_popup_handles_nothing() {
    let mut options = Options::new(OptionsData::default());
    let mut popup = ExternalCommandPopup::new();
    popup.cmdline = "ls".to_string();
    let enter = GituiKeyEvent::new(KeyCode::Enter, 0);
    assert!(matches!(popup.event(CmdKey::Enter, enter, &mut options), CmdOutcome::NotHandled));
    assert!(options.extern_commands().is_empty());
}

#[test]
fn command_reports() {
    let r = gitui::extern_cmd::command_report(Err("not found".to_string()));
    assert!(r.is_error);
    assert_eq!(r.text, "Command failed\nnot found");
    let r = gitui::extern_cmd::command_report(Ok(("hello\n".to_string(), String::new(), true)));
    assert!(!r.is_error);
    assert_eq!(r.text, "hello\n");
    let r = gitui::extern_cmd::command_report(Ok((String::new(), "bad".to_string(), false)));
    assert!(r.is_error);
    assert_eq!(r.text, "bad");
    let r = gitui::extern_cmd::command_report(Ok((String::new(), "warn".to_string(), true)));
    assert!(!r.is_error);
    assert_eq!(r.text, "warn");
}
