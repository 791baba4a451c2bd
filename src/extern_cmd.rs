use vstd::prelude::*;
use crate::keys::GituiKeyEvent;
use crate::options::{with_command, OptionsModel, Options};

verus! {

/// Which part of the external command popup has the keyboard.
#[derive(Clone, Copy, Debug, PartialEq, Eq, Structural)]
pub enum CmdFocus {
    Input,
    List,
}

/// Whether the next key is taken as a shortcut for the selected command.
#[derive(Clone, Copy, Debug, PartialEq, Eq, Structural)]
pub enum ShortcutState {
    Idle,
    Assign,
}

/// A key as the popup sees it, after the key bindings were applied.
#[derive(Clone, Copy, Debug, PartialEq, Eq, Structural)]
pub enum CmdKey {
    Exit,
    ToggleFocus,
    Enter,
    Down,
    Up,
    Delete,
    AssignShortcut,
    ClearShortcut,
    ClearAllShortcuts,
    Other,
}

/// What the popup asks of the application after a key.
#[derive(Clone, Debug)]
pub enum CmdOutcome {
    NotHandled,
    Consumed,
    Run(String),
}

/// The popup that runs the user's shell commands and keeps the list of
/// earlier ones with their shortcuts.
#[derive(Clone, Debug)]
pub struct ExternalCommandPopup {
    pub visible: bool,
    pub focused: CmdFocus,
    pub selected_idx: usize,
    pub shortcut_state: ShortcutState,
    pub cmdline: String,
}

impl ExternalCommandPopup {
    pub fn new() -> (r: Self)
        ensures
            !r.visible,
            r.focused == CmdFocus::Input,
            r.selected_idx == 0,
            r.shortcut_state == ShortcutState::Idle,
            r.cmdline@.len() == 0,
    {
        ExternalCommandPopup {
            visible: false,
            focused: CmdFocus::Input,
            selected_idx: 0,
            shortcut_state: ShortcutState::Idle,
            cmdline: String::new(),
        }
    }

    /// Runs a command: it is recorded in the options (first, unless it
    /// is listed) and handed out to be run.
    pub fn run_command(&mut self, cmd: String, options: &mut Options) -> (r: CmdOutcome)
        ensures
            final(options)@ == (OptionsModel { cmds: with_command(old(options)@.cmds, cmd@), ..old(options)@ }),
            r matches CmdOutcome::Run(c) && c@ == cmd@,
            !final(self).visible,
    {
        options.add_extern_command(cmd.as_str());
        self.visible = false;
        CmdOutcome::Run(cmd)
    }

    /// Handles a key: Escape closes the popup, the workarea key moves the
    /// focus, Enter runs the selected (or typed) command. On the list a
    /// pending shortcut assignment takes the key; otherwise the keys move
    /// the selection, delete the command, start assigning a shortcut, clear
    /// one or all shortcuts, or run the command bound to the key.
    pub fn event(&mut self, key: CmdKey, raw: GituiKeyEvent, options: &mut Options) -> (r: CmdOutcome)
        ensures
            !old(self).visible ==> r is NotHandled && *final(self) == *old(self) && final(options)@ == old(options)@,
            old(self).visible ==> ({
                let cmds = old(options)@.cmds;
                let sel = old(self).selected_idx as int;
                let list = old(self).focused == CmdFocus::List && cmds.len() > 0;
                let idle = old(self).shortcut_state == ShortcutState::Idle;
                &&& key == CmdKey::Exit ==> !final(self).visible && r is Consumed && final(options)@ == old(options)@
                &&& key == CmdKey::ToggleFocus ==> r is Consumed && final(self).focused != old(self).focused
                    && final(options)@ == old(options)@
                &&& key == CmdKey::Enter && old(self).focused == CmdFocus::Input ==> (r matches CmdOutcome::Run(c)
                    && c@ == old(self).cmdline@) && !final(self).visible && final(options)@ == (OptionsModel {
                    cmds: with_command(cmds, old(self).cmdline@),
                    ..old(options)@
                })
                &&& key == CmdKey::Enter && old(self).focused == CmdFocus::List && 0 <= sel < cmds.len() ==> (r matches CmdOutcome::Run(
                    c,
                ) && c@ == cmds[sel].0) && !final(self).visible && final(options)@ == (OptionsModel {
                    cmds: with_command(cmds, cmds[sel].0),
                    ..old(options)@
                })
                &&& key == CmdKey::Enter && old(self).focused == CmdFocus::List && sel >= cmds.len() ==> r is Consumed
                    && !final(self).visible && final(options)@ == old(options)@
                &&& key != CmdKey::Exit && key != CmdKey::ToggleFocus && key != CmdKey::Enter && !list ==> r is NotHandled
                    && final(options)@ == old(options)@
                &&& key != CmdKey::Exit && key != CmdKey::ToggleFocus && key != CmdKey::Enter && list && !idle ==> r is Consumed
                    && final(self).shortcut_state == ShortcutState::Idle && (sel < cmds.len() ==> final(options)@ == (
                OptionsModel { cmds: cmds.update(sel, (cmds[sel].0, Some(raw))), ..old(options)@ })) && (sel
                    >= cmds.len() ==> final(options)@ == old(options)@)
                &&& key == CmdKey::Down && list && idle ==> r is Consumed && final(options)@ == old(options)@
                    && final(self).selected_idx == (if sel + 1 < cmds.len() { sel + 1 } else { sel })
                &&& key == CmdKey::Up && list && idle ==> r is Consumed && final(options)@ == old(options)@
                    && final(self).selected_idx == (if sel > 0 { sel - 1 } else { 0 })
                &&& key == CmdKey::Delete && list && idle ==> r is Consumed && (sel < cmds.len() ==> final(options)@
                    == (OptionsModel { cmds: cmds.remove(sel), ..old(options)@ }) && final(self).selected_idx == (if sel
                    + 1 == cmds.len() {
                    if sel == 0 { 0 } else { sel - 1 }
                } else {
                    sel
                })) && (sel >= cmds.len() ==> final(options)@ == old(options)@ && final(self).selected_idx == 0)
                &&& key == CmdKey::AssignShortcut && list && idle ==> r is Consumed && final(options)@ == old(options)@
                    && final(self).shortcut_state == ShortcutState::Assign
                &&& key == CmdKey::ClearShortcut && list && idle ==> r is Consumed && (sel < cmds.len() ==> final(options)@
                    == (OptionsModel { cmds: cmds.update(sel, (cmds[sel].0, None::<GituiKeyEvent>)), ..old(options)@ }))
                    && (sel >= cmds.len() ==> final(options)@ == old(options)@)
                &&& key == CmdKey::ClearAllShortcuts && list && idle ==> r is Consumed && final(options)@ == (OptionsModel {
                    cmds: cmds.map_values(|e: (Seq<char>, Option<GituiKeyEvent>)| (e.0, None::<GituiKeyEvent>)),
                    ..old(options)@
                })
                &&& key == CmdKey::Other && list && idle ==> final(options)@ == old(options)@ && if exists|i: int|
                    0 <= i < cmds.len() && cmds[i].1 == Some(raw) {
                    exists|i: int|
                        0 <= i < cmds.len() && cmds[i].1 == Some(raw) && (forall|j: int| 0 <= j < i ==> cmds[j].1 != Some(raw))
                            && (r matches CmdOutcome::Run(c) && c@ == cmds[i].0) && !final(self).visible
                } else {
                    r is NotHandled
                }
            }),
    {
        if !self.visible {
            return CmdOutcome::NotHandled;
        }
        match key {
            CmdKey::Exit => {
                self.visible = false;
                return CmdOutcome::Consumed;
            },
            CmdKey::ToggleFocus => {
                self.focused = if self.focused == CmdFocus::Input { CmdFocus::List } else { CmdFocus::Input };
                return CmdOutcome::Consumed;
            },
            CmdKey::Enter => {
                if self.focused == CmdFocus::List {
                    let cmds = options.extern_commands();
                    assert(crate::options::cmds_view(cmds@).len() == cmds@.len());
                    if self.selected_idx < cmds.len() {
                        let cmd = cmds[self.selected_idx].0.clone();
                        assert(cmd@ == options@.cmds[self.selected_idx as int].0);
                        return self.run_command(cmd, options);
                    }
                    self.visible = false;
                    return CmdOutcome::Consumed;
                } else {
                    let cmd = self.cmdline.clone();
                    return self.run_command(cmd, options);
                }
            },
            _ => {},
        }
        let len = options.extern_commands().len();
        assert(crate::options::cmds_view(options.data.extern_cmds@).len() == len);
        if self.focused != CmdFocus::List || len == 0 {
            return CmdOutcome::NotHandled;
        }
        if self.shortcut_state == ShortcutState::Assign {
            self.shortcut_state = ShortcutState::Idle;
            if self.selected_idx < len {
                options.assign_shortcut_for_extern_command(self.selected_idx, Some(raw));
            }
            return CmdOutcome::Consumed;
        }
        match key {
            CmdKey::Down => {
                if self.selected_idx < len - 1 {
                    self.selected_idx = self.selected_idx + 1;
                }
                CmdOutcome::Consumed
            },
            CmdKey::Up => {
                if self.selected_idx > 0 {
                    self.selected_idx = self.selected_idx - 1;
                }
                CmdOutcome::Consumed
            },
            CmdKey::Delete => {
                self.selected_idx = options.remove_extern_command(self.selected_idx);
                CmdOutcome::Consumed
            },
            CmdKey::AssignShortcut => {
                self.shortcut_state = ShortcutState::Assign;
                CmdOutcome::Consumed
            },
            CmdKey::ClearShortcut => {
                if self.selected_idx < len {
                    options.assign_shortcut_for_extern_command(self.selected_idx, None);
                }
                CmdOutcome::Consumed
            },
            CmdKey::ClearAllShortcuts => {
                options.clear_all_shortcuts_for_extern_commands();
                CmdOutcome::Consumed
            },
            _ => {
                match options.find_extern_cmd_for_shortcut(raw) {
                    Some(cmd) => self.run_command(cmd, options),
                    None => CmdOutcome::NotHandled,
                }
            },
        }
    }
}

/// How a finished command is reported: an error message or an
/// information message, with its text.
#[derive(Clone, Debug)]
pub struct CommandReport {
    pub is_error: bool,
    pub text: String,
}

/// The report of a finished command. `ran` is the error that kept it
/// from running, or its output and error output (as text, empty when not
/// valid UTF-8) and whether it exited successfully. A command that could
/// not run, or failed writing to its error output, is an error; otherwise
/// its output is shown, or its error output when the output is empty.
pub fn command_report(ran: Result<(String, String, bool), String>) -> (r: CommandReport)
    ensures
        match ran {
            Err(e) => r.is_error && r.text@ == "Command failed\n"@ + e@,
            Ok((out, err, success)) => if err@.len() > 0 && !success {
                r.is_error && r.text@ == err@
            } else {
                !r.is_error && r.text@ == (if out@.len() > 0 { out@ } else { err@ })
            },
        },
{
    match ran {
        Err(e) => {
            let mut v: Vec<char> = Vec::new();
            crate::text::push_str(&mut v, "Command failed\n");
            crate::text::push_str(&mut v, e.as_str());
            CommandReport { is_error: true, text: crate::blame_search::string_of(&v) }
        },
        Ok((out, err, success)) => {
            if !err.as_str().is_empty() && !success {
                CommandReport { is_error: true, text: err }
            } else if !out.as_str().is_empty() {
                CommandReport { is_error: false, text: out }
            } else {
                CommandReport { is_error: false, text: err }
            }
        },
    }
}

} // verus!
