use vstd::prelude::*;
use crate::config::str_is;
use crate::keys::{GituiKeyEvent, KeyCode};
use crate::options::{without_branch, Options, OptionsModel};
use crate::queue::{BranchDetails, BranchInfo};

verus! {

/// Whether the next key is a shortcut being assigned or one being used.
#[derive(Clone, Copy, Debug, PartialEq, Eq, Structural)]
pub enum BranchShortcutState {
    Idle,
    AssignNew,
    Trigger,
}

/// A key as the branch list sees it, after the key bindings were applied.
#[derive(Clone, Copy, Debug, PartialEq, Eq, Structural)]
pub enum BranchKey {
    Exit,
    Down,
    Up,
    PageDown,
    PageUp,
    Home,
    End,
    TabToggle,
    Enter,
    Create,
    Rename,
    Delete,
    Merge,
    Rebase,
    Inspect,
    Compare,
    Fetch,
    CmdBarToggle,
    AssignShortcut,
    ClearShortcut,
    ClearAllShortcuts,
    TriggerShortcut,
    Find,
    Other,
}

/// Work the branch list asks of the application after a key.
#[derive(Clone, Copy, Debug, PartialEq, Eq, Structural)]
pub enum BranchRequest {
    Nothing,
    Close,
    Reload,
    SwitchToSelected,
    Create,
    Rename,
    Delete,
    Merge,
    Rebase,
    Inspect,
    Compare,
    Fetch,
    OpenFinder,
}

/// The branch list: local or remote branches, the selected one, and the
/// shortcut being typed.
pub struct BranchList {
    pub branches: Vec<BranchInfo>,
    pub selection: u16,
    pub local: bool,
    pub has_remotes: bool,
    pub visible: bool,
    pub height: u16,
    pub shortcut_state: BranchShortcutState,
}

/// Whether the selected branch is the checked-out one.
pub open spec fn is_head_at(b: Seq<BranchInfo>, i: int) -> bool {
    0 <= i < b.len() && match b[i].details {
        BranchDetails::Local { is_head, .. } => is_head,
        BranchDetails::Remote { .. } => false,
    }
}

impl BranchList {
    pub open spec fn wf(&self) -> bool {
        &&& self.branches@.len() <= u16::MAX
        &&& self.selection <= self.last()
    }

    pub open spec fn last(&self) -> int {
        if self.branches@.len() == 0 { 0 } else { self.branches@.len() - 1 }
    }

    /// Keeps the selection on a branch.
    pub fn set_selection(&mut self, selection: u16)
        requires
            old(self).branches@.len() <= u16::MAX,
        ensures
            final(self).wf(),
            final(self).selection == (if selection > old(self).last() { old(self).last() } else { selection as int }),
            final(self).branches == old(self).branches,
            final(self).shortcut_state == old(self).shortcut_state,
            final(self).visible == old(self).visible,
            final(self).local == old(self).local,
    {
        let n = self.branches.len() as u16;
        let last = if n == 0 { 0 } else { n - 1 };
        self.selection = if selection > last { last } else { selection };
    }

    /// Whether the selected branch is the checked-out one.
    pub fn selection_is_cur_branch(&self) -> (r: bool)
        ensures
            r == is_head_at(self.branches@, self.selection as int),
    {
        let i = self.selection as usize;
        if i < self.branches.len() {
            match &self.branches[i].details {
                BranchDetails::Local { is_head, .. } => *is_head,
                BranchDetails::Remote { .. } => false,
            }
        } else {
            false
        }
    }

    /// The index of the branch named `name`.
    fn find_branch(&self, name: &str) -> (r: Option<usize>)
        ensures
            match r {
                Some(i) => i < self.branches@.len() && self.branches@[i as int].name@ == name@,
                None => forall|i: int| 0 <= i < self.branches@.len() ==> self.branches@[i].name@ != name@,
            },
    {
        let mut i: usize = 0;
        while i < self.branches.len()
            invariant
                i <= self.branches@.len(),
                forall|j: int| 0 <= j < i ==> self.branches@[j].name@ != name@,
            decreases self.branches@.len() - i,
        {
            if str_is(self.branches[i].name.as_str(), name) {
                return Some(i);
            }
            i += 1;
        }
        None
    }

    /// Handles a key. A pending shortcut assignment binds the key to the
    /// selected branch (Escape cancels); a pending shortcut use selects and
    /// switches to the branch bound to the key. Otherwise keys move the
    /// selection, close the list, switch between local and remote branches,
    /// or ask for an operation on the selected branch: deleting, merging and
    /// rebasing need a branch other than the checked-out one, creating
    /// needs the local list, fetching the remote list and a remote.
    pub fn event(&mut self, key: BranchKey, raw: GituiKeyEvent, options: &mut Options) -> (r: (bool, BranchRequest))
        requires
            old(self).wf(),
        ensures
            final(self).wf(),
            final(self).branches == old(self).branches,
            old(self).shortcut_state == BranchShortcutState::AssignNew ==> ({
                &&& r == (true, BranchRequest::Nothing)
                &&& final(self).shortcut_state == BranchShortcutState::Idle
                &&& if old(self).branches@.len() > 0 && raw.code != KeyCode::Esc {
                    let name = old(self).branches@[old(self).selection as int].name@;
                    let b = old(options)@.branches;
                    if exists|i: int| 0 <= i < b.len() && b[i].0 == name {
                        exists|i: int|
                            0 <= i < b.len() && b[i].0 == name && final(options)@ == (OptionsModel {
                                branches: b.update(i, (name, raw)),
                                ..old(options)@
                            })
                    } else {
                        final(options)@ == (OptionsModel { branches: b.push((name, raw)), ..old(options)@ })
                    }
                } else {
                    final(options)@ == old(options)@
                }
            }),
            old(self).shortcut_state == BranchShortcutState::Trigger ==> ({
                &&& final(self).shortcut_state == BranchShortcutState::Idle
                &&& final(options)@ == old(options)@
                &&& r.0
                &&& (r.1 == BranchRequest::SwitchToSelected ==> old(self).branches@.len() > 0
                    && exists|i: int|
                        0 <= i < old(options)@.branches.len() && old(options)@.branches[i].1 == raw
                            && old(options)@.branches[i].0 == final(self).branches@[final(self).selection as int].name@)
                &&& (r.1 != BranchRequest::SwitchToSelected ==> r.1 == BranchRequest::Nothing)
            }),
            old(self).shortcut_state == BranchShortcutState::Idle ==> match key {
                BranchKey::Exit => r == (true, BranchRequest::Close) && !final(self).visible,
                BranchKey::Down => r == (true, BranchRequest::Nothing) && final(self).selection == (if old(self).selection
                    + 1 > old(self).last() {
                    old(self).last()
                } else {
                    old(self).selection + 1
                }),
                BranchKey::Up => r == (true, BranchRequest::Nothing) && final(self).selection == (if old(self).selection
                    == 0 {
                    0
                } else {
                    old(self).selection - 1
                }),
                BranchKey::Home => r == (true, BranchRequest::Nothing) && final(self).selection == 0,
                BranchKey::End => r == (true, BranchRequest::Nothing) && final(self).selection == old(self).last(),
                BranchKey::TabToggle => r == (true, BranchRequest::Reload) && final(self).local == !old(self).local,
                BranchKey::Delete | BranchKey::Merge | BranchKey::Rebase => r.0 && (r.1 != BranchRequest::Nothing
                    <==> (old(self).branches@.len() > 0 && !is_head_at(old(self).branches@, old(self).selection as int))),
                BranchKey::Create => r == (true, if old(self).local {
                    BranchRequest::Create
                } else {
                    BranchRequest::Nothing
                }),
                BranchKey::Fetch => r == (true, if !old(self).local && old(self).has_remotes {
                    BranchRequest::Fetch
                } else {
                    BranchRequest::Nothing
                }),
                BranchKey::CmdBarToggle => r == (false, BranchRequest::Nothing),
                BranchKey::AssignShortcut => r == (true, BranchRequest::Nothing) && final(self).shortcut_state == (
                if old(self).branches@.len() > 0 {
                    BranchShortcutState::AssignNew
                } else {
                    BranchShortcutState::Idle
                }),
                BranchKey::ClearShortcut => r == (true, BranchRequest::Nothing) && (old(self).branches@.len() > 0
                    ==> final(options)@ == (OptionsModel {
                    branches: without_branch(
                        old(options)@.branches,
                        old(self).branches@[old(self).selection as int].name@,
                    ),
                    ..old(options)@
                })),
                BranchKey::TriggerShortcut => r == (true, BranchRequest::Nothing) && final(self).shortcut_state
                    == BranchShortcutState::Trigger,
                _ => r.0,
            },
    {
        match self.shortcut_state {
            BranchShortcutState::AssignNew => {
                self.shortcut_state = BranchShortcutState::Idle;
                if self.branches.len() > 0 && raw.code != KeyCode::Esc {
                    let i = self.selection as usize;
                    options.assign_shortcut_for_branch(self.branches[i].name.as_str(), &raw);
                }
                return (true, BranchRequest::Nothing);
            },
            BranchShortcutState::Trigger => {
                self.shortcut_state = BranchShortcutState::Idle;
                let found = match options.find_branch_by_key_event(&raw) {
                    Some(name) => self.find_branch(name),
                    None => None,
                };
                if let Some(i) = found {
                    self.selection = i as u16;
                    return (true, BranchRequest::SwitchToSelected);
                }
                return (true, BranchRequest::Nothing);
            },
            BranchShortcutState::Idle => {},
        }
        let valid = self.branches.len() > 0;
        match key {
            BranchKey::Exit => {
                self.visible = false;
                (true, BranchRequest::Close)
            },
            BranchKey::Down => {
                self.set_selection(self.selection.saturating_add(1));
                (true, BranchRequest::Nothing)
            },
            BranchKey::Up => {
                self.set_selection(self.selection.saturating_sub(1));
                (true, BranchRequest::Nothing)
            },
            BranchKey::PageDown => {
                self.set_selection(self.selection.saturating_add(self.height));
                (true, BranchRequest::Nothing)
            },
            BranchKey::PageUp => {
                self.set_selection(self.selection.saturating_sub(self.height));
                (true, BranchRequest::Nothing)
            },
            BranchKey::Home => {
                self.set_selection(0);
                (true, BranchRequest::Nothing)
            },
            BranchKey::End => {
                let n = self.branches.len() as u16;
                self.set_selection(if n == 0 { 0 } else { n - 1 });
                (true, BranchRequest::Nothing)
            },
            BranchKey::TabToggle => {
                self.local = !self.local;
                (true, BranchRequest::Reload)
            },
            BranchKey::Enter => (true, if valid { BranchRequest::SwitchToSelected } else { BranchRequest::Nothing }),
            BranchKey::Create => (true, if self.local { BranchRequest::Create } else { BranchRequest::Nothing }),
            BranchKey::Rename => (true, if valid { BranchRequest::Rename } else { BranchRequest::Nothing }),
            BranchKey::Delete | BranchKey::Merge | BranchKey::Rebase => {
                if valid && !self.selection_is_cur_branch() {
                    (true, match key {
                        BranchKey::Delete => BranchRequest::Delete,
                        BranchKey::Merge => BranchRequest::Merge,
                        _ => BranchRequest::Rebase,
                    })
                } else {
                    (true, BranchRequest::Nothing)
                }
            },
            BranchKey::Inspect => (true, if valid { BranchRequest::Inspect } else { BranchRequest::Nothing }),
            BranchKey::Compare => {
                if valid {
                    self.visible = false;
                    (true, BranchRequest::Compare)
                } else {
                    (true, BranchRequest::Nothing)
                }
            },
            BranchKey::Fetch => (true, if !self.local && self.has_remotes {
                BranchRequest::Fetch
            } else {
                BranchRequest::Nothing
            }),
            BranchKey::CmdBarToggle => (false, BranchRequest::Nothing),
            BranchKey::AssignShortcut => {
                if valid {
                    self.shortcut_state = BranchShortcutState::AssignNew;
                }
                (true, BranchRequest::Nothing)
            },
            BranchKey::ClearShortcut => {
                if valid {
                    let i = self.selection as usize;
                    options.remove_shortcut_for_branch(self.branches[i].name.as_str());
                }
                (true, BranchRequest::Nothing)
            },
            BranchKey::ClearAllShortcuts => {
                if valid {
                    options.clear_all_branch_shortcuts();
                }
                (true, BranchRequest::Nothing)
            },
            BranchKey::TriggerShortcut => {
                self.shortcut_state = BranchShortcutState::Trigger;
                (true, BranchRequest::Nothing)
            },
            BranchKey::Find => (true, BranchRequest::OpenFinder),
            BranchKey::Other => (true, BranchRequest::Nothing),
        }
    }
}

} // verus!
