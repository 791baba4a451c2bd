use vstd::prelude::*;
use crate::config::{opt_view, DiffOptions, GitExternCommands, ShowUntrackedFilesConfig};
use crate::keys::{key_match, GituiKeyEvent};
use crate::popups::AppOption;

verus! {

/// How many commit messages the history keeps.
pub const COMMIT_MSG_HISTORY_LENGTH: usize = 20;

/// The persisted preferences of one repository.
#[derive(Clone, Debug)]
pub struct OptionsData {
    pub tab: usize,
    pub diff: DiffOptions,
    pub status_show_untracked: Option<ShowUntrackedFilesConfig>,
    pub commit_msgs: Vec<String>,
    pub extern_cmds: Vec<(String, Option<GituiKeyEvent>)>,
    pub git_extern_cmds: GitExternCommands,
    pub branch_shortcuts: Vec<(String, GituiKeyEvent)>,
}

impl Default for OptionsData {
    fn default() -> (r: Self)
        ensures
            r@ == OptionsModel::empty(),
    {
        let r = OptionsData {
            tab: 0,
            diff: DiffOptions::default(),
            status_show_untracked: None,
            commit_msgs: Vec::new(),
            extern_cmds: Vec::new(),
            git_extern_cmds: GitExternCommands::default(),
            branch_shortcuts: Vec::new(),
        };
        assert(r@.msgs =~= Seq::<Seq<char>>::empty());
        assert(r@.cmds =~= Seq::<(Seq<char>, Option<GituiKeyEvent>)>::empty());
        assert(r@.branches =~= Seq::<(Seq<char>, GituiKeyEvent)>::empty());
        r
    }
}

/// The options as mathematical values.
pub ghost struct OptionsModel {
    pub tab: usize,
    pub diff: DiffOptions,
    pub untracked: Option<ShowUntrackedFilesConfig>,
    pub msgs: Seq<Seq<char>>,
    pub cmds: Seq<(Seq<char>, Option<GituiKeyEvent>)>,
    pub git_cmds: (Option<Seq<char>>, Option<Seq<char>>, Option<Seq<char>>),
    pub branches: Seq<(Seq<char>, GituiKeyEvent)>,
}

impl OptionsModel {
    pub open spec fn empty() -> OptionsModel {
        OptionsModel {
            tab: 0,
            diff: DiffOptions { ignore_whitespace: false, context: 3, interhunk_lines: 0 },
            untracked: None,
            msgs: Seq::empty(),
            cmds: Seq::empty(),
            git_cmds: (None, None, None),
            branches: Seq::empty(),
        }
    }
}

pub open spec fn msgs_view(v: Seq<String>) -> Seq<Seq<char>> {
    v.map_values(|s: String| s@)
}

pub open spec fn cmds_view(v: Seq<(String, Option<GituiKeyEvent>)>) -> Seq<(Seq<char>, Option<GituiKeyEvent>)> {
    v.map_values(|e: (String, Option<GituiKeyEvent>)| (e.0@, e.1))
}

pub open spec fn branches_view(v: Seq<(String, GituiKeyEvent)>) -> Seq<(Seq<char>, GituiKeyEvent)> {
    v.map_values(|e: (String, GituiKeyEvent)| (e.0@, e.1))
}

impl View for OptionsData {
    type V = OptionsModel;

    open spec fn view(&self) -> OptionsModel {
        OptionsModel {
            tab: self.tab,
            diff: self.diff,
            untracked: self.status_show_untracked,
            msgs: msgs_view(self.commit_msgs@),
            cmds: cmds_view(self.extern_cmds@),
            git_cmds: self.git_extern_cmds.model(),
            branches: branches_view(self.branch_shortcuts@),
        }
    }
}

/// The command list after adding `cmd`: unchanged if the command is
/// already listed, otherwise the command comes first, without a shortcut.
pub open spec fn with_command(
    cmds: Seq<(Seq<char>, Option<GituiKeyEvent>)>,
    cmd: Seq<char>,
) -> Seq<(Seq<char>, Option<GituiKeyEvent>)> {
    if exists|i: int| 0 <= i < cmds.len() && cmds[i].0 == cmd {
        cmds
    } else {
        seq![(cmd, None::<GituiKeyEvent>)] + cmds
    }
}

/// The message history after recording `msg`: the newest at the end, at
/// most the newest `COMMIT_MSG_HISTORY_LENGTH` kept.
pub open spec fn with_message(msgs: Seq<Seq<char>>, msg: Seq<char>) -> Seq<Seq<char>> {
    let all = msgs.push(msg);
    if all.len() > COMMIT_MSG_HISTORY_LENGTH {
        all.subrange(all.len() - COMMIT_MSG_HISTORY_LENGTH, all.len() as int)
    } else {
        all
    }
}

/// The branch shortcuts with those of `branch` taken out.
pub open spec fn without_branch(
    b: Seq<(Seq<char>, GituiKeyEvent)>,
    branch: Seq<char>,
) -> Seq<(Seq<char>, GituiKeyEvent)> {
    b.filter(|e: (Seq<char>, GituiKeyEvent)| e.0 != branch)
}

/// The first index at which `p` holds in `s`, if any.
pub open spec fn is_first_match<T>(s: Seq<T>, p: spec_fn(T) -> bool, r: Option<usize>) -> bool {
    match r {
        Some(i) => i < s.len() && p(s[i as int]) && forall|j: int| 0 <= j < i ==> !p(s[j]),
        None => forall|j: int| 0 <= j < s.len() ==> !p(s[j]),
    }
}

/// The repository's options. Every change is a change of the whole record,
/// which the caller stores.
#[derive(Clone, Debug)]
pub struct Options {
    pub data: OptionsData,
}

impl View for Options {
    type V = OptionsModel;

    open spec fn view(&self) -> OptionsModel {
        self.data@
    }
}

impl Options {
    pub fn new(data: OptionsData) -> (r: Self)
        ensures
            r@ == data@,
    {
        Options { data }
    }

    pub fn set_current_tab(&mut self, tab: usize)
        ensures
            final(self)@ == (OptionsModel { tab, ..old(self)@ }),
    {
        self.data.tab = tab;
    }

    pub fn current_tab(&self) -> (r: usize)
        ensures
            r == self@.tab,
    {
        self.data.tab
    }

    pub fn diff_options(&self) -> (r: DiffOptions)
        ensures
            r == self@.diff,
    {
        self.data.diff
    }

    pub fn status_show_untracked(&self) -> (r: Option<ShowUntrackedFilesConfig>)
        ensures
            r == self@.untracked,
    {
        self.data.status_show_untracked
    }

    pub fn set_status_show_untracked(&mut self, value: Option<ShowUntrackedFilesConfig>)
        ensures
            final(self)@ == (OptionsModel { untracked: value, ..old(self)@ }),
    {
        self.data.status_show_untracked = value;
    }

    /// Grows or shrinks the diff context by one line, saturating.
    pub fn diff_context_change(&mut self, increase: bool)
        ensures
            final(self)@ == (OptionsModel {
                diff: DiffOptions {
                    context: if increase {
                        if old(self)@.diff.context == u32::MAX { u32::MAX } else { (old(self)@.diff.context + 1) as u32 }
                    } else {
                        if old(self)@.diff.context == 0 { 0 } else { (old(self)@.diff.context - 1) as u32 }
                    },
                    ..old(self)@.diff
                },
                ..old(self)@
            }),
    {
        self.data.diff.context = if increase {
            self.data.diff.context.saturating_add(1)
        } else {
            self.data.diff.context.saturating_sub(1)
        };
    }

    /// Grows or shrinks the lines between hunks by one, saturating.
    pub fn diff_hunk_lines_change(&mut self, increase: bool)
        ensures
            final(self)@ == (OptionsModel {
                diff: DiffOptions {
                    interhunk_lines: if increase {
                        if old(self)@.diff.interhunk_lines == u32::MAX { u32::MAX } else { (old(self)@.diff.interhunk_lines + 1) as u32 }
                    } else {
                        if old(self)@.diff.interhunk_lines == 0 { 0 } else { (old(self)@.diff.interhunk_lines - 1) as u32 }
                    },
                    ..old(self)@.diff
                },
                ..old(self)@
            }),
    {
        self.data.diff.interhunk_lines = if increase {
            self.data.diff.interhunk_lines.saturating_add(1)
        } else {
            self.data.diff.interhunk_lines.saturating_sub(1)
        };
    }

    pub fn diff_toggle_whitespace(&mut self)
        ensures
            final(self)@ == (OptionsModel {
                diff: DiffOptions { ignore_whitespace: !old(self)@.diff.ignore_whitespace, ..old(self)@.diff },
                ..old(self)@
            }),
    {
        self.data.diff.ignore_whitespace = !self.data.diff.ignore_whitespace;
    }

    pub fn git_extern_commands(&self) -> (r: &GitExternCommands)
        ensures
            r.model() == self@.git_cmds,
    {
        &self.data.git_extern_cmds
    }

    pub fn set_git_extern_push(&mut self, cmd: Option<String>)
        ensures
            final(self)@ == (OptionsModel {
                git_cmds: (opt_view(cmd), old(self)@.git_cmds.1, old(self)@.git_cmds.2),
                ..old(self)@
            }),
    {
        self.data.git_extern_cmds.push_base = cmd;
    }

    pub fn set_git_extern_fetch(&mut self, cmd: Option<String>)
        ensures
            final(self)@ == (OptionsModel {
                git_cmds: (old(self)@.git_cmds.0, opt_view(cmd), old(self)@.git_cmds.2),
                ..old(self)@
            }),
    {
        self.data.git_extern_cmds.fetch_base = cmd;
    }

    pub fn set_git_extern_checkout(&mut self, cmd: Option<String>)
        ensures
            final(self)@ == (OptionsModel {
                git_cmds: (old(self)@.git_cmds.0, old(self)@.git_cmds.1, opt_view(cmd)),
                ..old(self)@
            }),
    {
        self.data.git_extern_cmds.checkout_base = cmd;
    }

    pub fn extern_commands(&self) -> (r: &Vec<(String, Option<GituiKeyEvent>)>)
        ensures
            cmds_view(r@) == self@.cmds,
    {
        &self.data.extern_cmds
    }
}

impl Options {
    /// Removes the command at `idx`; returns the index to select next.
    pub fn remove_extern_command(&mut self, idx: usize) -> (r: usize)
        ensures
            idx < old(self)@.cmds.len() ==> final(self)@ == (OptionsModel {
                cmds: old(self)@.cmds.remove(idx as int),
                ..old(self)@
            }) && r == (if idx + 1 == old(self)@.cmds.len() {
                if idx == 0 { 0 } else { (idx - 1) as usize }
            } else {
                idx
            }),
            idx >= old(self)@.cmds.len() ==> final(self)@ == old(self)@ && r == 0,
    {
        if idx < self.data.extern_cmds.len() {
            let ghost before = self.data.extern_cmds@;
            self.data.extern_cmds.remove(idx);
            assert(cmds_view(self.data.extern_cmds@) =~= cmds_view(before).remove(idx as int));
            if idx == self.data.extern_cmds.len() {
                idx.saturating_sub(1)
            } else {
                idx
            }
        } else {
            0
        }
    }

    /// Adds a command at the front of the list, unless it is listed already.
    pub fn add_extern_command(&mut self, cmd: &str)
        ensures
            final(self)@ == (OptionsModel { cmds: with_command(old(self)@.cmds, cmd@), ..old(self)@ }),
    {
        let mut i: usize = 0;
        while i < self.data.extern_cmds.len()
            invariant
                self.data == old(self).data,
                i <= self.data.extern_cmds@.len(),
                forall|j: int| 0 <= j < i ==> self@.cmds[j].0 != cmd@,
            decreases self.data.extern_cmds@.len() - i,
        {
            if crate::config::str_is(self.data.extern_cmds[i].0.as_str(), cmd) {
                assert(self@.cmds[i as int].0 == cmd@);
                return;
            }
            i += 1;
        }
        let ghost before = self.data.extern_cmds@;
        self.data.extern_cmds.insert(0, (cmd.to_owned(), None));
        assert(cmds_view(self.data.extern_cmds@) =~= seq![(cmd@, None::<GituiKeyEvent>)] + cmds_view(before));
    }

    /// Sets the shortcut of the command at `idx`.
    pub fn assign_shortcut_for_extern_command(&mut self, idx: usize, shortcut: Option<GituiKeyEvent>)
        requires
            idx < old(self)@.cmds.len(),
        ensures
            final(self)@ == (OptionsModel {
                cmds: old(self)@.cmds.update(idx as int, (old(self)@.cmds[idx as int].0, shortcut)),
                ..old(self)@
            }),
    {
        let ghost before = self.data.extern_cmds@;
        let name = self.data.extern_cmds[idx].0.clone();
        self.data.extern_cmds.set(idx, (name, shortcut));
        assert(cmds_view(self.data.extern_cmds@) =~= cmds_view(before).update(
            idx as int,
            (cmds_view(before)[idx as int].0, shortcut),
        ));
    }

    /// Removes the shortcuts of all commands.
    pub fn clear_all_shortcuts_for_extern_commands(&mut self)
        ensures
            final(self)@ == (OptionsModel {
                cmds: old(self)@.cmds.map_values(|e: (Seq<char>, Option<GituiKeyEvent>)| (e.0, None::<GituiKeyEvent>)),
                ..old(self)@
            }),
    {
        let ghost before = self.data.extern_cmds@;
        let mut i: usize = 0;
        while i < self.data.extern_cmds.len()
            invariant
                self.data.extern_cmds@.len() == before.len(),
                i <= before.len(),
                self.data.tab == old(self).data.tab,
                self.data.diff == old(self).data.diff,
                self.data.status_show_untracked == old(self).data.status_show_untracked,
                self.data.commit_msgs == old(self).data.commit_msgs,
                self.data.git_extern_cmds == old(self).data.git_extern_cmds,
                self.data.branch_shortcuts == old(self).data.branch_shortcuts,
                before == old(self).data.extern_cmds@,
                forall|j: int| 0 <= j < i ==> self@.cmds[j] == (cmds_view(before)[j].0, None::<GituiKeyEvent>),
                forall|j: int| i <= j < before.len() ==> self@.cmds[j] == cmds_view(before)[j],
            decreases before.len() - i,
        {
            let ghost cur = self.data.extern_cmds@;
            assert(cmds_view(cur) == self@.cmds);
            assert(forall|j: int| 0 <= j < i ==> cmds_view(cur)[j] == (cmds_view(before)[j].0, None::<GituiKeyEvent>));
            let name = self.data.extern_cmds[i].0.clone();
            self.data.extern_cmds.set(i, (name, None));
            assert(cmds_view(self.data.extern_cmds@) =~= cmds_view(cur).update(
                i as int,
                (cmds_view(cur)[i as int].0, None::<GituiKeyEvent>),
            ));
            assert forall|j: int| 0 <= j < i + 1 implies self@.cmds[j] == (cmds_view(before)[j].0, None::<GituiKeyEvent>) by {
                if j < i {
                    assert(cmds_view(cur)[j] == (cmds_view(before)[j].0, None::<GituiKeyEvent>));
                }
            }
            i += 1;
        }
        assert(self@.cmds =~= old(self)@.cmds.map_values(
            |e: (Seq<char>, Option<GituiKeyEvent>)| (e.0, None::<GituiKeyEvent>),
        ));
    }

    /// The first command bound to shortcut `e`.
    pub fn find_extern_cmd_for_shortcut(&self, e: GituiKeyEvent) -> (r: Option<String>)
        ensures
            match r {
                Some(s) => exists|i: int|
                    0 <= i < self@.cmds.len() && self@.cmds[i].1 == Some(e) && self@.cmds[i].0 == s@
                        && forall|j: int| 0 <= j < i ==> self@.cmds[j].1 != Some(e),
                None => forall|j: int| 0 <= j < self@.cmds.len() ==> self@.cmds[j].1 != Some(e),
            },
    {
        let mut i: usize = 0;
        while i < self.data.extern_cmds.len()
            invariant
                i <= self@.cmds.len(),
                forall|j: int| 0 <= j < i ==> self@.cmds[j].1 != Some(e),
            decreases self@.cmds.len() - i,
        {
            if self.data.extern_cmds[i].1 == Some(e) {
                let s = self.data.extern_cmds[i].0.clone();
                assert(self@.cmds[i as int].0 == s@);
                return Some(s);
            }
            i += 1;
        }
        None
    }

    /// Binds `e` to `branch`, replacing the branch's earlier shortcut.
    pub fn assign_shortcut_for_branch(&mut self, branch: &str, e: &GituiKeyEvent)
        ensures
            ({
                let b = old(self)@.branches;
                if exists|i: int| 0 <= i < b.len() && b[i].0 == branch@ {
                    exists|i: int|
                        0 <= i < b.len() && b[i].0 == branch@ && (forall|j: int| 0 <= j < i ==> b[j].0 != branch@)
                            && final(self)@ == (OptionsModel { branches: b.update(i, (branch@, *e)), ..old(self)@ })
                } else {
                    final(self)@ == (OptionsModel { branches: b.push((branch@, *e)), ..old(self)@ })
                }
            }),
    {
        let ghost before = self.data.branch_shortcuts@;
        let mut i: usize = 0;
        while i < self.data.branch_shortcuts.len()
            invariant
                self.data == old(self).data,
                before == self.data.branch_shortcuts@,
                i <= before.len(),
                forall|j: int| 0 <= j < i ==> self@.branches[j].0 != branch@,
            decreases before.len() - i,
        {
            if crate::config::str_is(self.data.branch_shortcuts[i].0.as_str(), branch) {
                let name = self.data.branch_shortcuts[i].0.clone();
                self.data.branch_shortcuts.set(i, (name, *e));
                assert(branches_view(self.data.branch_shortcuts@) =~= branches_view(before).update(
                    i as int,
                    (branch@, *e),
                ));
                assert(old(self)@.branches[i as int].0 == branch@);
                assert(final(self)@ == (OptionsModel {
                    branches: old(self)@.branches.update(i as int, (branch@, *e)),
                    ..old(self)@
                }));
                return;
            }
            i += 1;
        }
        self.data.branch_shortcuts.push((branch.to_owned(), *e));
        assert(branches_view(self.data.branch_shortcuts@) =~= branches_view(before).push((branch@, *e)));
    }

    /// Removes every shortcut of `branch`.
    pub fn remove_shortcut_for_branch(&mut self, branch: &str)
        ensures
            final(self)@ == (OptionsModel { branches: without_branch(old(self)@.branches, branch@), ..old(self)@ }),
    {
        let ghost bv = old(self)@.branches;
        let mut kept: Vec<(String, GituiKeyEvent)> = Vec::new();
        let mut i: usize = 0;
        while i < self.data.branch_shortcuts.len()
            invariant
                self.data == old(self).data,
                bv == self@.branches,
                i <= bv.len(),
                branches_view(kept@) == without_branch(bv.subrange(0, i as int), branch@),
            decreases bv.len() - i,
        {
            proof {
                reveal(Seq::filter);
            }
            let ghost sub = bv.subrange(0, i + 1);
            assert(sub.drop_last() =~= bv.subrange(0, i as int));
            assert(sub.last() == bv[i as int]);
            assert(sub.len() > 0);
            assert(without_branch(sub, branch@) == (if bv[i as int].0 != branch@ {
                without_branch(bv.subrange(0, i as int), branch@).push(bv[i as int])
            } else {
                without_branch(bv.subrange(0, i as int), branch@)
            }));
            if !crate::config::str_is(self.data.branch_shortcuts[i].0.as_str(), branch) {
                let name = self.data.branch_shortcuts[i].0.clone();
                let k = self.data.branch_shortcuts[i].1;
                let ghost kb = kept@;
                kept.push((name, k));
                assert(branches_view(kept@) =~= branches_view(kb).push(bv[i as int]));
            }
            i += 1;
        }
        assert(bv.subrange(0, bv.len() as int) =~= bv);
        self.data.branch_shortcuts = kept;
    }

    pub fn clear_all_branch_shortcuts(&mut self)
        ensures
            final(self)@ == (OptionsModel { branches: Seq::empty(), ..old(self)@ }),
    {
        self.data.branch_shortcuts.clear();
        assert(branches_view(self.data.branch_shortcuts@) =~= Seq::<(Seq<char>, GituiKeyEvent)>::empty());
    }

    /// The first branch whose shortcut matches the key event `e`.
    pub fn find_branch_by_key_event(&self, e: &GituiKeyEvent) -> (r: Option<&str>)
        ensures
            match r {
                Some(s) => exists|i: int|
                    0 <= i < self@.branches.len() && self@.branches[i].1 == *e && self@.branches[i].0 == s@
                        && forall|j: int| 0 <= j < i ==> self@.branches[j].1 != *e,
                None => forall|j: int| 0 <= j < self@.branches.len() ==> self@.branches[j].1 != *e,
            },
    {
        let mut i: usize = 0;
        while i < self.data.branch_shortcuts.len()
            invariant
                i <= self@.branches.len(),
                forall|j: int| 0 <= j < i ==> self@.branches[j].1 != *e,
            decreases self@.branches.len() - i,
        {
            if key_match(e, self.data.branch_shortcuts[i].1) {
                let s = self.data.branch_shortcuts[i].0.as_str();
                assert(self@.branches[i as int].1 == *e);
                return Some(s);
            }
            i += 1;
        }
        None
    }

    pub fn has_any_branch_shortcuts(&self) -> (r: bool)
        ensures
            r == (self@.branches.len() > 0),
    {
        self.data.branch_shortcuts.len() > 0
    }

    /// The shortcut of the first entry for `branch`.
    pub fn find_branch_shortcut_by_branch(&self, branch: &str) -> (r: Option<&GituiKeyEvent>)
        ensures
            match r {
                Some(k) => exists|i: int|
                    0 <= i < self@.branches.len() && self@.branches[i].0 == branch@ && self@.branches[i].1 == *k
                        && forall|j: int| 0 <= j < i ==> self@.branches[j].0 != branch@,
                None => forall|j: int| 0 <= j < self@.branches.len() ==> self@.branches[j].0 != branch@,
            },
    {
        let mut i: usize = 0;
        while i < self.data.branch_shortcuts.len()
            invariant
                i <= self@.branches.len(),
                forall|j: int| 0 <= j < i ==> self@.branches[j].0 != branch@,
            decreases self@.branches.len() - i,
        {
            if crate::config::str_is(self.data.branch_shortcuts[i].0.as_str(), branch) {
                assert(self@.branches[i as int].0 == branch@);
                return Some(&self.data.branch_shortcuts[i].1);
            }
            i += 1;
        }
        None
    }

    /// Records a commit message, dropping the oldest beyond the history length.
    pub fn add_commit_msg(&mut self, msg: &str)
        ensures
            final(self)@ == (OptionsModel { msgs: with_message(old(self)@.msgs, msg@), ..old(self)@ }),
    {
        let ghost all = old(self)@.msgs.push(msg@);
        let ghost before = self.data.commit_msgs@;
        self.data.commit_msgs.push(msg.to_owned());
        assert(msgs_view(self.data.commit_msgs@) =~= msgs_view(before).push(msg@));
        assert(all.subrange(all.len() - self.data.commit_msgs@.len(), all.len() as int) =~= all);
        while self.data.commit_msgs.len() > COMMIT_MSG_HISTORY_LENGTH
            invariant
                self.data.tab == old(self).data.tab,
                self.data.diff == old(self).data.diff,
                self.data.status_show_untracked == old(self).data.status_show_untracked,
                self.data.extern_cmds == old(self).data.extern_cmds,
                self.data.git_extern_cmds == old(self).data.git_extern_cmds,
                self.data.branch_shortcuts == old(self).data.branch_shortcuts,
                self.data.commit_msgs@.len() <= all.len(),
                self.data.commit_msgs@.len() >= COMMIT_MSG_HISTORY_LENGTH || self.data.commit_msgs@.len() == all.len(),
                self@.msgs == all.subrange(all.len() - self.data.commit_msgs@.len(), all.len() as int),
            decreases self.data.commit_msgs@.len(),
        {
            let ghost cur = self.data.commit_msgs@;
            self.data.commit_msgs.remove(0);
            assert(msgs_view(self.data.commit_msgs@) =~= msgs_view(cur).subrange(1, cur.len() as int));
            assert(self@.msgs =~= all.subrange(all.len() - self.data.commit_msgs@.len(), all.len() as int));
        }
    }

    pub fn has_commit_msg_history(&self) -> (r: bool)
        ensures
            r == (self@.msgs.len() > 0),
    {
        self.data.commit_msgs.len() > 0
    }

    /// The message `idx` steps back in the history, newest first, wrapping
    /// around.
    pub fn commit_msg(&self, idx: usize) -> (r: Option<String>)
        ensures
            self@.msgs.len() == 0 ==> r.is_none(),
            self@.msgs.len() > 0 ==> r.is_some() && r->0@ == self@.msgs[
                self@.msgs.len() - 1 - (idx as int % self@.msgs.len() as int)
            ],
    {
        if self.data.commit_msgs.len() == 0 {
            None
        } else {
            let entries = self.data.commit_msgs.len();
            let index = idx % entries;
            let index = entries - 1 - index;
            Some(self.data.commit_msgs[index].clone())
        }
    }
}

/// The next untracked-files setting to the right: none, normal, all, no,
/// and around again; to the left the other way.
pub open spec fn next_untracked(u: Option<ShowUntrackedFilesConfig>, right: bool) -> Option<ShowUntrackedFilesConfig> {
    if right {
        match u {
            None => Some(ShowUntrackedFilesConfig::Normal),
            Some(ShowUntrackedFilesConfig::Normal) => Some(ShowUntrackedFilesConfig::All),
            Some(ShowUntrackedFilesConfig::All) => Some(ShowUntrackedFilesConfig::No),
            Some(ShowUntrackedFilesConfig::No) => None,
        }
    } else {
        match u {
            None => Some(ShowUntrackedFilesConfig::No),
            Some(ShowUntrackedFilesConfig::No) => Some(ShowUntrackedFilesConfig::All),
            Some(ShowUntrackedFilesConfig::All) => Some(ShowUntrackedFilesConfig::Normal),
            Some(ShowUntrackedFilesConfig::Normal) => None,
        }
    }
}

impl Options {
    /// Changes the option `selection` one step to the right or the left.
    pub fn switch_option(&mut self, selection: AppOption, right: bool)
        ensures
            selection == AppOption::StatusShowUntracked ==> final(self)@ == (OptionsModel {
                untracked: next_untracked(old(self)@.untracked, right),
                ..old(self)@
            }),
            selection == AppOption::DiffIgnoreWhitespaces ==> final(self)@ == (OptionsModel {
                diff: DiffOptions { ignore_whitespace: !old(self)@.diff.ignore_whitespace, ..old(self)@.diff },
                ..old(self)@
            }),
            selection == AppOption::DiffContextLines ==> final(self)@ == (OptionsModel {
                diff: DiffOptions {
                    context: if right {
                        if old(self)@.diff.context == u32::MAX { u32::MAX } else { (old(self)@.diff.context + 1) as u32 }
                    } else {
                        if old(self)@.diff.context == 0 { 0 } else { (old(self)@.diff.context - 1) as u32 }
                    },
                    ..old(self)@.diff
                },
                ..old(self)@
            }),
            selection == AppOption::DiffInterhunkLines ==> final(self)@ == (OptionsModel {
                diff: DiffOptions {
                    interhunk_lines: if right {
                        if old(self)@.diff.interhunk_lines == u32::MAX { u32::MAX } else { (old(self)@.diff.interhunk_lines + 1) as u32 }
                    } else {
                        if old(self)@.diff.interhunk_lines == 0 { 0 } else { (old(self)@.diff.interhunk_lines - 1) as u32 }
                    },
                    ..old(self)@.diff
                },
                ..old(self)@
            }),
    {
        match selection {
            AppOption::StatusShowUntracked => {
                let u = self.status_show_untracked();
                let next = if right {
                    match u {
                        None => Some(ShowUntrackedFilesConfig::Normal),
                        Some(ShowUntrackedFilesConfig::Normal) => Some(ShowUntrackedFilesConfig::All),
                        Some(ShowUntrackedFilesConfig::All) => Some(ShowUntrackedFilesConfig::No),
                        Some(ShowUntrackedFilesConfig::No) => None,
                    }
                } else {
                    match u {
                        None => Some(ShowUntrackedFilesConfig::No),
                        Some(ShowUntrackedFilesConfig::No) => Some(ShowUntrackedFilesConfig::All),
                        Some(ShowUntrackedFilesConfig::All) => Some(ShowUntrackedFilesConfig::Normal),
                        Some(ShowUntrackedFilesConfig::Normal) => None,
                    }
                };
                self.set_status_show_untracked(next);
            },
            AppOption::DiffIgnoreWhitespaces => self.diff_toggle_whitespace(),
            AppOption::DiffContextLines => self.diff_context_change(right),
            AppOption::DiffInterhunkLines => self.diff_hunk_lines_change(right),
        }
    }
}

/// Adding a command that is already listed changes nothing, so adding the
/// same command twice lists it once.
pub proof fn lemma_add_command_twice(cmds: Seq<(Seq<char>, Option<GituiKeyEvent>)>, cmd: Seq<char>)
    ensures
        with_command(with_command(cmds, cmd), cmd) == with_command(cmds, cmd),
        exists|i: int| 0 <= i < with_command(cmds, cmd).len() && with_command(cmds, cmd)[i].0 == cmd,
{
    let once = with_command(cmds, cmd);
    if !(exists|i: int| 0 <= i < cmds.len() && cmds[i].0 == cmd) {
        assert(once[0].0 == cmd);
    }
}

/// The message history never holds more than its capacity; once over it,
/// the oldest message is the one dropped and the newest is the one added.
pub proof fn lemma_message_ring(msgs: Seq<Seq<char>>, msg: Seq<char>)
    requires
        msgs.len() <= COMMIT_MSG_HISTORY_LENGTH,
    ensures
        with_message(msgs, msg).len() <= COMMIT_MSG_HISTORY_LENGTH,
        with_message(msgs, msg).last() == msg,
        msgs.len() == COMMIT_MSG_HISTORY_LENGTH ==> with_message(msgs, msg) =~= msgs.subrange(1, msgs.len() as int).push(msg),
        msgs.len() < COMMIT_MSG_HISTORY_LENGTH ==> with_message(msgs, msg) == msgs.push(msg),
{
}

/// Taking a branch's shortcuts out twice is the same as once, and what is
/// left holds none for that branch.
pub proof fn lemma_remove_branch_idempotent(b: Seq<(Seq<char>, GituiKeyEvent)>, branch: Seq<char>)
    ensures
        without_branch(without_branch(b, branch), branch) == without_branch(b, branch),
        forall|i: int| 0 <= i < without_branch(b, branch).len() ==> without_branch(b, branch)[i].0 != branch,
    decreases b.len(),
{
    reveal(Seq::filter);
    if b.len() > 0 {
        lemma_remove_branch_idempotent(b.drop_last(), branch);
        let w = without_branch(b.drop_last(), branch);
        if b.last().0 != branch {
            let big = w.push(b.last());
            assert(without_branch(b, branch) == big);
            assert(big.drop_last() =~= w);
            assert(big.last() == b.last());
            assert(without_branch(big, branch) == without_branch(w, branch).push(b.last()));
            assert forall|i: int| 0 <= i < big.len() implies big[i].0 != branch by {
                if i < w.len() {
                    assert(big[i] == w[i]);
                }
            }
        } else {
            assert(without_branch(b, branch) == w);
        }
    }
}

} // verus!
