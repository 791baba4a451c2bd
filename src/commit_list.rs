use vstd::prelude::*;
use crate::commit::CommitId;
use crate::diff_search::{lowercase, str_contains, to_lower};
use crate::popups::{ExternalSearchRequest, SearchOptionsPopupComponent};
use crate::text::{occurs_in, push_str};
use crate::rebase_todo::{join_on, parts_of, split_on};

verus! {

/// One entry of the commit list.
#[derive(Clone, Debug)]
pub struct LogEntry {
    pub id: CommitId,
    pub author: String,
    pub msg: String,
    pub hash_full: String,
}

/// How the selection moves.
#[derive(Clone, Copy, Debug, PartialEq, Eq, Structural)]
pub enum ScrollType {
    Up,
    Down,
    Home,
    End,
    PageUp,
    PageDown,
}

/// Where the selection `sel` lands after `scroll` in a log of `total`
/// commits, moving `speed` entries at a time (at least one) or `page`
/// entries a page.
pub open spec fn moved_selection(sel: usize, total: usize, scroll: ScrollType, speed: usize, page: usize) -> int {
    let sel = sel as int;
    let step = if speed == 0 { 1 } else { speed as int };
    let max = if total == 0 { 0 } else { total - 1 };
    let raw = match scroll {
        ScrollType::Up => if sel >= step { sel - step } else { 0 },
        ScrollType::Down => if sel + step > usize::MAX { usize::MAX as int } else { sel + step },
        ScrollType::PageUp => if sel >= page { sel - page } else { 0 },
        ScrollType::PageDown => if sel + page > usize::MAX { usize::MAX as int } else { sel + page },
        ScrollType::Home => 0,
        ScrollType::End => max,
    };
    if raw <= max { raw } else { max }
}

/// Marked commits: pairs of a position in the loaded batch and a commit,
/// strictly ordered by position, each commit at most once.
pub open spec fn marks_wf(m: Seq<(usize, CommitId)>) -> bool {
    &&& forall|a: int, b: int| 0 <= a < b < m.len() ==> m[a].0 < m[b].0
    &&& forall|a: int, b: int| 0 <= a < b < m.len() ==> m[a].1.bytes@ != m[b].1.bytes@
}

/// Whether commit `id` is marked.
pub open spec fn is_marked_in(m: Seq<(usize, CommitId)>, id: CommitId) -> bool {
    exists|k: int| 0 <= k < m.len() && m[k].1.bytes@ == id.bytes@
}

/// The marks without those of commit `id`.
pub open spec fn unmarked(m: Seq<(usize, CommitId)>, id: CommitId) -> Seq<(usize, CommitId)>
    decreases m.len(),
{
    if m.len() == 0 {
        m
    } else if m.last().1.bytes@ == id.bytes@ {
        unmarked(m.drop_last(), id)
    } else {
        unmarked(m.drop_last(), id).push(m.last())
    }
}

/// What a key does to the commit list when no two-key command is pending.
pub open spec fn list_step(
    w0: CommitList,
    w1: CommitList,
    key: ListKey,
    repo_state: RepoState,
    speed: usize,
    page: usize,
    r: (bool, ListRequest),
) -> bool {
    &&& w1.wf()
    &&& match key {
            ListKey::Up | ListKey::Down | ListKey::Home | ListKey::End | ListKey::PageUp | ListKey::PageDown => {
                let scroll = match key {
                    ListKey::Up => ScrollType::Up,
                    ListKey::Down => ScrollType::Down,
                    ListKey::Home => ScrollType::Home,
                    ListKey::End => ScrollType::End,
                    ListKey::PageUp => ScrollType::PageUp,
                    _ => ScrollType::PageDown,
                };
                &&& w1.selection == moved_selection(w0.selection, w0.count_total, scroll, speed, page)
                &&& r.0 == (w1.selection != w0.selection)
                &&& r.1 == ListRequest::Nothing
                &&& w1.marked == w0.marked
            },
            ListKey::RebaseInteractive => r.0 == (repo_state == RepoState::Clean) && r.1 == (if repo_state
                == RepoState::Clean && w0.get_last_selected_commit_spec().is_some() {
                ListRequest::RebaseInteractive
            } else {
                ListRequest::Nothing
            }),
            ListKey::RebaseContinue => r.0 == (repo_state == RepoState::Rebase) && r.1 == (if repo_state == RepoState::Rebase {
                ListRequest::RebaseContinue
            } else {
                ListRequest::Nothing
            }),
            ListKey::RebaseSkip => r.0 == (repo_state == RepoState::Rebase) && r.1 == (if repo_state == RepoState::Rebase {
                ListRequest::RebaseSkip
            } else {
                ListRequest::Nothing
            }),
            ListKey::RebaseAbort => r.0 == (repo_state == RepoState::Rebase) && r.1 == (if repo_state == RepoState::Rebase {
                ListRequest::RebaseAbort
            } else {
                ListRequest::Nothing
            }),
            ListKey::Drop | ListKey::Fixup | ListKey::Cherrypick => {
                let action = match key {
                    ListKey::Drop => MarkedAction::Drop,
                    ListKey::Fixup => MarkedAction::Fixup,
                    _ => MarkedAction::Cherrypick,
                };
                &&& r.0
                &&& r.1 == (if w1.marked@.len() > 0 {
                    ListRequest::Confirm(action)
                } else {
                    ListRequest::NothingMarked(action)
                })
                &&& w0.marked@.len() > 0 ==> w1 == w0
                &&& w0.marked@.len() == 0 ==> CommitList::mark_post(w0, w1)
            },
            ListKey::SearchInit => r.0 && w1.combo_state == KeyComboState::SearchInitForward,
            ListKey::FilterInit => r.0 && w1.combo_state == KeyComboState::FilterInit,
            ListKey::Exit => r.0 && if w0.search_visible || w0.filter_visible {
                !w1.search_visible && !w1.filter_visible && w1.marked == w0.marked
                    && r.1 == (if w0.filter_visible { ListRequest::UpdateAll } else { ListRequest::Nothing })
            } else {
                w1.path_filter@.len() == 0 && w1.marked@.len() == 0 && r.1 == (if w0.marked@.len() > 0 || w0.path_filter@.len() > 0 {
                    ListRequest::UpdateAll
                } else {
                    ListRequest::Nothing
                })
            },
            ListKey::FilterAuthor | ListKey::FilterMessage | ListKey::SearchSha | ListKey::Other => !r.0 && r.1
                == ListRequest::Nothing && w1.selection == w0.selection && w1.marked
                == w0.marked,
            ListKey::Mark => r == (true, ListRequest::Nothing) && CommitList::mark_post(w0, w1),
            ListKey::ToggleFocus => r == (true, ListRequest::Nothing) && CommitList::toggle_focus_post(w0, w1),
            ListKey::SearchNext => r == (true, ListRequest::Nothing) && CommitList::search_forward_post(w0, w1),
            ListKey::SearchPrev => r == (true, ListRequest::Nothing) && CommitList::search_backward_post(w0, w1),
            ListKey::Checkout => r == (true, ListRequest::Checkout) && w1 == w0,
            ListKey::FindFile => r == (true, ListRequest::OpenFileFinder) && w1 == w0,
        }
}

/// The key completes the pending two-key command.
pub open spec fn completes(c: KeyComboState, key: ListKey) -> bool {
    match c {
        KeyComboState::SearchInitForward => key == ListKey::SearchInit || key == ListKey::FilterAuthor
            || key == ListKey::FilterMessage || key == ListKey::SearchSha,
        KeyComboState::FilterInit => key == ListKey::FilterInit || key == ListKey::FilterAuthor
            || key == ListKey::FilterMessage,
        KeyComboState::Empty => false,
    }
}

/// The components of a relative path that name something: empty ones
/// and `.` are left out.
pub open spec fn kept_parts(ps: Seq<Seq<char>>) -> Seq<Seq<char>>
    decreases ps.len(),
{
    if ps.len() == 0 {
        ps
    } else {
        let r = kept_parts(ps.drop_last());
        if ps.last().len() == 0 || ps.last() == seq!['.'] {
            r
        } else {
            r.push(ps.last())
        }
    }
}

/// The commit list's view state over a loaded batch of `items`, which
/// starts at position `index_offset` of the whole log of `count_total`
/// commits.
pub struct CommitList {
    pub items: Vec<LogEntry>,
    pub index_offset: usize,
    pub count_total: usize,
    pub selection: usize,
    pub marked: Vec<(usize, CommitId)>,
    pub last_selected_commit: Option<CommitId>,
    pub search_options: SearchOptionsPopupComponent,
    pub current_search: String,
    pub extended_search_request: ExternalSearchRequest,
    pub filter_options: SearchOptionsPopupComponent,
    pub combo_state: KeyComboState,
    pub focused: Focused,
    pub search_visible: bool,
    pub filter_visible: bool,
    pub path_filter: String,
}

/// The first key of a two-key search or filter command was typed.
#[derive(Clone, Copy, Debug, PartialEq, Eq, Structural)]
pub enum KeyComboState {
    Empty,
    SearchInitForward,
    FilterInit,
}

/// Which part of the commit list has the keyboard.
#[derive(Clone, Copy, Debug, PartialEq, Eq, Structural)]
pub enum Focused {
    InputSearch,
    InputFilter,
    List,
}

/// A key as the commit list sees it, after the key bindings were applied.
#[derive(Clone, Copy, Debug, PartialEq, Eq, Structural)]
pub enum ListKey {
    Up,
    Down,
    Home,
    End,
    PageUp,
    PageDown,
    Mark,
    RebaseInteractive,
    RebaseContinue,
    RebaseSkip,
    RebaseAbort,
    Drop,
    Fixup,
    Cherrypick,
    Checkout,
    SearchInit,
    FilterInit,
    FilterAuthor,
    FilterMessage,
    SearchSha,
    Exit,
    ToggleFocus,
    SearchNext,
    SearchPrev,
    FindFile,
    Other,
}

/// The state of the repository, as far as the commit list cares.
#[derive(Clone, Copy, Debug, PartialEq, Eq, Structural)]
pub enum RepoState {
    Clean,
    Rebase,
    Other,
}

/// What is done to the marked commits.
#[derive(Clone, Copy, Debug, PartialEq, Eq, Structural)]
pub enum MarkedAction {
    Drop,
    Fixup,
    Cherrypick,
}

/// The message shown when an operation on the marked commits fails with
/// the error `err`.
pub open spec fn failure_text(action: MarkedAction, err: Seq<char>) -> Seq<char> {
    match action {
        MarkedAction::Cherrypick => "Could not perform cherrypick(s)\n"@ + err,
        _ => "Dropping commits failed: "@ + err,
    }
}

/// The message shown when an operation on the marked commits fails.
pub fn failure_message(action: MarkedAction, err: &str) -> (r: String)
    ensures
        r@ == failure_text(action, err@),
{
    let mut v: Vec<char> = Vec::new();
    match action {
        MarkedAction::Cherrypick => push_str(&mut v, "Could not perform cherrypick(s)\n"),
        _ => push_str(&mut v, "Dropping commits failed: "),
    }
    push_str(&mut v, err);
    crate::blame_search::string_of(&v)
}

/// How many generations above the oldest marked commit the rebase starts:
/// dropping starts at its parent, folding at its grandparent, so that the
/// oldest commit can be folded into its own parent.
pub fn rebase_base_generations(action: MarkedAction) -> (r: usize)
    ensures
        action == MarkedAction::Drop ==> r == 1,
        action == MarkedAction::Fixup ==> r == 2,
        action == MarkedAction::Cherrypick ==> r == 0,
{
    match action {
        MarkedAction::Drop => 1,
        MarkedAction::Fixup => 2,
        MarkedAction::Cherrypick => 0,
    }
}

/// Work the commit list asks of the application after a key.
#[derive(Clone, Copy, Debug, PartialEq, Eq, Structural)]
pub enum ListRequest {
    Nothing,
    UpdateAll,
    RebaseInteractive,
    RebaseContinue,
    RebaseSkip,
    RebaseAbort,
    Confirm(MarkedAction),
    NothingMarked(MarkedAction),
    Checkout,
    OpenFileFinder,
}

/// Whether entry `e` matches the lowercase `needle` in one of the fields
/// chosen (author and message compared in lowercase, the hash as is).
pub open spec fn entry_matches(opts: SearchOptionsPopupComponent, needle: Seq<char>, e: LogEntry) -> bool {
    (opts.message && occurs_in(lowercase(e.msg@), needle)) || (opts.author && occurs_in(
        lowercase(e.author@),
        needle,
    )) || (opts.sha && occurs_in(e.hash_full@, needle))
}

impl CommitList {
    pub open spec fn wf(&self) -> bool {
        marks_wf(self.marked@)
    }

    /// The search and filter inputs are those of `o`.
    pub open spec fn same_inputs(&self, o: &CommitList) -> bool {
        &&& self.combo_state == o.combo_state
        &&& self.focused == o.focused
        &&& self.search_visible == o.search_visible
        &&& self.filter_visible == o.filter_visible
        &&& self.path_filter == o.path_filter
        &&& self.filter_options == o.filter_options
        &&& self.search_options == o.search_options
        &&& self.current_search == o.current_search
    }

    /// Position of the selection in the loaded batch.
    pub open spec fn local_selection(&self) -> int {
        if self.selection >= self.index_offset { self.selection - self.index_offset } else { 0 }
    }

    /// The selected entry, if it is loaded.
    pub open spec fn selected(&self) -> Option<LogEntry> {
        if self.local_selection() < self.items@.len() {
            Some(self.items@[self.local_selection()])
        } else {
            None
        }
    }

    pub open spec fn mark_post(w0: CommitList, w1: CommitList) -> bool {
        &&& (w1.same_inputs(&w0))
        &&& (w1.wf())
        &&& (w1.selection == w0.selection)
        &&& (w1.items == w0.items)
        &&& (w1.index_offset == w0.index_offset)
        &&& (match w0.selected() {
            None => w1.marked == w0.marked,
            Some(e) => if is_marked_in(w0.marked@, e.id) {
                w1.marked@ == unmarked(w0.marked@, e.id)
            } else {
                // the mark goes in at its position; a mark left at that
                // position by another commit is replaced
                let m = w0.marked@;
                let sel = w0.local_selection() as usize;
                exists|p: int|
                    #![trigger m.insert(p, (sel, e.id))]
                    0 <= p <= m.len() && (forall|q: int| 0 <= q < p ==> m[q].0 < sel) && (p == m.len() || m[p].0 >= sel)
                        && w1.marked@ == (if p < m.len() && m[p].0 == sel {
                        m.update(p, (sel, e.id))
                    } else {
                        m.insert(p, (sel, e.id))
                    })
            }
            })
    }

    pub open spec fn search_forward_post(w0: CommitList, w1: CommitList) -> bool {
        &&& (w1.same_inputs(&w0))
        &&& (w1.items == w0.items)
        &&& (w1.marked == w0.marked)
        &&& (w1.index_offset == w0.index_offset)
        &&& (w1.count_total == w0.count_total)
        &&& (w1.search_options == w0.search_options)
        &&& (w0.current_search@.len() == 0 ==> w1.selection == w0.selection
            && w1.extended_search_request == w0.extended_search_request)
        &&& (w0.current_search@.len() > 0 ==> ({
            let needle = lowercase(w0.current_search@);
            let from = w0.local_selection();
            if exists|k: int| #![trigger w0.matches_at(needle, k)] from < k < w0.items@.len() && w0.matches_at(needle, k) {
                exists|k: int|
                    from < k < w0.items@.len() && w0.matches_at(needle, k) && (forall|j: int| from < j < k ==> !w0.matches_at(needle, j))
                        && w1.selection == w0.index_offset + k
                        && w1.extended_search_request == w0.extended_search_request
            } else {
                w1.selection == w0.selection
                    && w1.extended_search_request == ExternalSearchRequest::Forward
            }
            }))
    }

    pub open spec fn search_backward_post(w0: CommitList, w1: CommitList) -> bool {
        &&& (w1.same_inputs(&w0))
        &&& (w1.items == w0.items)
        &&& (w1.marked == w0.marked)
        &&& (w1.index_offset == w0.index_offset)
        &&& (w1.count_total == w0.count_total)
        &&& (w1.search_options == w0.search_options)
        &&& (w0.current_search@.len() == 0 ==> w1.selection == w0.selection
            && w1.extended_search_request == w0.extended_search_request)
        &&& (w0.current_search@.len() > 0 ==> ({
            let needle = lowercase(w0.current_search@);
            let to = w0.local_selection();
            if exists|k: int| #![trigger w0.matches_at(needle, k)] 0 <= k < to && k < w0.items@.len() && w0.matches_at(needle, k) {
                exists|k: int|
                    0 <= k < to && k < w0.items@.len() && w0.matches_at(needle, k) && (forall|j: int| k < j < to && j < w0.items@.len() ==> !w0.matches_at(needle, j))
                        && w1.selection == w0.index_offset + k
                        && w1.extended_search_request == w0.extended_search_request
            } else {
                w1.selection == w0.selection
                    && w1.extended_search_request == (if w0.index_offset > 0 {
                        ExternalSearchRequest::Backward
                    } else {
                        w0.extended_search_request
                    })
            }
            }))
    }

    pub open spec fn toggle_focus_post(w0: CommitList, w1: CommitList) -> bool {
        &&& (w1.focused == (match w0.focused {
            Focused::InputFilter => if w0.search_visible { Focused::InputSearch } else { Focused::List },
            Focused::List => if w0.filter_visible {
                Focused::InputFilter
            } else if w0.search_visible {
                Focused::InputSearch
            } else {
                Focused::List
            },
            Focused::InputSearch => Focused::List
            }))
        &&& (w1.marked == w0.marked)
        &&& (w1.selection == w0.selection)
        &&& (w1.combo_state == w0.combo_state)
        &&& (w1.search_visible == w0.search_visible)
        &&& (w1.filter_visible == w0.filter_visible)
    }

    pub fn new() -> (r: Self)
        ensures
            r.wf(),
            r.items@.len() == 0,
            r.marked@.len() == 0,
            r.selection == 0,
            r.count_total == 0,
            r.index_offset == 0,
    {
        CommitList {
            items: Vec::new(),
            index_offset: 0,
            count_total: 0,
            selection: 0,
            marked: Vec::new(),
            last_selected_commit: None,
            search_options: SearchOptionsPopupComponent::new(),
            current_search: String::new(),
            extended_search_request: ExternalSearchRequest::Empty,
            filter_options: SearchOptionsPopupComponent::new(),
            combo_state: KeyComboState::Empty,
            focused: Focused::List,
            search_visible: false,
            filter_visible: false,
            path_filter: String::new(),
        }
    }

    pub fn selection_max(&self) -> (r: usize)
        ensures
            r == (if self.count_total == 0 { 0 } else { self.count_total - 1 }),
    {
        self.count_total.saturating_sub(1)
    }

    /// Sets the size of the whole log and keeps the selection inside it.
    pub fn set_count_total(&mut self, total: usize)
        ensures
            final(self).count_total == total,
            final(self).selection == (if old(self).selection <= (if total == 0 { 0 } else { total - 1 }) {
                old(self).selection as int
            } else {
                if total == 0 { 0 } else { total - 1 }
            }),
            final(self).items == old(self).items,
            final(self).marked == old(self).marked,
            final(self).index_offset == old(self).index_offset,
    {
        self.count_total = total;
        let max = self.selection_max();
        if self.selection > max {
            self.selection = max;
        }
    }

    fn selected_index(&self) -> (r: Option<usize>)
        ensures
            match self.selected() {
                Some(_) => r == Some(self.local_selection() as usize),
                None => r.is_none(),
            },
    {
        let local = self.selection.saturating_sub(self.index_offset);
        if local < self.items.len() {
            Some(local)
        } else {
            None
        }
    }

    /// Selects position `position` and remembers the commit there.
    pub fn select_entry(&mut self, position: usize)
        ensures
            final(self).same_inputs(old(self)),
            final(self).selection == position,
            final(self).last_selected_commit == (match final(self).selected() {
                Some(e) => Some(e.id),
                None => None::<CommitId>,
            }),
            final(self).items == old(self).items,
            final(self).marked == old(self).marked,
            final(self).index_offset == old(self).index_offset,
            final(self).count_total == old(self).count_total,
            final(self).search_options == old(self).search_options,
            final(self).current_search == old(self).current_search,
            final(self).extended_search_request == old(self).extended_search_request,
    {
        self.selection = position;
        self.last_selected_commit = match self.selected_index() {
            Some(i) => Some(self.items[i].id),
            None => None,
        };
    }

    /// Moves the selection: by `speed` entries up or down, by a page of
    /// `page` entries, or to either end; never past the last commit.
    /// Returns whether the selection changed.
    pub fn move_selection(&mut self, scroll: ScrollType, speed: usize, page: usize) -> (changed: bool)
        ensures
            final(self).same_inputs(old(self)),
            final(self).selection == moved_selection(old(self).selection, old(self).count_total, scroll, speed, page),
            changed == (final(self).selection != old(self).selection),
            final(self).items == old(self).items,
            final(self).marked == old(self).marked,
            final(self).index_offset == old(self).index_offset,
            final(self).count_total == old(self).count_total,
            final(self).search_options == old(self).search_options,
            final(self).current_search == old(self).current_search,
            final(self).extended_search_request == old(self).extended_search_request,
    {
        let step = if speed == 0 { 1 } else { speed };
        let max = self.selection_max();
        let raw = match scroll {
            ScrollType::Up => self.selection.saturating_sub(step),
            ScrollType::Down => self.selection.saturating_add(step),
            ScrollType::PageUp => self.selection.saturating_sub(page),
            ScrollType::PageDown => self.selection.saturating_add(page),
            ScrollType::Home => 0,
            ScrollType::End => max,
        };
        let new_sel = if raw <= max { raw } else { max };
        let changed = new_sel != self.selection;
        self.select_entry(new_sel);
        changed
    }

    /// Whether commit `id` is marked.
    pub fn is_marked(&self, id: &CommitId) -> (r: bool)
        ensures
            r == is_marked_in(self.marked@, *id),
    {
        let mut k: usize = 0;
        while k < self.marked.len()
            invariant
                k <= self.marked@.len(),
                forall|j: int| 0 <= j < k ==> self.marked@[j].1.bytes@ != id.bytes@,
            decreases self.marked@.len() - k,
        {
            if self.marked[k].1.same(id) {
                return true;
            }
            k += 1;
        }
        false
    }

    /// Marks the selected commit, or unmarks it if it is marked.
    pub fn mark(&mut self)
        requires
            old(self).wf(),
        ensures
            Self::mark_post(*old(self), *final(self)),
    {
        let idx = match self.selected_index() {
            Some(i) => i,
            None => {
                return;
            },
        };
        let id = self.items[idx].id;
        if self.is_marked(&id) {
            let ghost m0 = self.marked@;
            let mut kept: Vec<(usize, CommitId)> = Vec::new();
            let ghost mut from: Seq<int> = Seq::empty();
            let mut k: usize = 0;
            while k < self.marked.len()
                invariant
                    m0 == self.marked@,
                    marks_wf(m0),
                    k <= m0.len(),
                    kept@ == unmarked(m0.subrange(0, k as int), id),
                    from.len() == kept@.len(),
                    forall|a: int| 0 <= a < from.len() ==> 0 <= #[trigger] from[a] < k && kept@[a] == m0[from[a]],
                    forall|a: int, b: int| 0 <= a < b < from.len() ==> #[trigger] from[a] < #[trigger] from[b],
                decreases m0.len() - k,
            {
                let ghost sub = m0.subrange(0, k + 1);
                assert(sub.drop_last() =~= m0.subrange(0, k as int));
                assert(sub.last() == m0[k as int]);
                let e = self.marked[k];
                if !e.1.same(&id) {
                    kept.push(e);
                    proof {
                        from = from.push(k as int);
                    }
                }
                k += 1;
            }
            assert(m0.subrange(0, m0.len() as int) =~= m0);
            proof {
                assert forall|a: int, b: int| 0 <= a < b < kept@.len() implies kept@[a].0 < kept@[b].0 && kept@[a].1.bytes@ != kept@[b].1.bytes@ by {
                    assert(from[a] < from[b]);
                    assert(kept@[a] == m0[from[a]] && kept@[b] == m0[from[b]]);
                }
            }
            self.marked = kept;
        } else {
            let sel = idx;
            let mut p: usize = 0;
            while p < self.marked.len() && self.marked[p].0 < sel
                invariant
                    p <= self.marked@.len(),
                    forall|j: int| 0 <= j < p ==> self.marked@[j].0 < sel,
                decreases self.marked@.len() - p,
            {
                p += 1;
            }
            let ghost m0 = self.marked@;
            assert(m0.insert(p as int, (sel, id)) == m0.insert(p as int, (sel, id)));
            if p < self.marked.len() && self.marked[p].0 == sel {
                self.marked.set(p, (sel, id));
                proof {
                    let m1 = self.marked@;
                    assert forall|a: int, b: int| 0 <= a < b < m1.len() implies m1[a].0 < m1[b].0 && m1[a].1.bytes@ != m1[b].1.bytes@ by {
                        if a == p {
                            assert(m1[b] == m0[b]);
                            assert(m0[p as int].0 < m0[b].0);
                        } else if b == p {
                            assert(m1[a] == m0[a]);
                        } else {
                            assert(m1[a] == m0[a] && m1[b] == m0[b]);
                        }
                    }
                }
            } else {
                self.marked.insert(p, (sel, id));
                proof {
                    let m1 = self.marked@;
                    assert(m1 == m0.insert(p as int, (sel, id)));
                    assert forall|a: int, b: int| 0 <= a < b < m1.len() implies m1[a].0 < m1[b].0 && m1[a].1.bytes@ != m1[b].1.bytes@ by {
                        if a < p && b < p {
                            assert(m1[a] == m0[a] && m1[b] == m0[b]);
                        } else if a < p && b == p {
                            assert(m1[a] == m0[a]);
                        } else if a < p {
                            assert(m1[a] == m0[a] && m1[b] == m0[b - 1]);
                        } else if a == p {
                            assert(m1[b] == m0[b - 1]);
                            assert(m0[p as int].0 > sel);
                            assert(!(m0[b - 1].1.bytes@ == id.bytes@));
                        } else {
                            assert(m1[a] == m0[a - 1] && m1[b] == m0[b - 1]);
                        }
                    }
                }
            }
        }
    }

    pub fn marked_count(&self) -> (r: usize)
        ensures
            r == self.marked@.len(),
    {
        self.marked.len()
    }

    pub fn clear_marked(&mut self)
        ensures
            final(self).same_inputs(old(self)),
            final(self).marked@.len() == 0,
            final(self).selection == old(self).selection,
            final(self).items == old(self).items,
            final(self).index_offset == old(self).index_offset,
            final(self).count_total == old(self).count_total,
    {
        self.marked.clear();
    }

    /// The marked commits, in the order of their positions.
    pub fn marked_commits(&self) -> (r: Vec<CommitId>)
        ensures
            r@ == self.marked@.map_values(|m: (usize, CommitId)| m.1),
    {
        let mut r: Vec<CommitId> = Vec::new();
        let mut k: usize = 0;
        while k < self.marked.len()
            invariant
                k <= self.marked@.len(),
                r@ == self.marked@.subrange(0, k as int).map_values(|m: (usize, CommitId)| m.1),
            decreases self.marked@.len() - k,
        {
            r.push(self.marked[k].1);
            k += 1;
            assert(r@ =~= self.marked@.subrange(0, k as int).map_values(|m: (usize, CommitId)| m.1));
        }
        assert(self.marked@.subrange(0, self.marked@.len() as int) =~= self.marked@);
        r
    }

    pub open spec fn matches_at(&self, needle: Seq<char>, k: int) -> bool {
        entry_matches(self.search_options, needle, self.items@[k])
    }

    /// Whether an entry with these fields matches the lowercase `needle`
    /// in one of the chosen fields.
    pub fn search_commit_check(&self, needle: &str, author: &str, message: &str, hash: &str) -> (r: bool)
        ensures
            r == ((self.search_options.message && occurs_in(lowercase(message@), needle@))
                || (self.search_options.author && occurs_in(lowercase(author@), needle@))
                || (self.search_options.sha && occurs_in(hash@, needle@))),
    {
        (self.search_options.message && str_contains(to_lower(message).as_str(), needle))
            || (self.search_options.author && str_contains(to_lower(author).as_str(), needle))
            || (self.search_options.sha && str_contains(hash, needle))
    }

    /// The needle in lowercase.
    pub fn get_search_needle(&self) -> (r: String)
        ensures
            r@ == lowercase(self.current_search@),
    {
        to_lower(self.current_search.as_str())
    }

    /// Whether the search looks at hashes only.
    pub fn is_search_hash_only(&self) -> (r: bool)
        ensures
            r == (!self.search_options.message && !self.search_options.author && self.search_options.sha),
    {
        !self.search_options.message && !self.search_options.author && self.search_options.sha
    }

    fn entry_check(&self, needle: &str, k: usize) -> (r: bool)
        requires
            k < self.items@.len(),
        ensures
            r == entry_matches(self.search_options, needle@, self.items@[k as int]),
    {
        let e = &self.items[k];
        self.search_commit_check(needle, e.author.as_str(), e.msg.as_str(), e.hash_full.as_str())
    }

    /// Selects the next loaded entry after the selection that matches the
    /// search; when there is none, asks for more entries to be loaded.
    pub fn search_commit_forward(&mut self)
        requires
            old(self).index_offset + old(self).items@.len() <= usize::MAX,
        ensures
            Self::search_forward_post(*old(self), *final(self)),
    {
        if self.current_search.as_str().is_empty() {
            return;
        }
        assert(old(self).current_search@.len() > 0);
        let needle = self.get_search_needle();
        let local = self.selection.saturating_sub(self.index_offset);
        if local < self.items.len() {
            let mut k: usize = local + 1;
            while k < self.items.len()
                invariant
                    local < k <= self.items@.len(),
                    local == old(self).local_selection(),
                    *self == *old(self),
                    self.index_offset + self.items@.len() <= usize::MAX,
                    needle@ == lowercase(old(self).current_search@),
                    old(self).current_search@.len() > 0,
                    forall|j: int| local < j < k ==> !self.matches_at(needle@, j),
                decreases self.items@.len() - k,
            {
                if self.entry_check(needle.as_str(), k) {
                    assert(old(self).matches_at(lowercase(old(self).current_search@), k as int));
                    let pos = self.index_offset + k;
                    self.select_entry(pos);
                    return;
                }
                k += 1;
            }
        }
        self.extended_search_request = ExternalSearchRequest::Forward;
    }

    /// Selects the last loaded entry before the selection that matches the
    /// search; when there is none and earlier entries are not loaded, asks
    /// for them.
    pub fn search_commit_backward(&mut self)
        requires
            old(self).index_offset + old(self).items@.len() <= usize::MAX,
        ensures
            Self::search_backward_post(*old(self), *final(self)),
    {
        if self.current_search.as_str().is_empty() {
            return;
        }
        assert(old(self).current_search@.len() > 0);
        let needle = self.get_search_needle();
        let local = self.selection.saturating_sub(self.index_offset);
        let end = if local < self.items.len() { local } else { self.items.len() };
        let mut k: usize = end;
        while k > 0
            invariant
                k <= end,
                end <= local,
                end <= self.items@.len(),
                end == local || end == self.items@.len(),
                local == old(self).local_selection(),
                *self == *old(self),
                needle@ == lowercase(old(self).current_search@),
                old(self).current_search@.len() > 0,
                self.index_offset + self.items@.len() <= usize::MAX,
                forall|j: int| k <= j < end ==> !self.matches_at(needle@, j),
            decreases k,
        {
            if self.entry_check(needle.as_str(), k - 1) {
                assert(old(self).matches_at(lowercase(old(self).current_search@), k - 1));
                let pos = self.index_offset + (k - 1);
                self.select_entry(pos);
                return;
            }
            k -= 1;
        }
        if self.index_offset > 0 {
            self.extended_search_request = ExternalSearchRequest::Backward;
        }
    }

    /// Hands out the pending request for more entries, once.
    pub fn has_extended_search_request(&mut self) -> (r: ExternalSearchRequest)
        ensures
            r == old(self).extended_search_request,
            final(self).extended_search_request == ExternalSearchRequest::Empty,
            final(self).selection == old(self).selection,
            final(self).marked == old(self).marked,
    {
        let r = self.extended_search_request;
        self.extended_search_request = ExternalSearchRequest::Empty;
        r
    }

    /// Handles the second key of a two-key command: the first key chose
    /// search or filter, the second which fields (all, author, message, or
    /// for search the hash). Returns `None` when no command was pending or
    /// the key completes none; a pending command is dropped either way.
    pub fn try_handle_combo_event(&mut self, key: ListKey) -> (r: Option<bool>)
        ensures
            final(self).path_filter == old(self).path_filter,
            final(self).combo_state == KeyComboState::Empty,
            final(self).marked == old(self).marked,
            final(self).selection == old(self).selection,
            final(self).items == old(self).items,
            final(self).index_offset == old(self).index_offset,
            final(self).count_total == old(self).count_total,
            r.is_some() ==> r == Some(true),
            r.is_none() ==> *final(self) == (CommitList { combo_state: KeyComboState::Empty, ..*old(self) }),
            final(self).last_selected_commit == old(self).last_selected_commit,
            r.is_none() ==> final(self).focused == old(self).focused && final(self).search_visible == old(self).search_visible
                && final(self).filter_visible == old(self).filter_visible,
            old(self).combo_state == KeyComboState::Empty ==> r.is_none(),
            old(self).combo_state == KeyComboState::SearchInitForward ==> (r.is_some() <==> (key == ListKey::SearchInit
                || key == ListKey::FilterAuthor || key == ListKey::FilterMessage || key == ListKey::SearchSha)),
            old(self).combo_state == KeyComboState::FilterInit ==> (r.is_some() <==> (key == ListKey::FilterInit
                || key == ListKey::FilterAuthor || key == ListKey::FilterMessage)),
            old(self).combo_state == KeyComboState::SearchInitForward && r.is_some() ==> final(self).search_visible
                && final(self).focused == Focused::InputSearch && final(self).current_search@.len() == 0
                && final(self).search_options.author == (key == ListKey::SearchInit || key == ListKey::FilterAuthor)
                && final(self).search_options.message == (key == ListKey::SearchInit || key == ListKey::FilterMessage)
                && final(self).search_options.sha == (key == ListKey::SearchInit || key == ListKey::SearchSha),
            old(self).combo_state == KeyComboState::FilterInit && r.is_some() ==> final(self).filter_visible
                && final(self).focused == Focused::InputFilter
                && final(self).filter_options.author == (key == ListKey::FilterInit || key == ListKey::FilterAuthor)
                && final(self).filter_options.message == (key == ListKey::FilterInit || key == ListKey::FilterMessage)
                && final(self).filter_options.sha == (key == ListKey::FilterInit),
    {
        match self.combo_state {
            KeyComboState::SearchInitForward => {
                self.combo_state = KeyComboState::Empty;
                match key {
                    ListKey::SearchInit => self.search_options.enable_all(),
                    ListKey::FilterAuthor => self.search_options.author_only(),
                    ListKey::FilterMessage => self.search_options.message_only(),
                    ListKey::SearchSha => self.search_options.sha_only(),
                    _ => {
                        return None;
                    },
                }
                self.show_search();
                Some(true)
            },
            KeyComboState::FilterInit => {
                self.combo_state = KeyComboState::Empty;
                match key {
                    ListKey::FilterInit => self.filter_options.enable_all(),
                    ListKey::FilterAuthor => self.filter_options.author_only(),
                    ListKey::FilterMessage => self.filter_options.message_only(),
                    _ => {
                        return None;
                    },
                }
                self.show_filter();
                Some(true)
            },
            KeyComboState::Empty => None,
        }
    }

    /// Opens the search field, empty, with the keyboard on it.
    pub fn show_search(&mut self)
        ensures
            final(self).path_filter == old(self).path_filter,
            final(self).last_selected_commit == old(self).last_selected_commit,
            final(self).search_visible,
            final(self).current_search@.len() == 0,
            final(self).focused == Focused::InputSearch,
            final(self).filter_visible == old(self).filter_visible,
            final(self).search_options == old(self).search_options,
            final(self).filter_options == old(self).filter_options,
            final(self).combo_state == old(self).combo_state,
            final(self).marked == old(self).marked,
            final(self).selection == old(self).selection,
            final(self).items == old(self).items,
            final(self).index_offset == old(self).index_offset,
            final(self).count_total == old(self).count_total,
    {
        self.search_visible = true;
        self.current_search = String::new();
        self.focused = Focused::InputSearch;
    }

    /// Opens the filter field with the keyboard on it.
    pub fn show_filter(&mut self)
        ensures
            final(self).path_filter == old(self).path_filter,
            final(self).last_selected_commit == old(self).last_selected_commit,
            final(self).filter_visible,
            final(self).focused == Focused::InputFilter,
            final(self).search_visible == old(self).search_visible,
            final(self).current_search == old(self).current_search,
            final(self).search_options == old(self).search_options,
            final(self).filter_options == old(self).filter_options,
            final(self).combo_state == old(self).combo_state,
            final(self).marked == old(self).marked,
            final(self).selection == old(self).selection,
            final(self).items == old(self).items,
            final(self).index_offset == old(self).index_offset,
            final(self).count_total == old(self).count_total,
    {
        self.filter_visible = true;
        self.focused = Focused::InputFilter;
    }

    /// Closes the search.
    pub fn stop_search(&mut self)
        ensures
            !final(self).search_visible,
            final(self).current_search@.len() == 0,
            final(self).focused == Focused::List,
            final(self).filter_visible == old(self).filter_visible,
            final(self).marked == old(self).marked,
            final(self).selection == old(self).selection,
            final(self).combo_state == old(self).combo_state,
    {
        self.current_search = String::new();
        self.search_visible = false;
        self.focused = Focused::List;
    }

    /// Closes the filter; returns whether it was open, which means the
    /// log must be reloaded without it.
    pub fn stop_filter(&mut self) -> (updated: bool)
        ensures
            !final(self).filter_visible,
            final(self).focused == Focused::List,
            updated == old(self).filter_visible,
            final(self).search_visible == old(self).search_visible,
            final(self).marked == old(self).marked,
            final(self).selection == old(self).selection,
            final(self).combo_state == old(self).combo_state,
    {
        self.focused = Focused::List;
        let was = self.filter_visible;
        self.filter_visible = false;
        was
    }

    /// Moves the keyboard between the open input fields and the list.
    pub fn toggle_input_focus(&mut self)
        ensures
            Self::toggle_focus_post(*old(self), *final(self)),
    {
        self.focused = match self.focused {
            Focused::InputFilter => if self.search_visible { Focused::InputSearch } else { Focused::List },
            Focused::List => if self.filter_visible {
                Focused::InputFilter
            } else if self.search_visible {
                Focused::InputSearch
            } else {
                Focused::List
            },
            Focused::InputSearch => Focused::List,
        };
    }

    /// The remembered selected commit, while neither search nor filter is open.
    pub fn get_last_selected_commit(&self) -> (r: Option<CommitId>)
        ensures
            r == (if !self.filter_visible && !self.search_visible {
                self.last_selected_commit
            } else {
                None::<CommitId>
            }),
    {
        if !self.filter_visible && !self.search_visible {
            self.last_selected_commit
        } else {
            None
        }
    }

    fn marked_action(&mut self, action: MarkedAction) -> (r: ListRequest)
        requires
            old(self).wf(),
        ensures
            final(self).same_inputs(old(self)),
            final(self).wf(),
            final(self).selection == old(self).selection,
            final(self).combo_state == old(self).combo_state,
            old(self).marked@.len() > 0 ==> *final(self) == *old(self),
            old(self).marked@.len() == 0 ==> CommitList::mark_post(*old(self), *final(self)),
            r == (if final(self).marked@.len() > 0 {
                ListRequest::Confirm(action)
            } else {
                ListRequest::NothingMarked(action)
            }),
    {
        if self.marked.len() == 0 {
            self.mark();
        }
        if self.marked.len() == 0 {
            ListRequest::NothingMarked(action)
        } else {
            ListRequest::Confirm(action)
        }
    }

    /// Handles a key on the list: a pending two-key command first, then
    /// movement, marking, rebase commands (interactive rebase only on a
    /// clean repository, continue/skip/abort only during a rebase), the
    /// commands on marked commits (the selected commit is marked first if
    /// none is), checkout, starting a search or a filter, Escape (closes
    /// search and filter, or else clears the path filter and the marks),
    /// moving the focus, and searching on. Returns whether the key was
    /// consumed and what the application is asked to do.
    pub fn list_event(
        &mut self,
        key: ListKey,
        repo_state: RepoState,
        speed: usize,
        page: usize,
    ) -> (r: (bool, ListRequest))
        requires
            old(self).wf(),
            old(self).index_offset + old(self).items@.len() <= usize::MAX,
        ensures
            final(self).wf(),
            old(self).combo_state == KeyComboState::Empty ==> list_step(*old(self), *final(self), key, repo_state, speed, page, r),
            old(self).combo_state != KeyComboState::Empty && completes(old(self).combo_state, key) ==> r == (
                true,
                ListRequest::Nothing,
            ) && final(self).combo_state == KeyComboState::Empty && final(self).marked == old(self).marked
                && final(self).selection == old(self).selection && (old(self).combo_state
                == KeyComboState::SearchInitForward ==> final(self).search_visible && final(self).focused
                == Focused::InputSearch && final(self).current_search@.len() == 0 && final(self).search_options.author
                == (key == ListKey::SearchInit || key == ListKey::FilterAuthor) && final(self).search_options.message
                == (key == ListKey::SearchInit || key == ListKey::FilterMessage) && final(self).search_options.sha
                == (key == ListKey::SearchInit || key == ListKey::SearchSha)) && (old(self).combo_state
                == KeyComboState::FilterInit ==> final(self).filter_visible && final(self).focused == Focused::InputFilter
                && final(self).filter_options.author == (key == ListKey::FilterInit || key == ListKey::FilterAuthor)
                && final(self).filter_options.message == (key == ListKey::FilterInit || key == ListKey::FilterMessage)
                && final(self).filter_options.sha == (key == ListKey::FilterInit)),
            old(self).combo_state != KeyComboState::Empty && !completes(old(self).combo_state, key) ==> list_step(
                CommitList { combo_state: KeyComboState::Empty, ..*old(self) },
                *final(self),
                key,
                repo_state,
                speed,
                page,
                r,
            ),
    {
        if let Some(c) = self.try_handle_combo_event(key) {
            return (c, ListRequest::Nothing);
        }
        match key {
            ListKey::Up => (self.move_selection(ScrollType::Up, speed, page), ListRequest::Nothing),
            ListKey::Down => (self.move_selection(ScrollType::Down, speed, page), ListRequest::Nothing),
            ListKey::Home => (self.move_selection(ScrollType::Home, speed, page), ListRequest::Nothing),
            ListKey::End => (self.move_selection(ScrollType::End, speed, page), ListRequest::Nothing),
            ListKey::PageUp => (self.move_selection(ScrollType::PageUp, speed, page), ListRequest::Nothing),
            ListKey::PageDown => (self.move_selection(ScrollType::PageDown, speed, page), ListRequest::Nothing),
            ListKey::Mark => {
                self.mark();
                (true, ListRequest::Nothing)
            },
            ListKey::RebaseInteractive => {
                if repo_state == RepoState::Clean {
                    match self.get_last_selected_commit() {
                        Some(_) => (true, ListRequest::RebaseInteractive),
                        None => (true, ListRequest::Nothing),
                    }
                } else {
                    (false, ListRequest::Nothing)
                }
            },
            ListKey::RebaseContinue => if repo_state == RepoState::Rebase {
                (true, ListRequest::RebaseContinue)
            } else {
                (false, ListRequest::Nothing)
            },
            ListKey::RebaseSkip => if repo_state == RepoState::Rebase {
                (true, ListRequest::RebaseSkip)
            } else {
                (false, ListRequest::Nothing)
            },
            ListKey::RebaseAbort => if repo_state == RepoState::Rebase {
                (true, ListRequest::RebaseAbort)
            } else {
                (false, ListRequest::Nothing)
            },
            ListKey::Drop => (true, self.marked_action(MarkedAction::Drop)),
            ListKey::Fixup => (true, self.marked_action(MarkedAction::Fixup)),
            ListKey::Cherrypick => (true, self.marked_action(MarkedAction::Cherrypick)),
            ListKey::Checkout => (true, ListRequest::Checkout),
            ListKey::SearchInit => {
                self.combo_state = KeyComboState::SearchInitForward;
                (true, ListRequest::Nothing)
            },
            ListKey::FilterInit => {
                self.combo_state = KeyComboState::FilterInit;
                (true, ListRequest::Nothing)
            },
            ListKey::Exit => {
                if self.search_visible || self.filter_visible {
                    self.stop_search();
                    let updated = self.stop_filter();
                    (true, if updated { ListRequest::UpdateAll } else { ListRequest::Nothing })
                } else {
                    let had_filter = !self.path_filter.as_str().is_empty();
                    self.path_filter = String::new();
                    if self.marked.len() > 0 {
                        self.marked.clear();
                        (true, ListRequest::UpdateAll)
                    } else if had_filter {
                        (true, ListRequest::UpdateAll)
                    } else {
                        (true, ListRequest::Nothing)
                    }
                }
            },
            ListKey::ToggleFocus => {
                self.toggle_input_focus();
                (true, ListRequest::Nothing)
            },
            ListKey::SearchNext => {
                self.search_commit_forward();
                (true, ListRequest::Nothing)
            },
            ListKey::SearchPrev => {
                self.search_commit_backward();
                (true, ListRequest::Nothing)
            },
            ListKey::FindFile => (true, ListRequest::OpenFileFinder),
            _ => (false, ListRequest::Nothing),
        }
    }

    /// The marked commit at the highest position: the oldest marked one.
    pub fn oldest_marked(&self) -> (r: Option<CommitId>)
        ensures
            self.marked@.len() == 0 ==> r.is_none(),
            self.marked@.len() > 0 ==> r == Some(self.marked@.last().1),
    {
        if self.marked.len() == 0 {
            None
        } else {
            Some(self.marked[self.marked.len() - 1].1)
        }
    }

    /// Records how an operation on the marked commits ended: on success
    /// the marks are cleared; on failure they stay and the message to show
    /// is given. Either way the log is reloaded.
    pub fn marked_action_done(&mut self, action: MarkedAction, result: Result<(), String>) -> (r: (
        ListRequest,
        Option<String>,
    ))
        requires
            old(self).wf(),
        ensures
            final(self).wf(),
            r.0 == ListRequest::UpdateAll,
            result is Ok ==> final(self).marked@.len() == 0 && r.1.is_none(),
            result is Err ==> final(self).marked == old(self).marked && r.1 is Some && r.1->0@ == failure_text(
                action,
                result->Err_0@,
            ),
            final(self).selection == old(self).selection,
            final(self).same_inputs(old(self)),
    {
        match result {
            Ok(()) => {
                self.marked.clear();
                (ListRequest::UpdateAll, None)
            },
            Err(e) => (ListRequest::UpdateAll, Some(failure_message(action, e.as_str()))),
        }
    }

    /// The path the log is filtered by, normalized (`./src//a` gives
    /// `src/a`), or none when there is no path filter.
    pub fn get_path_filter(&self) -> (r: Option<String>)
        ensures
            self.path_filter@.len() == 0 ==> r.is_none(),
            self.path_filter@.len() > 0 ==> r is Some && r->0@ == join_on(kept_parts(split_on(self.path_filter@, '/')), '/'),
    {
        if self.path_filter.as_str().is_empty() {
            return None;
        }
        let parts = parts_of(self.path_filter.as_str(), '/');
        let ghost ps = parts@.map_values(|l: String| l@);
        let mut kept: Vec<String> = Vec::new();
        let mut i: usize = 0;
        while i < parts.len()
            invariant
                ps == parts@.map_values(|l: String| l@),
                i <= parts@.len(),
                kept@.map_values(|l: String| l@) == kept_parts(ps.subrange(0, i as int)),
            decreases parts@.len() - i,
        {
            let ghost sub = ps.subrange(0, i + 1);
            assert(sub.drop_last() =~= ps.subrange(0, i as int));
            assert(sub.last() == parts@[i as int]@);
            let part = parts[i].as_str();
            proof {
                reveal_strlit(".");
            }
            let dot = crate::config::str_is(part, ".");
            assert(dot == (part@ == seq!['.'])) by {
                assert("."@ =~= seq!['.']);
            }
            if !part.is_empty() && !dot {
                let ghost before = kept@;
                kept.push(parts[i].clone());
                assert(kept@.map_values(|l: String| l@) =~= before.map_values(|l: String| l@).push(part@));
            }
            i += 1;
        }
        assert(ps.subrange(0, parts@.len() as int) =~= ps);
        let ghost kv = kept@.map_values(|l: String| l@);
        let mut v: Vec<char> = Vec::new();
        let mut k: usize = 0;
        while k < kept.len()
            invariant
                kv == kept@.map_values(|l: String| l@),
                k <= kept@.len(),
                v@ == join_on(kv.subrange(0, k as int), '/'),
            decreases kept@.len() - k,
        {
            let ghost sub = kv.subrange(0, k + 1);
            assert(sub.drop_last() =~= kv.subrange(0, k as int));
            if k > 0 {
                v.push('/');
            }
            push_str(&mut v, kept[k].as_str());
            proof {
                if k == 0 {
                    assert(v@ =~= sub[0]);
                } else {
                    assert(v@ =~= join_on(sub.drop_last(), '/') + seq!['/'] + sub.last());
                }
            }
            k += 1;
        }
        assert(kv.subrange(0, kept@.len() as int) =~= kv);
        Some(crate::blame_search::string_of(&v))
    }

    /// Whether a commit by `author` with `message` passes the filter typed
    /// as `filter_text` (matched in lowercase against the chosen fields);
    /// `None` while no filter is open or its text is empty.
    pub fn filter_admits(&self, filter_text: &str, author: &str, message: &str) -> (r: Option<bool>)
        ensures
            !(self.filter_visible && filter_text@.len() > 0) ==> r.is_none(),
            self.filter_visible && filter_text@.len() > 0 ==> r == Some(
                (self.filter_options.author && occurs_in(lowercase(author@), lowercase(filter_text@)))
                    || (self.filter_options.message && occurs_in(lowercase(message@), lowercase(filter_text@))),
            ),
    {
        if !self.filter_visible || filter_text.is_empty() {
            return None;
        }
        let needle = to_lower(filter_text);
        if self.filter_options.author && str_contains(to_lower(author).as_str(), needle.as_str()) {
            Some(true)
        } else if self.filter_options.message && str_contains(to_lower(message).as_str(), needle.as_str()) {
            Some(true)
        } else {
            Some(false)
        }
    }

    pub open spec fn get_last_selected_commit_spec(&self) -> Option<CommitId> {
        if !self.filter_visible && !self.search_visible {
            self.last_selected_commit
        } else {
            None
        }
    }
}

} // verus!
