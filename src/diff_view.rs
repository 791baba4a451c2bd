use vstd::prelude::*;
use crate::diff_nav::{digit_of, copy_region, copy_step, is_terminal, last_line, movement_step, CopyState, DiffCursor, NavKey};
use crate::diff_search::{search_event_post, DiffSearchKey, Search, SearchDirection};
use crate::selection::{min_nat, Direction, Selection};

verus! {

/// The first line of hunk `i`, the hunks having `sizes` lines each.
pub open spec fn hunk_start(sizes: Seq<usize>, i: int) -> int
    decreases i,
{
    if i <= 0 {
        0
    } else {
        hunk_start(sizes, i - 1) + sizes[i - 1]
    }
}

proof fn lemma_hunk_start_mono(sizes: Seq<usize>, i: int, j: int)
    requires
        0 <= i <= j,
    ensures
        hunk_start(sizes, i) <= hunk_start(sizes, j),
    decreases j - i,
{
    if i < j {
        lemma_hunk_start_mono(sizes, i, j - 1);
    }
}

/// The hunk holding `line`, if any.
pub open spec fn hunk_of(sizes: Seq<usize>, line: int, r: Option<usize>) -> bool {
    match r {
        Some(i) => i < sizes.len() && hunk_start(sizes, i as int) <= line < hunk_start(sizes, i + 1),
        None => forall|i: int| 0 <= i < sizes.len() ==> !(#[trigger] hunk_start(sizes, i) <= line < hunk_start(sizes, i + 1)),
    }
}

/// The line range `start..end` of hunk `i`, if there is such a hunk.
pub fn get_hunk_line_range(sizes: &Vec<usize>, hunk_index: usize) -> (r: Option<(usize, usize)>)
    requires
        hunk_start(sizes@, sizes@.len() as int) <= usize::MAX,
    ensures
        hunk_index < sizes@.len() ==> r == Some(
            (hunk_start(sizes@, hunk_index as int) as usize, hunk_start(sizes@, hunk_index + 1) as usize),
        ),
        hunk_index >= sizes@.len() ==> r.is_none(),
{
    let mut cursor: usize = 0;
    let mut i: usize = 0;
    while i < sizes.len()
        invariant
            i <= sizes@.len(),
            cursor == hunk_start(sizes@, i as int),
            hunk_start(sizes@, sizes@.len() as int) <= usize::MAX,
            hunk_index < sizes@.len() ==> i <= hunk_index,
        decreases sizes@.len() - i,
    {
        proof {
            lemma_hunk_start_mono(sizes@, i + 1, sizes@.len() as int);
        }
        if i == hunk_index {
            return Some((cursor, cursor + sizes[i]));
        }
        cursor = cursor + sizes[i];
        i += 1;
    }
    None
}

/// The hunk that holds line `line`.
pub fn find_selected_hunk(sizes: &Vec<usize>, line: usize) -> (r: Option<usize>)
    requires
        hunk_start(sizes@, sizes@.len() as int) <= usize::MAX,
    ensures
        hunk_of(sizes@, line as int, r),
{
    let mut cursor: usize = 0;
    let mut i: usize = 0;
    while i < sizes.len()
        invariant
            i <= sizes@.len(),
            cursor == hunk_start(sizes@, i as int),
            hunk_start(sizes@, sizes@.len() as int) <= usize::MAX,
            forall|k: int| 0 <= k < i ==> !(#[trigger] hunk_start(sizes@, k) <= line < hunk_start(sizes@, k + 1)),
        decreases sizes@.len() - i,
    {
        proof {
            lemma_hunk_start_mono(sizes@, i + 1, sizes@.len() as int);
        }
        if cursor <= line && line < cursor + sizes[i] {
            return Some(i);
        }
        cursor = cursor + sizes[i];
        i += 1;
    }
    None
}

/// A key as the diff view sees it, after the key bindings were applied.
#[derive(Clone, Copy, Debug, PartialEq, Eq, Structural)]
pub enum DiffKey {
    Up,
    Down,
    ShiftUp,
    ShiftDown,
    Home,
    End,
    PageUp,
    PageDown,
    NextHunk,
    PrevHunk,
    SearchForwardInit,
    SearchBackwardInit,
    SearchNext,
    SearchPrev,
    Enter,
    Exit,
    Backspace,
    StageUnstage,
    Reset,
    StageLines,
    ResetLines,
    Copy,
    CopyHunk,
    Char(char),
    Other,
}

/// Work the diff view asks of the application after a key.
#[derive(Clone, Copy, Debug, PartialEq, Eq, Structural)]
pub enum DiffRequest {
    Nothing,
    CopyLines(Selection),
    StageUnstageHunk,
    ResetHunk,
    ResetUntracked,
    StageLines,
    ResetLines,
}

/// The diff of one file as the view navigates it: its lines, the sizes of
/// its hunks, the cursor, the search and the selected hunk.
pub struct DiffView {
    pub cursor: DiffCursor,
    pub search: Search,
    pub lines: Vec<String>,
    pub hunk_sizes: Vec<usize>,
    pub selected_hunk: Option<usize>,
    pub page: usize,
    pub is_immutable: bool,
    pub is_stage: bool,
    pub untracked: bool,
}

/// What the view does with a key that no search takes: a copy command
/// being typed takes it first, then a pending numeric prefix, else the
/// key's own action.
pub open spec fn dispatch_post(w0: DiffView, w1: DiffView, key: DiffKey, r: (bool, DiffRequest)) -> bool {
    &&& w1.wf()
    &&& (w0.cursor.copy_op != CopyState::Idle ==> ({
            let next = copy_step(w0.cursor.copy_op, nav_key(key));
            &&& r.0
            &&& r.1 == match copy_region(next, w0.cursor.selection, w0.cursor.lines,
                match w0.selected_hunk {
                    Some(h) => if h < w0.hunk_sizes@.len() {
                        Some((hunk_start(w0.hunk_sizes@, h as int) as usize, hunk_start(w0.hunk_sizes@, h + 1) as usize))
                    } else {
                        None
                    },
                    None => None,
                }) {
                Some(s) => DiffRequest::CopyLines(s),
                None => DiffRequest::Nothing,
            }
            &&& w1.cursor.copy_op == (if is_terminal(next) { CopyState::Idle } else { next })
            &&& w1.cursor.selection == w0.cursor.selection
        }))
    &&& (w0.cursor.copy_op == CopyState::Idle
            && w0.cursor.pending_movement.is_some() ==> ({
            let (p, moved, c) = movement_step(
                w0.cursor.pending_movement,
                w0.cursor.selection.start(),
                w0.cursor.lines,
                nav_key(key),
            );
            &&& w1.cursor.pending_movement == p
            &&& r == (c, DiffRequest::Nothing)
            &&& w1.cursor.selection == (match moved {
                Some(t) => Selection::Single(t as usize),
                None => w0.cursor.selection,
            })
        }))
    &&& (w0.cursor.copy_op == CopyState::Idle
            && w0.cursor.pending_movement.is_none() ==> match key {
            DiffKey::ShiftUp => r == (true, DiffRequest::Nothing) && w1.cursor.selection
                == w0.cursor.selection.extended(Direction::Up, w0.cursor.lines),
            DiffKey::ShiftDown => r == (true, DiffRequest::Nothing) && w1.cursor.selection
                == w0.cursor.selection.extended(Direction::Down, w0.cursor.lines),
            DiffKey::SearchForwardInit | DiffKey::SearchBackwardInit => r == (true, DiffRequest::Nothing)
                && w1.search.search.is_some() && w1.search.direction == (if key
                == DiffKey::SearchForwardInit {
                SearchDirection::Forward
            } else {
                SearchDirection::Backward
            }),
            DiffKey::StageUnstage => r == (!w0.is_immutable, if w0.is_immutable {
                DiffRequest::Nothing
            } else {
                DiffRequest::StageUnstageHunk
            }),
            DiffKey::Reset => r == (!w0.is_immutable && !w0.is_stage, if w0.is_immutable
                || w0.is_stage {
                DiffRequest::Nothing
            } else if w0.untracked {
                DiffRequest::ResetUntracked
            } else {
                DiffRequest::ResetHunk
            }),
            DiffKey::StageLines => r == (!w0.is_immutable, if w0.is_immutable {
                DiffRequest::Nothing
            } else {
                DiffRequest::StageLines
            }),
            DiffKey::ResetLines => r == (!w0.is_immutable && !w0.is_stage, if w0.is_immutable
                || w0.is_stage || w0.untracked {
                DiffRequest::Nothing
            } else {
                DiffRequest::ResetLines
            }),
            DiffKey::Copy => match w0.cursor.selection {
                Selection::Multiple(_, _) => r == (true, DiffRequest::CopyLines(w0.cursor.selection)),
                Selection::Single(_) => r == (true, DiffRequest::Nothing) && w1.cursor.copy_op
                    == CopyState::Pending,
            },
            DiffKey::Other => r == (false, DiffRequest::Nothing) && w1.cursor.selection
                == w0.cursor.selection,
            DiffKey::Up | DiffKey::Down | DiffKey::Home | DiffKey::End | DiffKey::PageUp | DiffKey::PageDown => r == (
                true,
                DiffRequest::Nothing,
            ) && DiffView::move_post(w0, w1, key),
            DiffKey::NextHunk | DiffKey::PrevHunk => r == (true, DiffRequest::Nothing) && DiffView::hunk_post(
                w0,
                w1,
                key == DiffKey::NextHunk,
            ),
            DiffKey::Char(c) => match digit_of(c) {
                Some(d) => r == (true, DiffRequest::Nothing) && w1.cursor.pending_movement == Some(d)
                    && w1.cursor.selection == w0.cursor.selection,
                None => r == (false, DiffRequest::Nothing) && w1.cursor == w0.cursor,
            },
            DiffKey::Enter | DiffKey::Exit | DiffKey::SearchNext | DiffKey::SearchPrev | DiffKey::Backspace
            | DiffKey::CopyHunk => r == (false, DiffRequest::Nothing) && w1.cursor == w0.cursor
                && w1.search.search == w0.search.search,
        })
}

/// How a key reads to the search.
pub open spec fn search_key(key: DiffKey) -> DiffSearchKey {
    match key {
        DiffKey::Enter => DiffSearchKey::Enter,
        DiffKey::Exit => DiffSearchKey::Exit,
        DiffKey::SearchNext => DiffSearchKey::Next,
        DiffKey::SearchPrev => DiffSearchKey::Prev,
        DiffKey::Backspace => DiffSearchKey::Backspace,
        DiffKey::Char(c) => DiffSearchKey::Char(c),
        _ => DiffSearchKey::Other,
    }
}

/// How a key reads to the navigation machines.
pub open spec fn nav_key(key: DiffKey) -> NavKey {
    match key {
        DiffKey::Up => NavKey::Up,
        DiffKey::Down => NavKey::Down,
        DiffKey::Copy => NavKey::Copy,
        DiffKey::CopyHunk => NavKey::CopyHunk,
        DiffKey::Char(c) => NavKey::Char(c),
        _ => NavKey::Other,
    }
}

impl DiffView {
    /// The hunks cover the lines, and the cursor knows their number.
    pub open spec fn wf(&self) -> bool {
        &&& hunk_start(self.hunk_sizes@, self.hunk_sizes@.len() as int) == self.lines@.len()
        &&& self.lines@.len() <= usize::MAX
        &&& self.cursor.lines == self.lines@.len()
    }

    pub open spec fn move_post(w0: DiffView, w1: DiffView, key: DiffKey) -> bool {
        &&& (w1.wf())
        &&& (w1.cursor.selection == Selection::Single(
            min_nat(
                match key {
                    DiffKey::Down => min_nat(w0.cursor.selection.bottom() + 1, usize::MAX as int),
                    DiffKey::Up => if w0.cursor.selection.top() >= 1 { w0.cursor.selection.top() - 1 } else { 0 },
                    DiffKey::Home => 0,
                    DiffKey::PageDown => min_nat(w0.cursor.selection.bottom() + w0.page, usize::MAX as int),
                    DiffKey::PageUp => if w0.cursor.selection.top() >= w0.page {
                        w0.cursor.selection.top() - w0.page
                    } else {
                        0
                    },
                    _ => last_line(w0.cursor.lines),
                },
                last_line(w0.cursor.lines),
            ) as usize,
        ))
        &&& (w1.cursor.pending_movement == w0.cursor.pending_movement)
        &&& (w1.cursor.copy_op == w0.cursor.copy_op)
        &&& (w1.search.search == w0.search.search)
    }

    pub open spec fn hunk_post(w0: DiffView, w1: DiffView, forward: bool) -> bool {
        &&& (w1.wf())
        &&& (w1.cursor.selection == Selection::Single(
            min_nat(
                match w0.selected_hunk {
                    Some(h) => if forward {
                        if h < w0.hunk_sizes@.len() { hunk_start(w0.hunk_sizes@, h + 1) } else { 0 }
                    } else {
                        let p = if h >= 1 { h - 1 } else { 0 };
                        if p < w0.hunk_sizes@.len() { hunk_start(w0.hunk_sizes@, p) } else { 0 }
                    },
                    None => 0,
                },
                last_line(w0.cursor.lines),
            ) as usize,
        ))
        &&& (w1.search.search == w0.search.search)
    }

    fn to_nav(key: DiffKey) -> (r: NavKey)
        ensures
            r == nav_key(key),
    {
        match key {
            DiffKey::Up => NavKey::Up,
            DiffKey::Down => NavKey::Down,
            DiffKey::Copy => NavKey::Copy,
            DiffKey::CopyHunk => NavKey::CopyHunk,
            DiffKey::Char(c) => NavKey::Char(c),
            _ => NavKey::Other,
        }
    }

    fn to_search_key(key: DiffKey) -> (r: DiffSearchKey)
        ensures
            r == search_key(key),
    {
        match key {
            DiffKey::Enter => DiffSearchKey::Enter,
            DiffKey::Exit => DiffSearchKey::Exit,
            DiffKey::SearchNext => DiffSearchKey::Next,
            DiffKey::SearchPrev => DiffSearchKey::Prev,
            DiffKey::Backspace => DiffSearchKey::Backspace,
            DiffKey::Char(c) => DiffSearchKey::Char(c),
            _ => DiffSearchKey::Other,
        }
    }

    /// Places a single-line selection at `new_start` (clamped to the last
    /// line) and selects the hunk holding it.
    pub fn update_selection(&mut self, new_start: usize)
        requires
            old(self).wf(),
        ensures
            final(self).wf(),
            final(self).cursor.selection == Selection::Single(
                min_nat(new_start as int, last_line(old(self).cursor.lines)) as usize,
            ),
            final(self).cursor.pending_movement == old(self).cursor.pending_movement,
            final(self).cursor.copy_op == old(self).cursor.copy_op,
            hunk_of(final(self).hunk_sizes@, final(self).cursor.selection.start() as int, final(self).selected_hunk),
            final(self).search.search == old(self).search.search,
    {
        self.cursor.update_selection(new_start);
        let s = self.cursor.selection.get_start();
        self.selected_hunk = find_selected_hunk(&self.hunk_sizes, s);
    }

    /// Moves the selection by a line, a page or to either end.
    pub fn move_selection(&mut self, key: DiffKey)
        requires
            old(self).wf(),
        ensures
            Self::move_post(*old(self), *final(self), key),
    {
        let max = self.cursor.lines.saturating_sub(1);
        let new_start = match key {
            DiffKey::Down => self.cursor.selection.get_bottom().saturating_add(1),
            DiffKey::Up => self.cursor.selection.get_top().saturating_sub(1),
            DiffKey::Home => 0,
            DiffKey::PageDown => self.cursor.selection.get_bottom().saturating_add(self.page),
            DiffKey::PageUp => self.cursor.selection.get_top().saturating_sub(self.page),
            _ => max,
        };
        self.update_selection(new_start);
    }

    /// Jumps to the end of the selected hunk, or to the start of the hunk
    /// before it.
    pub fn move_hunk_selection(&mut self, forward: bool)
        requires
            old(self).wf(),
        ensures
            Self::hunk_post(*old(self), *final(self), forward),
    {
        proof {
            if let Some(h) = self.selected_hunk {
                if h + 1 <= self.hunk_sizes@.len() {
                    lemma_hunk_start_mono(self.hunk_sizes@, h + 1, self.hunk_sizes@.len() as int);
                    lemma_hunk_start_mono(self.hunk_sizes@, 0, h + 1);
                }
                if h >= 1 && h - 1 <= self.hunk_sizes@.len() {
                    lemma_hunk_start_mono(self.hunk_sizes@, h - 1, self.hunk_sizes@.len() as int);
                    lemma_hunk_start_mono(self.hunk_sizes@, 0, h - 1);
                }
                lemma_hunk_start_mono(self.hunk_sizes@, 0, self.hunk_sizes@.len() as int);
            }
        }
        let new_start = if forward {
            match self.selected_hunk {
                Some(h) => match get_hunk_line_range(&self.hunk_sizes, h) {
                    Some((_, to)) => to,
                    None => 0,
                },
                None => 0,
            }
        } else {
            match self.selected_hunk {
                Some(h) => match get_hunk_line_range(&self.hunk_sizes, h.saturating_sub(1)) {
                    Some((from, _)) => from,
                    None => 0,
                },
                None => 0,
            }
        };
        self.update_selection(new_start);
    }

    /// The view's action for a key that no search takes.
    fn dispatch(&mut self, key: DiffKey) -> (r: (bool, DiffRequest))
        requires
            old(self).wf(),
        ensures
            dispatch_post(*old(self), *final(self), key, r),
    {
        if self.cursor.copy_op != CopyState::Idle {
            let hunk = match self.selected_hunk {
                Some(h) => get_hunk_line_range(&self.hunk_sizes, h),
                None => None,
            };
            let region = self.cursor.copy_event(Self::to_nav(key), hunk);
            return (true, match region {
                Some(s) => DiffRequest::CopyLines(s),
                None => DiffRequest::Nothing,
            });
        }
        if self.cursor.pending_movement.is_some() {
            let consumed = self.cursor.movement_event(Self::to_nav(key));
            let s = self.cursor.selection.get_start();
            self.selected_hunk = find_selected_hunk(&self.hunk_sizes, s);
            return (consumed, DiffRequest::Nothing);
        }
        match key {
            DiffKey::Down | DiffKey::Up | DiffKey::Home | DiffKey::End | DiffKey::PageUp | DiffKey::PageDown => {
                self.move_selection(key);
                (true, DiffRequest::Nothing)
            },
            DiffKey::ShiftDown => {
                self.cursor.modify_selection(Direction::Down);
                (true, DiffRequest::Nothing)
            },
            DiffKey::ShiftUp => {
                self.cursor.modify_selection(Direction::Up);
                (true, DiffRequest::Nothing)
            },
            DiffKey::NextHunk => {
                self.move_hunk_selection(true);
                (true, DiffRequest::Nothing)
            },
            DiffKey::PrevHunk => {
                self.move_hunk_selection(false);
                (true, DiffRequest::Nothing)
            },
            DiffKey::SearchForwardInit => {
                let s = self.cursor.selection.get_start();
                self.search.start(s, SearchDirection::Forward);
                (true, DiffRequest::Nothing)
            },
            DiffKey::SearchBackwardInit => {
                let s = self.cursor.selection.get_start();
                self.search.start(s, SearchDirection::Backward);
                (true, DiffRequest::Nothing)
            },
            DiffKey::StageUnstage => if !self.is_immutable {
                (true, DiffRequest::StageUnstageHunk)
            } else {
                (false, DiffRequest::Nothing)
            },
            DiffKey::Reset => if !self.is_immutable && !self.is_stage {
                (true, if self.untracked { DiffRequest::ResetUntracked } else { DiffRequest::ResetHunk })
            } else {
                (false, DiffRequest::Nothing)
            },
            DiffKey::StageLines => if !self.is_immutable {
                (true, DiffRequest::StageLines)
            } else {
                (false, DiffRequest::Nothing)
            },
            DiffKey::ResetLines => if !self.is_immutable && !self.is_stage {
                (true, if self.untracked { DiffRequest::Nothing } else { DiffRequest::ResetLines })
            } else {
                (false, DiffRequest::Nothing)
            },
            DiffKey::Copy => {
                let r = self.cursor.copy_key();
                (true, match r {
                    Some(s) => DiffRequest::CopyLines(s),
                    None => DiffRequest::Nothing,
                })
            },
            DiffKey::Char(c) => {
                if crate::diff_nav::to_digit(c).is_some() {
                    let consumed = self.cursor.movement_event(NavKey::Char(c));
                    (consumed, DiffRequest::Nothing)
                } else {
                    (false, DiffRequest::Nothing)
                }
            },
            _ => (false, DiffRequest::Nothing),
        }
    }

    /// Handles a key: an active search takes it first, then a copy command
    /// being typed, then a pending numeric prefix; otherwise the key moves
    /// or extends the selection, jumps between hunks, starts a search,
    /// asks to stage, unstage or reset (not on an immutable diff; reset not
    /// on staged changes), copies, or starts a numeric prefix. Returns
    /// whether the key was consumed and what the application is asked to do.
    pub fn event(&mut self, key: DiffKey) -> (r: (bool, DiffRequest))
        requires
            old(self).wf(),
        ensures
            final(self).wf(),
            old(self).search.search.is_none() ==> dispatch_post(*old(self), *final(self), key, r),
            old(self).search.search.is_some() ==> ({
                let skey = search_key(key);
                exists|s1: Search, c1: DiffCursor, consumed: bool, h1: Option<usize>|
                    #![trigger search_event_post(old(self).search, s1, old(self).cursor, c1, old(self).lines@, skey, consumed), hunk_of(old(self).hunk_sizes@, c1.selection.start() as int, h1)]
                    search_event_post(old(self).search, s1, old(self).cursor, c1, old(self).lines@, skey, consumed)
                        && hunk_of(old(self).hunk_sizes@, c1.selection.start() as int, h1)
                        && (consumed ==> r == (true, DiffRequest::Nothing) && final(self).search == s1
                        && final(self).cursor == c1)
                        && (!consumed ==> dispatch_post(
                        DiffView { search: s1, cursor: c1, selected_hunk: h1, ..*old(self) },
                        *final(self),
                        key,
                        r,
                    ))
            }),
    {
        if self.search.search.is_some() {
            let skey = Self::to_search_key(key);
            let ghost s0 = self.search;
            let ghost c0 = self.cursor;
            let consumed = self.search.search_event(skey, &mut self.cursor, &self.lines);
            assert(search_event_post(s0, self.search, c0, self.cursor, self.lines@, skey, consumed));
            let s = self.cursor.selection.get_start();
            self.selected_hunk = find_selected_hunk(&self.hunk_sizes, s);
            assert(hunk_of(self.hunk_sizes@, self.cursor.selection.start() as int, self.selected_hunk));
            assert(*self == (DiffView { search: self.search, cursor: self.cursor, selected_hunk: self.selected_hunk, ..*old(self) }));
            if consumed {
                return (true, DiffRequest::Nothing);
            }
        }
        self.dispatch(key)
    }
}

} // verus!
