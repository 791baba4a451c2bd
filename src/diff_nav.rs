use vstd::prelude::*;
use crate::selection::{Direction, Selection, min_nat};

verus! {

/// A keystroke as the diff view's navigation sees it, after the key
/// bindings have been applied.
#[derive(Clone, Copy, Debug, PartialEq, Eq, Structural)]
pub enum NavKey {
    Up,
    Down,
    Copy,
    CopyHunk,
    Char(char),
    Other,
}

/// Progress of a copy command typed as a sequence of keys.
#[derive(Clone, Copy, Debug, PartialEq, Eq, Structural)]
pub enum CopyState {
    Idle,
    Pending,
    Size(usize),
    LinesUp(usize),
    LinesDown(usize),
    Line,
    Hunk,
}

/// The value of a decimal digit character.
pub open spec fn digit_of(c: char) -> Option<usize> {
    if '0' <= c && c <= '9' {
        Some((c as u32 - '0' as u32) as usize)
    } else {
        None
    }
}

/// `a * 10 + d`, saturating at `usize::MAX`.
pub open spec fn append_digit(a: usize, d: usize) -> usize {
    if a * 10 + d > usize::MAX { usize::MAX } else { (a * 10 + d) as usize }
}

pub fn to_digit(c: char) -> (r: Option<usize>)
    ensures
        r == digit_of(c),
{
    if '0' <= c && c <= '9' {
        Some((c as u32 - '0' as u32) as usize)
    } else {
        None
    }
}

pub fn push_digit(a: usize, d: usize) -> (r: usize)
    requires
        d < 10,
    ensures
        r == append_digit(a, d),
{
    if a > (usize::MAX - d) / 10 {
        assert(a * 10 + d > usize::MAX) by (nonlinear_arith)
            requires a > (usize::MAX - d) / 10, d < 10;
        usize::MAX
    } else {
        assert(a * 10 + d <= usize::MAX) by (nonlinear_arith)
            requires a <= (usize::MAX - d) / 10, d < 10;
        a * 10 + d
    }
}

/// The last line of a diff with `lines` lines (0 for an empty diff).
pub open spec fn last_line(lines: usize) -> int {
    if lines == 0 { 0 } else { lines - 1 }
}

/// Navigation state of a diff view: the selection, a pending numeric
/// prefix for the next movement, and the copy command being typed.
#[derive(Clone, Copy, Debug)]
pub struct DiffCursor {
    pub selection: Selection,
    pub pending_movement: Option<usize>,
    pub copy_op: CopyState,
    pub lines: usize,
}

/// What the numeric-prefix machine does on one key: the new pending
/// prefix, the new selection start if the selection moves, and whether
/// the key was consumed.
pub open spec fn movement_step(
    pending: Option<usize>,
    start: usize,
    lines: usize,
    key: NavKey,
) -> (Option<usize>, Option<int>, bool) {
    match key {
        NavKey::Up => match pending {
            Some(s) => (None, Some(if start >= s { start - s } else { 0 }), true),
            None => (pending, None, false),
        },
        NavKey::Down => match pending {
            Some(s) => (None, Some(min_nat(start + s, last_line(lines))), true),
            None => (pending, None, false),
        },
        NavKey::Char(c) => match digit_of(c) {
            Some(d) => (
                Some(
                    match pending {
                        None => d,
                        Some(p) => append_digit(p, d),
                    },
                ),
                None,
                true,
            ),
            None => (None, None, false),
        },
        _ => (None, None, false),
    }
}

/// The next copy state after one key.
pub open spec fn copy_step(op: CopyState, key: NavKey) -> CopyState {
    match key {
        NavKey::Copy => if op == CopyState::Pending { CopyState::Line } else { CopyState::Idle },
        NavKey::CopyHunk => if op == CopyState::Pending { CopyState::Hunk } else { CopyState::Idle },
        NavKey::Up => match op {
            CopyState::Pending => CopyState::LinesUp(1),
            CopyState::Size(s) => CopyState::LinesUp(s),
            _ => CopyState::Idle,
        },
        NavKey::Down => match op {
            CopyState::Pending => CopyState::LinesDown(1),
            CopyState::Size(s) => CopyState::LinesDown(s),
            _ => CopyState::Idle,
        },
        NavKey::Char(c) => match digit_of(c) {
            Some(d) => match op {
                CopyState::Pending => CopyState::Size(d),
                CopyState::Size(s) => CopyState::Size(append_digit(s, d)),
                _ => CopyState::Idle,
            },
            None => CopyState::Idle,
        },
        NavKey::Other => CopyState::Idle,
    }
}

/// The region that a terminal copy state copies, from the selection
/// start `start`, in a diff of `lines` lines, where `hunk` is the line
/// range of the selected hunk.
pub open spec fn copy_region(
    op: CopyState,
    sel: Selection,
    lines: usize,
    hunk: Option<(usize, usize)>,
) -> Option<Selection> {
    match op {
        CopyState::Line => Some(sel),
        CopyState::Hunk => match hunk {
            Some((a, b)) => Some(Selection::Multiple(a, b)),
            None => None,
        },
        CopyState::LinesUp(s) => Some(
            Selection::Multiple(
                sel.start(),
                if sel.start() >= s { (sel.start() - s) as usize } else { 0 },
            ),
        ),
        CopyState::LinesDown(s) => Some(
            Selection::Multiple(
                sel.start(),
                min_nat(sel.start() + s, lines as int) as usize,
            ),
        ),
        _ => None,
    }
}

/// Whether `op` ends a copy command.
pub open spec fn is_terminal(op: CopyState) -> bool {
    match op {
        CopyState::Line | CopyState::Hunk | CopyState::LinesUp(_) | CopyState::LinesDown(_) => true,
        _ => false,
    }
}

impl DiffCursor {
    pub fn new() -> (r: Self)
        ensures
            r.selection == Selection::Single(0),
            r.pending_movement.is_none(),
            r.copy_op == CopyState::Idle,
            r.lines == 0,
    {
        DiffCursor {
            selection: Selection::Single(0),
            pending_movement: None,
            copy_op: CopyState::Idle,
            lines: 0,
        }
    }

    /// Places a single-line selection at `new_start`, clamped to the last line.
    pub fn update_selection(&mut self, new_start: usize)
        ensures
            final(self).selection == Selection::Single(
                min_nat(new_start as int, last_line(old(self).lines)) as usize,
            ),
            final(self).pending_movement == old(self).pending_movement,
            final(self).copy_op == old(self).copy_op,
            final(self).lines == old(self).lines,
    {
        let max = self.lines.saturating_sub(1);
        let s = if new_start < max { new_start } else { max };
        self.selection = Selection::Single(s);
    }

    /// Feeds one key to the numeric-prefix movement; returns whether the
    /// key was consumed.
    pub fn movement_event(&mut self, key: NavKey) -> (consumed: bool)
        ensures
            ({
                let (p, moved, c) = movement_step(
                    old(self).pending_movement,
                    old(self).selection.start(),
                    old(self).lines,
                    key,
                );
                &&& final(self).pending_movement == p
                &&& consumed == c
                &&& final(self).selection == (match moved {
                    Some(t) => Selection::Single(t as usize),
                    None => old(self).selection,
                })
            }),
            final(self).copy_op == old(self).copy_op,
            final(self).lines == old(self).lines,
    {
        match key {
            NavKey::Up => {
                if let Some(s) = self.pending_movement {
                    let t = self.selection.get_start().saturating_sub(s);
                    self.selection = Selection::Single(t);
                    self.pending_movement = None;
                    return true;
                }
                false
            },
            NavKey::Down => {
                if let Some(s) = self.pending_movement {
                    let start = self.selection.get_start();
                    let last = self.lines.saturating_sub(1);
                    let t = start.saturating_add(s);
                    let t = if t < last { t } else { last };
                    self.selection = Selection::Single(t);
                    self.pending_movement = None;
                    return true;
                }
                false
            },
            NavKey::Char(c) => {
                match to_digit(c) {
                    Some(d) => {
                        self.pending_movement = match self.pending_movement {
                            None => Some(d),
                            Some(p) => Some(push_digit(p, d)),
                        };
                        true
                    },
                    None => {
                        self.pending_movement = None;
                        false
                    },
                }
            },
            _ => {
                self.pending_movement = None;
                false
            },
        }
    }

    /// Feeds one key to the copy command. When the command is complete,
    /// returns the region to copy and resets the copy state; the selection
    /// is left where it was.
    pub fn copy_event(&mut self, key: NavKey, hunk: Option<(usize, usize)>) -> (r: Option<Selection>)
        ensures
            ({
                let next = copy_step(old(self).copy_op, key);
                &&& r == copy_region(next, old(self).selection, old(self).lines, hunk)
                &&& final(self).copy_op == (if is_terminal(next) { CopyState::Idle } else { next })
            }),
            final(self).selection == old(self).selection,
            final(self).pending_movement == old(self).pending_movement,
            final(self).lines == old(self).lines,
    {
        let next = match key {
            NavKey::Copy => match self.copy_op {
                CopyState::Pending => CopyState::Line,
                _ => CopyState::Idle,
            },
            NavKey::CopyHunk => match self.copy_op {
                CopyState::Pending => CopyState::Hunk,
                _ => CopyState::Idle,
            },
            NavKey::Up => match self.copy_op {
                CopyState::Pending => CopyState::LinesUp(1),
                CopyState::Size(s) => CopyState::LinesUp(s),
                _ => CopyState::Idle,
            },
            NavKey::Down => match self.copy_op {
                CopyState::Pending => CopyState::LinesDown(1),
                CopyState::Size(s) => CopyState::LinesDown(s),
                _ => CopyState::Idle,
            },
            NavKey::Char(c) => match to_digit(c) {
                Some(d) => match self.copy_op {
                    CopyState::Pending => CopyState::Size(d),
                    CopyState::Size(s) => CopyState::Size(push_digit(s, d)),
                    _ => CopyState::Idle,
                },
                None => CopyState::Idle,
            },
            NavKey::Other => CopyState::Idle,
        };
        let start = self.selection.get_start();
        let region = match next {
            CopyState::Line => Some(self.selection),
            CopyState::Hunk => match hunk {
                Some((a, b)) => Some(Selection::Multiple(a, b)),
                None => None,
            },
            CopyState::LinesUp(s) => Some(Selection::Multiple(start, start.saturating_sub(s))),
            CopyState::LinesDown(s) => {
                let t = start.saturating_add(s);
                let t = if t < self.lines { t } else { self.lines };
                Some(Selection::Multiple(start, t))
            },
            _ => None,
        };
        self.copy_op = match next {
            CopyState::Line | CopyState::Hunk | CopyState::LinesUp(_) | CopyState::LinesDown(_) => CopyState::Idle,
            _ => next,
        };
        region
    }

    /// Starts a copy command: a range selection is copied at once, otherwise
    /// the copy state becomes pending.
    pub fn copy_key(&mut self) -> (r: Option<Selection>)
        ensures
            match old(self).selection {
                Selection::Multiple(_, _) => r == Some(old(self).selection) && final(self).copy_op == old(self).copy_op,
                Selection::Single(_) => old(self).copy_op == CopyState::Idle ==> (r.is_none() && final(self).copy_op == CopyState::Pending),
            },
            final(self).selection == old(self).selection,
            final(self).pending_movement == old(self).pending_movement,
            final(self).lines == old(self).lines,
    {
        match self.selection {
            Selection::Multiple(_, _) => Some(self.selection),
            Selection::Single(_) => {
                if self.copy_op == CopyState::Idle {
                    self.copy_op = CopyState::Pending;
                    None
                } else {
                    self.copy_event(NavKey::Copy, None)
                }
            },
        }
    }

    /// Extends the selection by one line, within the diff.
    pub fn modify_selection(&mut self, direction: Direction)
        ensures
            final(self).selection == old(self).selection.extended(direction, old(self).lines),
            final(self).pending_movement == old(self).pending_movement,
            final(self).copy_op == old(self).copy_op,
            final(self).lines == old(self).lines,
    {
        self.selection.modify(direction, self.lines);
    }
}

/// Whether a hunk spanning `hunk_min..=hunk_max` is at least partly
/// visible in the view `min..=max`.
pub fn hunk_visible(hunk_min: usize, hunk_max: usize, min: usize, max: usize) -> (r: bool)
    ensures
        r == ((hunk_min <= min && hunk_max >= max) || (min <= hunk_min && hunk_min <= max)
            || (min <= hunk_max && hunk_max <= max)),
{
    if hunk_min <= min && hunk_max >= max {
        return true;
    }
    if (hunk_min >= min && hunk_min <= max) || (hunk_max >= min && hunk_max <= max) {
        return true;
    }
    false
}

/// Typing the digits `1` and `2` and then moving up jumps twelve lines up,
/// stopping at the first line.
pub proof fn lemma_twelve_up(start: usize, lines: usize)
    ensures
        ({
            let (p1, m1, c1) = movement_step(None, start, lines, NavKey::Char('1'));
            let (p2, m2, c2) = movement_step(p1, start, lines, NavKey::Char('2'));
            let (p3, m3, c3) = movement_step(p2, start, lines, NavKey::Up);
            &&& m1.is_none() && m2.is_none() && c1 && c2 && c3
            &&& p3.is_none()
            &&& m3 == Some(if start >= 12 { start - 12 } else { 0int })
        }),
{
    assert(append_digit(1, 2) == 12);
}

} // verus!
