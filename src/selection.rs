use vstd::prelude::*;

verus! {

/// Direction in which a selection is moved or extended.
#[derive(Clone, Copy, Debug, PartialEq, Eq, Structural)]
pub enum Direction {
    Up,
    Down,
}

/// A selection of diff lines: one line, or a range between a fixed
/// anchor (`start`) and a moving end.
#[derive(Clone, Copy, Debug, PartialEq, Eq, Structural)]
pub enum Selection {
    Single(usize),
    Multiple(usize, usize),
}

pub open spec fn min_nat(a: int, b: int) -> int {
    if a <= b { a } else { b }
}

pub open spec fn max_nat(a: int, b: int) -> int {
    if a <= b { b } else { a }
}

impl Selection {
    /// The anchor of the selection.
    pub open spec fn start(self) -> usize {
        match self {
            Selection::Single(s) => s,
            Selection::Multiple(s, _) => s,
        }
    }

    /// The moving end of the selection.
    pub open spec fn end(self) -> usize {
        match self {
            Selection::Single(e) => e,
            Selection::Multiple(_, e) => e,
        }
    }

    /// The smallest selected line.
    pub open spec fn top(self) -> int {
        min_nat(self.start() as int, self.end() as int)
    }

    /// The largest selected line.
    pub open spec fn bottom(self) -> int {
        max_nat(self.start() as int, self.end() as int)
    }

    /// Whether line `i` lies in the selection.
    pub open spec fn covers(self, i: int) -> bool {
        self.top() <= i <= self.bottom()
    }

    /// The selection after extending it by one line in direction `d`.
    pub open spec fn extended(self, d: Direction, max: usize) -> Selection {
        match d {
            Direction::Up => Selection::Multiple(
                self.start(),
                if self.end() == 0 { 0 } else { (self.end() - 1) as usize },
            ),
            Direction::Down => Selection::Multiple(
                self.start(),
                min_nat(self.end() + 1, max as int) as usize,
            ),
        }
    }

    pub fn get_start(&self) -> (r: usize)
        ensures
            r == self.start(),
    {
        match self {
            Selection::Single(s) => *s,
            Selection::Multiple(s, _) => *s,
        }
    }

    pub fn get_end(&self) -> (r: usize)
        ensures
            r == self.end(),
    {
        match self {
            Selection::Single(e) => *e,
            Selection::Multiple(_, e) => *e,
        }
    }

    pub fn get_top(&self) -> (r: usize)
        ensures
            r == self.top(),
            r <= self.bottom(),
    {
        match self {
            Selection::Single(s) => *s,
            Selection::Multiple(s, e) => if *s <= *e { *s } else { *e },
        }
    }

    pub fn get_bottom(&self) -> (r: usize)
        ensures
            r == self.bottom(),
            self.top() <= r,
    {
        match self {
            Selection::Single(s) => *s,
            Selection::Multiple(s, e) => if *s <= *e { *e } else { *s },
        }
    }

    /// Extends the selection by one line in `direction`, keeping the anchor;
    /// the moving end stays within `0..=max`.
    pub fn modify(&mut self, direction: Direction, max: usize)
        ensures
            *final(self) == old(self).extended(direction, max),
    {
        let start = self.get_start();
        let old_end = self.get_end();
        *self = match direction {
            Direction::Up => Selection::Multiple(start, old_end.saturating_sub(1)),
            Direction::Down => {
                let next = if old_end < max { old_end + 1 } else { max };
                Selection::Multiple(start, next)
            },
        };
    }

    pub fn contains(&self, index: usize) -> (r: bool)
        ensures
            r == self.covers(index as int),
    {
        match self {
            Selection::Single(s) => index == *s,
            Selection::Multiple(s, e) => {
                if *s <= *e {
                    *s <= index && index <= *e
                } else {
                    *e <= index && index <= *s
                }
            },
        }
    }
}

/// A range selection holds exactly the lines between its two ends,
/// whichever of them is the larger.
pub proof fn lemma_multiple_contains(a: usize, b: usize, i: int)
    ensures
        Selection::Multiple(a, b).covers(i) <==> (min_nat(a as int, b as int) <= i
            && i <= max_nat(a as int, b as int)),
{
}

/// Extending a selection keeps its anchor, and its top never lies below
/// its bottom.
pub proof fn lemma_extend_keeps_anchor(s: Selection, d: Direction, max: usize)
    ensures
        s.extended(d, max).start() == s.start(),
        s.extended(d, max).top() <= s.extended(d, max).bottom(),
{
}

} // verus!
