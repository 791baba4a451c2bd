use vstd::prelude::*;
use crate::blame_search::string_of;
use crate::diff_nav::{last_line, DiffCursor};
use crate::selection::{min_nat, Selection};
use crate::text::{chars_of, contains_chars, occurs_in};

verus! {

/// What `str::to_lowercase` makes of a string.
pub uninterp spec fn lowercase(s: Seq<char>) -> Seq<char>;

/// What `char::is_uppercase` says of a character.
pub uninterp spec fn upper_case(c: char) -> bool;

/// A control character: general category Cc, which is U+0000 to U+001F
/// and U+007F to U+009F.
pub open spec fn control_char(c: char) -> bool {
    ('\u{0}' <= c && c <= '\u{1f}') || ('\u{7f}' <= c && c <= '\u{9f}')
}

/// Relies on str::to_lowercase: the lowercase form depends on the
/// characters alone.
#[verifier::external_body]
pub(crate) fn to_lower(s: &str) -> (r: String)
    ensures
        r@ == lowercase(s@),
{
    s.to_lowercase()
}

/// Relies on char::is_uppercase (the Unicode `Uppercase` property).
#[verifier::external_body]
fn is_upper(c: char) -> (r: bool)
    ensures
        r == upper_case(c),
{
    c.is_uppercase()
}

/// Whether `c` is a control character.
pub fn is_control(c: char) -> (r: bool)
    ensures
        r == control_char(c),
{
    ('\u{0}' <= c && c <= '\u{1f}') || ('\u{7f}' <= c && c <= '\u{9f}')
}

/// Whether `needle` occurs in `hay`.
pub fn str_contains(hay: &str, needle: &str) -> (r: bool)
    ensures
        r == occurs_in(hay@, needle@),
{
    let h = chars_of(hay);
    let n = chars_of(needle);
    contains_chars(&h, &n)
}

/// A diff search: being typed (with the line it started from), or done.
#[derive(Clone, Debug)]
pub enum SearchState {
    IncSearch(String, usize),
    Search(String),
}

/// The direction in which `next` moves.
#[derive(Clone, Copy, Debug, PartialEq, Eq, Structural)]
pub enum SearchDirection {
    Forward,
    Backward,
}

/// The search of the diff view.
#[derive(Clone, Debug)]
pub struct Search {
    pub search: Option<SearchState>,
    pub direction: SearchDirection,
    pub smart_case: bool,
    pub start_line: usize,
}

/// A key as the diff search sees it, after the key bindings were applied.
#[derive(Clone, Copy, Debug, PartialEq, Eq, Structural)]
pub enum DiffSearchKey {
    Enter,
    Exit,
    Next,
    Prev,
    Char(char),
    Backspace,
    Other,
}

/// What `Search::search_event` does: the search goes from `s0` to `s1`,
/// the cursor from `c0` to `c1`, and `consumed` is returned.
pub open spec fn search_event_post(
    s0: Search,
    s1: Search,
    c0: DiffCursor,
    c1: DiffCursor,
    lines: Seq<String>,
    key: DiffSearchKey,
    consumed: bool,
) -> bool {
    &&& (c1.lines == c0.lines)
    &&& (c1.pending_movement == c0.pending_movement)
    &&& (c1.copy_op == c0.copy_op)
    &&& (key == DiffSearchKey::Enter ==> consumed && c1.selection == c0.selection
        && match s0.search {
        Some(SearchState::IncSearch(s, _)) => if s@.len() == 0 {
            s1.search.is_none()
        } else {
            s1.search matches Some(SearchState::Search(t)) && t@ == s@
        },
        _ => s1.search == s0.search,
    })
    &&& (key == DiffSearchKey::Exit ==> consumed && s1.search.is_none() && match s0.search {
        Some(SearchState::IncSearch(_, p)) => c1.selection == Selection::Single(
            min_nat(p as int, last_line(c0.lines)) as usize,
        ),
        _ => c1.selection == c0.selection,
    })
    &&& ((key == DiffSearchKey::Next || key == DiffSearchKey::Prev) ==> match s0.search {
        Some(SearchState::Search(_)) => consumed && s1.search == s0.search
            && exists|t: usize|
            s0.lands_on(
                lines,
                c0.selection.start(),
                (key == DiffSearchKey::Next) == (s0.direction == SearchDirection::Forward),
                t,
            ) && c1.selection == Selection::Single(
                min_nat(t as int, last_line(c0.lines)) as usize,
            ),
        _ => !consumed && s1.search == s0.search
            && c1.selection == c0.selection,
    })
    &&& (match (key, s0.search) {
        (DiffSearchKey::Char(c), Some(SearchState::IncSearch(s, p))) => consumed && if control_char(c) {
            s1.search == s0.search && c1.selection == c0.selection
        } else {
            &&& s1.search matches Some(SearchState::IncSearch(t, q)) && t@ == s@.push(c) && q == p
            &&& s1.smart_case == (s0.smart_case && !upper_case(c))
            &&& exists|t: usize|
                s1.lands_on(lines, p, s0.direction == SearchDirection::Forward, t)
                    && c1.selection == Selection::Single(
                    min_nat(t as int, last_line(c0.lines)) as usize,
                )
        },
        (DiffSearchKey::Backspace, Some(SearchState::IncSearch(s, p))) => {
            &&& !consumed
            &&& s1.search matches Some(SearchState::IncSearch(t, q))
                && t@ == (if s@.len() == 0 { s@ } else { s@.drop_last() }) && q == p
            &&& exists|t: usize|
                s1.lands_on(lines, p, s0.direction == SearchDirection::Forward, t)
                    && c1.selection == Selection::Single(
                    min_nat(t as int, last_line(c0.lines)) as usize,
                )
        },
        (DiffSearchKey::Char(_), _) | (DiffSearchKey::Backspace, _) | (DiffSearchKey::Other, _) => !consumed
            && s1.search == s0.search && c1.selection == c0.selection,
        _ => true,
    })
}

impl Search {
    pub open spec fn needle(&self) -> Seq<char> {
        match self.search {
            Some(SearchState::IncSearch(s, _)) => s@,
            Some(SearchState::Search(s)) => s@,
            None => Seq::empty(),
        }
    }

    /// Whether `line` matches: case-insensitively while smart case is on.
    pub open spec fn matches(&self, line: Seq<char>) -> bool {
        if self.smart_case {
            occurs_in(lowercase(line), lowercase(self.needle()))
        } else {
            occurs_in(line, self.needle())
        }
    }

    pub fn new() -> (r: Self)
        ensures
            r.search.is_none(),
            r.direction == SearchDirection::Forward,
            r.smart_case,
            r.start_line == 0,
    {
        Search { search: None, direction: SearchDirection::Forward, smart_case: true, start_line: 0 }
    }

    /// A search is active while its needle is not empty.
    pub fn is_active(&self) -> (r: bool)
        ensures
            r == (self.search.is_some() && self.needle().len() > 0),
    {
        match &self.search {
            Some(SearchState::IncSearch(s, _)) => !s.as_str().is_empty(),
            Some(SearchState::Search(s)) => !s.as_str().is_empty(),
            None => false,
        }
    }

    fn needle_str(&self) -> (r: &str)
        requires
            self.search.is_some(),
        ensures
            r@ == self.needle(),
    {
        match &self.search {
            Some(SearchState::IncSearch(s, _)) => s.as_str(),
            Some(SearchState::Search(s)) => s.as_str(),
            None => "",
        }
    }

    pub fn find_in_str(&self, line: &str) -> (r: bool)
        requires
            self.search.is_some(),
        ensures
            r == self.matches(line@),
    {
        let n = self.needle_str();
        if self.smart_case {
            let l = to_lower(line);
            let ln = to_lower(n);
            str_contains(l.as_str(), ln.as_str())
        } else {
            str_contains(line, n)
        }
    }

    /// The first matching line after `start`, or `start` if there is none.
    pub fn search_forward(&self, lines: &Vec<String>, start: usize) -> (r: usize)
        requires
            self.search.is_some(),
        ensures
            r == start || (start < r < lines@.len() && self.matches(lines@[r as int]@)),
            forall|j: int| start < j < r ==> !self.matches(lines@[j]@),
            r == start ==> forall|j: int| start < j < lines@.len() ==> !self.matches(lines@[j]@),
    {
        let mut i: usize = start;
        while i < lines.len()
            invariant
                self.search.is_some(),
                start <= i,
                forall|j: int| start < j <= i && j < lines@.len() ==> !self.matches(lines@[j]@),
            decreases lines@.len() - i,
        {
            if i + 1 < lines.len() && self.find_in_str(lines[i + 1].as_str()) {
                return i + 1;
            }
            i += 1;
        }
        start
    }

    /// The last matching line before `start`, or `start` if there is none.
    pub fn search_backwards(&self, lines: &Vec<String>, start: usize) -> (r: usize)
        requires
            self.search.is_some(),
        ensures
            r == start || (r < start && r < lines@.len() && self.matches(lines@[r as int]@)),
            r < start ==> forall|j: int| r < j < start && j < lines@.len() ==> !self.matches(lines@[j]@),
            r == start ==> forall|j: int| 0 <= j < start && j < lines@.len() ==> !self.matches(lines@[j]@),
    {
        let end = if start < lines.len() { start } else { lines.len() };
        let mut i: usize = end;
        while i > 0
            invariant
                self.search.is_some(),
                i <= end,
                end <= start,
                end <= lines@.len(),
                end == start || end == lines@.len(),
                forall|j: int| i <= j < end ==> !self.matches(lines@[j]@),
            decreases i,
        {
            if self.find_in_str(lines[i - 1].as_str()) {
                return i - 1;
            }
            i -= 1;
        }
        start
    }

    /// Starts typing a search at line `line`.
    pub fn start(&mut self, line: usize, direction: SearchDirection)
        ensures
            final(self).needle().len() == 0,
            final(self).search matches Some(SearchState::IncSearch(_, p)) && p == line,
            final(self).direction == direction,
            final(self).smart_case,
            final(self).start_line == line,
    {
        self.search = Some(SearchState::IncSearch(String::new(), line));
        self.direction = direction;
        self.smart_case = true;
        self.start_line = line;
    }

    /// `t` is where a search from `start` lands: the nearest matching line
    /// in the given direction, or `start` itself if there is none.
    pub open spec fn lands_on(&self, lines: Seq<String>, start: usize, forward: bool, t: usize) -> bool {
        if forward {
            &&& (t == start || (start < t < lines.len() && self.matches(lines[t as int]@)))
            &&& (forall|j: int| start < j < t ==> !self.matches(lines[j]@))
            &&& (t == start ==> forall|j: int| start < j < lines.len() ==> !self.matches(lines[j]@))
        } else {
            &&& (t == start || (t < start && t < lines.len() && self.matches(lines[t as int]@)))
            &&& (t < start ==> forall|j: int| t < j < start && j < lines.len() ==> !self.matches(lines[j]@))
            &&& (t == start ==> forall|j: int| 0 <= j < start && j < lines.len() ==> !self.matches(lines[j]@))
        }
    }

    fn seek(&self, cursor: &mut DiffCursor, lines: &Vec<String>, start: usize, forward: bool) -> (t: usize)
        requires
            self.search.is_some(),
        ensures
            self.lands_on(lines@, start, forward, t),
            final(cursor).selection == Selection::Single(min_nat(t as int, last_line(old(cursor).lines)) as usize),
            final(cursor).lines == old(cursor).lines,
            final(cursor).pending_movement == old(cursor).pending_movement,
            final(cursor).copy_op == old(cursor).copy_op,
    {
        let t = if forward {
            self.search_forward(lines, start)
        } else {
            self.search_backwards(lines, start)
        };
        cursor.update_selection(t);
        t
    }

    /// Handles a key while a search is active; returns whether it was
    /// consumed. Enter ends the typing (an empty needle ends the search),
    /// Escape drops the search (back to the start line if it was being
    /// typed), next and previous move to the following or preceding match
    /// in the search direction once the needle is complete, and while it is
    /// being typed a character or Backspace edits it and searches again
    /// from the start line. Keys bound to next and previous are passed as
    /// characters while the needle is being typed.
    pub fn search_event(&mut self, key: DiffSearchKey, cursor: &mut DiffCursor, lines: &Vec<String>) -> (consumed: bool)
        requires
            old(self).search.is_some(),
        ensures
            search_event_post(*old(self), *final(self), *old(cursor), *final(cursor), lines@, key, consumed),
    {
        match key {
            DiffSearchKey::Enter => {
                let typed: Option<String> = match &self.search {
                    Some(SearchState::IncSearch(s, _)) => Some(s.clone()),
                    _ => None,
                };
                if let Some(s) = typed {
                    if s.as_str().is_empty() {
                        self.search = None;
                    } else {
                        self.search = Some(SearchState::Search(s));
                    }
                }
                true
            },
            DiffSearchKey::Exit => {
                let pos: Option<usize> = match &self.search {
                    Some(SearchState::IncSearch(_, p)) => Some(*p),
                    _ => None,
                };
                self.search = None;
                if let Some(p) = pos {
                    cursor.update_selection(p);
                }
                true
            },
            DiffSearchKey::Next | DiffSearchKey::Prev => {
                let done = match &self.search {
                    Some(SearchState::Search(_)) => true,
                    _ => false,
                };
                if done {
                    let forward = (key == DiffSearchKey::Next) == (self.direction == SearchDirection::Forward);
                    let start = cursor.selection.get_start();
                    self.seek(cursor, lines, start, forward);
                    true
                } else {
                    false
                }
            },
            DiffSearchKey::Char(c) => {
                let typing: Option<(String, usize)> = match &self.search {
                    Some(SearchState::IncSearch(s, p)) => Some((s.clone(), *p)),
                    _ => None,
                };
                match typing {
                    Some((s, p)) => {
                        if !is_control(c) {
                            if is_upper(c) {
                                self.smart_case = false;
                            }
                            let mut v = chars_of(s.as_str());
                            v.push(c);
                            self.search = Some(SearchState::IncSearch(string_of(&v), p));
                            let forward = self.direction == SearchDirection::Forward;
                            self.seek(cursor, lines, p, forward);
                        }
                        true
                    },
                    None => false,
                }
            },
            DiffSearchKey::Backspace => {
                let typing: Option<(String, usize)> = match &self.search {
                    Some(SearchState::IncSearch(s, p)) => Some((s.clone(), *p)),
                    _ => None,
                };
                if let Some((s, p)) = typing {
                    let mut v = chars_of(s.as_str());
                    if v.len() > 0 {
                        v.pop();
                    }
                    self.search = Some(SearchState::IncSearch(string_of(&v), p));
                    let forward = self.direction == SearchDirection::Forward;
                    self.seek(cursor, lines, p, forward);
                }
                false
            },
            DiffSearchKey::Other => false,
        }
    }
}

} // verus!
