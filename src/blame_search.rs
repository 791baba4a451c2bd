use vstd::prelude::*;
use crate::text::{chars_of, find_from, first_from, last_before, occurs_at, occurs_in, rfind_before};

verus! {

/// A position in the blamed file: a line and a character offset in it.
#[derive(Clone, Copy, Debug, PartialEq, Eq, Structural)]
pub struct LinePos {
    pub line: usize,
    pub offset: usize,
}

/// The needle being searched for, where the search started and the
/// current match.
#[derive(Clone, Debug)]
pub struct SearchState {
    pub needle: Option<String>,
    pub start: LinePos,
    pub found: Option<LinePos>,
}

impl SearchState {
    pub open spec fn needle_view(&self) -> Seq<char> {
        match self.needle {
            Some(s) => s@,
            None => Seq::empty(),
        }
    }

    pub open spec fn valid(&self) -> bool {
        self.needle.is_some() && self.needle->0@.len() > 0
    }

    pub fn new() -> (r: Self)
        ensures
            r.needle.is_none(),
            r.start == (LinePos { line: 0, offset: 0 }),
            r.found.is_none(),
    {
        SearchState { needle: None, start: LinePos { line: 0, offset: 0 }, found: None }
    }

    /// A search is active while its needle is not empty.
    pub fn is_valid(&self) -> (r: bool)
        ensures
            r == self.valid(),
    {
        match &self.needle {
            Some(s) => !s.as_str().is_empty(),
            None => false,
        }
    }

    /// The search has a result: a match and a non-empty needle.
    pub fn has_result(&self) -> (r: bool)
        ensures
            r == (self.found.is_some() && self.valid()),
    {
        self.found.is_some() && self.is_valid()
    }
}

/// Whether line `k` of `lines` holds `n`.
pub open spec fn line_has(lines: Seq<Seq<char>>, n: Seq<char>, k: int) -> bool {
    occurs_in(lines[k], n)
}

/// No line in `a..b` holds `n`.
pub open spec fn none_in(lines: Seq<Seq<char>>, n: Seq<char>, a: int, b: int) -> bool {
    forall|k: int| a <= k < b ==> !line_has(lines, n, k)
}

/// The result of a forward search for `n` from `from`: the first match at or
/// after `from` on its line, else the first match on a later line, else,
/// wrapping around, the first match on a line up to `from`'s.
pub open spec fn forward_result(lines: Seq<Seq<char>>, n: Seq<char>, from: LinePos, r: Option<LinePos>) -> bool {
    let l = from.line as int;
    match r {
        Some(p) => {
            let q = p.line as int;
            ||| (q == l && first_from(lines[l], n, from.offset as int, Some(p.offset)))
            ||| (first_from(lines[l], n, from.offset as int, None) && l < q < lines.len()
                && none_in(lines, n, l + 1, q) && first_from(lines[q], n, 0, Some(p.offset)))
            ||| (first_from(lines[l], n, from.offset as int, None) && none_in(lines, n, l + 1, lines.len() as int)
                && 0 <= q <= l && none_in(lines, n, 0, q) && first_from(lines[q], n, 0, Some(p.offset)))
        },
        None => none_in(lines, n, 0, lines.len() as int),
    }
}

/// The result of a backward search for `n` from `from`: the last match
/// ending before `from` on its line, else the last match on an earlier
/// line, else, wrapping around, the last match on a later line.
pub open spec fn backward_result(lines: Seq<Seq<char>>, n: Seq<char>, from: LinePos, r: Option<LinePos>) -> bool {
    let l = from.line as int;
    match r {
        Some(p) => {
            let q = p.line as int;
            ||| (q == l && last_before(lines[l], n, from.offset as int, Some(p.offset)))
            ||| (last_before(lines[l], n, from.offset as int, None) && 0 <= q < l
                && none_in(lines, n, q + 1, l) && last_before(lines[q], n, lines[q].len() as int, Some(p.offset)))
            ||| (last_before(lines[l], n, from.offset as int, None) && none_in(lines, n, 0, l)
                && l < q < lines.len() && none_in(lines, n, q + 1, lines.len() as int)
                && last_before(lines[q], n, lines[q].len() as int, Some(p.offset)))
        },
        None => last_before(lines[l], n, from.offset as int, None) && none_in(lines, n, 0, l)
            && none_in(lines, n, l + 1, lines.len() as int),
    }
}

/// Whether `key` edits the needle.
pub open spec fn edits_needle(key: SearchKey) -> bool {
    match key {
        SearchKey::Char(_) | SearchKey::Backspace => true,
        _ => false,
    }
}

/// The needle after `key` edited it: a character is appended, Backspace
/// takes the last one away.
pub open spec fn typed_needle(n: Seq<char>, key: SearchKey) -> Seq<char> {
    match key {
        SearchKey::Char(c) => n.push(c),
        SearchKey::Backspace => if n.len() == 0 { n } else { n.drop_last() },
        _ => n,
    }
}

/// Mode of the blame view: browsing, or typing a search needle.
#[derive(Clone, Copy, Debug, PartialEq, Eq, Structural)]
pub enum BlameState {
    Normal,
    SearchEditing,
}

/// A key as the blame search sees it, after the key bindings were applied.
#[derive(Clone, Copy, Debug, PartialEq, Eq, Structural)]
pub enum SearchKey {
    Exit,
    Enter,
    Char(char),
    Backspace,
    Other,
}

/// The lines of a blamed file with the selected line, the search, and a
/// line number being typed (`Some(None)` once it no longer fits).
#[derive(Clone, Debug)]
pub struct BlameSearch {
    pub lines: Vec<String>,
    pub selection: usize,
    pub search: SearchState,
    pub state: BlameState,
    pub temp_buf: Option<Option<usize>>,
    pub height: usize,
}

/// A key as the blame view sees it, after the key bindings were applied.
#[derive(Clone, Copy, Debug, PartialEq, Eq, Structural)]
pub enum BlameKey {
    Exit,
    Enter,
    Backspace,
    Up,
    Down,
    Home,
    End,
    PageUp,
    PageDown,
    SearchInit,
    SearchNext,
    SearchPrev,
    Push,
    Pop,
    Inspect,
    FileHistory,
    Char(char),
    Other,
}

/// How a key reads while the needle is being typed.
pub open spec fn edit_key(key: BlameKey) -> SearchKey {
    match key {
        BlameKey::Exit => SearchKey::Exit,
        BlameKey::Enter => SearchKey::Enter,
        BlameKey::Backspace => SearchKey::Backspace,
        BlameKey::Char(c) => SearchKey::Char(c),
        _ => SearchKey::Other,
    }
}

/// Work the blame view asks of the application after a key.
#[derive(Clone, Copy, Debug, PartialEq, Eq, Structural)]
pub enum BlameRequest {
    Nothing,
    Close,
    BlameParent,
    PopBack,
    InspectCommit,
    FileHistory,
}

/// The selected line after a movement in a file of `len` lines viewed
/// `height` lines at a time.
pub open spec fn blame_moved(sel: usize, len: nat, height: usize, key: BlameKey) -> int {
    let max = if len == 0 { 0 } else { len - 1 };
    let page = if height >= 2 { height - 2 } else { 0 };
    match key {
        BlameKey::Up => if sel >= 1 { sel - 1 } else { 0 },
        BlameKey::Down => min_int(sel + 1, max),
        BlameKey::Home => 0,
        BlameKey::PageUp => if sel >= page { sel - page } else { 0 },
        BlameKey::PageDown => min_int(sel + page, max),
        _ => max,
    }
}

/// The last line of a file of `len` lines (0 when there are none).
pub open spec fn last_index(len: nat) -> int {
    if len == 0 { 0 } else { len - 1 }
}

pub open spec fn min_int(a: int, b: int) -> int {
    if a <= b { a } else { b }
}

pub open spec fn lines_view(v: Seq<String>) -> Seq<Seq<char>> {
    v.map_values(|s: String| s@)
}

/// Where a forward search resumes: past the current match when the search
/// starts on it.
pub open spec fn resume_pos(s: SearchState) -> LinePos {
    match s.found {
        Some(f) => if f == s.start {
            LinePos {
                line: s.start.line,
                offset: if s.start.offset == usize::MAX { usize::MAX } else { (s.start.offset + 1) as usize },
            }
        } else {
            s.start
        },
        None => s.start,
    }
}

impl BlameSearch {
    pub open spec fn text(&self) -> Seq<Seq<char>> {
        lines_view(self.lines@)
    }

    pub open spec fn next_post(w0: BlameSearch, w1: BlameSearch) -> bool {
        &&& (w1.temp_buf == w0.temp_buf)
        &&& (w1.height == w0.height)
        &&& (w1.wf())
        &&& (w1.lines == w0.lines)
        &&& (w1.state == w0.state)
        &&& (!w0.search.valid() || w0.lines@.len() == 0 ==> w1.search == w0.search && w1.selection == w0.selection)
        &&& (w0.search.valid() && w0.lines@.len() > 0 ==> exists|r: Option<LinePos>|
            forward_result(w0.text(), w0.search.needle_view(), resume_pos(w0.search), r)
                && match r {
                    Some(p) => w1.search == (SearchState { start: p, found: Some(p), ..w0.search })
                        && w1.selection == p.line,
                    None => w1.search == w0.search && w1.selection == w0.selection,
                })
    }

    pub open spec fn prev_post(w0: BlameSearch, w1: BlameSearch) -> bool {
        &&& (w1.temp_buf == w0.temp_buf)
        &&& (w1.height == w0.height)
        &&& (w1.wf())
        &&& (w1.lines == w0.lines)
        &&& (w1.state == w0.state)
        &&& (!w0.search.valid() || w0.lines@.len() == 0 ==> w1.search == w0.search && w1.selection == w0.selection)
        &&& (w0.search.valid() && w0.lines@.len() > 0 ==> exists|r: Option<LinePos>|
            backward_result(w0.text(), w0.search.needle_view(), w0.search.start, r)
                && match r {
                    Some(p) => w1.search == (SearchState { start: p, found: Some(p), ..w0.search })
                        && w1.selection == p.line,
                    None => w1.search == w0.search && w1.selection == w0.selection,
                })
    }

    pub open spec fn edit_post(w0: BlameSearch, w1: BlameSearch, key: SearchKey) -> bool {
        &&& (w1.temp_buf == w0.temp_buf)
        &&& (w1.height == w0.height)
        &&& (w1.wf())
        &&& (w1.lines == w0.lines)
        &&& (key == SearchKey::Exit ==> w1.selection == w0.search.start.line
            && w1.search.needle.is_none() && w1.state == BlameState::Normal
            && w1.search.start == w0.search.start
            && w1.search.found == w0.search.found)
        &&& (key == SearchKey::Enter ==> w1.state == BlameState::Normal
            && w1.selection == w0.selection
            && w1.search.found == w0.search.found
            && (if w0.search.needle.is_some() && w0.search.needle_view().len() == 0 {
                w1.search.needle.is_none() && w1.search.start == w0.search.start
            } else {
                w1.search.needle == w0.search.needle
                    && w1.search.start == (match w0.search.found {
                        Some(f) => f,
                        None => w0.search.start,
                    })
            }))
        &&& (key == SearchKey::Other ==> w1 == w0)
        &&& (edits_needle(key) ==> ({
            let typed = typed_needle(w0.search.needle_view(), key);
            &&& w1.state == w0.state
            &&& w1.search.needle.is_some()
            &&& w1.search.needle_view() == typed
            &&& w1.search.start == w0.search.start
            &&& exists|r: Option<LinePos>|
                forward_result(w0.text(), typed, w0.search.start, r)
                    && match r {
                        Some(p) => w1.search.found == Some(p) && w1.selection == p.line,
                        None => w1.search.found == w0.search.found
                            && w1.selection == w0.search.start.line,
                    }
        }))
    }

    pub fn new(lines: Vec<String>) -> (r: Self)
        ensures
            r.wf(),
            r.lines == lines,
            r.selection == 0,
            r.search.needle.is_none(),
            r.search.found.is_none(),
            r.search.start == (LinePos { line: 0, offset: 0 }),
            r.state == BlameState::Normal,
    {
        BlameSearch {
            lines,
            selection: 0,
            search: SearchState::new(),
            state: BlameState::Normal,
            temp_buf: None,
            height: 0,
        }
    }

    fn line_chars(&self, k: usize) -> (r: Vec<char>)
        requires
            k < self.lines@.len(),
        ensures
            r@ == self.text()[k as int],
    {
        chars_of(self.lines[k].as_str())
    }

    fn needle_chars(&self) -> (r: Vec<char>)
        ensures
            r@ == self.search.needle_view(),
    {
        match &self.search.needle {
            Some(s) => chars_of(s.as_str()),
            None => Vec::new(),
        }
    }

    /// The first match of `n` in line `k`, from its start.
    fn first_in_line(&self, n: &Vec<char>, k: usize) -> (r: Option<usize>)
        requires
            k < self.lines@.len(),
        ensures
            first_from(self.text()[k as int], n@, 0, r),
            r.is_some() == line_has(self.text(), n@, k as int),
    {
        let line = self.line_chars(k);
        let r = find_from(&line, n, 0);
        proof {
            if r.is_some() {
                assert(occurs_at(line@, n@, r->0 as int));
            }
        }
        r
    }

    /// The last match of `n` in line `k`.
    fn last_in_line(&self, n: &Vec<char>, k: usize) -> (r: Option<usize>)
        requires
            k < self.lines@.len(),
        ensures
            last_before(self.text()[k as int], n@, self.text()[k as int].len() as int, r),
            r.is_some() == line_has(self.text(), n@, k as int),
    {
        let line = self.line_chars(k);
        let r = rfind_before(&line, n, line.len());
        proof {
            if r.is_some() {
                assert(occurs_at(line@, n@, r->0 as int));
            } else {
                assert forall|j: int| !occurs_at(line@, n@, j) by {
                    if occurs_at(line@, n@, j) {
                        assert(j + n@.len() <= line@.len());
                    }
                }
            }
        }
        r
    }

    /// Searches forward for the needle from the search start (past the
    /// current match if the search starts on it), wrapping around the end.
    pub fn search_only(&self) -> (r: Option<LinePos>)
        requires
            self.search.start.line < self.lines@.len(),
        ensures
            forward_result(self.text(), self.search.needle_view(), resume_pos(self.search), r),
    {
        let mut from = self.search.start;
        if let Some(f) = self.search.found {
            if from == f {
                from.offset = from.offset.saturating_add(1);
            }
        }
        self.search_from(from)
    }

    /// Searches forward for the needle from `from`, wrapping around the end.
    pub fn search_from(&self, from: LinePos) -> (r: Option<LinePos>)
        requires
            from.line < self.lines@.len(),
        ensures
            forward_result(self.text(), self.search.needle_view(), from, r),
    {
        let n = self.needle_chars();
        let len = self.lines.len();
        let l = from.line;
        let line = self.line_chars(l);
        if let Some(o) = find_from(&line, &n, from.offset) {
            return Some(LinePos { line: l, offset: o });
        }
        let mut i: usize = l + 1;
        while i < len
            invariant
                len == self.lines@.len(),
                l < len,
                l + 1 <= i <= len,
                l == from.line,
                                n@ == self.search.needle_view(),
                first_from(self.text()[l as int], n@, from.offset as int, None),
                none_in(self.text(), n@, l + 1, i as int),
            decreases len - i,
        {
            if let Some(o) = self.first_in_line(&n, i) {
                return Some(LinePos { line: i, offset: o });
            }
            i += 1;
        }
        let mut k: usize = 0;
        while k <= l
            invariant
                len == self.lines@.len(),
                l < len,
                k <= l + 1,
                l == from.line,
                                n@ == self.search.needle_view(),
                first_from(self.text()[l as int], n@, from.offset as int, None),
                none_in(self.text(), n@, l + 1, len as int),
                none_in(self.text(), n@, 0, k as int),
            decreases l + 1 - k,
        {
            if let Some(o) = self.first_in_line(&n, k) {
                return Some(LinePos { line: k, offset: o });
            }
            k += 1;
        }
        None
    }

    /// Searches backward for the needle from the search start, wrapping
    /// around the beginning.
    pub fn search_only_back(&self) -> (r: Option<LinePos>)
        requires
            self.search.start.line < self.lines@.len(),
        ensures
            backward_result(self.text(), self.search.needle_view(), self.search.start, r),
    {
        let n = self.needle_chars();
        let from = self.search.start;
        let len = self.lines.len();
        let l = from.line;
        let line = self.line_chars(l);
        if let Some(o) = rfind_before(&line, &n, from.offset) {
            return Some(LinePos { line: l, offset: o });
        }
        let mut i: usize = l;
        while i > 0
            invariant
                len == self.lines@.len(),
                l < len,
                i <= l,
                l == from.line,
                from == self.search.start,
                n@ == self.search.needle_view(),
                last_before(self.text()[l as int], n@, from.offset as int, None),
                none_in(self.text(), n@, i as int, l as int),
            decreases i,
        {
            if let Some(o) = self.last_in_line(&n, i - 1) {
                return Some(LinePos { line: i - 1, offset: o });
            }
            i -= 1;
        }
        let mut k: usize = len;
        while k > l + 1
            invariant
                len == self.lines@.len(),
                l < len,
                l + 1 <= k <= len,
                l == from.line,
                from == self.search.start,
                n@ == self.search.needle_view(),
                last_before(self.text()[l as int], n@, from.offset as int, None),
                none_in(self.text(), n@, 0, l as int),
                none_in(self.text(), n@, k as int, len as int),
            decreases k,
        {
            if let Some(o) = self.last_in_line(&n, k - 1) {
                return Some(LinePos { line: k - 1, offset: o });
            }
            k -= 1;
        }
        None
    }

    /// The selection and the search start lie inside the file.
    /// In a file with no lines everything is at line 0 and nothing was found.
    pub open spec fn wf(&self) -> bool {
        &&& self.lines@.len() == 0 ==> self.selection == 0 && self.search.start.line == 0
            && self.search.found.is_none()
        &&& self.lines@.len() > 0 ==> {
            &&& self.search.start.line < self.lines@.len()
            &&& self.selection < self.lines@.len()
            &&& match self.search.found {
                Some(f) => f.line < self.lines@.len(),
                None => true,
            }
        }
    }

    /// Moves to the next match, wrapping around the end of the file.
    pub fn search_next(&mut self)
        requires
            old(self).wf(),
        ensures
            Self::next_post(*old(self), *final(self)),
    {
        if self.lines.len() > 0 && self.search.is_valid() {
            let r = self.search_only();
            if let Some(p) = r {
                self.search.start = p;
                self.search.found = Some(p);
                self.selection = p.line;
            }
        }
    }

    /// Moves to the previous match, wrapping around the beginning of the file.
    pub fn search_prev(&mut self)
        requires
            old(self).wf(),
        ensures
            Self::prev_post(*old(self), *final(self)),
    {
        if self.lines.len() > 0 && self.search.is_valid() {
            let r = self.search_only_back();
            if let Some(p) = r {
                self.search.start = p;
                self.search.found = Some(p);
                self.selection = p.line;
            }
        }
    }

    /// Starts typing a search needle at the selected line.
    pub fn enter_search_mode(&mut self)
        requires
            old(self).wf(),
        ensures
            final(self).temp_buf == old(self).temp_buf,
            final(self).height == old(self).height,
            final(self).wf(),
            final(self).lines == old(self).lines,
            final(self).selection == old(self).selection,
            final(self).state == BlameState::SearchEditing,
            final(self).search.needle_view().len() == 0 && final(self).search.needle.is_some(),
            final(self).search.start == (LinePos { line: old(self).selection, offset: 0 }),
            final(self).search.found == old(self).search.found,
    {
        self.state = BlameState::SearchEditing;
        self.search.needle = Some(String::new());
        self.search.start = LinePos { line: self.selection, offset: 0 };
    }

    /// Re-runs the incremental search after the needle changed, from the
    /// search start: the selection goes to the match, or back to the
    /// search start.
    fn incremental(&mut self) -> (r: Option<LinePos>)
        requires
            old(self).wf(),
        ensures
            final(self).temp_buf == old(self).temp_buf,
            final(self).height == old(self).height,
            final(self).wf(),
            final(self).lines == old(self).lines,
            final(self).state == old(self).state,
            final(self).search.needle == old(self).search.needle,
            final(self).search.start == old(self).search.start,
            forward_result(old(self).text(), old(self).search.needle_view(), old(self).search.start, r)
                    && match r {
                        Some(p) => final(self).search.found == Some(p) && final(self).selection == p.line,
                        None => final(self).search.found == old(self).search.found
                            && final(self).selection == old(self).search.start.line,
                    },
    {
        if self.lines.len() == 0 {
            self.selection = self.search.start.line;
            return None;
        }
        let r = self.search_from(self.search.start);
        match r {
            Some(p) => {
                self.search.found = Some(p);
                self.selection = p.line;
            },
            None => {
                self.selection = self.search.start.line;
            },
        }
        r
    }

    /// Handles a key while the needle is being typed. Escape returns to the
    /// line the search started from and drops the needle; Enter ends the
    /// typing (an empty needle is dropped, else the search continues from
    /// the match); a character or Backspace edits the needle and searches
    /// again from the search start.
    pub fn event_search_edit_state(&mut self, key: SearchKey)
        requires
            old(self).wf(),
        ensures
            Self::edit_post(*old(self), *final(self), key),
    {
        match key {
            SearchKey::Exit => {
                self.selection = self.search.start.line;
                self.search.needle = None;
                self.state = BlameState::Normal;
            },
            SearchKey::Enter => {
                self.state = BlameState::Normal;
                let empty = match &self.search.needle {
                    Some(s) => s.as_str().is_empty(),
                    None => false,
                };
                if empty {
                    self.search.needle = None;
                } else if let Some(f) = self.search.found {
                    self.search.start = f;
                }
            },
            SearchKey::Char(c) => {
                let mut n = self.needle_chars();
                n.push(c);
                self.search.needle = Some(string_of(&n));
                assert(self.search.start == old(self).search.start);
                assert(self.search.needle_view() == old(self).search.needle_view().push(c));
                assert(self.text() == old(self).text());
                let r = self.incremental();
                assert(forward_result(old(self).text(), typed_needle(old(self).search.needle_view(), key), old(self).search.start, r));
            },
            SearchKey::Backspace => {
                let mut n = self.needle_chars();
                if n.len() > 0 {
                    n.pop();
                }
                self.search.needle = Some(string_of(&n));
                assert(self.search.start == old(self).search.start);
                assert(self.text() == old(self).text());
                let r = self.incremental();
                assert(forward_result(old(self).text(), typed_needle(old(self).search.needle_view(), key), old(self).search.start, r));
            },
            SearchKey::Other => {},
        }
    }

    /// Moves the selection; a valid search then starts from the new line.
    /// Returns whether the selection changed.
    pub fn move_selection(&mut self, key: BlameKey) -> (changed: bool)
        requires
            old(self).wf(),
        ensures
            final(self).wf(),
            final(self).lines == old(self).lines,
            final(self).state == old(self).state,
            final(self).selection == blame_moved(old(self).selection, old(self).lines@.len(), old(self).height, key),
            changed == (final(self).selection != old(self).selection),
            final(self).temp_buf == old(self).temp_buf,
            final(self).height == old(self).height,
            final(self).search.needle == old(self).search.needle,
            final(self).search.found == old(self).search.found,
            final(self).search.start == (if old(self).search.valid() {
                LinePos { line: final(self).selection, offset: 0 }
            } else {
                old(self).search.start
            }),
    {
        let max = self.lines.len().saturating_sub(1);
        let page = self.height.saturating_sub(2);
        let old_sel = self.selection;
        let new_sel = match key {
            BlameKey::Up => old_sel.saturating_sub(1),
            BlameKey::Down => {
                let n = old_sel.saturating_add(1);
                if n < max { n } else { max }
            },
            BlameKey::Home => 0,
            BlameKey::PageUp => old_sel.saturating_sub(page),
            BlameKey::PageDown => {
                let n = old_sel.saturating_add(page);
                if n < max { n } else { max }
            },
            _ => max,
        };
        self.selection = new_sel;
        if self.search.is_valid() {
            self.search.start = LinePos { line: new_sel, offset: 0 };
        }
        new_sel != old_sel
    }

    /// Handles a key: while a needle is typed the search takes it;
    /// otherwise the key moves the selection (End jumps to a typed line
    /// number, clamped to the file, if one was typed), starts a search,
    /// moves between matches, collects a digit of a line number, or asks
    /// the application to close the view, open the blame of the parent
    /// commit, go back, inspect the commit or show the file's history.
    pub fn event(&mut self, key: BlameKey) -> (r: BlameRequest)
        requires
            old(self).wf(),
        ensures
            final(self).wf(),
            final(self).lines == old(self).lines,
            old(self).state == BlameState::SearchEditing ==> r == BlameRequest::Nothing && BlameSearch::edit_post(
                BlameSearch { temp_buf: None, ..*old(self) },
                *final(self),
                edit_key(key),
            ),
            old(self).state == BlameState::Normal ==> match key {
                BlameKey::Exit => r == BlameRequest::Close,
                BlameKey::Push => r == BlameRequest::BlameParent,
                BlameKey::Pop => r == BlameRequest::PopBack,
                BlameKey::Inspect => r == BlameRequest::InspectCommit,
                BlameKey::FileHistory => r == BlameRequest::FileHistory,
                BlameKey::Up | BlameKey::Down | BlameKey::Home | BlameKey::PageUp | BlameKey::PageDown => r
                    == BlameRequest::Nothing && final(self).selection == blame_moved(
                    old(self).selection,
                    old(self).lines@.len(),
                    old(self).height,
                    key,
                ) && final(self).temp_buf.is_none(),
                BlameKey::End => r == BlameRequest::Nothing && final(self).temp_buf.is_none()
                    && final(self).selection == (match old(self).temp_buf {
                    Some(Some(line)) => min_int(line as int, last_index(old(self).lines@.len())),
                    _ => last_index(old(self).lines@.len()),
                }),
                BlameKey::SearchInit => r == BlameRequest::Nothing && final(self).state == BlameState::SearchEditing
                    && final(self).selection == old(self).selection && final(self).search.needle == Some(
                    final(self).search.needle->0,
                ) && final(self).search.needle_view().len() == 0 && final(self).search.start == (LinePos {
                    line: old(self).selection,
                    offset: 0,
                }),
                BlameKey::SearchNext => r == BlameRequest::Nothing && BlameSearch::next_post(
                    BlameSearch { temp_buf: None, ..*old(self) },
                    *final(self),
                ),
                BlameKey::SearchPrev => r == BlameRequest::Nothing && BlameSearch::prev_post(
                    BlameSearch { temp_buf: None, ..*old(self) },
                    *final(self),
                ),
                BlameKey::Char(c) => r == BlameRequest::Nothing && final(self).selection == old(self).selection
                    && final(self).temp_buf == (if '0' <= c && c <= '9' {
                    Some(
                        match old(self).temp_buf {
                            Some(Some(n)) => if n * 10 + (c as u32 - '0' as u32) <= usize::MAX {
                                Some((n * 10 + (c as u32 - '0' as u32)) as usize)
                            } else {
                                None
                            },
                            Some(None) => None,
                            None => Some((c as u32 - '0' as u32) as usize),
                        },
                    )
                } else {
                    None
                }),
                BlameKey::Enter | BlameKey::Backspace | BlameKey::Other => r == BlameRequest::Nothing
                    && *final(self) == (BlameSearch { temp_buf: None, ..*old(self) }),
            },
    {
        let temp_buf = self.temp_buf;
        self.temp_buf = None;
        if self.state == BlameState::SearchEditing {
            let skey = match key {
                BlameKey::Exit => SearchKey::Exit,
                BlameKey::Enter => SearchKey::Enter,
                BlameKey::Backspace => SearchKey::Backspace,
                BlameKey::Char(c) => SearchKey::Char(c),
                _ => SearchKey::Other,
            };
            self.event_search_edit_state(skey);
            return BlameRequest::Nothing;
        }
        match key {
            BlameKey::Exit => BlameRequest::Close,
            BlameKey::Up | BlameKey::Down | BlameKey::Home | BlameKey::PageUp | BlameKey::PageDown => {
                self.move_selection(key);
                BlameRequest::Nothing
            },
            BlameKey::End => {
                match temp_buf {
                    Some(Some(line)) => {
                        let max = self.lines.len().saturating_sub(1);
                        let l = if line < max { line } else { max };
                        self.selection = l;
                        if self.search.is_valid() {
                            self.search.start = LinePos { line: l, offset: 0 };
                        }
                    },
                    _ => {
                        self.move_selection(BlameKey::End);
                    },
                }
                BlameRequest::Nothing
            },
            BlameKey::SearchInit => {
                self.enter_search_mode();
                BlameRequest::Nothing
            },
            BlameKey::SearchNext => {
                self.search_next();
                BlameRequest::Nothing
            },
            BlameKey::SearchPrev => {
                self.search_prev();
                BlameRequest::Nothing
            },
            BlameKey::Push => BlameRequest::BlameParent,
            BlameKey::Pop => BlameRequest::PopBack,
            BlameKey::Inspect => BlameRequest::InspectCommit,
            BlameKey::FileHistory => BlameRequest::FileHistory,
            BlameKey::Char(c) => {
                if '0' <= c && c <= '9' {
                    let d = (c as u32 - '0' as u32) as usize;
                    self.temp_buf = Some(
                        match temp_buf {
                            Some(Some(n)) => if n <= (usize::MAX - d) / 10 {
                                proof {
                                    assert(n * 10 + d <= usize::MAX) by (nonlinear_arith)
                                        requires n <= (usize::MAX - d) / 10, d <= 9;
                                }
                                Some(n * 10 + d)
                            } else {
                                proof {
                                    assert(n * 10 + d > usize::MAX) by (nonlinear_arith)
                                        requires n > (usize::MAX - d) / 10, d <= 9;
                                }
                                None
                            },
                            Some(None) => None,
                            None => Some(d),
                        },
                    );
                }
                BlameRequest::Nothing
            },
            _ => BlameRequest::Nothing,
        }
    }
}

/// Relies on `FromIterator<char>` for String: the string of exactly these
/// characters, in order.
#[verifier::external_body]
pub(crate) fn string_of(v: &Vec<char>) -> (r: String)
    ensures
        r@ == v@,
{
    v.iter().collect()
}

/// A forward search from the top of the file, with no match under the
/// start, finds the first match in reading order.
pub proof fn lemma_search_from_top(lines: Seq<Seq<char>>, n: Seq<char>, p: LinePos)
    requires
        lines.len() > 0,
        forward_result(lines, n, LinePos { line: 0, offset: 0 }, Some(p)),
    ensures
        p.line < lines.len(),
        none_in(lines, n, 0, p.line as int),
        first_from(lines[p.line as int], n, 0, Some(p.offset)),
{
    if first_from(lines[0], n, 0, None) {
        assert(!line_has(lines, n, 0));
    }
}

} // verus!
