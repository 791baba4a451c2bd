use vstd::prelude::*;
use crate::blame_search::string_of;
use crate::config::str_is;
use crate::text::{chars_of, push_str};

verus! {

/// An operation of a rebase todo line.
#[derive(Clone, Copy, Debug, PartialEq, Eq, Structural)]
pub enum InteractiveOperation {
    Pick,
    Reword,
    Edit,
    Squash,
    Fixup,
    Exec,
    Break,
    Drop,
    Label,
    Reset,
    Merge,
    UpdateRef,
}

/// The long name of an operation, as written back to the todo file.
pub open spec fn op_name(op: InteractiveOperation) -> Seq<char> {
    match op {
        InteractiveOperation::Pick => seq!['p', 'i', 'c', 'k'],
        InteractiveOperation::Reword => seq!['r', 'e', 'w', 'o', 'r', 'd'],
        InteractiveOperation::Edit => seq!['e', 'd', 'i', 't'],
        InteractiveOperation::Squash => seq!['s', 'q', 'u', 'a', 's', 'h'],
        InteractiveOperation::Fixup => seq!['f', 'i', 'x', 'u', 'p'],
        InteractiveOperation::Exec => seq!['e', 'x', 'e', 'c'],
        InteractiveOperation::Break => seq!['b', 'r', 'e', 'a', 'k'],
        InteractiveOperation::Drop => seq!['d', 'r', 'o', 'p'],
        InteractiveOperation::Label => seq!['l', 'a', 'b', 'e', 'l'],
        InteractiveOperation::Reset => seq!['r', 'e', 's', 'e', 't'],
        InteractiveOperation::Merge => seq!['m', 'e', 'r', 'g', 'e'],
        InteractiveOperation::UpdateRef => seq!['u', 'p', 'd', 'a', 't', 'e', '-', 'r', 'e', 'f'],
    }
}

/// The one-letter name of an operation.
pub open spec fn op_letter(op: InteractiveOperation) -> char {
    match op {
        InteractiveOperation::Pick => 'p',
        InteractiveOperation::Reword => 'r',
        InteractiveOperation::Edit => 'e',
        InteractiveOperation::Squash => 's',
        InteractiveOperation::Fixup => 'f',
        InteractiveOperation::Exec => 'x',
        InteractiveOperation::Break => 'b',
        InteractiveOperation::Drop => 'd',
        InteractiveOperation::Label => 'l',
        InteractiveOperation::Reset => 't',
        InteractiveOperation::Merge => 'm',
        InteractiveOperation::UpdateRef => 'u',
    }
}

/// The operation a word names, by its long or its one-letter name.
pub open spec fn op_of(w: Seq<char>) -> Option<InteractiveOperation> {
    if exists|op: InteractiveOperation| w == op_name(op) || w == seq![op_letter(op)] {
        Some(choose|op: InteractiveOperation| w == op_name(op) || w == seq![op_letter(op)])
    } else {
        None
    }
}

/// Operation names, long and short, are distinct words.
proof fn lemma_op_names_distinct(a: InteractiveOperation, b: InteractiveOperation, w: Seq<char>)
    requires
        w == op_name(a) || w == seq![op_letter(a)],
        w == op_name(b) || w == seq![op_letter(b)],
    ensures
        a == b,
{
    if w.len() == 1 {
        assert(w[0] == op_letter(a) && w[0] == op_letter(b));
    } else {
        assert(w == op_name(a) && w == op_name(b));
        assert(op_name(a)[0] == op_name(b)[0]);
        assert(op_name(a).len() == op_name(b).len());
        assert(op_name(a)[1] == op_name(b)[1]);
        assert(op_name(a)[2] == op_name(b)[2]);
    }
}

proof fn lemma_op_of(op: InteractiveOperation, w: Seq<char>)
    requires
        w == op_name(op) || w == seq![op_letter(op)],
    ensures
        op_of(w) == Some(op),
{
    assert(exists|o: InteractiveOperation| w == op_name(o) || w == seq![op_letter(o)]);
    let c = op_of(w)->0;
    assert(w == op_name(c) || w == seq![op_letter(c)]);
    lemma_op_names_distinct(op, c, w);
}

impl InteractiveOperation {
    /// Parses an operation from its long or its one-letter name.
    pub fn try_parse(w: &str) -> (r: Result<InteractiveOperation, String>)
        ensures
            match op_of(w@) {
                Some(op) => r == Ok::<InteractiveOperation, String>(op),
                None => r is Err && r->Err_0@ == "Unknown operation: "@ + w@,
            },
    {
        let all = [
            InteractiveOperation::Pick,
            InteractiveOperation::Reword,
            InteractiveOperation::Edit,
            InteractiveOperation::Squash,
            InteractiveOperation::Fixup,
            InteractiveOperation::Exec,
            InteractiveOperation::Break,
            InteractiveOperation::Drop,
            InteractiveOperation::Label,
            InteractiveOperation::Reset,
            InteractiveOperation::Merge,
            InteractiveOperation::UpdateRef,
        ];
        let mut i: usize = 0;
        while i < 12
            invariant
                i <= 12,
                all@.len() == 12,
                forall|o: InteractiveOperation| all@.contains(o),
                forall|k: int| 0 <= k < i ==> w@ != op_name(all@[k]) && w@ != seq![op_letter(all@[k])],
            decreases 12 - i,
        {
            let op = all[i];
            let name = op.to_string();
            let letter = op.letter();
            if str_is(w, name.as_str()) || str_is(w, letter.as_str()) {
                proof {
                    lemma_op_of(op, w@);
                }
                return Ok(op);
            }
            i += 1;
        }
        proof {
            assert forall|o: InteractiveOperation| !(w@ == op_name(o) || w@ == seq![op_letter(o)]) by {
                let k = choose|k: int| 0 <= k < 12 && all@[k] == o;
            }
        }
        let mut msg: Vec<char> = Vec::new();
        push_str(&mut msg, "Unknown operation: ");
        push_str(&mut msg, w);
        assert(msg@ =~= "Unknown operation: "@ + w@);
        Err(string_of(&msg))
    }

    /// The long name of the operation.
    pub fn to_string(&self) -> (r: String)
        ensures
            r@ == op_name(*self),
    {
        let lit = match self {
            InteractiveOperation::Pick => "pick",
            InteractiveOperation::Reword => "reword",
            InteractiveOperation::Edit => "edit",
            InteractiveOperation::Squash => "squash",
            InteractiveOperation::Fixup => "fixup",
            InteractiveOperation::Exec => "exec",
            InteractiveOperation::Break => "break",
            InteractiveOperation::Drop => "drop",
            InteractiveOperation::Label => "label",
            InteractiveOperation::Reset => "reset",
            InteractiveOperation::Merge => "merge",
            InteractiveOperation::UpdateRef => "update-ref",
        };
        proof {
            reveal_strlit("pick");
            reveal_strlit("reword");
            reveal_strlit("edit");
            reveal_strlit("squash");
            reveal_strlit("fixup");
            reveal_strlit("exec");
            reveal_strlit("break");
            reveal_strlit("drop");
            reveal_strlit("label");
            reveal_strlit("reset");
            reveal_strlit("merge");
            reveal_strlit("update-ref");
        }
        let r = lit.to_owned();
        assert(r@ =~= op_name(*self));
        r
    }

    /// The one-letter name of the operation.
    pub fn letter(&self) -> (r: String)
        ensures
            r@ == seq![op_letter(*self)],
    {
        let mut v: Vec<char> = Vec::new();
        let c = match self {
            InteractiveOperation::Pick => 'p',
            InteractiveOperation::Reword => 'r',
            InteractiveOperation::Edit => 'e',
            InteractiveOperation::Squash => 's',
            InteractiveOperation::Fixup => 'f',
            InteractiveOperation::Exec => 'x',
            InteractiveOperation::Break => 'b',
            InteractiveOperation::Drop => 'd',
            InteractiveOperation::Label => 'l',
            InteractiveOperation::Reset => 't',
            InteractiveOperation::Merge => 'm',
            InteractiveOperation::UpdateRef => 'u',
        };
        v.push(c);
        assert(v@ =~= seq![op_letter(*self)]);
        string_of(&v)
    }
}

/// ASCII whitespace, as `split_ascii_whitespace` sees it.
pub open spec fn ascii_ws(c: char) -> bool {
    c == ' ' || c == '\t' || c == '\n' || c == '\x0C' || c == '\r'
}

/// The first position at or after `i` that is not whitespace (or the end).
pub open spec fn skip_ws(s: Seq<char>, i: int) -> int
    decreases s.len() - i,
{
    if i >= s.len() {
        s.len() as int
    } else if !ascii_ws(s[i]) {
        i
    } else {
        skip_ws(s, i + 1)
    }
}

/// The first position at or after `i` that is whitespace (or the end).
pub open spec fn word_end(s: Seq<char>, i: int) -> int
    decreases s.len() - i,
{
    if i >= s.len() {
        s.len() as int
    } else if ascii_ws(s[i]) {
        i
    } else {
        word_end(s, i + 1)
    }
}

/// The first position at or after `i` that is not a double quote.
pub open spec fn lead_quotes(w: Seq<char>, i: int) -> int
    decreases w.len() - i,
{
    if i >= w.len() {
        w.len() as int
    } else if w[i] != '"' {
        i
    } else {
        lead_quotes(w, i + 1)
    }
}

/// Moving down from `j` to no lower than `lo`, the position after the
/// last character that is not a double quote.
pub open spec fn trail_quotes(w: Seq<char>, j: int, lo: int) -> int
    decreases j - lo,
{
    if j <= lo {
        lo
    } else if w[j - 1] != '"' {
        j
    } else {
        trail_quotes(w, j - 1, lo)
    }
}

/// A word with its leading and trailing double quotes taken off.
pub open spec fn trim_quotes(w: Seq<char>) -> Seq<char> {
    let lo = lead_quotes(w, 0);
    w.subrange(lo, trail_quotes(w, w.len() as int, lo))
}

/// Why a todo line does not parse.
#[derive(Clone, Copy, Debug, PartialEq, Eq, Structural)]
pub enum TodoLineError {
    NoOp,
    UnknownOperation,
    NoShortHash,
    NoFullHash,
}

/// A todo line as values: an operation, the short hash, the full hash.
pub type TodoModel = (InteractiveOperation, Seq<char>, Seq<char>);

/// What a todo line parses to: its first three whitespace-separated words
/// are the operation, the short hash and the full hash (quotes trimmed).
pub open spec fn parse_line(s: Seq<char>) -> Result<TodoModel, TodoLineError> {
    let a0 = skip_ws(s, 0);
    if a0 >= s.len() {
        Err(TodoLineError::NoOp)
    } else {
        let e0 = word_end(s, a0);
        match op_of(s.subrange(a0, e0)) {
            None => Err(TodoLineError::UnknownOperation),
            Some(op) => {
                let a1 = skip_ws(s, e0);
                if a1 >= s.len() {
                    Err(TodoLineError::NoShortHash)
                } else {
                    let e1 = word_end(s, a1);
                    let a2 = skip_ws(s, e1);
                    if a2 >= s.len() {
                        Err(TodoLineError::NoFullHash)
                    } else {
                        let e2 = word_end(s, a2);
                        Ok((op, s.subrange(a1, e1), trim_quotes(s.subrange(a2, e2))))
                    }
                }
            },
        }
    }
}

/// The canonical form of a todo line.
pub open spec fn render_line(m: TodoModel) -> Seq<char> {
    op_name(m.0) + seq![' '] + m.1 + seq![' ', '"'] + m.2 + seq!['"']
}

pub(crate) fn skip_ws_from(v: &Vec<char>, i: usize) -> (r: usize)
    requires
        i <= v@.len(),
    ensures
        r == skip_ws(v@, i as int),
        i <= r <= v@.len(),
{
    let mut k = i;
    while k < v.len() && (v[k] == ' ' || v[k] == '\t' || v[k] == '\n' || v[k] == '\x0C' || v[k] == '\r')
        invariant
            i <= k <= v@.len(),
            skip_ws(v@, i as int) == skip_ws(v@, k as int),
        decreases v@.len() - k,
    {
        k += 1;
    }
    k
}

pub(crate) fn word_end_from(v: &Vec<char>, i: usize) -> (r: usize)
    requires
        i <= v@.len(),
    ensures
        r == word_end(v@, i as int),
        i <= r <= v@.len(),
{
    let mut k = i;
    while k < v.len() && !(v[k] == ' ' || v[k] == '\t' || v[k] == '\n' || v[k] == '\x0C' || v[k] == '\r')
        invariant
            i <= k <= v@.len(),
            word_end(v@, i as int) == word_end(v@, k as int),
        decreases v@.len() - k,
    {
        k += 1;
    }
    k
}

/// The characters `a..e` of `v`.
pub(crate) fn slice_of(v: &Vec<char>, a: usize, e: usize) -> (r: Vec<char>)
    requires
        a <= e <= v@.len(),
    ensures
        r@ == v@.subrange(a as int, e as int),
{
    let mut r: Vec<char> = Vec::new();
    let mut k = a;
    while k < e
        invariant
            a <= k <= e,
            e <= v@.len(),
            r@ == v@.subrange(a as int, k as int),
        decreases e - k,
    {
        r.push(v[k]);
        k += 1;
        assert(r@ =~= v@.subrange(a as int, k as int));
    }
    r
}

fn trim_quotes_of(w: &Vec<char>) -> (r: Vec<char>)
    ensures
        r@ == trim_quotes(w@),
{
    let mut lo: usize = 0;
    while lo < w.len() && w[lo] == '"'
        invariant
            lo <= w@.len(),
            lead_quotes(w@, 0) == lead_quotes(w@, lo as int),
        decreases w@.len() - lo,
    {
        lo += 1;
    }
    let mut hi: usize = w.len();
    while hi > lo && w[hi - 1] == '"'
        invariant
            lo <= hi <= w@.len(),
            trail_quotes(w@, w@.len() as int, lo as int) == trail_quotes(w@, hi as int, lo as int),
        decreases hi,
    {
        hi -= 1;
    }
    slice_of(w, lo, hi)
}

/// One line of a rebase todo file.
#[derive(Clone, Debug)]
pub struct RebaseCommit {
    pub op: InteractiveOperation,
    pub hash: String,
    pub full_hash: String,
}

impl RebaseCommit {
    pub open spec fn model(&self) -> TodoModel {
        (self.op, self.hash@, self.full_hash@)
    }

    /// The same line with another operation.
    pub fn change_op(self, op: InteractiveOperation) -> (r: Self)
        ensures
            r.op == op,
            r.hash == self.hash,
            r.full_hash == self.full_hash,
    {
        RebaseCommit { op, hash: self.hash, full_hash: self.full_hash }
    }

    /// Parses a todo line: operation, short hash, full hash.
    pub fn try_parse(l: &str) -> (r: Result<RebaseCommit, TodoLineError>)
        ensures
            match parse_line(l@) {
                Ok(m) => r is Ok && r->Ok_0.model() == m,
                Err(e) => r == Err::<RebaseCommit, TodoLineError>(e),
            },
    {
        let v = chars_of(l);
        let a0 = skip_ws_from(&v, 0);
        if a0 >= v.len() {
            return Err(TodoLineError::NoOp);
        }
        let e0 = word_end_from(&v, a0);
        let w0 = string_of(&slice_of(&v, a0, e0));
        let op = match InteractiveOperation::try_parse(w0.as_str()) {
            Ok(op) => op,
            Err(_) => {
                return Err(TodoLineError::UnknownOperation);
            },
        };
        let a1 = skip_ws_from(&v, e0);
        if a1 >= v.len() {
            return Err(TodoLineError::NoShortHash);
        }
        let e1 = word_end_from(&v, a1);
        let a2 = skip_ws_from(&v, e1);
        if a2 >= v.len() {
            return Err(TodoLineError::NoFullHash);
        }
        let e2 = word_end_from(&v, a2);
        let hash = string_of(&slice_of(&v, a1, e1));
        let full = string_of(&trim_quotes_of(&slice_of(&v, a2, e2)));
        Ok(RebaseCommit { op, hash, full_hash: full })
    }

    /// The canonical form: operation, short hash, quoted full hash.
    pub fn to_string(&self) -> (r: String)
        ensures
            r@ == render_line(self.model()),
    {
        proof {
            reveal_strlit(" ");
            reveal_strlit(" \"");
            reveal_strlit("\"");
        }
        let mut v = chars_of(self.op.to_string().as_str());
        push_str(&mut v, " ");
        push_str(&mut v, self.hash.as_str());
        push_str(&mut v, " \"");
        push_str(&mut v, self.full_hash.as_str());
        push_str(&mut v, "\"");
        assert(v@ =~= render_line(self.model()));
        string_of(&v)
    }
}

/// The pieces of `s` between occurrences of `sep`.
pub open spec fn split_on(s: Seq<char>, sep: char) -> Seq<Seq<char>>
    decreases s.len(),
{
    if s.len() == 0 {
        seq![Seq::<char>::empty()]
    } else if s.last() == sep {
        split_on(s.drop_last(), sep).push(Seq::empty())
    } else {
        let r = split_on(s.drop_last(), sep);
        r.update(r.len() - 1, r.last().push(s.last()))
    }
}

/// The pieces of `s` between newlines.
pub open spec fn split_lines(s: Seq<char>) -> Seq<Seq<char>> {
    split_on(s, '\n')
}

/// Pieces joined with `sep` between them.
pub open spec fn join_on(ls: Seq<Seq<char>>, sep: char) -> Seq<char>
    decreases ls.len(),
{
    if ls.len() == 0 {
        Seq::empty()
    } else if ls.len() == 1 {
        ls[0]
    } else {
        join_on(ls.drop_last(), sep) + seq![sep] + ls.last()
    }
}

/// The lines that parse, as values, in order; the others are left out.
pub open spec fn parsed_lines(ls: Seq<Seq<char>>) -> Seq<TodoModel>
    decreases ls.len(),
{
    if ls.len() == 0 {
        Seq::empty()
    } else {
        let r = parsed_lines(ls.drop_last());
        match parse_line(ls.last()) {
            Ok(m) => r.push(m),
            Err(_) => r,
        }
    }
}

pub open spec fn models(v: Seq<RebaseCommit>) -> Seq<TodoModel> {
    v.map_values(|c: RebaseCommit| c.model())
}

/// Splits `s` at its newlines.
/// Splits `s` at each `sep`.
pub fn parts_of(s: &str, sep: char) -> (r: Vec<String>)
    ensures
        r@.map_values(|l: String| l@) == split_on(s@, sep),
{
    let v = chars_of(s);
    let mut done: Vec<String> = Vec::new();
    let mut cur: Vec<char> = Vec::new();
    let mut i: usize = 0;
    assert(v@.subrange(0, 0) =~= Seq::<char>::empty());
    assert(done@.map_values(|l: String| l@).push(cur@) =~= split_on(v@.subrange(0, 0), sep));
    while i < v.len()
        invariant
            v@ == s@,
            i <= v@.len(),
            done@.map_values(|l: String| l@).push(cur@) == split_on(v@.subrange(0, i as int), sep),
        decreases v@.len() - i,
    {
        let ghost pre = v@.subrange(0, i as int);
        let ghost next = v@.subrange(0, i + 1);
        assert(next.drop_last() =~= pre);
        assert(next.last() == v@[i as int]);
        let ghost dv = done@.map_values(|l: String| l@);
        if v[i] == sep {
            let line = string_of(&cur);
            done.push(line);
            cur = Vec::new();
            assert(done@.map_values(|l: String| l@) =~= dv.push(line@));
            assert(done@.map_values(|l: String| l@).push(cur@) =~= split_on(next, sep));
        } else {
            let ghost old_cur = cur@;
            cur.push(v[i]);
            assert(dv.push(cur@) =~= dv.push(old_cur).update(dv.len() as int, dv.push(old_cur).last().push(v@[i as int])));
        }
        i += 1;
    }
    assert(v@.subrange(0, v@.len() as int) =~= v@);
    let ghost dv = done@.map_values(|l: String| l@);
    let last = string_of(&cur);
    done.push(last);
    assert(done@.map_values(|l: String| l@) =~= dv.push(cur@));
    done
}

pub(crate) fn lines_of(s: &str) -> (r: Vec<String>)
    ensures
        r@.map_values(|l: String| l@) == split_lines(s@),
{
    parts_of(s, '\n')
}

/// Parses the content of a todo file; lines that do not parse (blank
/// lines, comments) are left out.
pub fn parse_rebase_todo(content: &str) -> (r: Vec<RebaseCommit>)
    ensures
        models(r@) == parsed_lines(split_lines(content@)),
{
    let lines = lines_of(content);
    let ghost ls = lines@.map_values(|l: String| l@);
    let mut r: Vec<RebaseCommit> = Vec::new();
    let mut i: usize = 0;
    while i < lines.len()
        invariant
            ls == lines@.map_values(|l: String| l@),
            i <= lines@.len(),
            models(r@) == parsed_lines(ls.subrange(0, i as int)),
        decreases lines@.len() - i,
    {
        let ghost sub = ls.subrange(0, i + 1);
        assert(sub.drop_last() =~= ls.subrange(0, i as int));
        assert(sub.last() == lines@[i as int]@);
        match RebaseCommit::try_parse(lines[i].as_str()) {
            Ok(c) => {
                let ghost before = r@;
                r.push(c);
                assert(models(r@) =~= models(before).push(c.model()));
            },
            Err(_) => {},
        }
        i += 1;
    }
    assert(ls.subrange(0, lines@.len() as int) =~= ls);
    r
}

/// Lines joined with newlines between them.
pub open spec fn join_lines(ls: Seq<Seq<char>>) -> Seq<char>
    decreases ls.len(),
{
    if ls.len() == 0 {
        Seq::empty()
    } else if ls.len() == 1 {
        ls[0]
    } else {
        join_lines(ls.drop_last()) + seq!['\n'] + ls.last()
    }
}

/// The content of a todo file: the canonical form of each line, joined
/// with newlines.
pub fn write_rebase_todo(commits: &Vec<RebaseCommit>) -> (r: String)
    ensures
        r@ == join_lines(models(commits@).map_values(|m: TodoModel| render_line(m))),
{
    let ghost all = models(commits@).map_values(|m: TodoModel| render_line(m));
    let mut v: Vec<char> = Vec::new();
    let mut i: usize = 0;
    while i < commits.len()
        invariant
            all == models(commits@).map_values(|m: TodoModel| render_line(m)),
            i <= commits@.len(),
            v@ == join_lines(all.subrange(0, i as int)),
        decreases commits@.len() - i,
    {
        let ghost sub = all.subrange(0, i + 1);
        assert(sub.drop_last() =~= all.subrange(0, i as int));
        let line = commits[i].to_string();
        if i > 0 {
            v.push('\n');
        }
        let ghost before = v@;
        push_str(&mut v, line.as_str());
        proof {
            if i == 0 {
                assert(v@ =~= sub[0]);
            } else {
                assert(v@ =~= join_lines(sub.drop_last()) + seq!['\n'] + sub.last());
            }
        }
        i += 1;
    }
    assert(all.subrange(0, commits@.len() as int) =~= all);
    string_of(&v)
}

/// The lines whose full hash is among `hashes` get the operation `op`.
pub open spec fn marked(ms: Seq<TodoModel>, hashes: Seq<Seq<char>>, op: InteractiveOperation) -> Seq<TodoModel> {
    ms.map_values(|m: TodoModel| if hashes.contains(m.2) { (op, m.1, m.2) } else { m })
}

/// Gives the operation `op` to every line whose full hash is in `hashes`.
pub fn mark_commits(commits: Vec<RebaseCommit>, hashes: &Vec<String>, op: InteractiveOperation) -> (r: Vec<RebaseCommit>)
    ensures
        models(r@) == marked(models(commits@), hashes@.map_values(|h: String| h@), op),
{
    let ghost hv = hashes@.map_values(|h: String| h@);
    let ghost want = marked(models(commits@), hv, op);
    let mut r: Vec<RebaseCommit> = Vec::new();
    let mut i: usize = 0;
    while i < commits.len()
        invariant
            hv == hashes@.map_values(|h: String| h@),
            want == marked(models(commits@), hv, op),
            i <= commits@.len(),
            models(r@) == want.subrange(0, i as int),
        decreases commits@.len() - i,
    {
        let ghost cm = commits@[i as int].model();
        let mut found = false;
        let mut j: usize = 0;
        while j < hashes.len()
            invariant
                hv == hashes@.map_values(|h: String| h@),
                i < commits@.len(),
                cm == commits@[i as int].model(),
                j <= hashes@.len(),
                found == exists|k: int| 0 <= k < j && hv[k] == cm.2,
            decreases hashes@.len() - j,
        {
            if str_is(hashes[j].as_str(), commits[i].full_hash.as_str()) {
                assert(hv[j as int] == cm.2);
                found = true;
            }
            proof {
                if !found {
                    assert forall|k: int| 0 <= k < j + 1 implies hv[k] != cm.2 by {
                        if k == j {
                            assert(hv[k] == hashes@[k]@);
                        }
                    }
                }
            }
            j += 1;
        }
        proof {
            if found {
                let k = choose|k: int| 0 <= k < hashes@.len() && hv[k] == cm.2;
                assert(hv.contains(cm.2));
            }
        }
        assert(found == hv.contains(cm.2));
        let n = if found {
            RebaseCommit { op, hash: commits[i].hash.clone(), full_hash: commits[i].full_hash.clone() }
        } else {
            RebaseCommit { op: commits[i].op, hash: commits[i].hash.clone(), full_hash: commits[i].full_hash.clone() }
        };
        let ghost before = r@;
        assert(n.model() == want[i as int]);
        r.push(n);
        assert(models(r@) =~= models(before).push(n.model()));
        assert(models(r@) =~= want.subrange(0, i + 1));
        i += 1;
    }
    assert(want.subrange(0, commits@.len() as int) =~= want);
    r
}

/// The new content of a todo file in which the commits whose full hash is
/// in `hashes` get the operation `op`: the lines are parsed (lines that do
/// not parse are dropped), changed and written back.
pub fn retarget_todo(content: &str, hashes: &Vec<String>, op: InteractiveOperation) -> (r: String)
    ensures
        r@ == join_lines(
            marked(parsed_lines(split_lines(content@)), hashes@.map_values(|h: String| h@), op).map_values(
                |m: TodoModel| render_line(m),
            ),
        ),
{
    let parsed = parse_rebase_todo(content);
    let changed = mark_commits(parsed, hashes, op);
    write_rebase_todo(&changed)
}

/// The todo content of a rebase that drops the commits `hashes`.
pub fn drop_commits_todo(content: &str, hashes: &Vec<String>) -> (r: String)
    ensures
        r@ == join_lines(
            marked(parsed_lines(split_lines(content@)), hashes@.map_values(|h: String| h@), InteractiveOperation::Drop).map_values(
                |m: TodoModel| render_line(m),
            ),
        ),
{
    retarget_todo(content, hashes, InteractiveOperation::Drop)
}

/// The todo content of a rebase that folds the commits `hashes` into
/// their predecessors.
pub fn fixup_commits_todo(content: &str, hashes: &Vec<String>) -> (r: String)
    ensures
        r@ == join_lines(
            marked(parsed_lines(split_lines(content@)), hashes@.map_values(|h: String| h@), InteractiveOperation::Fixup).map_values(
                |m: TodoModel| render_line(m),
            ),
        ),
{
    retarget_todo(content, hashes, InteractiveOperation::Fixup)
}

/// No character of `w` is whitespace.
pub open spec fn no_ws(w: Seq<char>) -> bool {
    forall|k: int| 0 <= k < w.len() ==> !ascii_ws(w[k])
}

/// The values a parsed todo line can hold: a non-empty short hash and a
/// full hash without whitespace, the full hash neither starting nor
/// ending with a double quote.
pub open spec fn parsed_shape(m: TodoModel) -> bool {
    &&& m.1.len() > 0
    &&& no_ws(m.1)
    &&& no_ws(m.2)
    &&& m.2.len() > 0 ==> m.2[0] != '"' && m.2.last() != '"'
}

proof fn lemma_skip_ws_props(s: Seq<char>, i: int)
    requires
        0 <= i <= s.len(),
    ensures
        i <= skip_ws(s, i) <= s.len(),
        skip_ws(s, i) < s.len() ==> !ascii_ws(s[skip_ws(s, i)]),
    decreases s.len() - i,
{
    if i < s.len() && ascii_ws(s[i]) {
        lemma_skip_ws_props(s, i + 1);
    }
}

proof fn lemma_word_end_props(s: Seq<char>, i: int)
    requires
        0 <= i <= s.len(),
    ensures
        i <= word_end(s, i) <= s.len(),
        forall|k: int| i <= k < word_end(s, i) ==> !ascii_ws(s[k]),
        i < s.len() && !ascii_ws(s[i]) ==> word_end(s, i) > i,
    decreases s.len() - i,
{
    if i < s.len() && !ascii_ws(s[i]) {
        lemma_word_end_props(s, i + 1);
    }
}

/// A run of non-whitespace from `a` to `b`, followed by whitespace or the
/// end, is one word.
proof fn lemma_word_end_at(s: Seq<char>, a: int, b: int)
    requires
        0 <= a <= b <= s.len(),
        forall|k: int| a <= k < b ==> !ascii_ws(s[k]),
        b == s.len() || ascii_ws(s[b]),
    ensures
        word_end(s, a) == b,
    decreases b - a,
{
    if a < b {
        lemma_word_end_at(s, a + 1, b);
    }
}

proof fn lemma_lead_quotes_props(w: Seq<char>, i: int)
    requires
        0 <= i <= w.len(),
    ensures
        i <= lead_quotes(w, i) <= w.len(),
        lead_quotes(w, i) < w.len() ==> w[lead_quotes(w, i)] != '"',
    decreases w.len() - i,
{
    if i < w.len() && w[i] == '"' {
        lemma_lead_quotes_props(w, i + 1);
    }
}

proof fn lemma_trail_quotes_props(w: Seq<char>, j: int, lo: int)
    requires
        0 <= lo <= j <= w.len(),
    ensures
        lo <= trail_quotes(w, j, lo) <= j,
        trail_quotes(w, j, lo) > lo ==> w[trail_quotes(w, j, lo) - 1] != '"',
    decreases j - lo,
{
    if j > lo && w[j - 1] == '"' {
        lemma_trail_quotes_props(w, j - 1, lo);
    }
}

/// Whatever parses has the shape of a parsed line.
proof fn lemma_parsed_shape(l: Seq<char>)
    requires
        parse_line(l) is Ok,
    ensures
        parsed_shape(parse_line(l)->Ok_0),
{
    lemma_skip_ws_props(l, 0);
    let a0 = skip_ws(l, 0);
    lemma_word_end_props(l, a0);
    let e0 = word_end(l, a0);
    lemma_skip_ws_props(l, e0);
    let a1 = skip_ws(l, e0);
    lemma_word_end_props(l, a1);
    let e1 = word_end(l, a1);
    lemma_skip_ws_props(l, e1);
    let a2 = skip_ws(l, e1);
    lemma_word_end_props(l, a2);
    let e2 = word_end(l, a2);
    let m = parse_line(l)->Ok_0;
    let w = l.subrange(a2, e2);
    lemma_lead_quotes_props(w, 0);
    let lo = lead_quotes(w, 0);
    lemma_trail_quotes_props(w, w.len() as int, lo);
    let hi = trail_quotes(w, w.len() as int, lo);
    assert(m.1 == l.subrange(a1, e1));
    assert(m.2 == w.subrange(lo, hi));
    assert forall|k: int| 0 <= k < m.2.len() implies !ascii_ws(m.2[k]) by {
        assert(m.2[k] == l[a2 + lo + k]);
    }
    assert forall|k: int| 0 <= k < m.1.len() implies !ascii_ws(m.1[k]) by {
        assert(m.1[k] == l[a1 + k]);
    }
}

/// A parsed todo line, written in its canonical form, parses back to the
/// same line.
pub proof fn lemma_todo_round_trip(l: Seq<char>)
    requires
        parse_line(l) is Ok,
    ensures
        parse_line(render_line(parse_line(l)->Ok_0)) == parse_line(l),
{
    let m = parse_line(l)->Ok_0;
    lemma_parsed_shape(l);
    lemma_render_parses(m);
}

/// A line of parsed shape, written in its canonical form, parses to
/// itself.
pub proof fn lemma_render_parses(m: TodoModel)
    requires
        parsed_shape(m),
    ensures
        parse_line(render_line(m)) == Ok::<TodoModel, TodoLineError>(m),
{
    let (op, h, f) = m;
    let name = op_name(op);
    let s = render_line(m);
    let n = name.len() as int;
    let hl = h.len() as int;
    let fl = f.len() as int;
    assert(s.len() == n + 4 + hl + fl);
    assert(n >= 1);
    assert forall|k: int| 0 <= k < n implies s[k] == name[k] && !ascii_ws(s[k]) && s[k] != '"' by {
        assert(s[k] == name[k]);
    }
    assert(s[n] == ' ');
    assert forall|k: int| 0 <= k < hl implies s[n + 1 + k] == h[k] by {}
    assert(s[n + 1 + hl] == ' ');
    assert(s[n + 2 + hl] == '"');
    assert forall|k: int| 0 <= k < fl implies s[n + 3 + hl + k] == f[k] by {}
    assert(s[n + 3 + hl + fl] == '"');
    // first word: the operation
    assert(skip_ws(s, 0) == 0);
    lemma_word_end_at(s, 0, n);
    assert(s.subrange(0, n) =~= name);
    lemma_op_of(op, name);
    // second word: the short hash
    assert(!ascii_ws(s[n + 1]));
    assert(skip_ws(s, n + 1) == n + 1);
    assert(skip_ws(s, n) == n + 1);
    assert forall|k: int| n + 1 <= k < n + 1 + hl implies !ascii_ws(s[k]) by {
        assert(s[k] == h[k - n - 1]);
    }
    lemma_word_end_at(s, n + 1, n + 1 + hl);
    assert(s.subrange(n + 1, n + 1 + hl) =~= h);
    // third word: the quoted full hash
    assert(skip_ws(s, n + 2 + hl) == n + 2 + hl);
    assert(skip_ws(s, n + 1 + hl) == n + 2 + hl);
    assert forall|k: int| n + 2 + hl <= k < s.len() implies !ascii_ws(s[k]) by {
        if n + 3 + hl <= k < n + 3 + hl + fl {
            assert(s[k] == f[k - n - 3 - hl]);
        }
    }
    lemma_word_end_at(s, n + 2 + hl, s.len() as int);
    let w = s.subrange(n + 2 + hl, s.len() as int);
    assert(w =~= seq!['"'] + f + seq!['"']);
    assert(w[0] == '"');
    if fl > 0 {
        assert(w[1] == f[0]);
        assert(lead_quotes(w, 1) == 1);
        assert(lead_quotes(w, 0) == 1);
        assert(w[w.len() - 2] == f.last());
        assert(trail_quotes(w, w.len() - 1, 1) == w.len() - 1);
        assert(trail_quotes(w, w.len() as int, 1) == w.len() - 1);
        assert(w.subrange(1, w.len() - 1) =~= f);
    } else {
        assert(lead_quotes(w, 2) == 2);
        assert(lead_quotes(w, 1) == 2);
        assert(lead_quotes(w, 0) == 2);
        assert(trail_quotes(w, 2, 2) == 2);
        assert(w.subrange(2, 2) =~= f);
    }
    assert(trim_quotes(w) == f);
}

} // verus!
