use vstd::prelude::*;
use crate::commit::CommitId;

verus! {

/// A commit as the log walker sees it: its id, its committer time, the
/// indices of its parents in the graph, and whether the walk's filter
/// admits it.
#[derive(Clone, Debug)]
pub struct CommitNode {
    pub id: CommitId,
    pub time: i64,
    pub parents: Vec<usize>,
    pub included: bool,
}

/// The commits a walk can reach, each parent given by its index.
#[derive(Clone, Debug)]
pub struct CommitGraph {
    pub nodes: Vec<CommitNode>,
}

impl CommitGraph {
    pub open spec fn len(&self) -> int {
        self.nodes@.len() as int
    }

    pub open spec fn time(&self, i: int) -> int {
        self.nodes@[i].time as int
    }

    pub open spec fn parents(&self, i: int) -> Seq<usize> {
        self.nodes@[i].parents@
    }

    /// Every parent index names a commit of the graph.
    pub open spec fn wf(&self) -> bool {
        &&& self.len() <= usize::MAX
        &&& forall|i: int, k: int|
            0 <= i < self.len() && 0 <= k < self.parents(i).len() ==> self.parents(i)[k] < self.len()
    }

    /// No commit is newer than a commit it is a parent of.
    pub open spec fn time_ordered(&self) -> bool {
        forall|i: int, k: int|
            0 <= i < self.len() && 0 <= k < self.parents(i).len() ==> #[trigger] self.time(
                self.parents(i)[k] as int,
            ) <= self.time(i)
    }
}

/// What one read does: the walk stays well formed, keeps its limits and
/// what it found, and examines a further run `e` of commits, whose
/// admitted ids are appended to the output. It stops when `limit` commits
/// were examined, when `filtered_limit` were admitted, or when no commit is
/// left; `count` leaves out a commit whose admission reached
/// `filtered_limit`.
pub open spec fn read_post(
    w0: LogWalker,
    w1: LogWalker,
    g: CommitGraph,
    out0: Seq<CommitId>,
    out1: Seq<CommitId>,
    count: usize,
) -> bool {
    let e = w1.examined@.subrange(w0.examined@.len() as int, w1.examined@.len() as int);
    &&& w1.wf(g)
    &&& w1.limit == w0.limit
    &&& w1.start == w0.start
    &&& w1.filtered_limit == w0.filtered_limit
    &&& w1.examined@.len() >= w0.examined@.len()
    &&& w1.examined@.subrange(0, w0.examined@.len() as int) == w0.examined@
    &&& forall|i: int| 0 <= i < g.len() && w0.visited@[i] ==> w1.visited@[i]
    &&& out1 == out0 + included_ids(g, e)
    &&& count <= e.len() <= count + 1
    &&& w0.limit > 0 ==> count <= w0.limit
    &&& (count == e.len() && (w1.commits@.len() == 0 || (w0.limit > 0 && count == w0.limit)))
        || (w0.filtered_limit > 0 && e.len() > 0 && included_count(g, e) == w0.filtered_limit
            && g.nodes@[e.last() as int].included)
    &&& w0.filtered_limit > 0 ==> included_count(g, e) <= w0.filtered_limit
}

/// The ids of the commits of `e` that the filter admits, in order.
pub open spec fn included_ids(g: CommitGraph, e: Seq<usize>) -> Seq<CommitId>
    decreases e.len(),
{
    if e.len() == 0 {
        Seq::empty()
    } else {
        let r = included_ids(g, e.drop_last());
        if g.nodes@[e.last() as int].included {
            r.push(g.nodes@[e.last() as int].id)
        } else {
            r
        }
    }
}

/// How many commits of `e` the filter admits.
pub open spec fn included_count(g: CommitGraph, e: Seq<usize>) -> nat {
    included_ids(g, e).len()
}

/// A walk over the commit graph, newest commit first. `commits` are the
/// commits found but not yet examined, `visited` marks every commit ever
/// found, `examined` records the commits examined so far, in order.
pub struct LogWalker {
    pub commits: Vec<usize>,
    pub visited: Vec<bool>,
    pub limit: usize,
    pub filtered_limit: usize,
    pub examined: Ghost<Seq<usize>>,
    pub start: Ghost<usize>,
}

/// The position of the newest of the first `k` found commits `fr`; among
/// commits of equal time the one found first.
pub open spec fn first_newest(g: CommitGraph, fr: Seq<usize>, k: int) -> int
    decreases k,
{
    if k <= 1 {
        0
    } else {
        let b = first_newest(g, fr, k - 1);
        if g.time(fr[k - 1] as int) > g.time(fr[b] as int) { k - 1 } else { b }
    }
}

/// Commit `i` is a parent of one of the commits `ex`.
pub open spec fn found_by(g: CommitGraph, ex: Seq<usize>, i: int) -> bool {
    exists|k: int, j: int|
        0 <= k < ex.len() && 0 <= j < g.parents(ex[k] as int).len() && #[trigger] g.parents(ex[k] as int)[j] == i
}

proof fn lemma_found_by_push(g: CommitGraph, ex: Seq<usize>, x: usize, i: int)
    requires
        found_by(g, ex, i),
    ensures
        found_by(g, ex.push(x), i),
{
    let (k, j) = choose|k: int, j: int|
        0 <= k < ex.len() && 0 <= j < g.parents(ex[k] as int).len() && #[trigger] g.parents(ex[k] as int)[j] == i;
    assert(ex.push(x)[k] == ex[k]);
    assert(g.parents(ex.push(x)[k] as int)[j] == i);
}

impl LogWalker {
    pub open spec fn wf(&self, g: CommitGraph) -> bool {
        let ex = self.examined@;
        let fr = self.commits@;
        &&& g.wf()
        &&& self.visited@.len() == g.len()
        &&& forall|k: int| 0 <= k < fr.len() ==> fr[k] < g.len() && self.visited@[fr[k] as int]
        &&& forall|a: int, b: int| 0 <= a < b < fr.len() ==> fr[a] != fr[b]
        &&& forall|k: int| 0 <= k < ex.len() ==> ex[k] < g.len() && self.visited@[ex[k] as int]
        &&& forall|k: int, j: int| 0 <= k < ex.len() && 0 <= j < fr.len() ==> ex[k] != fr[j]
        &&& forall|a: int, b: int| 0 <= a < b < ex.len() ==> ex[a] != ex[b]
        &&& forall|k: int, j: int|
            0 <= k < ex.len() && 0 <= j < g.parents(ex[k] as int).len() ==> self.visited@[g.parents(ex[k] as int)[j] as int]
        &&& forall|i: int| 0 <= i < g.len() && #[trigger] self.visited@[i] ==> ex.contains(i as usize) || fr.contains(i as usize)
        &&& self.start@ < g.len() && self.visited@[self.start@ as int]
        &&& forall|i: int| 0 <= i < g.len() && #[trigger] self.visited@[i] ==> i == self.start@ || found_by(g, ex, i)
        &&& forall|m: int| 0 <= m < ex.len() ==> ex[m] == self.start@ || found_by(g, #[trigger] ex.subrange(0, m), ex[m] as int)
        &&& g.time_ordered() ==> forall|a: int, b: int|
            0 <= a < b < ex.len() ==> g.time(ex[a] as int) >= g.time(ex[b] as int)
        &&& g.time_ordered() && ex.len() > 0 ==> forall|k: int|
            0 <= k < fr.len() ==> g.time(fr[k] as int) <= g.time(ex.last() as int)
    }

    /// Starts a walk at commit `start`, examining at most `limit` commits
    /// per read (0: no limit) and admitting at most `filtered_limit` (0: no
    /// limit).
    pub fn new(g: &CommitGraph, start: usize, limit: usize, filtered_limit: usize) -> (r: Self)
        requires
            g.wf(),
            start < g.len(),
        ensures
            r.wf(*g),
            r.commits@ == seq![start],
            r.visited@[start as int],
            r.start@ == start,
            r.examined@.len() == 0,
            r.limit == limit,
            r.filtered_limit == filtered_limit,
    {
        let n = g.nodes.len();
        let mut visited: Vec<bool> = Vec::new();
        let mut i: usize = 0;
        while i < n
            invariant
                n == g.nodes@.len(),
                i <= n,
                visited@.len() == i,
                forall|k: int| 0 <= k < i ==> visited@[k] == (k == start),
            decreases n - i,
        {
            visited.push(i == start);
            i += 1;
        }
        let mut commits: Vec<usize> = Vec::new();
        commits.push(start);
        assert(commits@[0] == start);
        LogWalker { commits, visited, limit, filtered_limit, examined: Ghost(Seq::empty()), start: Ghost(start) }
    }

    /// Takes the newest commit out of the found ones.
    fn pop_newest(&mut self, g: &CommitGraph) -> (x: usize)
        requires
            old(self).commits@.len() > 0,
            forall|k: int| 0 <= k < old(self).commits@.len() ==> old(self).commits@[k] < g.len(),
        ensures
            ({
                let m = first_newest(*g, old(self).commits@, old(self).commits@.len() as int);
                &&& 0 <= m < old(self).commits@.len()
                &&& old(self).commits@[m] == x
                &&& final(self).commits@ == old(self).commits@.remove(m)
                &&& forall|j: int| 0 <= j < m ==> g.time(old(self).commits@[j] as int) < g.time(x as int)
            }),
            forall|k: int| 0 <= k < old(self).commits@.len() ==> g.time(old(self).commits@[k] as int) <= g.time(x as int),
            final(self).visited == old(self).visited,
            final(self).examined == old(self).examined,
            final(self).start == old(self).start,
            final(self).limit == old(self).limit,
            final(self).filtered_limit == old(self).filtered_limit,
    {
        let mut best: usize = 0;
        let mut k: usize = 1;
        while k < self.commits.len()
            invariant
                self.commits@ == old(self).commits@,
                forall|j: int| 0 <= j < self.commits@.len() ==> self.commits@[j] < g.len(),
                0 < k <= self.commits@.len(),
                best < k,
                best == first_newest(*g, self.commits@, k as int),
                forall|j: int| 0 <= j < k ==> g.time(self.commits@[j] as int) <= g.time(self.commits@[best as int] as int),
                forall|j: int| 0 <= j < best ==> g.time(self.commits@[j] as int) < g.time(self.commits@[best as int] as int),
            decreases self.commits@.len() - k,
        {
            if g.nodes[self.commits[k]].time > g.nodes[self.commits[best]].time {
                best = k;
            }
            k += 1;
        }
        self.commits.remove(best)
    }

    /// Examines the newest found commit (the first found among equally new
    /// ones): takes it out of the found ones, records it as examined and
    /// finds its parents not seen before.
    #[verifier::rlimit(100)]
    #[verifier::spinoff_prover]
    pub fn examine_next(&mut self, g: &CommitGraph) -> (x: usize)
        requires
            old(self).wf(*g),
            old(self).commits@.len() > 0,
        ensures
            x == old(self).commits@[first_newest(*g, old(self).commits@, old(self).commits@.len() as int)],
            forall|j: int|
                0 <= j < first_newest(*g, old(self).commits@, old(self).commits@.len() as int) ==> g.time(
                    old(self).commits@[j] as int,
                ) < g.time(x as int),
            final(self).wf(*g),
            x < g.len(),
            final(self).examined@ == old(self).examined@.push(x),
            final(self).examined@.len() <= g.len(),
            final(self).limit == old(self).limit,
            final(self).filtered_limit == old(self).filtered_limit,
            final(self).start == old(self).start,
            forall|i: int| 0 <= i < g.len() && old(self).visited@[i] ==> final(self).visited@[i],
    {
        let ghost before = *self;
        let ghost ex0 = self.examined@;
        let x = self.pop_newest(g);
        let ghost m = first_newest(*g, before.commits@, before.commits@.len() as int);
        self.examined = Ghost(self.examined@.push(x));
        proof {
            assert(self.examined@.last() == x);
            assert forall|i: int| 0 <= i < g.len() && #[trigger] self.visited@[i] implies i == self.start@ || found_by(*g, self.examined@, i) by {
                if i != self.start@ {
                    lemma_found_by_push(*g, ex0, x, i);
                }
            }
            let exn = self.examined@;
            assert(exn.subrange(0, ex0.len() as int) =~= ex0);
            assert(before.commits@[m] == x);
            assert(before.visited@[x as int]);
            assert forall|mm: int| 0 <= mm < exn.len() implies exn[mm] == self.start@ || found_by(*g, #[trigger] exn.subrange(0, mm), exn[mm] as int) by {
                if mm < ex0.len() {
                    assert(exn.subrange(0, mm) =~= ex0.subrange(0, mm));
                    assert(exn[mm] == ex0[mm]);
                }
            }
            assert forall|i: int| 0 <= i < g.len() && #[trigger] self.visited@[i] implies self.examined@.contains(i as usize) || self.commits@.contains(i as usize) by {
                if i as usize != x {
                    if ex0.contains(i as usize) {
                        let j = choose|j: int| 0 <= j < ex0.len() && ex0[j] == i as usize;
                        assert(self.examined@[j] == ex0[j]);
                    } else {
                        let j = choose|j: int| 0 <= j < before.commits@.len() && before.commits@[j] == i as usize;
                        if j < m {
                            assert(self.commits@[j] == before.commits@[j]);
                        } else {
                            assert(self.commits@[j - 1] == before.commits@[j]);
                        }
                    }
                }
            }
            assert forall|k: int| 0 <= k < self.commits@.len() implies self.commits@[k] != x by {
                if k < m {
                    assert(self.commits@[k] == before.commits@[k]);
                } else {
                    assert(self.commits@[k] == before.commits@[k + 1]);
                }
            }
            lemma_examined_bound(self.examined@, g.len());
        }
        let parents_len = g.nodes[x].parents.len();
        let mut k: usize = 0;
        while k < parents_len
            invariant
                g.wf(),
                x < g.len(),
                parents_len == g.parents(x as int).len(),
                k <= parents_len,
                self.examined@ == ex0.push(x),
                self.limit == old(self).limit,
                self.filtered_limit == old(self).filtered_limit,
                self.visited@.len() == g.len(),
                self.visited@[x as int],
                forall|j: int| 0 <= j < self.commits@.len() ==> self.commits@[j] < g.len() && self.visited@[self.commits@[j] as int],
                forall|a: int, b: int| 0 <= a < b < self.commits@.len() ==> self.commits@[a] != self.commits@[b],
                forall|j: int| 0 <= j < self.examined@.len() ==> self.examined@[j] < g.len() && self.visited@[self.examined@[j] as int],
                forall|j: int, i: int| 0 <= j < self.examined@.len() && 0 <= i < self.commits@.len() ==> self.examined@[j] != self.commits@[i],
                forall|a: int, b: int| 0 <= a < b < self.examined@.len() ==> self.examined@[a] != self.examined@[b],
                g.time_ordered() ==> forall|j: int|
                    0 <= j < self.commits@.len() ==> g.time(self.commits@[j] as int) <= g.time(x as int),
                forall|i: int, j: int|
                    0 <= i < ex0.len() && 0 <= j < g.parents(ex0[i] as int).len() ==> self.visited@[g.parents(ex0[i] as int)[j] as int],
                forall|j: int| 0 <= j < k ==> self.visited@[g.parents(x as int)[j] as int],
                forall|i: int| 0 <= i < g.len() && old(self).visited@[i] ==> self.visited@[i],
                forall|i: int| 0 <= i < g.len() && #[trigger] self.visited@[i] ==> self.examined@.contains(i as usize) || self.commits@.contains(i as usize),
                self.start == old(self).start,
                self.start@ < g.len(),
                self.visited@[self.start@ as int],
                forall|i: int| 0 <= i < g.len() && #[trigger] self.visited@[i] ==> i == self.start@ || found_by(*g, self.examined@, i),
                forall|m: int| 0 <= m < self.examined@.len() ==> self.examined@[m] == self.start@ || found_by(*g, #[trigger] self.examined@.subrange(0, m), self.examined@[m] as int),
            decreases parents_len - k,
        {
            let p = g.nodes[x].parents[k];
            if !self.visited[p] {
                let ghost fr = self.commits@;
                let ghost vis = self.visited@;
                self.visited.set(p, true);
                assert(self.visited@ == vis.update(p as int, true));
                assert forall|i: int| 0 <= i < g.len() && old(self).visited@[i] implies self.visited@[i] by {
                    assert(vis[i]);
                }
                assert forall|i: int| 0 <= i < g.len() && #[trigger] self.visited@[i] implies i == self.start@ || found_by(*g, self.examined@, i) by {
                    if i == p {
                        let kk = self.examined@.len() - 1;
                        assert(self.examined@[kk] == x);
                        assert(g.parents(self.examined@[kk] as int)[k as int] == i);
                    } else {
                        assert(vis[i]);
                    }
                }
                assert forall|i: int, j: int|
                    0 <= i < ex0.len() && 0 <= j < g.parents(ex0[i] as int).len() implies self.visited@[g.parents(ex0[i] as int)[j] as int] by {
                    assert(self.examined@[i] == ex0[i]);
                    assert(g.parents(ex0[i] as int)[j] < g.len());
                    assert(vis[g.parents(ex0[i] as int)[j] as int]);
                }
                self.commits.push(p);
                proof {
                    assert(self.commits@ == fr.push(p));
                    assert(self.commits@[self.commits@.len() - 1] == p);
                    assert forall|i: int| 0 <= i < g.len() && #[trigger] self.visited@[i] implies self.examined@.contains(i as usize) || self.commits@.contains(i as usize) by {
                        if i != p {
                            if fr.contains(i as usize) {
                                let j = choose|j: int| 0 <= j < fr.len() && fr[j] == i as usize;
                                assert(self.commits@[j] == fr[j]);
                            }
                        }
                    }
                    assert forall|j: int| 0 <= j < self.examined@.len() implies self.examined@[j] != p by {}
                    if g.time_ordered() {
                        assert(g.time(g.parents(x as int)[k as int] as int) <= g.time(x as int));
                    }
                }
            }
            k += 1;
        }
        proof {
            let ex = self.examined@;
            if g.time_ordered() && ex0.len() > 0 {
                assert(g.time(x as int) <= g.time(ex0.last() as int));
                assert forall|a: int, b: int| 0 <= a < b < ex.len() implies g.time(ex[a] as int) >= g.time(ex[b] as int) by {
                    if b == ex.len() - 1 {
                        assert(g.time(ex[a] as int) >= g.time(ex0.last() as int));
                    }
                }
            }
        }
        x
    }

    /// Examines commits, newest first, until `limit` were examined, until
    /// `filtered_limit` were admitted, or until none is left; appends the
    /// ids of the admitted ones to `out`. Returns how many commits were
    /// examined, not counting one whose admission reached `filtered_limit`.
    #[verifier::rlimit(100)]
    #[verifier::spinoff_prover]
    pub fn read(&mut self, g: &CommitGraph, out: &mut Vec<CommitId>) -> (count: usize)
        requires
            old(self).wf(*g),
        ensures
            read_post(*old(self), *final(self), *g, old(out)@, final(out)@, count),
    {
        let ghost start_ex = self.examined@;
        let ghost start_out = out@;
        let n = g.nodes.len();
        let mut count: usize = 0;
        let mut filtered_count: usize = 0;
        while self.commits.len() > 0
            invariant_except_break
                self.examined@.len() == start_ex.len() + count,
                self.limit > 0 ==> count < self.limit,
                self.filtered_limit > 0 ==> filtered_count < self.filtered_limit,
            invariant
                self.wf(*g),
                n == g.len(),
                self.limit == old(self).limit,
                self.filtered_limit == old(self).filtered_limit,
                start_ex == old(self).examined@,
                start_out == old(out)@,
                self.start == old(self).start,
                forall|i: int| 0 <= i < g.len() && old(self).visited@[i] ==> self.visited@[i],
                self.examined@.len() >= start_ex.len(),
                self.examined@.subrange(0, start_ex.len() as int) == start_ex,
                out@ == start_out + included_ids(*g, self.examined@.subrange(start_ex.len() as int, self.examined@.len() as int)),
                filtered_count == included_count(*g, self.examined@.subrange(start_ex.len() as int, self.examined@.len() as int)),
            ensures
                ({
                    let e = self.examined@.subrange(start_ex.len() as int, self.examined@.len() as int);
                    &&& count <= e.len() <= count + 1
                    &&& self.limit > 0 ==> count <= self.limit
                    &&& self.filtered_limit > 0 ==> filtered_count <= self.filtered_limit
                    &&& (count == e.len() && (self.commits@.len() == 0 || (self.limit > 0 && count == self.limit)))
                        || (self.filtered_limit > 0 && e.len() > 0 && filtered_count == self.filtered_limit
                            && g.nodes@[e.last() as int].included)
                }),
            decreases g.len() - self.examined@.len(),
        {
            let ghost ex0 = self.examined@;
            let x = self.examine_next(g);
            proof {
                lemma_included_count_bound(*g, self.examined@.subrange(start_ex.len() as int, self.examined@.len() as int));
                let ex = self.examined@;
                let e = ex.subrange(start_ex.len() as int, ex.len() as int);
                assert(e.drop_last() =~= ex0.subrange(start_ex.len() as int, ex0.len() as int));
                assert(e.last() == x);
                assert(ex.subrange(0, start_ex.len() as int) =~= ex0.subrange(0, start_ex.len() as int));
            }
            if g.nodes[x].included {
                out.push(g.nodes[x].id);
                filtered_count += 1;
                if filtered_count == self.filtered_limit {
                    break;
                }
            }
            count += 1;
            if count == self.limit {
                break;
            }
        }
        count
    }
}

/// The examined commits are distinct commits of the graph, so there are
/// no more of them than commits.
proof fn lemma_examined_bound(ex: Seq<usize>, n: int)
    requires
        n >= 0,
        forall|k: int| 0 <= k < ex.len() ==> ex[k] < n,
        forall|a: int, b: int| 0 <= a < b < ex.len() ==> ex[a] != ex[b],
    ensures
        ex.len() <= n,
{
    let ix = ex.map_values(|x: usize| x as int);
    assert forall|a: int, b: int| 0 <= a < ix.len() && 0 <= b < ix.len() && a != b implies ix[a] != ix[b] by {
        if a < b {
            assert(ex[a] != ex[b]);
        } else {
            assert(ex[b] != ex[a]);
        }
    }
    assert(ix.no_duplicates());
    ix.unique_seq_to_set();
    {
        vstd::set_lib::lemma_int_range(0, n);
        assert(ix.len() == ex.len());
        assert forall|a: int| ix.to_set().contains(a) implies vstd::set_lib::set_int_range(0, n).contains(a) by {
            assert(ix.contains(a));
            let k = choose|k: int| 0 <= k < ix.len() && ix[k] == a;
            assert(ex[k] < n);
        }
        assert(ix.to_set().subset_of(vstd::set_lib::set_int_range(0, n)));
        vstd::set_lib::lemma_len_subset(ix.to_set(), vstd::set_lib::set_int_range(0, n));
    }
}

/// No more commits are admitted than examined.
proof fn lemma_included_count_bound(g: CommitGraph, e: Seq<usize>)
    ensures
        included_count(g, e) <= e.len(),
    decreases e.len(),
{
    if e.len() > 0 {
        lemma_included_count_bound(g, e.drop_last());
    }
}

/// Commit `i` can be reached from `start` by following parents.
pub open spec fn reaches(g: CommitGraph, start: usize, i: usize) -> bool {
    exists|path: Seq<usize>|
        path.len() > 0 && path[0] == start && path.last() == i && forall|k: int|
            0 <= k < path.len() - 1 ==> #[trigger] g.parents(path[k] as int).contains(path[k + 1])
}

/// Every commit of the graph can be reached from `start`.
pub open spec fn rooted_at(g: CommitGraph, start: usize) -> bool {
    forall|i: usize| (i as int) < g.len() ==> reaches(g, start, i)
}

/// Every commit of the graph passes the filter.
pub open spec fn admits_all(g: CommitGraph) -> bool {
    forall|i: int| 0 <= i < g.len() ==> g.nodes@[i].included
}

/// No commit of the graph passes the filter.
pub open spec fn rejects_all(g: CommitGraph) -> bool {
    forall|i: int| 0 <= i < g.len() ==> !g.nodes@[i].included
}

proof fn lemma_included_all(g: CommitGraph, e: Seq<usize>)
    requires
        admits_all(g),
        forall|k: int| 0 <= k < e.len() ==> e[k] < g.len(),
    ensures
        included_count(g, e) == e.len(),
    decreases e.len(),
{
    if e.len() > 0 {
        lemma_included_all(g, e.drop_last());
    }
}

/// With a filter that rejects every commit nothing is admitted.
pub proof fn lemma_reject_all(g: CommitGraph, e: Seq<usize>)
    requires
        rejects_all(g),
        forall|k: int| 0 <= k < e.len() ==> e[k] < g.len(),
    ensures
        included_ids(g, e) == Seq::<CommitId>::empty(),
    decreases e.len(),
{
    if e.len() > 0 {
        lemma_reject_all(g, e.drop_last());
    }
}

/// A read with a filter that rejects every commit delivers nothing, and
/// examines at most `limit` commits (plus none when the walk runs out).
pub proof fn lemma_read_rejecting_all(
    w0: LogWalker,
    w1: LogWalker,
    g: CommitGraph,
    out0: Seq<CommitId>,
    out1: Seq<CommitId>,
    count: usize,
)
    requires
        w0.wf(g),
        rejects_all(g),
        read_post(w0, w1, g, out0, out1, count),
    ensures
        out1 == out0,
        w0.limit > 0 ==> count <= w0.limit,
{
    let e = w1.examined@.subrange(w0.examined@.len() as int, w1.examined@.len() as int);
    lemma_reject_all(g, e);
    assert(out1 =~= out0);
}

/// When the walk has run out, every commit reachable from a found commit
/// has been examined.
proof fn lemma_exhausted_covers(w: LogWalker, g: CommitGraph, start: usize, path: Seq<usize>)
    requires
        w.wf(g),
        w.commits@.len() == 0,
        (start as int) < g.len(),
        w.visited@[start as int],
        path.len() > 0,
        path[0] == start,
        forall|k: int| 0 <= k < path.len() - 1 ==> #[trigger] g.parents(path[k] as int).contains(path[k + 1]),
    ensures
        w.examined@.contains(path.last()),
    decreases path.len(),
{
    if path.len() == 1 {
        assert(w.examined@.contains(start as usize) || w.commits@.contains(start as usize));
    } else {
        let front = path.drop_last();
        assert forall|k: int| 0 <= k < front.len() - 1 implies #[trigger] g.parents(front[k] as int).contains(front[k + 1]) by {
            assert(g.parents(path[k] as int).contains(path[k + 1]));
        }
        lemma_exhausted_covers(w, g, start, front);
        let prev = front.last();
        let ex = w.examined@;
        let k = choose|k: int| 0 <= k < ex.len() && ex[k] == prev;
        let k2 = path.len() - 2;
        assert(g.parents(path[k2] as int).contains(path[k2 + 1]));
        let j = choose|j: int| 0 <= j < g.parents(prev as int).len() && g.parents(prev as int)[j] == path.last();
        assert(w.visited@[g.parents(ex[k] as int)[j] as int]);
        assert(g.parents(ex[k] as int)[j] < g.len());
        assert(ex.contains(path.last()) || w.commits@.contains(path.last()));
    }
}

/// A walk that ran out over a graph rooted at its start examined every
/// commit.
proof fn lemma_exhausted_count(w: LogWalker, g: CommitGraph, start: usize)
    requires
        w.wf(g),
        w.commits@.len() == 0,
        (start as int) < g.len(),
        w.visited@[start as int],
        rooted_at(g, start),
    ensures
        w.examined@.len() >= g.len(),
{
    let ex = w.examined@;
    let ix = ex.map_values(|x: usize| x as int);
    assert forall|a: int, b: int| 0 <= a < ix.len() && 0 <= b < ix.len() && a != b implies ix[a] != ix[b] by {
        if a < b {
            assert(ex[a] != ex[b]);
        } else {
            assert(ex[b] != ex[a]);
        }
    }
    assert(ix.no_duplicates());
    ix.unique_seq_to_set();
    vstd::set_lib::lemma_int_range(0, g.len());
    assert forall|a: int| vstd::set_lib::set_int_range(0, g.len()).contains(a) implies ix.to_set().contains(a) by {
        let i = a as usize;
        assert(reaches(g, start, i));
        let path = choose|path: Seq<usize>|
            path.len() > 0 && path[0] == start && path.last() == i && forall|k: int|
                0 <= k < path.len() - 1 ==> #[trigger] g.parents(path[k] as int).contains(path[k + 1]);
        lemma_exhausted_covers(w, g, start, path);
        let k = choose|k: int| 0 <= k < ex.len() && ex[k] == i;
        assert(ix[k] == a);
        assert(ix.contains(a));
    }
    vstd::seq_lib::seq_to_set_is_finite(ix);
    vstd::set_lib::lemma_len_subset(vstd::set_lib::set_int_range(0, g.len()), ix.to_set());
}

/// On a graph rooted at the start commit, with a filter admitting every
/// commit and no admission limit, the first read with `0 < limit <= n`
/// delivers exactly `limit` commits.
pub proof fn lemma_first_read_yields_limit(
    w0: LogWalker,
    w1: LogWalker,
    g: CommitGraph,
    start: usize,
    out0: Seq<CommitId>,
    out1: Seq<CommitId>,
    count: usize,
)
    requires
        w0.wf(g),
        w0.examined@.len() == 0,
        (start as int) < g.len(),
        w0.visited@[start as int],
        rooted_at(g, start),
        admits_all(g),
        0 < w0.limit <= g.len(),
        w0.filtered_limit == 0,
        read_post(w0, w1, g, out0, out1, count),
    ensures
        count == w0.limit,
        out1.len() == out0.len() + w0.limit,
{
    let e = w1.examined@.subrange(0, w1.examined@.len() as int);
    assert(e =~= w1.examined@);
    lemma_included_all(g, e);
    if count != w0.limit {
        lemma_exhausted_count(w1, g, start);
    }
}

/// On a graph rooted at the start commit, a first read with a limit and
/// either no admission limit or a filter rejecting every commit examines
/// exactly `min(limit, n)` commits, `n` being the number of commits.
pub proof fn lemma_first_read_count(
    w0: LogWalker,
    w1: LogWalker,
    g: CommitGraph,
    start: usize,
    out0: Seq<CommitId>,
    out1: Seq<CommitId>,
    count: usize,
)
    requires
        w0.wf(g),
        w0.examined@.len() == 0,
        (start as int) < g.len(),
        w0.visited@[start as int],
        rooted_at(g, start),
        w0.limit > 0,
        w0.filtered_limit == 0 || rejects_all(g),
        read_post(w0, w1, g, out0, out1, count),
    ensures
        count == (if w0.limit <= g.len() { w0.limit as int } else { g.len() }),
{
    let e = w1.examined@.subrange(0, w1.examined@.len() as int);
    assert(e =~= w1.examined@);
    lemma_examined_bound(w1.examined@, g.len());
    if rejects_all(g) {
        lemma_reject_all(g, e);
    }
    if count != w0.limit {
        lemma_exhausted_count(w1, g, start);
    }
}

/// The positions in `e` of the commits the filter admits, in order.
pub open spec fn included_positions(g: CommitGraph, e: Seq<usize>) -> Seq<int>
    decreases e.len(),
{
    if e.len() == 0 {
        Seq::empty()
    } else {
        let r = included_positions(g, e.drop_last());
        if g.nodes@[e.last() as int].included {
            r.push(e.len() - 1)
        } else {
            r
        }
    }
}

/// No two commits of the graph have the same id.
pub open spec fn distinct_ids(g: CommitGraph) -> bool {
    forall|i: int, j: int| 0 <= i < g.len() && 0 <= j < g.len() && i != j ==> g.nodes@[i].id.bytes@ != g.nodes@[j].id.bytes@
}

/// The admitted ids are those of the admitted commits, in examination order.
proof fn lemma_included_positions(g: CommitGraph, e: Seq<usize>)
    ensures
        included_positions(g, e).len() == included_ids(g, e).len(),
        forall|k: int| #![trigger included_positions(g, e)[k]]
            0 <= k < included_positions(g, e).len() ==> 0 <= included_positions(g, e)[k] < e.len()
                && included_ids(g, e)[k] == g.nodes@[e[included_positions(g, e)[k]] as int].id,
        forall|a: int, b: int|
            0 <= a < b < included_positions(g, e).len() ==> included_positions(g, e)[a] < included_positions(g, e)[b],
    decreases e.len(),
{
    if e.len() > 0 {
        let f = e.drop_last();
        lemma_included_positions(g, f);
        let pf = included_positions(g, f);
        let pe = included_positions(g, e);
        assert forall|k: int| #![trigger pe[k]] 0 <= k < pe.len() implies 0 <= pe[k] < e.len()
            && included_ids(g, e)[k] == g.nodes@[e[pe[k]] as int].id by {
            if k < pf.len() {
                assert(pe[k] == pf[k]);
                assert(f[pf[k]] == e[pf[k]]);
            }
        }
        assert forall|a: int, b: int| 0 <= a < b < pe.len() implies pe[a] < pe[b] by {
            if b < pf.len() {
                assert(pe[a] == pf[a] && pe[b] == pf[b]);
            } else {
                assert(pe[a] == pf[a]);
                assert(pf[a] < f.len());
            }
        }
    }
}

/// What one read delivers, on a graph with distinct ids: distinct commits,
/// each the id of an admitted commit in the order they were examined, and
/// when no commit is newer than a commit it is a parent of, newest first.
#[verifier::rlimit(100)]
#[verifier::spinoff_prover]
pub proof fn lemma_read_output(
    w0: LogWalker,
    w1: LogWalker,
    g: CommitGraph,
    out0: Seq<CommitId>,
    out1: Seq<CommitId>,
    count: usize,
)
    requires
        w0.wf(g),
        distinct_ids(g),
        read_post(w0, w1, g, out0, out1, count),
    ensures
        ({
            let e = w1.examined@.subrange(w0.examined@.len() as int, w1.examined@.len() as int);
            let pos = included_positions(g, e);
            &&& out1.len() == out0.len() + pos.len()
            &&& forall|k: int| #![trigger pos[k]]
                0 <= k < pos.len() ==> out1[out0.len() + k] == g.nodes@[e[pos[k]] as int].id
            &&& forall|a: int, b: int|
                out0.len() <= a < b < out1.len() ==> out1[a].bytes@ != out1[b].bytes@
            &&& g.time_ordered() ==> forall|a: int, b: int|
                0 <= a < b < pos.len() ==> g.time(e[pos[a]] as int) >= g.time(e[pos[b]] as int)
        }),
{
    let n0 = w0.examined@.len() as int;
    let ex = w1.examined@;
    let e = ex.subrange(n0, ex.len() as int);
    lemma_included_positions(g, e);
    let pos = included_positions(g, e);
    let ids = included_ids(g, e);
    assert forall|k: int| #![trigger pos[k]] 0 <= k < pos.len() implies out1[out0.len() + k] == g.nodes@[e[pos[k]] as int].id by {
        assert(out1[out0.len() + k] == ids[k]);
    }
    assert forall|a: int, b: int| out0.len() <= a < b < out1.len() implies out1[a].bytes@ != out1[b].bytes@ by {
        let ka = a - out0.len();
        let kb = b - out0.len();
        assert(out1[a] == ids[ka] && out1[b] == ids[kb]);
        assert(pos[ka] < pos[kb]);
        assert(ids[ka] == g.nodes@[e[pos[ka]] as int].id);
        assert(ids[kb] == g.nodes@[e[pos[kb]] as int].id);
        assert(e[pos[ka]] == ex[n0 + pos[ka]] && e[pos[kb]] == ex[n0 + pos[kb]]);
        assert(ex[n0 + pos[ka]] != ex[n0 + pos[kb]]);
    }
    if g.time_ordered() {
        assert forall|a: int, b: int| 0 <= a < b < pos.len() implies g.time(e[pos[a]] as int) >= g.time(e[pos[b]] as int) by {
            assert(pos[a] < pos[b]);
            assert(e[pos[a]] == ex[n0 + pos[a]] && e[pos[b]] == ex[n0 + pos[b]]);
        }
    }
}

/// Every examined commit can be reached from the start by following
/// parents, and the first one examined is the start itself.
pub proof fn lemma_examined_reachable(w: LogWalker, g: CommitGraph, m: int)
    requires
        w.wf(g),
        0 <= m < w.examined@.len(),
    ensures
        reaches(g, w.start@, w.examined@[m]),
        w.examined@[0] == w.start@,
    decreases m,
{
    let ex = w.examined@;
    if ex[0] != w.start@ {
        assert(found_by(g, ex.subrange(0, 0), ex[0] as int));
        let (k, j) = choose|k: int, j: int|
            0 <= k < ex.subrange(0, 0).len() && 0 <= j < g.parents(ex.subrange(0, 0)[k] as int).len()
                && #[trigger] g.parents(ex.subrange(0, 0)[k] as int)[j] == ex[0] as int;
    }
    if ex[m] == w.start@ {
        let path = seq![w.start@];
        assert(path.last() == ex[m]);
        assert(forall|q: int| 0 <= q < path.len() - 1 ==> #[trigger] g.parents(path[q] as int).contains(path[q + 1]));
    } else {
        let pre = ex.subrange(0, m);
        assert(found_by(g, pre, ex[m] as int));
        let (k, j) = choose|k: int, j: int|
            0 <= k < pre.len() && 0 <= j < g.parents(pre[k] as int).len() && #[trigger] g.parents(pre[k] as int)[j] == ex[m] as int;
        lemma_examined_reachable(w, g, k);
        assert(pre[k] == ex[k]);
        let path = choose|path: Seq<usize>|
            path.len() > 0 && path[0] == w.start@ && path.last() == ex[k] && forall|q: int|
                0 <= q < path.len() - 1 ==> #[trigger] g.parents(path[q] as int).contains(path[q + 1]);
        let np = path.push(ex[m]);
        assert(g.parents(ex[k] as int)[j] == ex[m]);
        assert(g.parents(ex[k] as int).contains(ex[m]));
        assert forall|q: int| 0 <= q < np.len() - 1 implies #[trigger] g.parents(np[q] as int).contains(np[q + 1]) by {
            if q < path.len() - 1 {
                assert(np[q] == path[q] && np[q + 1] == path[q + 1]);
            } else {
                assert(np[q] == ex[k] && np[q + 1] == ex[m]);
            }
        }
        assert(np[0] == w.start@ && np.last() == ex[m]);
    }
}

/// Commits are examined newest first when no commit is newer than its
/// children.
pub proof fn lemma_time_order(w: LogWalker, g: CommitGraph)
    requires
        w.wf(g),
        g.time_ordered(),
    ensures
        forall|a: int, b: int|
            0 <= a < b < w.examined@.len() ==> g.time(w.examined@[a] as int) >= g.time(w.examined@[b] as int),
{
}

/// A read after an earlier one examines only commits the earlier reads
/// did not.
pub proof fn lemma_reentry_no_repeat(
    w0: LogWalker,
    w1: LogWalker,
    g: CommitGraph,
    out0: Seq<CommitId>,
    out1: Seq<CommitId>,
    count: usize,
)
    requires
        w0.wf(g),
        read_post(w0, w1, g, out0, out1, count),
    ensures
        forall|a: int, b: int|
            0 <= a < w0.examined@.len() <= b < w1.examined@.len() ==> w0.examined@[a] != w1.examined@[b],
{
    assert forall|a: int, b: int| 0 <= a < w0.examined@.len() <= b < w1.examined@.len() implies w0.examined@[a] != w1.examined@[b] by {
        assert(w1.examined@.subrange(0, w0.examined@.len() as int)[a] == w0.examined@[a]);
    }
}

/// The verdict of the path filter on a commit with `parent_count` parents
/// whose diff against its parent under the path has `deltas` changes:
/// merges are left out when `skip_merges` is set, the rest are admitted
/// when the diff is not empty.
pub open spec fn path_verdict(skip_merges: bool, parent_count: nat, deltas: nat) -> bool {
    !(skip_merges && parent_count > 1) && deltas > 0
}

/// Decides whether the path filter admits a commit.
pub fn filter_by_path(skip_merges: bool, parent_count: usize, deltas: usize) -> (r: bool)
    ensures
        r == path_verdict(skip_merges, parent_count as nat, deltas as nat),
{
    if skip_merges && parent_count > 1 {
        return false;
    }
    deltas > 0
}

/// With the path filter's verdicts, every delivered commit touches the
/// path, and with `skip_merges` none of them is a merge: the `k`-th
/// delivered id is that of the commit at position `included_positions[k]`.
pub proof fn lemma_path_filter_output(g: CommitGraph, e: Seq<usize>, skip_merges: bool, deltas: Seq<nat>)
    requires
        deltas.len() == g.len(),
        forall|k: int| 0 <= k < e.len() ==> e[k] < g.len(),
        forall|i: int| 0 <= i < g.len() ==> g.nodes@[i].included == path_verdict(skip_merges, g.parents(i).len(), deltas[i]),
    ensures
        included_ids(g, e).len() == included_positions(g, e).len(),
        forall|k: int| #![trigger included_positions(g, e)[k]]
            0 <= k < included_positions(g, e).len() ==> ({
                let c = e[included_positions(g, e)[k]] as int;
                &&& included_ids(g, e)[k] == g.nodes@[c].id
                &&& deltas[c] > 0
                &&& skip_merges ==> g.parents(c).len() <= 1
            }),
{
    lemma_included_positions(g, e);
    let pos = included_positions(g, e);
    assert forall|k: int| #![trigger pos[k]] 0 <= k < pos.len() implies ({
        let c = e[pos[k]] as int;
        &&& included_ids(g, e)[k] == g.nodes@[c].id
        &&& deltas[c] > 0
        &&& skip_merges ==> g.parents(c).len() <= 1
    }) by {
        lemma_included_positions_admitted(g, e, k);
        let c = e[pos[k]] as int;
        assert(0 <= pos[k] < e.len());
        assert(0 <= c < g.len());
        assert(g.nodes@[c].included == path_verdict(skip_merges, g.parents(c).len(), deltas[c]));
    }
}

/// The commit at an admitted position passes the filter.
proof fn lemma_included_positions_admitted(g: CommitGraph, e: Seq<usize>, k: int)
    requires
        0 <= k < included_positions(g, e).len(),
    ensures
        0 <= included_positions(g, e)[k] < e.len(),
        g.nodes@[e[included_positions(g, e)[k]] as int].included,
    decreases e.len(),
{
    let f = e.drop_last();
    let pf = included_positions(g, f);
    if k < pf.len() {
        lemma_included_positions_admitted(g, f, k);
        assert(f[pf[k]] == e[pf[k]]);
    }
}

} // verus!
