use gitui::commit::CommitId;
use gitui::logwalker::{filter_by_path, CommitGraph, CommitNode, LogWalker};

fn id(n: u8) -> CommitId {
    CommitId::new([n; 20])
}

/// A linear history: commit i has parent i + 1, newer first.
fn linear(n: usize, included: impl Fn(usize) -> bool) -> CommitGraph {
    let nodes = (0..n)
        .map(|i| CommitNode {
            id: id(i as u8),
            time: 1000 - i as i64,
            parents: if i + 1 < n { vec![i + 1] } else { vec![] },
            included: included(i),
        })
        .collect();
    CommitGraph { nodes }
}

#[test]
fn read_yields_exactly_limit() {
    let g = linear(10, |_| true);
    let mut w = LogWalker::new(&g, 0, 4, 0);
    let mut out = Vec::new();
    assert_eq!(w.read(&g, &mut out), 4);
    assert_eq!(out, vec![id(0), id(1), id(2), id(3)]);
}

#[test]
fn reentry_continues_without_repeats() {
    let g = linear(6, |_| true);
    let mut w = LogWalker::new(&g, 0, 4, 0);
    let mut out = Vec::new();
    assert_eq!(w.read(&g, &mut out), 4);
    assert_eq!(w.read(&g, &mut out), 2);
    assert_eq!(out, (0..6).map(|i| id(i)).collect::<Vec<_>>());
    assert_eq!(w.read(&g, &mut out), 0);
}

#[test]
fn reject_all_filter_yields_nothing() {
    let g = linear(10, |_| false);
    let mut w = LogWalker::new(&g, 0, 5, 0);
    let mut out = Vec::new();
    assert_eq!(w.read(&g, &mut out), 5);
    assert!(out.is_empty());
}

#[test]
fn merge_history_in_time_order() {
    // 0 merges 1 and 2; both have parent 3
    let nodes = vec![
        CommitNode { id: id(0), time: 40, parents: vec![1, 2], included: true },
        CommitNode { id: id(1), time: 20, parents: vec![3], included: true },
        CommitNode { id: id(2), time: 30, parents: vec![3], included: true },
        CommitNode { id: id(3), time: 10, parents: vec![], included: true },
    ];
    let g = CommitGraph { nodes };
    let mut w = LogWalker::new(&g, 0, 0, 0);
    let mut out = Vec::new();
    assert_eq!(w.read(&g, &mut out), 4);
    assert_eq!(out, vec![id(0), id(2), id(1), id(3)]);
}

#[test]
fn filtered_limit_stops_the_walk() {
    let g = linear(10, |i| i % 3 == 0);
    let mut w = LogWalker::new(&g, 0, 0, 2);
    let mut out = Vec::new();
    // commit 3 is the second admitted one; it is not counted
    assert_eq!(w.read(&g, &mut out), 3);
    assert_eq!(out, vec![id(0), id(3)]);
}

#[test]
fn path_filter_verdicts() {
    assert!(filter_by_path(false, 2, 1));
    assert!(!filter_by_path(true, 2, 1));
    assert!(filter_by_path(true, 1, 3));
    assert!(!filter_by_path(false, 1, 0));
}

#[test]
fn path_filter_and_clearing_it_in_a_walk() {
    // commits touching the chosen path: 1 and 4
    let touches = |i: usize| i == 1 || i == 4;
    let g = linear(6, |i| filter_by_path(true, 1, if touches(i) { 1 } else { 0 }));
    let mut w = LogWalker::new(&g, 0, 0, 0);
    let mut out = Vec::new();
    w.read(&g, &mut out);
    assert_eq!(out, vec![id(1), id(4)]);
    let all = linear(6, |_| true);
    let mut w = LogWalker::new(&all, 0, 0, 0);
    let mut out = Vec::new();
    assert_eq!(w.read(&all, &mut out), 6);
}

#[test]
fn equal_times_start_with_head() {
    // c1 <- c2, both at the same time; the walk starts at c2
    let nodes = vec![
        CommitNode { id: id(1), time: 50, parents: vec![], included: true },
        CommitNode { id: id(2), time: 50, parents: vec![0], included: true },
    ];
    let g = CommitGraph { nodes };
    let mut w = LogWalker::new(&g, 1, 100, 0);
    let mut out = Vec::new();
    assert_eq!(w.read(&g, &mut out), 2);
    assert_eq!(out, vec![id(2), id(1)]);
    let mut more = Vec::new();
    assert_eq!(w.read(&g, &mut more), 0);
    assert!(more.is_empty());
}
