use gitui::diff_nav::{hunk_visible, CopyState, DiffCursor, NavKey};
use gitui::diff_search::{DiffSearchKey, Search, SearchDirection, SearchState};
use gitui::diff_view::{find_selected_hunk, get_hunk_line_range, DiffKey, DiffRequest, DiffView};
use gitui::selection::{Direction, Selection};

fn cursor_at(start: usize, lines: usize) -> DiffCursor {
    let mut c = DiffCursor::new();
    c.lines = lines;
    c.selection = Selection::Single(start);
    c
}

#[test]
fn multiple_selection_contains_range_either_way() {
    let s = Selection::Multiple(5, 2);
    for i in 0..8 {
        assert_eq!(s.contains(i), (2..=5).contains(&i));
    }
    let t = Selection::Multiple(2, 5);
    assert!(t.contains(2) && t.contains(5) && !t.contains(6) && !t.contains(1));
    assert!(Selection::Single(3).contains(3));
    assert!(!Selection::Single(3).contains(4));
}

#[test]
fn extending_keeps_anchor_and_orders_top_bottom() {
    let mut s = Selection::Single(4);
    s.modify(Direction::Up, 10);
    s.modify(Direction::Up, 10);
    assert_eq!(s.get_start(), 4);
    assert_eq!(s.get_end(), 2);
    assert_eq!(s.get_top(), 2);
    assert_eq!(s.get_bottom(), 4);
    for _ in 0..10 {
        s.modify(Direction::Down, 6);
    }
    assert_eq!(s.get_start(), 4);
    assert_eq!(s.get_end(), 6);
    assert!(s.get_top() <= s.get_bottom());
}

#[test]
fn numeric_prefix_twelve_up() {
    let mut c = cursor_at(20, 100);
    assert!(c.movement_event(NavKey::Char('1')));
    assert!(c.movement_event(NavKey::Char('2')));
    assert_eq!(c.pending_movement, Some(12));
    assert!(c.movement_event(NavKey::Up));
    assert_eq!(c.selection, Selection::Single(8));
    assert_eq!(c.pending_movement, None);

    let mut c = cursor_at(5, 100);
    c.movement_event(NavKey::Char('1'));
    c.movement_event(NavKey::Char('2'));
    c.movement_event(NavKey::Up);
    assert_eq!(c.selection, Selection::Single(0));
}

#[test]
fn numeric_prefix_down_is_clamped_and_other_keys_clear_it() {
    let mut c = cursor_at(5, 10);
    c.movement_event(NavKey::Char('9'));
    c.movement_event(NavKey::Char('9'));
    c.movement_event(NavKey::Down);
    assert_eq!(c.selection, Selection::Single(9));
    c.movement_event(NavKey::Char('3'));
    assert!(!c.movement_event(NavKey::Char('x')));
    assert_eq!(c.pending_movement, None);
}

#[test]
fn copy_machine_lines_up_and_down() {
    let mut c = cursor_at(10, 50);
    c.copy_op = CopyState::Pending;
    assert_eq!(c.copy_event(NavKey::Char('3'), None), None);
    assert_eq!(c.copy_op, CopyState::Size(3));
    let r = c.copy_event(NavKey::Up, None);
    assert_eq!(r, Some(Selection::Multiple(10, 7)));
    assert_eq!(c.copy_op, CopyState::Idle);
    assert_eq!(c.selection, Selection::Single(10));

    c.copy_op = CopyState::Pending;
    assert_eq!(c.copy_event(NavKey::Down, None), Some(Selection::Multiple(10, 11)));
    c.copy_op = CopyState::Pending;
    assert_eq!(c.copy_event(NavKey::Copy, None), Some(Selection::Single(10)));
    c.copy_op = CopyState::Pending;
    assert_eq!(c.copy_event(NavKey::CopyHunk, Some((8, 14))), Some(Selection::Multiple(8, 14)));
    c.copy_op = CopyState::Pending;
    assert_eq!(c.copy_event(NavKey::Other, None), None);
    assert_eq!(c.copy_op, CopyState::Idle);
}

#[test]
fn hunk_visibility_overlap() {
    assert!(hunk_visible(0, 100, 10, 20));
    assert!(hunk_visible(15, 30, 10, 20));
    assert!(hunk_visible(5, 12, 10, 20));
    assert!(!hunk_visible(21, 30, 10, 20));
    assert!(!hunk_visible(0, 9, 10, 20));
}

#[test]
fn hunk_ranges() {
    let sizes = vec![3, 4, 2];
    assert_eq!(get_hunk_line_range(&sizes, 0), Some((0, 3)));
    assert_eq!(get_hunk_line_range(&sizes, 1), Some((3, 7)));
    assert_eq!(get_hunk_line_range(&sizes, 3), None);
    assert_eq!(find_selected_hunk(&sizes, 6), Some(1));
    assert_eq!(find_selected_hunk(&sizes, 8), Some(2));
    assert_eq!(find_selected_hunk(&sizes, 9), None);
}

fn lines(v: &[&str]) -> Vec<String> {
    v.iter().map(|s| s.to_string()).collect()
}

#[test]
fn smart_case_search_ignores_case_until_uppercase_typed() {
    let text = lines(&["alpha", "Beta", "gamma beta", "BETA"]);
    let mut s = Search::new();
    let mut c = cursor_at(0, 4);
    s.start(0, SearchDirection::Forward);
    for ch in "beta".chars() {
        assert!(s.search_event(DiffSearchKey::Char(ch), &mut c, &text));
    }
    // lowercase needle matches "Beta" case-insensitively
    assert_eq!(c.selection, Selection::Single(1));
    assert!(s.smart_case);
    assert!(s.search_event(DiffSearchKey::Enter, &mut c, &text));
    assert!(matches!(s.search, Some(SearchState::Search(_))));
    assert!(s.search_event(DiffSearchKey::Next, &mut c, &text));
    assert_eq!(c.selection, Selection::Single(2));
    assert!(s.find_in_str("xBeTa"));

    let mut s2 = Search::new();
    let mut c2 = cursor_at(0, 4);
    s2.start(0, SearchDirection::Forward);
    s2.search_event(DiffSearchKey::Char('B'), &mut c2, &text);
    assert!(!s2.smart_case);
    s2.search_event(DiffSearchKey::Char('E'), &mut c2, &text);
    assert_eq!(c2.selection, Selection::Single(3));
    assert!(!s2.find_in_str("beta"));
}

#[test]
fn escape_restores_selection_of_search_start() {
    let text = lines(&["a", "b", "needle", "c"]);
    let mut s = Search::new();
    let mut c = cursor_at(1, 4);
    s.start(1, SearchDirection::Forward);
    s.search_event(DiffSearchKey::Char('n'), &mut c, &text);
    assert_eq!(c.selection, Selection::Single(2));
    assert!(s.search_event(DiffSearchKey::Exit, &mut c, &text));
    assert!(!s.is_active());
    assert_eq!(c.selection, Selection::Single(1));
}

#[test]
fn diff_view_dispatch() {
    let mut v = DiffView {
        cursor: cursor_at(0, 9),
        search: Search::new(),
        lines: lines(&["a", "b", "c", "d", "e", "f", "g", "h", "i"]),
        hunk_sizes: vec![3, 4, 2],
        selected_hunk: Some(0),
        page: 3,
        is_immutable: false,
        is_stage: false,
        untracked: false,
    };
    assert_eq!(v.event(DiffKey::Down), (true, DiffRequest::Nothing));
    assert_eq!(v.cursor.selection, Selection::Single(1));
    assert_eq!(v.event(DiffKey::NextHunk), (true, DiffRequest::Nothing));
    assert_eq!(v.cursor.selection, Selection::Single(3));
    assert_eq!(v.selected_hunk, Some(1));
    assert_eq!(v.event(DiffKey::ShiftDown), (true, DiffRequest::Nothing));
    assert_eq!(v.event(DiffKey::Copy), (true, DiffRequest::CopyLines(Selection::Multiple(3, 4))));
    assert_eq!(v.event(DiffKey::Reset), (true, DiffRequest::ResetHunk));
    v.is_stage = true;
    assert_eq!(v.event(DiffKey::Reset), (false, DiffRequest::Nothing));
    assert_eq!(v.event(DiffKey::StageUnstage), (true, DiffRequest::StageUnstageHunk));
    assert_eq!(v.event(DiffKey::Other), (false, DiffRequest::Nothing));
}

#[test]
fn control_characters_are_not_typed_into_the_needle() {
    let text = lines(&["a", "b"]);
    let mut s = Search::new();
    let mut c = cursor_at(0, 2);
    s.start(0, SearchDirection::Forward);
    assert!(s.search_event(DiffSearchKey::Char('\u{7}'), &mut c, &text));
    match &s.search {
        Some(SearchState::IncSearch(n, p)) => {
            assert!(n.is_empty());
            assert_eq!(*p, 0);
        }
        _ => panic!("search should still be typed"),
    }
}

#[test]
fn search_with_empty_needle_is_not_active_but_takes_keys() {
    let mut s = Search::new();
    s.start(0, SearchDirection::Forward);
    assert!(!s.is_active());
    let mut v = DiffView {
        cursor: cursor_at(0, 3),
        search: s,
        lines: lines(&["a", "b", "xb"]),
        hunk_sizes: vec![3],
        selected_hunk: Some(0),
        page: 3,
        is_immutable: false,
        is_stage: false,
        untracked: false,
    };
    assert_eq!(v.event(DiffKey::Char('b')), (true, DiffRequest::Nothing));
    assert!(v.search.is_active());
    assert_eq!(v.cursor.selection, Selection::Single(1));
}
