use gitui::blame_search::{BlameKey, BlameRequest, BlameSearch, BlameState, LinePos, SearchKey, SearchState};

fn file_of(n: usize, with: &[(usize, &str)]) -> Vec<String> {
    let mut v: Vec<String> = (0..n).map(|i| format!("line {}", i)).collect();
    for (i, s) in with {
        v[*i] = s.to_string();
    }
    v
}

#[test]
fn search_state_validity() {
    let mut s = SearchState::new();
    assert!(!s.is_valid());
    s.needle = Some(String::new());
    assert!(!s.is_valid());
    s.needle = Some("x".to_string());
    assert!(s.is_valid());
    assert!(!s.has_result());
    s.found = Some(LinePos { line: 0, offset: 0 });
    assert!(s.has_result());
}

#[test]
fn incremental_blame_search_scenario() {
    let lines = file_of(200, &[(40, "let foo = 1;"), (120, "foobar()"), (150, "a foo b")]);
    let mut b = BlameSearch::new(lines);
    b.height = 20;
    b.selection = 10;
    b.event(BlameKey::SearchInit);
    assert!(b.state == BlameState::SearchEditing);
    for c in "foo".chars() {
        b.event(BlameKey::Char(c));
    }
    assert_eq!(b.selection, 40);
    b.event(BlameKey::Char('b'));
    assert_eq!(b.selection, 120);
    b.event(BlameKey::Backspace);
    assert_eq!(b.search.needle.as_deref(), Some("foo"));
    assert_eq!(b.selection, 40);
    b.event(BlameKey::Exit);
    assert_eq!(b.selection, 10);
    assert!(b.search.needle.is_none());
    assert!(b.state == BlameState::Normal);
}

#[test]
fn search_next_visits_all_and_wraps() {
    let lines = file_of(10, &[(2, "xx foo"), (5, "foo"), (8, "foo foo")]);
    let mut b = BlameSearch::new(lines);
    b.search.needle = Some("foo".to_string());
    let mut seen = Vec::new();
    for _ in 0..5 {
        b.search_next();
        let f = b.search.found.unwrap();
        seen.push((f.line, f.offset));
    }
    assert_eq!(seen, vec![(2, 3), (5, 0), (8, 0), (8, 4), (2, 3)]);
    b.search_prev();
    assert_eq!(b.search.found, Some(LinePos { line: 8, offset: 4 }));
}

#[test]
fn search_keys_in_edit_state() {
    let mut b = BlameSearch::new(file_of(5, &[(3, "abc")]));
    b.enter_search_mode();
    b.event_search_edit_state(SearchKey::Char('b'));
    assert_eq!(b.selection, 3);
    b.event_search_edit_state(SearchKey::Enter);
    assert!(b.state == BlameState::Normal);
    assert_eq!(b.search.start, LinePos { line: 3, offset: 1 });
}

#[test]
fn blame_keys() {
    let mut b = BlameSearch::new(file_of(30, &[]));
    b.height = 12;
    assert_eq!(b.event(BlameKey::PageDown), BlameRequest::Nothing);
    assert_eq!(b.selection, 10);
    b.event(BlameKey::Char('1'));
    b.event(BlameKey::Char('7'));
    b.event(BlameKey::End);
    assert_eq!(b.selection, 17);
    b.event(BlameKey::End);
    assert_eq!(b.selection, 29);
    b.event(BlameKey::Char('9'));
    b.event(BlameKey::Char('9'));
    b.event(BlameKey::End);
    assert_eq!(b.selection, 29);
    assert_eq!(b.event(BlameKey::Exit), BlameRequest::Close);
    assert_eq!(b.event(BlameKey::Push), BlameRequest::BlameParent);
}

#[test]
fn incremental_search_keeps_a_match_at_the_start() {
    let mut b = BlameSearch::new(file_of(5, &[(0, "foo"), (1, "foo")]));
    b.enter_search_mode();
    for c in "foo".chars() {
        b.event(BlameKey::Char(c));
        assert_eq!(b.selection, 0);
        assert_eq!(b.search.found, Some(LinePos { line: 0, offset: 0 }));
    }
    b.event(BlameKey::Backspace);
    assert_eq!(b.selection, 0);
}

#[test]
fn empty_file_takes_keys() {
    let mut b = BlameSearch::new(Vec::new());
    b.height = 10;
    for k in [BlameKey::Down, BlameKey::End, BlameKey::PageDown, BlameKey::Up, BlameKey::Home] {
        assert_eq!(b.event(k), BlameRequest::Nothing);
        assert_eq!(b.selection, 0);
    }
    b.event(BlameKey::SearchInit);
    b.event(BlameKey::Char('x'));
    assert_eq!(b.selection, 0);
    assert!(b.search.found.is_none());
    b.event(BlameKey::Enter);
    b.event(BlameKey::SearchNext);
    b.event(BlameKey::SearchPrev);
    assert_eq!(b.selection, 0);
}
