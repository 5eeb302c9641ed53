use stocks_dashboard::widgets::{
    KeyCode, SelectError, SelectMenuEvent, SelectMenuState, TextFieldEvent, TextFieldState,
};

#[test]
fn text_field_upper_cases_and_accepts() {
    let mut f = TextFieldState::new(true);
    f.activate();
    for c in ['a', 'a', 'p', 'l', '.', '1'] {
        assert!(f.handle_key(KeyCode::Char(c)).is_none());
    }
    assert_eq!(f.value_string(), "AAPL.1");
    f.handle_key(KeyCode::Backspace);
    f.handle_key(KeyCode::Backspace);
    assert_eq!(f.cursor(), 4);
    match f.handle_key(KeyCode::Enter) {
        Some(TextFieldEvent::Accept(v)) => assert_eq!(v, "AAPL"),
        other => panic!("expected accept, got {:?}", other),
    }
    assert!(!f.active);
    assert!(f.value.is_empty());
}

#[test]
fn text_field_keeps_case_when_asked() {
    let mut f = TextFieldState::new(false);
    f.activate();
    f.handle_key(KeyCode::Char('x'));
    assert_eq!(f.value_string(), "x");
}

#[test]
fn text_field_escape_discards() {
    let mut f = TextFieldState::new(true);
    f.activate();
    f.handle_key(KeyCode::Char('t'));
    assert!(matches!(f.handle_key(KeyCode::Esc), Some(TextFieldEvent::Cancel)));
    assert!(!f.active);
    f.activate();
    assert_eq!(f.value_string(), "");
    f.handle_key(KeyCode::Backspace);
    assert_eq!(f.cursor(), 0);
}

#[test]
fn menu_cursor_stops_at_ends() {
    let mut m = SelectMenuState::new(vec![10u8, 20, 30], false);
    assert_eq!(m.selected, Some(0));
    m.activate();
    m.handle_key(KeyCode::Up);
    assert_eq!(m.selected, Some(0));
    m.handle_key(KeyCode::Down);
    m.handle_key(KeyCode::Down);
    m.handle_key(KeyCode::Down);
    assert_eq!(m.selected, Some(2));
    assert_eq!(m.handle_key(KeyCode::Enter), Some(SelectMenuEvent::Accept(Some(30))));
    assert!(!m.active);
}

#[test]
fn menu_with_empty_selection() {
    let mut m = SelectMenuState::new(vec!['a', 'b'], true);
    assert_eq!(m.selected, None);
    m.activate();
    m.handle_key(KeyCode::Down);
    assert_eq!(m.selection(), Some('a'));
    m.handle_key(KeyCode::Up);
    assert_eq!(m.selection(), None);
    assert_eq!(m.handle_key(KeyCode::Enter), Some(SelectMenuEvent::Accept(None)));
}

#[test]
fn menu_escape_reverts_navigation() {
    let mut m = SelectMenuState::new(vec![1u32, 2, 3, 4], false);
    assert_eq!(m.select(Some(1)), Ok(()));
    m.activate();
    m.handle_key(KeyCode::Down);
    m.handle_key(KeyCode::Down);
    assert_eq!(m.selected, Some(3));
    assert_eq!(m.handle_key(KeyCode::Esc), Some(SelectMenuEvent::Cancel));
    assert_eq!(m.selected, Some(1));
    m.activate();
    m.pick_row(2);
    assert_eq!(m.selected, Some(2));
    m.deactivate();
    assert_eq!(m.selected, Some(1));
}

#[test]
fn menu_pick_row_with_empty_row() {
    let mut m = SelectMenuState::new(vec![5i32, 6, 7], true);
    m.pick_row(3);
    assert_eq!(m.selection(), Some(7));
    m.pick_row(0);
    assert_eq!(m.selection(), None);
    m.pick_row(9);
    assert_eq!(m.selection(), None);
}

#[test]
fn menu_select_errors() {
    let mut m = SelectMenuState::new(vec![1u8, 2], false);
    assert_eq!(m.select(Some(2)), Err(SelectError::OutOfRange));
    assert_eq!(m.select(None), Err(SelectError::EmptyNotAllowed));
    assert_eq!(m.selected, Some(0));
}
