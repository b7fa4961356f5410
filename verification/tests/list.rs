use flox_debugger::list::{initial_list_state, ListCursor};
use ratatui::widgets::ListState;

#[test]
fn new_cursor_selects_nothing() {
    assert_eq!(ListCursor::default().selected(), None);
    assert_eq!(ListState::default().selected(), None);
}

#[test]
fn initial_cursor_selects_the_first_item_of_a_list_with_items() {
    assert_eq!(initial_list_state(0).selected(), None);
    assert_eq!(initial_list_state(1).selected(), Some(0));
    assert_eq!(initial_list_state(7).selected(), Some(0));
}

#[test]
fn select_first_next_and_previous() {
    let mut cursor = ListCursor::default();
    cursor.select_next();
    assert_eq!(cursor.selected(), Some(0));
    cursor.select_next();
    cursor.select_next();
    assert_eq!(cursor.selected(), Some(2));
    cursor.select_previous();
    assert_eq!(cursor.selected(), Some(1));
    cursor.select_first();
    assert_eq!(cursor.selected(), Some(0));
    cursor.select_previous();
    assert_eq!(cursor.selected(), Some(0));
}

#[test]
fn select_previous_without_selection_selects_the_largest_index() {
    let mut cursor = ListCursor::default();
    cursor.select_previous();
    assert_eq!(cursor.selected(), Some(usize::MAX));
    cursor.select_next();
    assert_eq!(cursor.selected(), Some(usize::MAX));
}

#[test]
fn cursor_agrees_with_the_list_state_of_the_widget() {
    let mut cursor = ListCursor::default();
    let mut state = ListState::default();
    for step in [1, 1, 0, 1, 2, 0, 0, 0, 0, 1, 2, 1, 1] {
        match step {
            0 => {
                cursor.select_previous();
                state.select_previous();
            }
            1 => {
                cursor.select_next();
                state.select_next();
            }
            _ => {
                cursor.select_first();
                state.select_first();
            }
        }
        assert_eq!(cursor.selected(), state.selected());
    }
}

#[test]
fn movement_is_clamped() {
    let mut cursor = initial_list_state(3);
    cursor.move_up();
    assert_eq!(cursor.selected(), Some(0));
    cursor.move_down(3);
    assert_eq!(cursor.selected(), Some(1));
    cursor.move_down(3);
    assert_eq!(cursor.selected(), Some(2));
    cursor.move_down(3);
    assert_eq!(cursor.selected(), Some(2));
    cursor.move_up();
    assert_eq!(cursor.selected(), Some(1));
}

#[test]
fn movement_without_selection_changes_nothing() {
    let mut cursor = ListCursor::default();
    cursor.move_up();
    assert_eq!(cursor.selected(), None);
    cursor.move_down(5);
    assert_eq!(cursor.selected(), None);
    cursor.move_down(0);
    assert_eq!(cursor.selected(), None);
}

#[test]
fn movement_in_an_empty_or_shorter_list_changes_nothing() {
    let mut cursor = initial_list_state(3);
    cursor.move_down(0);
    assert_eq!(cursor.selected(), Some(0));
    cursor.move_down(1);
    assert_eq!(cursor.selected(), Some(0));
    cursor.select_previous();
    let mut far = ListCursor::default();
    far.select_previous();
    far.move_down(usize::MAX);
    assert_eq!(far.selected(), Some(usize::MAX));
    far.move_up();
    assert_eq!(far.selected(), Some(usize::MAX - 1));
}
