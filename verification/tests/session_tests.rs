use nucleo_ui::model::FuzzyMatchModel;
use nucleo_ui::model::KeyPress;
use nucleo_ui::model::StatefulList;

fn model_with(candidates: Vec<&str>) -> FuzzyMatchModel {
    FuzzyMatchModel::new(candidates.into_iter().map(String::from).collect(), false)
}

#[test]
fn delete_at_start_leaves_query_and_cursor_alone() {
    let mut m = model_with(vec!["one", "two"]);
    m.delete_char();
    assert_eq!(m.input_text(), "");
    assert_eq!(m.cursor_position, 0);

    m.enter_char('a');
    m.enter_char('b');
    m.reset_cursor();
    m.delete_char();
    assert_eq!(m.input_text(), "ab");
    assert_eq!(m.cursor_position, 0);
}

#[test]
fn editing_is_character_based_at_the_cursor() {
    let mut m = model_with(vec!["anything"]);
    m.enter_char('a');
    m.enter_char('b');
    assert_eq!(m.cursor_position, 2);
    m.move_cursor_left();
    m.enter_char('c');
    assert_eq!(m.input_text(), "acb");
    assert_eq!(m.cursor_position, 2);

    m.delete_char();
    assert_eq!(m.input_text(), "ab");
    assert_eq!(m.cursor_position, 1);
}

#[test]
fn deleting_multibyte_characters_never_splits_them() {
    let mut m = model_with(vec!["anything"]);
    m.enter_char('\u{e9}');
    m.enter_char('x');
    m.move_cursor_left();
    m.delete_char();
    assert_eq!(m.input_text(), "x");
    assert_eq!(m.cursor_position, 0);
}

#[test]
fn cursor_moves_clamp_to_the_query() {
    let mut m = model_with(vec![]);
    m.move_cursor_left();
    assert_eq!(m.cursor_position, 0);
    m.move_cursor_right();
    assert_eq!(m.cursor_position, 0);
    m.enter_char('q');
    m.move_cursor_right();
    m.move_cursor_right();
    assert_eq!(m.cursor_position, 1);
    assert_eq!(m.clamp_cursor(9), 1);
    assert_eq!(m.clamp_cursor(0), 0);
}

#[test]
fn next_wraps_at_the_end_of_the_matched_range() {
    let mut sl = StatefulList {
        selected: Some(2),
        last_selected: None,
    };
    sl.next(3);
    assert_eq!(sl.selected, Some(0));
    sl.next(3);
    assert_eq!(sl.selected, Some(1));
}

#[test]
fn previous_wraps_at_the_top_of_the_matched_range() {
    let mut sl = StatefulList {
        selected: Some(0),
        last_selected: None,
    };
    sl.previous(3);
    assert_eq!(sl.selected, Some(2));
    sl.previous(3);
    assert_eq!(sl.selected, Some(1));
}

#[test]
fn unset_selection_is_restored_from_the_remembered_position() {
    let mut sl = StatefulList {
        selected: None,
        last_selected: Some(5),
    };
    sl.next(10);
    assert_eq!(sl.selected, Some(5));

    let mut sl = StatefulList {
        selected: None,
        last_selected: None,
    };
    sl.previous(10);
    assert_eq!(sl.selected, Some(0));
}

#[test]
fn initial_selection_follows_the_candidate_list() {
    let m = model_with(vec!["a", "b"]);
    assert_eq!(m.items.selected, Some(0));
    assert_eq!(m.items.last_selected, None);
    let m = model_with(vec![]);
    assert_eq!(m.items.selected, None);
}

#[test]
fn key_presses_drive_the_session() {
    let mut m = model_with(vec!["one"]);
    m.handle_key(KeyPress::Char('h'), false);
    m.handle_key(KeyPress::Char('i'), false);
    assert_eq!(m.input_text(), "hi");
    m.handle_key(KeyPress::Backspace, false);
    assert_eq!(m.input_text(), "h");
    m.handle_key(KeyPress::Other, true);
    assert_eq!(m.input_text(), "h");
    assert!(m.running);
    m.handle_key(KeyPress::Char('C'), true);
    assert!(!m.running);
    assert_eq!(m.input_text(), "h");
}

#[test]
fn escape_ends_the_session_without_a_result() {
    let mut m = model_with(vec!["one"]);
    m.handle_key(KeyPress::Esc, false);
    assert!(!m.running);
    assert_eq!(m.result, None);
}

#[test]
fn select_with_no_visible_rows_commits_nothing() {
    let mut m = model_with(vec!["a", "b"]);
    // No tick has run: the snapshot window is empty though a row is selected.
    m.select();
    assert_eq!(m.result, None);
    assert!(m.running);
    m.quit();
    assert!(!m.running);
}
