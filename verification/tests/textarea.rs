use letter::key::KeyCode;
use letter::ui::panel::overview_panel::CursorMovement;
use letter::ui::textarea::{KeyHandler, Reply, TextArea, TextBuffer};

type Plain = TextArea<(), (), Reply<()>>;

fn area(lines: &[&str]) -> Plain {
    TextArea::new(lines.iter().map(|line| line.to_string()).collect())
}

fn text(area: &Plain) -> Vec<&str> {
    area.lines().iter().map(|line| line.as_str()).collect()
}

#[test]
fn new_without_lines_holds_one_empty_line() {
    let ta = area(&[]);
    assert_eq!(text(&ta), vec![""]);
    assert_eq!(ta.get_cursor(), (0, 0));
}

#[test]
fn new_keeps_its_lines_and_starts_at_the_origin() {
    let ta = area(&["one", "two"]);
    assert_eq!(text(&ta), vec!["one", "two"]);
    assert_eq!(ta.get_cursor(), (0, 0));
}

#[test]
fn set_lines_replaces_the_text_and_resets_the_cursor() {
    let mut ta = area(&["one", "two"]);
    ta.set_cursor((2, 1));
    ta.set_lines(vec!["three".to_string()]);
    assert_eq!(text(&ta), vec!["three"]);
    assert_eq!(ta.get_cursor(), (0, 0));
    ta.set_cursor((3, 0));
    ta.set_lines(vec![]);
    assert_eq!(text(&ta), vec![""]);
    assert_eq!(ta.get_cursor(), (0, 0));
}

#[test]
fn set_cursor_goes_to_the_nearest_position() {
    let mut ta = area(&["hello", "hi"]);
    ta.set_cursor((5, 0));
    assert_eq!(ta.get_cursor(), (5, 0));
    ta.set_cursor((6, 0));
    assert_eq!(ta.get_cursor(), (5, 0));
    ta.set_cursor((1, 7));
    assert_eq!(ta.get_cursor(), (1, 1));
    ta.set_cursor((9, 9));
    assert_eq!(ta.get_cursor(), (2, 1));
}

#[test]
fn move_left_steps_and_wraps_to_the_line_above() {
    let mut ta = area(&["ab", "cd"]);
    ta.set_cursor((1, 1));
    ta.move_cursor_left();
    assert_eq!(ta.get_cursor(), (0, 1));
    ta.move_cursor_left();
    assert_eq!(ta.get_cursor(), (2, 0));
    ta.set_cursor((0, 0));
    ta.move_cursor_left();
    assert_eq!(ta.get_cursor(), (0, 0));
}

#[test]
fn move_right_steps_and_wraps_to_the_line_below() {
    let mut ta = area(&["ab", "", "cd"]);
    ta.move_cursor_right();
    assert_eq!(ta.get_cursor(), (1, 0));
    ta.move_cursor_right();
    assert_eq!(ta.get_cursor(), (2, 0));
    ta.move_cursor_right();
    assert_eq!(ta.get_cursor(), (0, 1));
    ta.move_cursor_right();
    assert_eq!(ta.get_cursor(), (0, 2));
    ta.set_cursor((2, 2));
    ta.move_cursor_right();
    assert_eq!(ta.get_cursor(), (2, 2));
}

#[test]
fn move_left_then_right_returns() {
    let mut ta = area(&["hello"]);
    for column in 1..=5 {
        ta.set_cursor((column, 0));
        ta.move_cursor_left();
        ta.move_cursor_right();
        assert_eq!(ta.get_cursor(), (column, 0));
    }
}

#[test]
fn move_up_and_down_keep_the_column_or_clamp() {
    let mut ta = area(&["hello", "hi", "hello"]);
    ta.set_cursor((4, 0));
    ta.move_cursor_down();
    assert_eq!(ta.get_cursor(), (2, 1));
    ta.move_cursor_down();
    assert_eq!(ta.get_cursor(), (2, 2));
    ta.move_cursor_down();
    assert_eq!(ta.get_cursor(), (2, 2));
    ta.set_cursor((5, 2));
    ta.move_cursor_up();
    assert_eq!(ta.get_cursor(), (2, 1));
    ta.move_cursor_up();
    assert_eq!(ta.get_cursor(), (2, 0));
    ta.move_cursor_up();
    assert_eq!(ta.get_cursor(), (2, 0));
}

#[test]
fn move_to_line_start_and_end() {
    let mut ta = area(&["hello", ""]);
    ta.move_cursor_to_line_end();
    assert_eq!(ta.get_cursor(), (5, 0));
    ta.move_cursor_to_line_start();
    assert_eq!(ta.get_cursor(), (0, 0));
    ta.set_cursor((0, 1));
    ta.move_cursor_to_line_end();
    assert_eq!(ta.get_cursor(), (0, 1));
}

#[test]
fn move_times_repeats_the_single_move() {
    let mut ta = area(&["ab", "cd"]);
    ta.move_cursor_right_times(4);
    assert_eq!(ta.get_cursor(), (1, 1));
    ta.move_cursor_right_times(0);
    assert_eq!(ta.get_cursor(), (1, 1));
    ta.move_cursor_right_times(40);
    assert_eq!(ta.get_cursor(), (2, 1));
    ta.move_cursor_left_times(3);
    assert_eq!(ta.get_cursor(), (2, 0));
    ta.move_cursor_left_times(300);
    assert_eq!(ta.get_cursor(), (0, 0));
}

#[test]
fn word_forward_on_three_words_at_the_buffer_end() {
    let mut ta = area(&["abc def ghi"]);
    ta.move_cursor_one_word_forward();
    assert_eq!(ta.get_cursor(), (4, 0));
    ta.move_cursor_one_word_forward();
    assert_eq!(ta.get_cursor(), (8, 0));
    ta.move_cursor_one_word_forward();
    assert_eq!(ta.get_cursor(), (8, 0));
}

#[test]
fn word_forward_wraps_to_the_next_line() {
    let mut ta = area(&["abc def ghi", "next"]);
    ta.move_cursor_one_word_forward();
    ta.move_cursor_one_word_forward();
    ta.move_cursor_one_word_forward();
    assert_eq!(ta.get_cursor(), (0, 1));
    ta.move_cursor_one_word_forward();
    assert_eq!(ta.get_cursor(), (0, 1));
}

#[test]
fn word_forward_from_spaces_and_over_trailing_spaces() {
    let mut ta = area(&["ab   cd  ", "", "x"]);
    ta.set_cursor((3, 0));
    ta.move_cursor_one_word_forward();
    assert_eq!(ta.get_cursor(), (5, 0));
    ta.move_cursor_one_word_forward();
    assert_eq!(ta.get_cursor(), (9, 0));
    ta.move_cursor_one_word_forward();
    assert_eq!(ta.get_cursor(), (0, 1));
    ta.move_cursor_one_word_forward();
    assert_eq!(ta.get_cursor(), (0, 2));
}

#[test]
fn word_backward_lands_on_word_starts() {
    let mut ta = area(&["abc def ghi"]);
    ta.set_cursor((11, 0));
    ta.move_cursor_one_word_backward();
    assert_eq!(ta.get_cursor(), (8, 0));
    ta.move_cursor_one_word_backward();
    assert_eq!(ta.get_cursor(), (4, 0));
    ta.set_cursor((6, 0));
    ta.move_cursor_one_word_backward();
    assert_eq!(ta.get_cursor(), (4, 0));
    ta.move_cursor_one_word_backward();
    assert_eq!(ta.get_cursor(), (0, 0));
    ta.move_cursor_one_word_backward();
    assert_eq!(ta.get_cursor(), (0, 0));
}

#[test]
fn word_backward_wraps_to_the_end_of_the_line_above() {
    let mut ta = area(&["abc", "", "  de"]);
    ta.set_cursor((2, 2));
    ta.move_cursor_one_word_backward();
    assert_eq!(ta.get_cursor(), (0, 2));
    ta.move_cursor_one_word_backward();
    assert_eq!(ta.get_cursor(), (0, 1));
    ta.move_cursor_one_word_backward();
    assert_eq!(ta.get_cursor(), (3, 0));
}

#[test]
fn insert_char_shifts_the_rest_and_advances() {
    let mut ta = area(&["ac", "z"]);
    ta.set_cursor((1, 0));
    ta.insert_char_at_cursor('b');
    assert_eq!(text(&ta), vec!["abc", "z"]);
    assert_eq!(ta.get_cursor(), (2, 0));
    ta.set_cursor((3, 0));
    ta.insert_char_at_cursor('d');
    assert_eq!(text(&ta), vec!["abcd", "z"]);
    assert_eq!(ta.get_cursor(), (4, 0));
}

#[test]
fn insert_char_into_an_empty_line() {
    let mut ta = area(&[]);
    ta.insert_char_at_cursor('x');
    assert_eq!(text(&ta), vec!["x"]);
    assert_eq!(ta.get_cursor(), (1, 0));
}

#[test]
fn columns_count_characters() {
    let mut ta = area(&["héllo wörld"]);
    ta.move_cursor_one_word_forward();
    assert_eq!(ta.get_cursor(), (6, 0));
    ta.insert_char_at_cursor('ß');
    assert_eq!(text(&ta), vec!["héllo ßwörld"]);
    assert_eq!(ta.get_cursor(), (7, 0));
    ta.set_cursor((2, 0));
    ta.delete_char_at_cursor();
    assert_eq!(text(&ta), vec!["hllo ßwörld"]);
    assert_eq!(ta.get_cursor(), (1, 0));
    ta.move_cursor_to_line_end();
    assert_eq!(ta.get_cursor(), (11, 0));
}

#[test]
fn insert_then_delete_restores_line_and_column() {
    let mut ta = area(&["hello", "world"]);
    for column in 0..=5 {
        ta.set_cursor((column, 1));
        ta.insert_char_at_cursor('x');
        ta.delete_char_at_cursor();
        assert_eq!(text(&ta), vec!["hello", "world"]);
        assert_eq!(ta.get_cursor(), (column, 1));
    }
}

#[test]
fn line_break_at_the_end_of_a_line() {
    let mut ta = area(&["hello", "world"]);
    ta.set_cursor((5, 0));
    ta.insert_line_break_at_cursor();
    assert_eq!(text(&ta), vec!["hello", "", "world"]);
    assert_eq!(ta.get_cursor(), (0, 1));
}

#[test]
fn line_break_splits_the_line_at_the_cursor() {
    let mut ta = area(&["hello"]);
    ta.set_cursor((2, 0));
    ta.insert_line_break_at_cursor();
    assert_eq!(text(&ta), vec!["he", "llo"]);
    assert_eq!(ta.get_cursor(), (0, 1));
    ta.insert_line_break_at_cursor();
    assert_eq!(text(&ta), vec!["he", "", "llo"]);
    assert_eq!(ta.get_cursor(), (0, 2));
    ta.set_cursor((2, 2));
    ta.insert_line_break_at_cursor();
    assert_eq!(text(&ta), vec!["he", "", "ll", "o"]);
    assert_eq!(ta.get_cursor(), (0, 3));
}

#[test]
fn line_break_then_delete_restores_the_line() {
    let mut ta = area(&["first", "hello", "last"]);
    for column in 0..=5 {
        ta.set_cursor((column, 1));
        ta.insert_line_break_at_cursor();
        assert_eq!(ta.get_cursor(), (0, 2));
        ta.delete_char_at_cursor();
        assert_eq!(text(&ta), vec!["first", "hello", "last"]);
        assert_eq!(ta.get_cursor(), (column, 1));
    }
}

#[test]
fn delete_at_the_start_of_the_buffer_does_nothing() {
    let mut ta = area(&["ab"]);
    ta.delete_char_at_cursor();
    assert_eq!(text(&ta), vec!["ab"]);
    assert_eq!(ta.get_cursor(), (0, 0));
}

#[test]
fn delete_at_the_start_of_a_line_joins_it_to_the_line_above() {
    let mut ta = area(&["ab", "cd"]);
    ta.set_cursor((0, 1));
    ta.delete_char_at_cursor();
    assert_eq!(text(&ta), vec!["abcd"]);
    assert_eq!(ta.get_cursor(), (2, 0));
}

#[test]
fn delete_removes_the_character_before_the_cursor() {
    let mut ta = area(&["abc"]);
    ta.set_cursor((3, 0));
    ta.delete_char_at_cursor();
    assert_eq!(text(&ta), vec!["ab"]);
    assert_eq!(ta.get_cursor(), (2, 0));
    ta.set_cursor((1, 0));
    ta.delete_char_at_cursor();
    assert_eq!(text(&ta), vec!["b"]);
    assert_eq!(ta.get_cursor(), (0, 0));
}

#[test]
fn without_line_breaks_enter_and_joining_backspace_do_nothing() {
    let mut ta = area(&["ab", "cd"]);
    ta.disallow_line_breaks();
    ta.set_cursor((1, 0));
    ta.insert_line_break_at_cursor();
    assert_eq!(text(&ta), vec!["ab", "cd"]);
    assert_eq!(ta.get_cursor(), (1, 0));
    ta.set_cursor((0, 1));
    ta.delete_char_at_cursor();
    assert_eq!(text(&ta), vec!["ab", "cd"]);
    assert_eq!(ta.get_cursor(), (0, 1));
    ta.set_cursor((1, 1));
    ta.delete_char_at_cursor();
    assert_eq!(text(&ta), vec!["ab", "d"]);
    assert_eq!(ta.get_cursor(), (0, 1));
}

#[test]
fn insert_line_keeps_the_cursor_where_the_line_allows() {
    let mut ta = area(&["hello", "world"]);
    ta.set_cursor((4, 0));
    ta.insert_line(1, "new".to_string());
    assert_eq!(text(&ta), vec!["hello", "new", "world"]);
    assert_eq!(ta.get_cursor(), (4, 0));
    ta.insert_line(3, "end".to_string());
    assert_eq!(text(&ta), vec!["hello", "new", "world", "end"]);
    assert_eq!(ta.get_cursor(), (4, 0));
    ta.insert_line(0, "ab".to_string());
    assert_eq!(text(&ta), vec!["ab", "hello", "new", "world", "end"]);
    assert_eq!(ta.get_cursor(), (2, 0));
}

#[test]
fn delete_the_only_line_leaves_one_empty_line() {
    let mut ta = area(&["hello"]);
    ta.set_cursor((3, 0));
    ta.delete_current_line();
    assert_eq!(text(&ta), vec![""]);
    assert_eq!(ta.get_cursor(), (0, 0));
}

#[test]
fn delete_the_last_line_moves_the_cursor_up() {
    let mut ta = area(&["ab", "hello"]);
    ta.set_cursor((4, 1));
    ta.delete_current_line();
    assert_eq!(text(&ta), vec!["ab"]);
    assert_eq!(ta.get_cursor(), (2, 0));
}

#[test]
fn delete_a_line_in_the_middle_keeps_the_row() {
    let mut ta = area(&["first", "hello", "xy", "last"]);
    ta.set_cursor((4, 1));
    ta.delete_current_line();
    assert_eq!(text(&ta), vec!["first", "xy", "last"]);
    assert_eq!(ta.get_cursor(), (2, 1));
    ta.set_cursor((1, 0));
    ta.delete_current_line();
    assert_eq!(text(&ta), vec!["xy", "last"]);
    assert_eq!(ta.get_cursor(), (1, 0));
}

#[test]
fn the_cursor_stays_on_the_text_through_a_run_of_operations() {
    let mut ta = area(&["alpha beta", "", "gamma"]);
    let keys = [
        KeyCode::Down,
        KeyCode::Down,
        KeyCode::Right,
        KeyCode::Enter,
        KeyCode::Char('x'),
        KeyCode::Up,
        KeyCode::Backspace,
        KeyCode::Backspace,
        KeyCode::Backspace,
        KeyCode::Left,
        KeyCode::Tab,
        KeyCode::Up,
        KeyCode::Up,
    ];
    let mut state = ();
    for key in keys {
        assert_eq!(ta.process_key(key, &mut state), None);
        let (column, row) = ta.get_cursor();
        assert!(!ta.lines().is_empty());
        assert!(row < ta.lines().len());
        assert!(column <= ta.lines()[row].chars().count());
    }
    ta.delete_current_line();
    ta.delete_current_line();
    ta.delete_current_line();
    ta.delete_current_line();
    assert_eq!(text(&ta), vec![""]);
    assert_eq!(ta.get_cursor(), (0, 0));
}

#[test]
fn keys_have_their_default_meaning() {
    let mut ta = area(&["ab", "cd"]);
    let mut state = ();
    assert_eq!(ta.process_key(KeyCode::Right, &mut state), None);
    assert_eq!(ta.get_cursor(), (1, 0));
    assert_eq!(ta.process_key(KeyCode::Down, &mut state), None);
    assert_eq!(ta.get_cursor(), (1, 1));
    assert_eq!(ta.process_key(KeyCode::Left, &mut state), None);
    assert_eq!(ta.get_cursor(), (0, 1));
    assert_eq!(ta.process_key(KeyCode::Up, &mut state), None);
    assert_eq!(ta.get_cursor(), (0, 0));
    assert_eq!(ta.process_key(KeyCode::Char('x'), &mut state), None);
    assert_eq!(text(&ta), vec!["xab", "cd"]);
    assert_eq!(ta.process_key(KeyCode::Enter, &mut state), None);
    assert_eq!(text(&ta), vec!["x", "ab", "cd"]);
    assert_eq!(ta.get_cursor(), (0, 1));
    assert_eq!(ta.process_key(KeyCode::Backspace, &mut state), None);
    assert_eq!(text(&ta), vec!["xab", "cd"]);
    assert_eq!(ta.get_cursor(), (1, 0));
}

#[test]
fn other_keys_do_nothing_by_default() {
    let mut ta = area(&["ab"]);
    let mut state = ();
    for key in [KeyCode::Esc, KeyCode::Tab, KeyCode::Home, KeyCode::F(1), KeyCode::Delete, KeyCode::Null] {
        assert_eq!(ta.process_key(key, &mut state), None);
        assert_eq!(text(&ta), vec!["ab"]);
        assert_eq!(ta.get_cursor(), (0, 0));
    }
}

struct Counting {
    consume: bool,
}

impl KeyHandler<u32, &'static str> for Counting {
    fn handle(&mut self, text: &mut TextBuffer, state: &mut u32) -> (bool, &'static str) {
        *state += 1;
        text.move_cursor_to_line_end();
        (self.consume, "handled")
    }
}

#[test]
fn a_handler_that_consumes_stops_the_default() {
    let mut ta: TextArea<u32, &'static str, Counting> = TextArea::new(vec!["ab".to_string()]);
    ta.on_key(KeyCode::Enter, Counting { consume: true });
    let mut calls = 0;
    assert_eq!(ta.process_key(KeyCode::Enter, &mut calls), Some("handled"));
    assert_eq!(calls, 1);
    assert_eq!(ta.lines(), &vec!["ab".to_string()]);
    assert_eq!(ta.get_cursor(), (2, 0));
}

#[test]
fn a_handler_that_does_not_consume_lets_the_default_run() {
    let mut ta: TextArea<u32, &'static str, Counting> = TextArea::new(vec!["ab".to_string()]);
    ta.on_key(KeyCode::Char('x'), Counting { consume: false });
    let mut calls = 0;
    assert_eq!(ta.process_key(KeyCode::Char('x'), &mut calls), None);
    assert_eq!(calls, 1);
    assert_eq!(ta.lines(), &vec!["abx".to_string()]);
    assert_eq!(ta.get_cursor(), (3, 0));
}

#[test]
fn a_handler_stays_bound_after_it_ran() {
    let mut ta: TextArea<u32, &'static str, Counting> = TextArea::new(vec![]);
    ta.on_key(KeyCode::Esc, Counting { consume: true });
    let mut calls = 0;
    assert_eq!(ta.process_key(KeyCode::Esc, &mut calls), Some("handled"));
    assert_eq!(ta.process_key(KeyCode::Esc, &mut calls), Some("handled"));
    assert_eq!(ta.process_key(KeyCode::Char('a'), &mut calls), None);
    assert_eq!(ta.process_key(KeyCode::Esc, &mut calls), Some("handled"));
    assert_eq!(calls, 3);
}

#[test]
fn a_key_has_one_handler_and_the_last_bound_wins() {
    let mut ta: TextArea<u32, &'static str, Counting> = TextArea::new(vec![]);
    ta.on_key(KeyCode::Enter, Counting { consume: true });
    ta.on_key(KeyCode::Esc, Counting { consume: true });
    ta.on_key(KeyCode::Enter, Counting { consume: false });
    let mut calls = 0;
    assert_eq!(ta.process_key(KeyCode::Enter, &mut calls), None);
    assert_eq!(calls, 1);
    assert_eq!(ta.lines().len(), 2);
    assert_eq!(ta.process_key(KeyCode::Esc, &mut calls), Some("handled"));
    assert_eq!(calls, 2);
}

#[test]
fn reply_consumes_its_key_and_changes_nothing() {
    let mut ta: TextArea<u8, Option<u8>, Reply<Option<u8>>> = TextArea::new(vec!["ab".to_string()]);
    ta.on_key(KeyCode::Esc, Reply { result: Some(7) });
    let mut state = 3;
    assert_eq!(ta.process_key(KeyCode::Esc, &mut state), Some(Some(7)));
    assert_eq!(state, 3);
    assert_eq!(ta.lines(), &vec!["ab".to_string()]);
    assert_eq!(ta.get_cursor(), (0, 0));
}

#[test]
fn update_without_a_key_does_nothing() {
    let mut ta: TextArea<u32, &'static str, Counting> = TextArea::new(vec!["ab".to_string()]);
    ta.on_key(KeyCode::Enter, Counting { consume: true });
    let mut calls = 0;
    assert_eq!(ta.update(None, &mut calls), None);
    assert_eq!(calls, 0);
    assert_eq!(ta.get_cursor(), (0, 0));
    assert_eq!(ta.update(Some(KeyCode::Enter), &mut calls), Some("handled"));
    assert_eq!(ta.update(Some(KeyCode::Char('c')), &mut calls), None);
    assert_eq!(calls, 1);
    assert_eq!(ta.lines(), &vec!["abc".to_string()]);
}

#[test]
fn finish_key_goes_by_the_handler_outcome() {
    let mut buffer = TextBuffer::new(vec!["ab".to_string()]);
    assert_eq!(buffer.finish_key(KeyCode::Char('x'), Some((true, 5))), Some(5));
    assert_eq!(buffer.lines(), &vec!["ab".to_string()]);
    assert_eq!(buffer.finish_key(KeyCode::Char('x'), Some((false, 5))), None);
    assert_eq!(buffer.lines(), &vec!["xab".to_string()]);
    assert_eq!(buffer.finish_key::<u8>(KeyCode::Char('y'), None), None);
    assert_eq!(buffer.lines(), &vec!["xyab".to_string()]);
    assert_eq!(buffer.get_cursor(), (2, 0));
}

#[test]
fn move_cursor_makes_the_named_movement() {
    let mut buffer = TextBuffer::new(vec!["ab cd".to_string(), "ef".to_string()]);
    buffer.move_cursor(CursorMovement::Right);
    assert_eq!(buffer.get_cursor(), (1, 0));
    buffer.move_cursor(CursorMovement::WordForward);
    assert_eq!(buffer.get_cursor(), (3, 0));
    buffer.move_cursor(CursorMovement::Down);
    assert_eq!(buffer.get_cursor(), (2, 1));
    buffer.move_cursor(CursorMovement::WordBackward);
    assert_eq!(buffer.get_cursor(), (0, 1));
    buffer.move_cursor(CursorMovement::Left);
    assert_eq!(buffer.get_cursor(), (5, 0));
    buffer.move_cursor(CursorMovement::Up);
    assert_eq!(buffer.get_cursor(), (5, 0));
}

#[test]
fn the_buffer_of_a_text_area_is_its_text() {
    let mut ta = area(&["ab", "cd"]);
    ta.set_cursor((1, 1));
    assert_eq!(ta.buffer().lines(), ta.lines());
    assert_eq!(ta.buffer().get_cursor(), (1, 1));
    let mut buffer = TextBuffer::new(vec![]);
    buffer.set_lines(vec!["x".to_string()]);
    buffer.set_cursor((4, 4));
    assert_eq!(buffer.get_cursor(), (1, 0));
    buffer.apply_key(KeyCode::Char('y'));
    assert_eq!(buffer.lines(), &vec!["xy".to_string()]);
}
