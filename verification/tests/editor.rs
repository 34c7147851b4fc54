use modal_editor::editor::Editor;
use modal_editor::model::{Key, Mode};
use modal_editor::width::display_width;

fn line(s: &str) -> Vec<char> {
    s.chars().collect()
}

fn editor(lines: &[&str], x: usize, y: usize, mode: Mode) -> Editor {
    Editor {
        content: lines.iter().map(|s| line(s)).collect(),
        cursor_x: x,
        cursor_y: y,
        mode,
        quit: false,
    }
}

#[test]
fn new_session_initial_state() {
    let ed = Editor::new();
    assert_eq!(ed.content, vec![line("")]);
    assert_eq!((ed.cursor_x, ed.cursor_y), (0, 0));
    assert_eq!(ed.mode, Mode::Normal);
    assert!(!ed.quit);
}

#[test]
fn normal_i_enters_insert_then_typing_hi() {
    let mut ed = Editor::new();
    ed.process_key(Key::Char('i'));
    assert_eq!(ed.mode, Mode::Insert);
    assert_eq!(ed.content, vec![line("")]);
    ed.process_key(Key::Char('h'));
    ed.process_key(Key::Char('i'));
    assert_eq!(ed.content, vec![line("hi")]);
    assert_eq!((ed.cursor_x, ed.cursor_y), (2, 0));
}

#[test]
fn enter_splits_line_at_end() {
    let mut ed = editor(&["hi"], 2, 0, Mode::Insert);
    ed.process_key(Key::Enter);
    assert_eq!(ed.content, vec![line("hi"), line("")]);
    assert_eq!((ed.cursor_x, ed.cursor_y), (0, 1));
}

#[test]
fn backspace_rejoins_lines() {
    let mut ed = editor(&["hi", ""], 0, 1, Mode::Insert);
    ed.process_key(Key::Backspace);
    assert_eq!(ed.content, vec![line("hi")]);
    assert_eq!((ed.cursor_x, ed.cursor_y), (2, 0));
}

#[test]
fn move_down_clamps_column() {
    let mut ed = editor(&["ab", "c"], 2, 0, Mode::Normal);
    ed.process_key(Key::Char('j'));
    assert_eq!((ed.cursor_x, ed.cursor_y), (1, 1));
}

#[test]
fn move_up_clamps_column() {
    let mut ed = editor(&["c", "ab"], 2, 1, Mode::Normal);
    ed.process_key(Key::Char('k'));
    assert_eq!((ed.cursor_x, ed.cursor_y), (1, 0));
}

#[test]
fn quit_in_normal_sets_flag() {
    let mut ed = Editor::new();
    ed.process_key(Key::Char('q'));
    assert!(ed.quit);
}

#[test]
fn quit_key_in_insert_inserts_literal() {
    let mut ed = editor(&[""], 0, 0, Mode::Insert);
    ed.process_key(Key::Char('q'));
    assert!(!ed.quit);
    assert_eq!(ed.content, vec![line("q")]);
    assert_eq!((ed.cursor_x, ed.cursor_y), (1, 0));
}

#[test]
fn left_at_column_zero_is_noop() {
    let mut ed = editor(&["ab"], 0, 0, Mode::Normal);
    ed.process_key(Key::Char('h'));
    ed.process_key(Key::Char('h'));
    assert_eq!((ed.cursor_x, ed.cursor_y), (0, 0));
    assert_eq!(ed.content, vec![line("ab")]);
}

#[test]
fn right_at_line_end_is_noop() {
    let mut ed = editor(&["ab"], 2, 0, Mode::Normal);
    ed.process_key(Key::Char('l'));
    ed.process_key(Key::Char('l'));
    assert_eq!((ed.cursor_x, ed.cursor_y), (2, 0));
}

#[test]
fn up_at_first_row_is_noop() {
    let mut ed = editor(&["ab", "cd"], 1, 0, Mode::Normal);
    ed.process_key(Key::Char('k'));
    ed.process_key(Key::Char('k'));
    assert_eq!((ed.cursor_x, ed.cursor_y), (1, 0));
}

#[test]
fn down_at_last_row_is_noop() {
    let mut ed = editor(&["ab", "cd"], 1, 1, Mode::Normal);
    ed.process_key(Key::Char('j'));
    ed.process_key(Key::Char('j'));
    assert_eq!((ed.cursor_x, ed.cursor_y), (1, 1));
}

#[test]
fn newline_then_backspace_restores_state() {
    let mut ed = editor(&["hello"], 2, 0, Mode::Insert);
    ed.process_key(Key::Enter);
    assert_eq!(ed.content, vec![line("he"), line("llo")]);
    assert_eq!((ed.cursor_x, ed.cursor_y), (0, 1));
    ed.process_key(Key::Backspace);
    assert_eq!(ed.content, vec![line("hello")]);
    assert_eq!((ed.cursor_x, ed.cursor_y), (2, 0));
}

#[test]
fn newline_increases_line_count_by_one() {
    let mut ed = editor(&["ab", "cd"], 1, 0, Mode::Insert);
    ed.process_key(Key::Enter);
    assert_eq!(ed.content.len(), 3);
    assert_eq!(ed.content, vec![line("a"), line("b"), line("cd")]);
}

#[test]
fn backspace_join_decreases_line_count_by_one() {
    let mut ed = editor(&["ab", "cd"], 0, 1, Mode::Insert);
    ed.process_key(Key::Backspace);
    assert_eq!(ed.content.len(), 1);
    assert_eq!(ed.content, vec![line("abcd")]);
    assert_eq!((ed.cursor_x, ed.cursor_y), (2, 0));
}

#[test]
fn cursor_stays_in_bounds_through_key_sequence() {
    let mut ed = Editor::new();
    let keys = [
        Key::Char('i'),
        Key::Char('a'),
        Key::Char('b'),
        Key::Enter,
        Key::Char('c'),
        Key::Esc,
        Key::Char('k'),
        Key::Char('l'),
        Key::Char('l'),
        Key::Char('j'),
        Key::Char('i'),
        Key::Backspace,
        Key::Char('h'),
        Key::Esc,
        Key::Char('h'),
    ];
    for key in keys {
        ed.process_key(key);
        assert!(ed.cursor_y < ed.content.len());
        assert!(ed.cursor_x <= display_width(&ed.content[ed.cursor_y]));
    }
}

#[test]
fn display_width_counts_columns_not_chars() {
    assert_eq!(display_width(&line("abc")), 3);
    // A CJK character occupies two columns.
    assert_eq!(display_width(&line("\u{3042}")), 2);
    assert_eq!(display_width(&line("a\u{3042}")), 3);
    // A control character occupies none.
    assert_eq!(display_width(&line("\t")), 0);
    assert_eq!(display_width(&line("")), 0);
}

#[test]
fn move_right_is_bounded_by_display_width() {
    // One two-column character: the char count is 1, the width 2, and the
    // cursor may advance to column 2.
    let mut ed = editor(&["\u{3042}"], 0, 0, Mode::Normal);
    ed.process_key(Key::Char('l'));
    assert_eq!(ed.cursor_x, 1);
    ed.process_key(Key::Char('l'));
    assert_eq!(ed.cursor_x, 2);
    ed.process_key(Key::Char('l'));
    assert_eq!(ed.cursor_x, 2);
}

#[test]
fn backspace_at_origin_is_noop() {
    let mut ed = editor(&["ab"], 0, 0, Mode::Insert);
    ed.process_key(Key::Backspace);
    assert_eq!(ed.content, vec![line("ab")]);
    assert_eq!((ed.cursor_x, ed.cursor_y), (0, 0));
}

#[test]
fn backspace_never_empties_buffer() {
    let mut ed = editor(&["a"], 1, 0, Mode::Insert);
    ed.process_key(Key::Backspace);
    assert_eq!(ed.content, vec![line("")]);
    ed.process_key(Key::Backspace);
    assert_eq!(ed.content, vec![line("")]);
}

#[test]
fn backspace_removes_character_before_cursor() {
    let mut ed = editor(&["abc"], 2, 0, Mode::Insert);
    ed.process_key(Key::Backspace);
    assert_eq!(ed.content, vec![line("ac")]);
    assert_eq!((ed.cursor_x, ed.cursor_y), (1, 0));
}

#[test]
fn insert_in_middle_of_line() {
    let mut ed = editor(&["ac"], 1, 0, Mode::Insert);
    ed.process_key(Key::Char('b'));
    assert_eq!(ed.content, vec![line("abc")]);
    assert_eq!((ed.cursor_x, ed.cursor_y), (2, 0));
}

#[test]
fn enter_in_middle_splits_line() {
    let mut ed = editor(&["abcd"], 2, 0, Mode::Insert);
    ed.process_key(Key::Enter);
    assert_eq!(ed.content, vec![line("ab"), line("cd")]);
    assert_eq!((ed.cursor_x, ed.cursor_y), (0, 1));
}

#[test]
fn esc_returns_to_normal_mode() {
    let mut ed = editor(&["ab"], 1, 0, Mode::Insert);
    ed.process_key(Key::Esc);
    assert_eq!(ed.mode, Mode::Normal);
    assert_eq!(ed.content, vec![line("ab")]);
    assert_eq!((ed.cursor_x, ed.cursor_y), (1, 0));
}

#[test]
fn esc_in_normal_mode_is_ignored() {
    let mut ed = editor(&["ab"], 1, 0, Mode::Normal);
    ed.process_key(Key::Esc);
    assert_eq!(ed.mode, Mode::Normal);
    assert_eq!((ed.cursor_x, ed.cursor_y), (1, 0));
}

#[test]
fn unrecognized_keys_are_ignored() {
    let mut ed = editor(&["ab"], 1, 0, Mode::Normal);
    ed.process_key(Key::Other);
    ed.process_key(Key::Char('x'));
    ed.process_key(Key::Enter);
    ed.process_key(Key::Backspace);
    assert_eq!(ed.content, vec![line("ab")]);
    assert_eq!((ed.cursor_x, ed.cursor_y), (1, 0));
    assert_eq!(ed.mode, Mode::Normal);
    assert!(!ed.quit);
    let mut ed = editor(&["ab"], 1, 0, Mode::Insert);
    ed.process_key(Key::Other);
    assert_eq!(ed.content, vec![line("ab")]);
    assert_eq!((ed.cursor_x, ed.cursor_y), (1, 0));
}

#[test]
fn quit_needs_normal_mode_round_trip() {
    let mut ed = Editor::new();
    ed.process_key(Key::Char('i'));
    ed.process_key(Key::Char('q'));
    assert!(!ed.quit);
    ed.process_key(Key::Esc);
    ed.process_key(Key::Char('q'));
    assert!(ed.quit);
    assert_eq!(ed.content, vec![line("q")]);
}
