use termedit::config::Config;
use termedit::display::Display;
use termedit::editor::Editor;
use termedit::keys::{Action, Direction, KeyCode, KeyEvent, KeyModifiers};

fn editor_on(content: &str) -> Editor {
    let config = Config { file_name: String::from("notes.txt") };
    let mut display = Display::new(content, &config);
    display.resize(80, 24);
    Editor::new(display)
}

fn all_lines(editor: &Editor) -> Vec<String> {
    let display = editor.display();
    (0..display.line_count()).map(|row| display.line_text(row).unwrap()).collect()
}

fn cursor(editor: &Editor) -> (usize, usize) {
    editor.display().cursor_pos_diplaced()
}

fn go_to(editor: &mut Editor, row: usize, col: usize) {
    for _ in 0..row {
        editor.move_cursor(Direction::Down);
    }
    editor.move_cursor(Direction::Start);
    for _ in 0..col {
        editor.move_cursor(Direction::Right);
    }
    assert_eq!(cursor(editor), (row, col));
}

#[test]
fn insert_in_the_middle_of_a_line() {
    let mut editor = editor_on("held\nnext");
    go_to(&mut editor, 0, 2);
    assert_eq!(editor.insert("llo wor"), Action::RedrawLine);
    assert_eq!(all_lines(&editor), vec!["hello world", "next", ""]);
    assert_eq!(cursor(&editor), (0, 9));
    assert_eq!(editor.display().refresh_line(), Some(String::from("hello world")));
}

#[test]
fn insert_at_the_end_of_a_line_appends() {
    let mut editor = editor_on("ab\ncd");
    go_to(&mut editor, 1, 2);
    editor.insert("ef");
    assert_eq!(all_lines(&editor), vec!["ab", "cdef", ""]);
    assert_eq!(cursor(&editor), (1, 4));
}

#[test]
fn insert_at_the_start_of_a_line() {
    let mut editor = editor_on("world");
    editor.insert("hello ");
    assert_eq!(all_lines(&editor), vec!["hello world", ""]);
    assert_eq!(cursor(&editor), (0, 6));
}

#[test]
fn insert_counts_characters_not_bytes() {
    let mut editor = editor_on("ab");
    go_to(&mut editor, 0, 1);
    editor.insert("\u{e9}\u{4e16}");
    assert_eq!(all_lines(&editor), vec!["a\u{e9}\u{4e16}b", ""]);
    assert_eq!(cursor(&editor), (0, 3));
}

#[test]
fn insert_of_nothing_changes_nothing() {
    let mut editor = editor_on("ab");
    go_to(&mut editor, 0, 1);
    assert_eq!(editor.insert(""), Action::RedrawLine);
    assert_eq!(all_lines(&editor), vec!["ab", ""]);
    assert_eq!(cursor(&editor), (0, 1));
}

#[test]
fn typing_on_the_last_line_puts_an_empty_line_behind_it() {
    let mut editor = editor_on("");
    assert_eq!(all_lines(&editor), vec![""]);
    editor.insert("a");
    assert_eq!(all_lines(&editor), vec!["a", ""]);
    assert_eq!(cursor(&editor), (0, 1));
    go_to(&mut editor, 1, 0);
    editor.insert("b");
    assert_eq!(all_lines(&editor), vec!["a", "b", ""]);
    assert_eq!(cursor(&editor), (1, 1));
    assert!(editor.display().well_formed());
}

#[test]
fn delete_at_the_cursor_keeps_the_cursor() {
    let mut editor = editor_on("abc");
    go_to(&mut editor, 0, 1);
    assert_eq!(editor.delete(0), Action::RedrawLine);
    assert_eq!(all_lines(&editor), vec!["ac", ""]);
    assert_eq!(cursor(&editor), (0, 1));
}

#[test]
fn delete_at_the_end_of_a_line_does_nothing() {
    let mut editor = editor_on("abc\ndef");
    go_to(&mut editor, 0, 3);
    assert_eq!(editor.delete(0), Action::Idle);
    assert_eq!(all_lines(&editor), vec!["abc", "def", ""]);
    assert_eq!(cursor(&editor), (0, 3));
}

#[test]
fn delete_before_the_cursor_moves_the_cursor_left() {
    let mut editor = editor_on("abcd");
    go_to(&mut editor, 0, 3);
    assert_eq!(editor.delete(1), Action::RedrawLine);
    assert_eq!(all_lines(&editor), vec!["abd", ""]);
    assert_eq!(cursor(&editor), (0, 2));
    assert_eq!(editor.delete(2), Action::RedrawLine);
    assert_eq!(all_lines(&editor), vec!["bd", ""]);
    assert_eq!(cursor(&editor), (0, 0));
}

#[test]
fn backspace_at_the_start_of_a_line_joins_it_to_the_line_above() {
    let mut editor = editor_on("abc\ndef\nghi");
    go_to(&mut editor, 1, 0);
    assert_eq!(editor.delete(1), Action::RedrawAll);
    assert_eq!(all_lines(&editor), vec!["abcdef", "ghi", ""]);
    assert_eq!(cursor(&editor), (0, 3));
}

#[test]
fn backspace_at_the_start_of_the_document_does_nothing() {
    let mut editor = editor_on("abc");
    assert_eq!(editor.delete(1), Action::RedrawAll);
    assert_eq!(all_lines(&editor), vec!["abc", ""]);
    assert_eq!(cursor(&editor), (0, 0));
}

#[test]
fn kill_cuts_to_the_end_of_the_line() {
    let mut editor = editor_on("hello world\nnext");
    go_to(&mut editor, 0, 5);
    assert_eq!(editor.kill(), Action::RedrawLine);
    assert_eq!(all_lines(&editor), vec!["hello", "next", ""]);
    assert_eq!(cursor(&editor), (0, 5));
    assert_eq!(editor.copied(), &Some(String::from(" world")));
}

#[test]
fn kill_at_the_start_leaves_an_empty_line() {
    let mut editor = editor_on("abc\ndef");
    assert_eq!(editor.kill(), Action::RedrawLine);
    assert_eq!(all_lines(&editor), vec!["", "def", ""]);
    assert_eq!(cursor(&editor), (0, 0));
    assert_eq!(editor.copied(), &Some(String::from("abc")));
}

#[test]
fn kill_keeps_only_the_last_cut() {
    let mut editor = editor_on("one\ntwo");
    editor.kill();
    go_to(&mut editor, 1, 1);
    editor.kill();
    assert_eq!(editor.copied(), &Some(String::from("wo")));
    assert_eq!(all_lines(&editor), vec!["", "t", ""]);
}

#[test]
fn kill_on_an_empty_line_takes_the_line_out() {
    let mut editor = editor_on("abc\n\ndef");
    go_to(&mut editor, 1, 0);
    assert_eq!(editor.kill(), Action::RedrawAll);
    assert_eq!(all_lines(&editor), vec!["abc", "def", ""]);
    assert_eq!(cursor(&editor), (1, 0));
    assert_eq!(editor.copied(), &None);
}

#[test]
fn kill_at_the_end_of_a_line_joins_the_line_below() {
    let mut editor = editor_on("abc\ndef\nghi");
    go_to(&mut editor, 0, 3);
    assert_eq!(editor.kill(), Action::RedrawAll);
    assert_eq!(all_lines(&editor), vec!["abcdef", "ghi", ""]);
    assert_eq!(cursor(&editor), (0, 3));
    assert_eq!(editor.copied(), &None);
}

#[test]
fn kill_at_the_end_of_the_last_text_line_changes_nothing() {
    let mut editor = editor_on("abc");
    go_to(&mut editor, 0, 3);
    assert_eq!(editor.kill(), Action::RedrawAll);
    assert_eq!(all_lines(&editor), vec!["abc", ""]);
    assert_eq!(cursor(&editor), (0, 3));
    assert!(editor.display().well_formed());
}

#[test]
fn paste_without_a_cut_does_nothing() {
    let mut editor = editor_on("abc");
    go_to(&mut editor, 0, 1);
    assert_eq!(editor.paste(), Action::RedrawLine);
    assert_eq!(all_lines(&editor), vec!["abc", ""]);
    assert_eq!(cursor(&editor), (0, 1));
}

#[test]
fn paste_keeps_what_was_cut() {
    let mut editor = editor_on("abc");
    go_to(&mut editor, 0, 1);
    editor.kill();
    editor.paste();
    editor.paste();
    assert_eq!(all_lines(&editor), vec!["abcbc", ""]);
    assert_eq!(cursor(&editor), (0, 5));
    assert_eq!(editor.copied(), &Some(String::from("bc")));
}

#[test]
fn kill_then_paste_gives_the_line_back() {
    for col in 0..5 {
        let mut editor = editor_on("first\nhello\nlast");
        go_to(&mut editor, 1, col);
        editor.kill();
        editor.paste();
        assert_eq!(all_lines(&editor), vec!["first", "hello", "last", ""]);
        assert_eq!(cursor(&editor), (1, 5));
        assert!(editor.display().well_formed());
    }
}

#[test]
fn split_line_in_the_middle() {
    let mut editor = editor_on("hello world\nnext");
    go_to(&mut editor, 0, 5);
    assert_eq!(editor.split_line(), Action::RedrawAll);
    assert_eq!(all_lines(&editor), vec!["hello", " world", "next", ""]);
    assert_eq!(cursor(&editor), (1, 0));
}

#[test]
fn split_line_at_the_start_pushes_the_line_down() {
    let mut editor = editor_on("abc");
    editor.split_line();
    assert_eq!(all_lines(&editor), vec!["", "abc", ""]);
    assert_eq!(cursor(&editor), (1, 0));
}

#[test]
fn split_line_on_the_last_line_adds_an_empty_line() {
    let mut editor = editor_on("abc");
    go_to(&mut editor, 1, 0);
    editor.split_line();
    assert_eq!(all_lines(&editor), vec!["abc", "", ""]);
    assert_eq!(cursor(&editor), (2, 0));
    assert!(editor.display().well_formed());
}

#[test]
fn split_line_then_splice_up_gives_the_document_back() {
    let content = "first\nhello\nlast";
    for row in 0..4 {
        let len = [5, 5, 4, 0][row];
        for col in 0..=len {
            let mut editor = editor_on(content);
            go_to(&mut editor, row, col);
            editor.split_line();
            assert_eq!(cursor(&editor), (row + 1, 0));
            editor.splice_up();
            assert_eq!(all_lines(&editor), vec!["first", "hello", "last", ""]);
            assert!(editor.display().well_formed());
        }
    }
}

#[test]
fn splice_up_joins_a_line_to_the_one_above() {
    let mut editor = editor_on("abc\ndef\nghi");
    go_to(&mut editor, 2, 2);
    assert_eq!(editor.splice_up(), Action::RedrawAll);
    assert_eq!(all_lines(&editor), vec!["abc", "defghi", ""]);
    assert_eq!(cursor(&editor), (1, 3));
}

#[test]
fn splice_up_on_the_first_row_does_nothing() {
    let mut editor = editor_on("abc\ndef");
    go_to(&mut editor, 0, 2);
    assert_eq!(editor.splice_up(), Action::RedrawAll);
    assert_eq!(all_lines(&editor), vec!["abc", "def", ""]);
    assert_eq!(cursor(&editor), (0, 2));
}

#[test]
fn splice_up_takes_an_empty_first_line_out() {
    let mut editor = editor_on("\nabc");
    editor.splice_up();
    assert_eq!(all_lines(&editor), vec!["abc", ""]);
    assert_eq!(cursor(&editor), (0, 0));
}

#[test]
fn splice_up_on_the_last_line_goes_to_the_end_of_the_text() {
    let mut editor = editor_on("abc\ndefg");
    go_to(&mut editor, 2, 0);
    editor.splice_up();
    assert_eq!(all_lines(&editor), vec!["abc", "defg", ""]);
    assert_eq!(cursor(&editor), (1, 4));
    assert!(editor.display().well_formed());
}

#[test]
fn splice_up_on_the_last_of_two_empty_lines_takes_one_out() {
    let mut editor = editor_on("abc\n\n");
    go_to(&mut editor, 2, 0);
    editor.splice_up();
    assert_eq!(all_lines(&editor), vec!["abc", ""]);
    assert_eq!(cursor(&editor), (1, 0));
}

#[test]
fn splice_up_on_an_empty_document_changes_nothing() {
    let mut editor = editor_on("");
    editor.splice_up();
    assert_eq!(all_lines(&editor), vec![""]);
    assert_eq!(cursor(&editor), (0, 0));
    assert!(editor.display().well_formed());
}

#[test]
fn splice_down_joins_the_line_below() {
    let mut editor = editor_on("abc\ndef\nghi");
    go_to(&mut editor, 1, 1);
    assert_eq!(editor.splice_down(), Action::RedrawAll);
    assert_eq!(all_lines(&editor), vec!["abc", "defghi", ""]);
    assert_eq!(cursor(&editor), (1, 1));
}

#[test]
fn splice_down_on_the_last_row_does_nothing() {
    let mut editor = editor_on("abc");
    go_to(&mut editor, 1, 0);
    assert_eq!(editor.splice_down(), Action::RedrawAll);
    assert_eq!(all_lines(&editor), vec!["abc", ""]);
    assert_eq!(cursor(&editor), (1, 0));
}

#[test]
fn a_shrinking_document_pulls_the_window_up() {
    let config = Config { file_name: String::from("notes.txt") };
    let mut display = Display::new("0\n\n\n\n\n5", &config);
    display.resize(80, 3);
    let mut editor = Editor::new(display);
    assert_eq!(editor.display().line_count(), 7);
    for _ in 0..3 {
        editor.move_display(Direction::Down);
    }
    assert_eq!(editor.display().first_row(), 3);
    assert_eq!(cursor(&editor), (3, 0));
    editor.kill();
    assert_eq!(editor.display().line_count(), 6);
    assert_eq!(editor.display().first_row(), 3);
    editor.kill();
    assert_eq!(all_lines(&editor), vec!["0", "", "", "5", ""]);
    assert_eq!(editor.display().first_row(), 2);
    assert_eq!(cursor(&editor), (3, 0));
    assert_eq!(editor.display().cursor_pos(), (0, 1));
    assert!(editor.display().well_formed());
}

#[test]
fn any_keys_leave_the_cursor_in_the_document() {
    let keys = [
        KeyEvent { modifiers: KeyModifiers::Plain, code: KeyCode::Char('a') },
        KeyEvent { modifiers: KeyModifiers::Plain, code: KeyCode::Enter },
        KeyEvent { modifiers: KeyModifiers::Plain, code: KeyCode::Backspace },
        KeyEvent { modifiers: KeyModifiers::Plain, code: KeyCode::Backspace },
        KeyEvent { modifiers: KeyModifiers::Plain, code: KeyCode::Backspace },
        KeyEvent { modifiers: KeyModifiers::Control, code: KeyCode::Char('k') },
        KeyEvent { modifiers: KeyModifiers::Control, code: KeyCode::Char('n') },
        KeyEvent { modifiers: KeyModifiers::Control, code: KeyCode::Char('e') },
        KeyEvent { modifiers: KeyModifiers::Control, code: KeyCode::Char('k') },
        KeyEvent { modifiers: KeyModifiers::Control, code: KeyCode::Char('y') },
        KeyEvent { modifiers: KeyModifiers::Plain, code: KeyCode::Down },
        KeyEvent { modifiers: KeyModifiers::Control, code: KeyCode::Char('d') },
        KeyEvent { modifiers: KeyModifiers::Plain, code: KeyCode::Tab },
        KeyEvent { modifiers: KeyModifiers::Control, code: KeyCode::Char('p') },
        KeyEvent { modifiers: KeyModifiers::Control, code: KeyCode::Char('k') },
        KeyEvent { modifiers: KeyModifiers::Control, code: KeyCode::Char('k') },
        KeyEvent { modifiers: KeyModifiers::Plain, code: KeyCode::Up },
        KeyEvent { modifiers: KeyModifiers::Shift, code: KeyCode::Char('z') },
    ];
    let mut editor = editor_on("one\n\nthree\nfour");
    editor.resize(80, 2);
    for round in 0..4 {
        for key in keys.iter().skip(round) {
            editor.handle_key_event(*key);
            let display = editor.display();
            let (row, col) = display.cursor_pos_diplaced();
            let count = display.line_count();
            assert!(count >= 1);
            assert_eq!(display.line_text(count - 1), Some(String::new()));
            assert!(row < count);
            assert!(col <= display.line_text(row).unwrap().chars().count());
            assert!(display.first_row() <= count.saturating_sub(2));
            assert!(display.well_formed());
        }
    }
}
