use termedit::buf::{from_string, push_owned, push_ref, to_string, Document, Line};
use termedit::config::Config;
use termedit::display::Display;
use termedit::editor::Editor;
use termedit::keys::Direction;

fn loaded(content: &str) -> Vec<String> {
    let config = Config { file_name: String::from("notes.txt") };
    let display = Display::new(content, &config);
    (0..display.line_count()).map(|row| display.line_text(row).unwrap()).collect()
}

fn saved(content: &str) -> String {
    let config = Config { file_name: String::from("notes.txt") };
    Editor::new(Display::new(content, &config)).save()
}

fn rows(doc: &Document) -> Vec<String> {
    (0..doc.line_count()).map(|row| to_string(doc.line_at(row).unwrap())).collect()
}

fn line_of(text: &str) -> Line {
    let mut line = Line::empty();
    push_owned(&mut line, text);
    line
}

#[test]
fn from_string_splits_at_line_feeds() {
    let doc = from_string("one\ntwo\nthree");
    assert_eq!(rows(&doc), vec!["one", "two", "three", ""]);
    assert_eq!(doc.line_count(), 4);
    assert!(doc.line_at(4).is_none());
}

#[test]
fn from_string_of_nothing_is_one_empty_line() {
    assert_eq!(rows(&from_string("")), vec![""]);
}

#[test]
fn a_line_feed_at_the_end_opens_no_line() {
    assert_eq!(loaded("one\ntwo\n"), vec!["one", "two", ""]);
    assert_eq!(loaded("one\ntwo"), vec!["one", "two", ""]);
}

#[test]
fn empty_lines_are_kept() {
    assert_eq!(loaded("\n"), vec!["", ""]);
    assert_eq!(loaded("\n\n"), vec!["", "", ""]);
    assert_eq!(loaded("a\n\nb"), vec!["a", "", "b", ""]);
    assert_eq!(loaded("\na"), vec!["", "a", ""]);
}

#[test]
fn a_carriage_return_before_a_line_feed_is_dropped() {
    assert_eq!(loaded("one\r\ntwo\r\n"), vec!["one", "two", ""]);
    assert_eq!(loaded("\r\n"), vec!["", ""]);
    assert_eq!(loaded("a\r\r\nb"), vec!["a\r", "b", ""]);
}

#[test]
fn a_carriage_return_elsewhere_is_kept() {
    assert_eq!(loaded("a\rb\nc"), vec!["a\rb", "c", ""]);
    assert_eq!(loaded("one\ntwo\r"), vec!["one", "two\r", ""]);
    assert_eq!(loaded("\r"), vec!["\r", ""]);
}

#[test]
fn from_string_reads_as_the_standard_library_does() {
    let samples = [
        "",
        "a",
        "a\n",
        "a\nb",
        "a\r\nb\r\n",
        "\n\n\n",
        "\r",
        "\r\n\r",
        "x\r\r\n\ry\n\r\n",
        "tab\there\n  spaces  \n\u{e9}t\u{e9}\n",
    ];
    for sample in samples {
        let mut expected: Vec<String> = sample.lines().map(String::from).collect();
        expected.push(String::new());
        assert_eq!(loaded(sample), expected);
    }
}

#[test]
fn to_string_gives_the_characters_in_order() {
    assert_eq!(to_string(&line_of("hello")), "hello");
    assert_eq!(to_string(&line_of("")), "");
    assert_eq!(to_string(&line_of("h\u{e9}llo w\u{f6}rld")), "h\u{e9}llo w\u{f6}rld");
    assert_eq!(line_of("h\u{e9}llo").length(), 5);
    assert_eq!(Line::empty().length(), 0);
}

#[test]
fn push_owned_appends_the_text() {
    let mut line = line_of("abc");
    push_owned(&mut line, "def");
    push_owned(&mut line, "");
    push_owned(&mut line, "g");
    assert_eq!(to_string(&line), "abcdefg");
}

#[test]
fn push_ref_appends_a_copy_of_the_line() {
    let mut line = line_of("abc");
    let other = line_of("xyz");
    push_ref(&mut line, &other);
    push_ref(&mut line, &other);
    push_ref(&mut line, &Line::empty());
    assert_eq!(to_string(&line), "abcxyzxyz");
    assert_eq!(to_string(&other), "xyz");
}

#[test]
fn save_puts_a_line_feed_behind_each_line() {
    assert_eq!(saved(""), "\n");
    assert_eq!(saved("abc"), "abc\n\n");
    assert_eq!(saved("one\ntwo"), "one\ntwo\n\n");
}

#[test]
fn load_then_save_gives_the_text_and_one_more_line_feed() {
    for content in ["\n", "a\n", "one\ntwo\n", "one\n\n\nfour\n", "  x\ty \n\n"] {
        assert_eq!(saved(content), format!("{}\n", content));
    }
}

#[test]
fn load_then_save_ends_an_unended_last_line() {
    assert_eq!(saved("one\ntwo"), "one\ntwo\n\n");
    assert_eq!(saved("one\ntwo\r"), "one\ntwo\r\n\n");
}

#[test]
fn save_then_load_gives_the_lines_and_one_more_empty_line() {
    let content = "one\n\nthree";
    let first = loaded(content);
    assert_eq!(first, vec!["one", "", "three", ""]);
    let second = loaded(&saved(content));
    assert_eq!(second, vec!["one", "", "three", "", ""]);
}

#[test]
fn save_writes_what_was_edited() {
    let config = Config { file_name: String::from("notes.txt") };
    let mut editor = Editor::new(Display::new("one\ntwo", &config));
    editor.move_cursor(Direction::End);
    editor.insert("!");
    editor.split_line();
    editor.insert("and a half");
    assert_eq!(editor.save(), "one!\nand a half\ntwo\n\n");
    assert_eq!(editor.display().file_name(), "notes.txt");
}
