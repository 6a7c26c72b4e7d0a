use rio_editor::action::{Direction, EditAction};
use rio_editor::buffer::{Position, TextBuffer};

fn apply_all(buffer: &mut TextBuffer, actions: &[EditAction]) {
    for action in actions {
        buffer.apply(*action);
    }
}

#[test]
fn new_buffer_is_one_empty_line() {
    let buffer = TextBuffer::new();
    assert_eq!(buffer.text(), "");
    assert_eq!(buffer.cursor_position(), (0, 0));
    assert_eq!(buffer.line_count(), 1);
    assert_eq!(buffer.selection(), None);
}

#[test]
fn typing_two_characters() {
    let mut buffer = TextBuffer::new();
    buffer.apply(EditAction::InsertChar('h'));
    buffer.apply(EditAction::InsertChar('i'));
    assert_eq!(buffer.text(), "hi");
    assert_eq!(buffer.cursor_position(), (0, 2));
}

#[test]
fn newline_at_end_of_first_line() {
    let mut buffer = TextBuffer::with("ab\ncd");
    buffer.apply(EditAction::MoveCursorTo(0, 2));
    buffer.apply(EditAction::InsertNewline);
    assert_eq!(buffer.text(), "ab\n\ncd");
    assert_eq!(buffer.cursor_position(), (1, 0));
    assert_eq!(buffer.line_count(), 3);
}

#[test]
fn newline_inside_a_line_splits_it() {
    let mut buffer = TextBuffer::with("hello world");
    buffer.apply(EditAction::MoveCursorTo(0, 5));
    buffer.apply(EditAction::InsertNewline);
    assert_eq!(buffer.text(), "hello\n world");
    assert_eq!(buffer.cursor_position(), (1, 0));
}

#[test]
fn with_starts_at_the_origin() {
    let buffer = TextBuffer::with("one\ntwo\nthree");
    assert_eq!(buffer.cursor_position(), (0, 0));
    assert_eq!(buffer.line_count(), 3);
    assert_eq!(buffer.selection(), None);
}

#[test]
fn with_then_text_gives_the_text_back() {
    for text in [
        "",
        "a",
        "\n",
        "\n\n",
        "ab\ncd",
        "a\nb\n",
        "\nleading",
        "tabs\tand spaces  ",
        "carriage\r\nreturn",
        "gr\u{fc}\u{df}e \u{4e16}\u{754c}\n\u{1f600}",
    ] {
        assert_eq!(TextBuffer::with(text).text(), text);
    }
}

#[test]
fn trailing_newline_is_an_empty_last_line() {
    let buffer = TextBuffer::with("a\nb\n");
    assert_eq!(buffer.line_count(), 3);
    assert_eq!(buffer.text(), "a\nb\n");
    assert_eq!(TextBuffer::with("a\nb").line_count(), 2);
    assert_eq!(TextBuffer::with("").line_count(), 1);
    assert_eq!(TextBuffer::with("\n").line_count(), 2);
}

#[test]
fn carriage_return_stays_in_its_line() {
    let mut buffer = TextBuffer::with("a\r\nb");
    assert_eq!(buffer.line_count(), 2);
    buffer.apply(EditAction::MoveCursorTo(0, 9));
    assert_eq!(buffer.cursor_position(), (0, 2));
}

#[test]
fn insert_in_the_middle_of_a_line() {
    let mut buffer = TextBuffer::with("ac\nxyz");
    buffer.apply(EditAction::MoveCursorTo(0, 1));
    buffer.apply(EditAction::InsertChar('b'));
    assert_eq!(buffer.text(), "abc\nxyz");
    assert_eq!(buffer.cursor_position(), (0, 2));
}

#[test]
fn insert_counts_characters_not_bytes() {
    let mut buffer = TextBuffer::with("\u{e4}\u{f6}");
    buffer.apply(EditAction::MoveCursorTo(0, 1));
    buffer.apply(EditAction::InsertChar('\u{4e16}'));
    assert_eq!(buffer.text(), "\u{e4}\u{4e16}\u{f6}");
    assert_eq!(buffer.cursor_position(), (0, 2));
}

#[test]
fn inserting_a_line_feed_breaks_the_line() {
    let mut typed = TextBuffer::with("abcd");
    typed.apply(EditAction::MoveCursorTo(0, 2));
    typed.apply(EditAction::InsertChar('\n'));
    let mut broken = TextBuffer::with("abcd");
    broken.apply(EditAction::MoveCursorTo(0, 2));
    broken.apply(EditAction::InsertNewline);
    assert_eq!(typed.text(), "ab\ncd");
    assert_eq!(typed.text(), broken.text());
    assert_eq!(typed.cursor_position(), (1, 0));
    assert_eq!(typed.line_count(), 2);
}

#[test]
fn backspace_inside_a_line() {
    let mut buffer = TextBuffer::with("abc");
    buffer.apply(EditAction::MoveCursorTo(0, 2));
    buffer.apply(EditAction::Backspace);
    assert_eq!(buffer.text(), "ac");
    assert_eq!(buffer.cursor_position(), (0, 1));
}

#[test]
fn backspace_at_line_start_joins_lines() {
    let mut buffer = TextBuffer::with("ab\ncd\nef");
    buffer.apply(EditAction::MoveCursorTo(1, 0));
    buffer.apply(EditAction::Backspace);
    assert_eq!(buffer.text(), "abcd\nef");
    assert_eq!(buffer.cursor_position(), (0, 2));
    assert_eq!(buffer.line_count(), 2);
}

#[test]
fn backspace_at_text_start_changes_nothing() {
    let mut buffer = TextBuffer::with("ab\ncd");
    buffer.apply(EditAction::Backspace);
    assert_eq!(buffer.text(), "ab\ncd");
    assert_eq!(buffer.cursor_position(), (0, 0));
}

#[test]
fn delete_inside_a_line() {
    let mut buffer = TextBuffer::with("abc");
    buffer.apply(EditAction::MoveCursorTo(0, 1));
    buffer.apply(EditAction::Delete);
    assert_eq!(buffer.text(), "ac");
    assert_eq!(buffer.cursor_position(), (0, 1));
}

#[test]
fn delete_at_line_end_joins_lines() {
    let mut buffer = TextBuffer::with("ab\ncd\nef");
    buffer.apply(EditAction::MoveCursorTo(0, 2));
    buffer.apply(EditAction::Delete);
    assert_eq!(buffer.text(), "abcd\nef");
    assert_eq!(buffer.cursor_position(), (0, 2));
    assert_eq!(buffer.line_count(), 2);
}

#[test]
fn delete_at_text_end_changes_nothing() {
    let mut buffer = TextBuffer::with("ab\ncd");
    buffer.apply(EditAction::MoveCursorTo(1, 2));
    buffer.apply(EditAction::Delete);
    assert_eq!(buffer.text(), "ab\ncd");
    assert_eq!(buffer.cursor_position(), (1, 2));
}

#[test]
fn insert_then_backspace_restores_text_and_cursor() {
    let text = "first\n\nthird line\n";
    for (line, column) in [(0, 0), (0, 3), (0, 5), (1, 0), (2, 4), (2, 10), (3, 0)] {
        for c in ['x', ' ', '\n', '\u{1f600}'] {
            let mut buffer = TextBuffer::with(text);
            buffer.apply(EditAction::MoveCursorTo(line, column));
            assert_eq!(buffer.cursor_position(), (line, column));
            buffer.apply(EditAction::InsertChar(c));
            assert_ne!(buffer.text(), text);
            buffer.apply(EditAction::Backspace);
            assert_eq!(buffer.text(), text);
            assert_eq!(buffer.cursor_position(), (line, column));
        }
    }
}

#[test]
fn insert_then_backspace_after_other_edits() {
    let mut buffer = TextBuffer::new();
    apply_all(
        &mut buffer,
        &[
            EditAction::InsertChar('a'),
            EditAction::InsertChar('b'),
            EditAction::Backspace,
            EditAction::InsertChar('c'),
            EditAction::InsertChar('\n'),
            EditAction::Backspace,
            EditAction::Backspace,
            EditAction::Backspace,
            EditAction::Backspace,
            EditAction::InsertChar('z'),
        ],
    );
    assert_eq!(buffer.text(), "z");
    assert_eq!(buffer.cursor_position(), (0, 1));
    buffer.apply(EditAction::InsertChar('q'));
    assert_eq!(buffer.text(), "zq");
    buffer.apply(EditAction::Backspace);
    assert_eq!(buffer.text(), "z");
    assert_eq!(buffer.cursor_position(), (0, 1));
}

#[test]
fn move_left_and_right_stay_in_the_line() {
    let mut buffer = TextBuffer::with("ab\ncd");
    buffer.apply(EditAction::MoveCursor(Direction::Left));
    assert_eq!(buffer.cursor_position(), (0, 0));
    buffer.apply(EditAction::MoveCursor(Direction::Right));
    assert_eq!(buffer.cursor_position(), (0, 1));
    buffer.apply(EditAction::MoveCursor(Direction::Right));
    assert_eq!(buffer.cursor_position(), (0, 2));
    buffer.apply(EditAction::MoveCursor(Direction::Right));
    assert_eq!(buffer.cursor_position(), (0, 2));
    buffer.apply(EditAction::MoveCursorTo(1, 0));
    buffer.apply(EditAction::MoveCursor(Direction::Left));
    assert_eq!(buffer.cursor_position(), (1, 0));
    buffer.apply(EditAction::MoveCursor(Direction::Right));
    buffer.apply(EditAction::MoveCursor(Direction::Left));
    assert_eq!(buffer.cursor_position(), (1, 0));
    assert_eq!(buffer.text(), "ab\ncd");
}

#[test]
fn move_up_and_down_clamp_the_column() {
    let mut buffer = TextBuffer::with("long line\nab\nlonger line");
    buffer.apply(EditAction::MoveCursorTo(0, 7));
    buffer.apply(EditAction::MoveCursor(Direction::Up));
    assert_eq!(buffer.cursor_position(), (0, 7));
    buffer.apply(EditAction::MoveCursor(Direction::Down));
    assert_eq!(buffer.cursor_position(), (1, 2));
    buffer.apply(EditAction::MoveCursor(Direction::Down));
    assert_eq!(buffer.cursor_position(), (2, 2));
    buffer.apply(EditAction::MoveCursor(Direction::Down));
    assert_eq!(buffer.cursor_position(), (2, 2));
    buffer.apply(EditAction::MoveCursorTo(2, 11));
    buffer.apply(EditAction::MoveCursor(Direction::Up));
    assert_eq!(buffer.cursor_position(), (1, 2));
    buffer.apply(EditAction::MoveCursor(Direction::Up));
    assert_eq!(buffer.cursor_position(), (0, 2));
}

#[test]
fn move_cursor_to_clamps_to_the_text() {
    let mut buffer = TextBuffer::with("ab\ncdef\ng");
    buffer.apply(EditAction::MoveCursorTo(1, 3));
    assert_eq!(buffer.cursor_position(), (1, 3));
    buffer.apply(EditAction::MoveCursorTo(1, 4));
    assert_eq!(buffer.cursor_position(), (1, 4));
    buffer.apply(EditAction::MoveCursorTo(1, 5));
    assert_eq!(buffer.cursor_position(), (1, 4));
    buffer.apply(EditAction::MoveCursorTo(7, 0));
    assert_eq!(buffer.cursor_position(), (2, 0));
    buffer.apply(EditAction::MoveCursorTo(3, 9));
    assert_eq!(buffer.cursor_position(), (2, 1));
    buffer.apply(EditAction::MoveCursorTo(usize::MAX, usize::MAX));
    assert_eq!(buffer.cursor_position(), (2, 1));
    buffer.apply(EditAction::MoveCursorTo(0, usize::MAX));
    assert_eq!(buffer.cursor_position(), (0, 2));
    assert_eq!(buffer.text(), "ab\ncdef\ng");
}

#[test]
fn move_cursor_to_in_an_empty_buffer() {
    let mut buffer = TextBuffer::new();
    buffer.apply(EditAction::MoveCursorTo(5, 5));
    assert_eq!(buffer.cursor_position(), (0, 0));
}

#[test]
fn select_to_keeps_the_anchor() {
    let mut buffer = TextBuffer::with("ab\ncdef");
    buffer.apply(EditAction::MoveCursorTo(0, 1));
    buffer.apply(EditAction::SelectTo(1, 2));
    let anchor = Position { line: 0, column: 1 };
    assert_eq!(buffer.selection(), Some((anchor, Position { line: 1, column: 2 })));
    assert_eq!(buffer.cursor_position(), (1, 2));
    buffer.apply(EditAction::SelectTo(9, 9));
    assert_eq!(buffer.selection(), Some((anchor, Position { line: 1, column: 4 })));
    assert_eq!(buffer.cursor_position(), (1, 4));
    assert_eq!(buffer.text(), "ab\ncdef");
}

#[test]
fn select_all_reaches_from_start_to_end() {
    let mut buffer = TextBuffer::with("ab\ncdef\ngh");
    buffer.apply(EditAction::MoveCursorTo(1, 1));
    buffer.apply(EditAction::SelectAll);
    assert_eq!(
        buffer.selection(),
        Some((Position { line: 0, column: 0 }, Position { line: 2, column: 2 }))
    );
    assert_eq!(buffer.cursor_position(), (2, 2));
}

#[test]
fn edits_and_moves_end_the_selection() {
    for action in [
        EditAction::InsertChar('x'),
        EditAction::InsertNewline,
        EditAction::Backspace,
        EditAction::Delete,
        EditAction::MoveCursor(Direction::Left),
        EditAction::MoveCursorTo(0, 0),
    ] {
        let mut buffer = TextBuffer::with("ab\ncd");
        buffer.apply(EditAction::SelectAll);
        assert!(buffer.selection().is_some());
        buffer.apply(action);
        assert_eq!(buffer.selection(), None);
    }
}
