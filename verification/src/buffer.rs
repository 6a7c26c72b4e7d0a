//! The text buffer: the lines of a document, a cursor and a selection.
//!
//! `BufferModel` is the mathematical buffer and says what every edit action
//! does. `TextBuffer` is the buffer that programs hold; each of its
//! operations is tied to the model by its contract.

use vstd::prelude::*;
use crate::action::{Direction, EditAction};
use crate::text::{are_lines, is_line, join_lines, join_text, lines_view, split_lines, split_text};
use crate::text::text_before;
use crate::text::lemma_split_lines_are_lines;

verus! {

/// A place in a document: a line and a column in it, both counted from zero.
/// The column counts characters; it may equal the length of the line, which
/// is the place behind its last character.
pub struct Cursor {
    pub line: nat,
    pub column: nat,
}

/// The mathematical buffer.
pub struct BufferModel {
    /// The lines of the document, without their line feeds.
    pub lines: Seq<Seq<char>>,
    /// Where the next edit takes place.
    pub cursor: Cursor,
    /// The selection, if there is one: the place where it was begun (the
    /// anchor) and the place up to which it reaches (the head).
    pub selection: Option<(Cursor, Cursor)>,
}

impl BufferModel {
    /// Whether `at` is a place in this buffer's text.
    pub open spec fn holds(self, at: Cursor) -> bool {
        at.line < self.lines.len() && at.column <= self.lines[at.line as int].len()
    }

    /// What holds of every buffer: there is at least one line, no line holds
    /// a line feed, the cursor is a place in the text, and a selection starts
    /// at a place in the text and ends at the cursor.
    pub open spec fn well_formed(self) -> bool {
        &&& are_lines(self.lines)
        &&& self.holds(self.cursor)
        &&& (self.selection matches Some(span) ==> self.holds(span.0) && span.1 == self.cursor)
    }

    /// The empty document: one empty line, the cursor at its start.
    pub open spec fn empty() -> BufferModel {
        BufferModel {
            lines: seq![Seq::empty()],
            cursor: Cursor { line: 0, column: 0 },
            selection: None,
        }
    }

    /// The buffer that holds `text`, the cursor at its start.
    pub open spec fn with_text(text: Seq<char>) -> BufferModel {
        BufferModel {
            lines: split_lines(text),
            cursor: Cursor { line: 0, column: 0 },
            selection: None,
        }
    }

    /// The whole text, a line feed between each two lines.
    pub open spec fn text(self) -> Seq<char> {
        join_lines(self.lines)
    }

    /// How many characters of the text stand before the cursor.
    pub open spec fn offset(self) -> nat {
        text_before(self.lines, self.cursor.line as int).len() + self.cursor.column
    }

    /// The line that the cursor is in.
    pub open spec fn current_line(self) -> Seq<char> {
        self.lines[self.cursor.line as int]
    }

    /// The place in the text that is nearest to `line` and `column`: a line
    /// past the last one becomes the last one, and a column past the end of
    /// that line becomes its end.
    pub open spec fn clamp(self, line: nat, column: nat) -> Cursor {
        let last = (self.lines.len() - 1) as nat;
        let line = if line < last { line } else { last };
        let length = self.lines[line as int].len();
        Cursor { line, column: if column < length { column } else { length } }
    }

    /// The place behind the last character of the text.
    pub open spec fn end(self) -> Cursor {
        let last = (self.lines.len() - 1) as nat;
        Cursor { line: last, column: self.lines[last as int].len() }
    }

    /// This text with the cursor at `cursor` and nothing selected.
    pub open spec fn at(self, cursor: Cursor) -> BufferModel {
        BufferModel { lines: self.lines, cursor, selection: None }
    }

    /// The buffer after a line break at the cursor: the current line ends at
    /// the cursor, what followed the cursor becomes the next line, and the
    /// cursor stands at the start of that line.
    pub open spec fn insert_newline(self) -> BufferModel {
        let line = self.cursor.line as int;
        let column = self.cursor.column as int;
        let current = self.current_line();
        BufferModel {
            lines: self.lines.update(line, current.take(column)).insert(
                line + 1,
                current.skip(column),
            ),
            cursor: Cursor { line: self.cursor.line + 1, column: 0 },
            selection: None,
        }
    }

    /// The buffer after `c` was typed: `c` stands where the cursor was and
    /// the cursor one column further. A line feed breaks the line instead,
    /// as `insert_newline` does, so that no line ever holds one.
    pub open spec fn insert_char(self, c: char) -> BufferModel {
        if c == '\n' {
            self.insert_newline()
        } else {
            let line = self.cursor.line as int;
            let column = self.cursor.column as int;
            BufferModel {
                lines: self.lines.update(line, self.current_line().insert(column, c)),
                cursor: Cursor { line: self.cursor.line, column: self.cursor.column + 1 },
                selection: None,
            }
        }
    }

    /// The buffer after a backspace. Inside a line the character before the
    /// cursor goes and the cursor steps back. At the start of a line that is
    /// not the first, the line is joined to the one before it and the cursor
    /// stands where the two meet. At the start of the text nothing goes.
    pub open spec fn backspace(self) -> BufferModel {
        let line = self.cursor.line as int;
        let column = self.cursor.column as int;
        if column > 0 {
            BufferModel {
                lines: self.lines.update(line, self.current_line().remove(column - 1)),
                cursor: Cursor { line: self.cursor.line, column: (column - 1) as nat },
                selection: None,
            }
        } else if line > 0 {
            let before = self.lines[line - 1];
            BufferModel {
                lines: self.lines.update(line - 1, before + self.current_line()).remove(line),
                cursor: Cursor { line: (line - 1) as nat, column: before.len() },
                selection: None,
            }
        } else {
            self.at(self.cursor)
        }
    }

    /// The buffer after a delete, the mirror of a backspace. Inside a line
    /// the character at the cursor goes. At the end of a line that is not
    /// the last, the next line is joined to it. At the end of the text
    /// nothing goes. The cursor stays where it is.
    pub open spec fn delete(self) -> BufferModel {
        let line = self.cursor.line as int;
        let column = self.cursor.column as int;
        if column < self.current_line().len() {
            BufferModel {
                lines: self.lines.update(line, self.current_line().remove(column)),
                cursor: self.cursor,
                selection: None,
            }
        } else if line + 1 < self.lines.len() {
            BufferModel {
                lines: self.lines.update(line, self.current_line() + self.lines[line + 1]).remove(
                    line + 1,
                ),
                cursor: self.cursor,
                selection: None,
            }
        } else {
            self.at(self.cursor)
        }
    }

    /// The buffer after the cursor moved one step. Left and right stay in
    /// the line: at its start, or at its end, the cursor does not move. Up
    /// and down keep the column where the line they reach is long enough,
    /// and stop at its end where it is shorter; on the first line up does
    /// not move the cursor, nor does down on the last.
    pub open spec fn move_cursor(self, direction: Direction) -> BufferModel {
        let line = self.cursor.line;
        let column = self.cursor.column;
        match direction {
            Direction::Left => if column > 0 {
                self.at(Cursor { line, column: (column - 1) as nat })
            } else {
                self.at(self.cursor)
            },
            Direction::Right => if column < self.current_line().len() {
                self.at(Cursor { line, column: column + 1 })
            } else {
                self.at(self.cursor)
            },
            Direction::Up => if line > 0 {
                self.at(self.clamp((line - 1) as nat, column))
            } else {
                self.at(self.cursor)
            },
            Direction::Down => if line + 1 < self.lines.len() {
                self.at(self.clamp(line + 1, column))
            } else {
                self.at(self.cursor)
            },
        }
    }

    /// The buffer after the cursor was sent to `line` and `column`: it
    /// stands at the nearest place in the text.
    pub open spec fn move_cursor_to(self, line: nat, column: nat) -> BufferModel {
        self.at(self.clamp(line, column))
    }

    /// The buffer after the selection was extended to `line` and `column`.
    /// The selection keeps its anchor, or starts at the cursor if nothing
    /// was selected, and reaches to the nearest place in the text, which is
    /// where the cursor stands afterwards.
    pub open spec fn select_to(self, line: nat, column: nat) -> BufferModel {
        let anchor = match self.selection {
            Some(span) => span.0,
            None => self.cursor,
        };
        let head = self.clamp(line, column);
        BufferModel { lines: self.lines, cursor: head, selection: Some((anchor, head)) }
    }

    /// The buffer with its whole text selected, from the start to the end,
    /// and the cursor at the end.
    pub open spec fn select_all(self) -> BufferModel {
        BufferModel {
            lines: self.lines,
            cursor: self.end(),
            selection: Some((Cursor { line: 0, column: 0 }, self.end())),
        }
    }

    /// The buffer after `action`. An edit or a move of the cursor ends the
    /// selection; only the two selecting actions leave one behind.
    pub open spec fn apply(self, action: EditAction) -> BufferModel {
        match action {
            EditAction::InsertChar(c) => self.insert_char(c),
            EditAction::InsertNewline => self.insert_newline(),
            EditAction::Backspace => self.backspace(),
            EditAction::Delete => self.delete(),
            EditAction::MoveCursor(direction) => self.move_cursor(direction),
            EditAction::MoveCursorTo(line, column) => self.move_cursor_to(
                line as nat,
                column as nat,
            ),
            EditAction::SelectTo(line, column) => self.select_to(line as nat, column as nat),
            EditAction::SelectAll => self.select_all(),
        }
    }

    /// The buffer after all of `actions`, the first of them first.
    pub open spec fn apply_all(self, actions: Seq<EditAction>) -> BufferModel
        decreases actions.len(),
    {
        if actions.len() == 0 {
            self
        } else {
            self.apply_all(actions.drop_last()).apply(actions.last())
        }
    }
}

/// The nearest place in the text is a place in the text.
pub proof fn lemma_clamp_holds(buffer: BufferModel, line: nat, column: nat)
    requires
        buffer.well_formed(),
    ensures
        buffer.holds(buffer.clamp(line, column)),
        buffer.holds(Cursor { line, column }) ==> buffer.clamp(line, column) == (Cursor {
            line,
            column,
        }),
{
}

/// A line break at the cursor leaves a buffer that is well formed.
pub proof fn lemma_insert_newline_well_formed(buffer: BufferModel)
    requires
        buffer.well_formed(),
    ensures
        buffer.insert_newline().well_formed(),
{
    let after = buffer.insert_newline();
    let line = buffer.cursor.line as int;
    assert forall|i: int| 0 <= i < after.lines.len() implies is_line(#[trigger] after.lines[i]) by {
        if i < line {
            assert(after.lines[i] == buffer.lines[i]);
        } else if i <= line + 1 {
            assert(is_line(buffer.lines[line]));
        } else {
            assert(after.lines[i] == buffer.lines[i - 1]);
        }
    }
}

/// Every action leaves a buffer that is well formed: whatever the action
/// and its target, the cursor is a place in the text afterwards.
pub proof fn lemma_apply_well_formed(buffer: BufferModel, action: EditAction)
    requires
        buffer.well_formed(),
    ensures
        buffer.apply(action).well_formed(),
{
    let after = buffer.apply(action);
    let line = buffer.cursor.line as int;
    let column = buffer.cursor.column as int;
    assert(is_line(buffer.lines[line]));
    match action {
        EditAction::InsertChar(c) => {
            if c == '\n' {
                lemma_insert_newline_well_formed(buffer);
            } else {
                assert forall|i: int| 0 <= i < after.lines.len() implies is_line(
                    #[trigger] after.lines[i],
                ) by {
                    assert(is_line(buffer.lines[i]));
                }
            }
        },
        EditAction::InsertNewline => {
            lemma_insert_newline_well_formed(buffer);
        },
        EditAction::Backspace => {
            assert forall|i: int| 0 <= i < after.lines.len() implies is_line(
                #[trigger] after.lines[i],
            ) by {
                if column > 0 {
                    assert(is_line(buffer.lines[i]));
                } else if line > 0 {
                    assert(is_line(buffer.lines[line - 1]));
                    if i < line {
                        assert(is_line(buffer.lines[i]));
                    } else {
                        assert(after.lines[i] == buffer.lines[i + 1]);
                    }
                }
            }
        },
        EditAction::Delete => {
            assert forall|i: int| 0 <= i < after.lines.len() implies is_line(
                #[trigger] after.lines[i],
            ) by {
                if column < buffer.current_line().len() {
                    assert(is_line(buffer.lines[i]));
                } else if line + 1 < buffer.lines.len() {
                    assert(is_line(buffer.lines[line + 1]));
                    if i <= line {
                        assert(is_line(buffer.lines[i]));
                    } else {
                        assert(after.lines[i] == buffer.lines[i + 1]);
                    }
                }
            }
        },
        EditAction::MoveCursor(direction) => {
            lemma_clamp_holds(buffer, (line - 1) as nat, column as nat);
            lemma_clamp_holds(buffer, (line + 1) as nat, column as nat);
        },
        EditAction::MoveCursorTo(to_line, to_column) => {
            lemma_clamp_holds(buffer, to_line as nat, to_column as nat);
        },
        EditAction::SelectTo(to_line, to_column) => {
            lemma_clamp_holds(buffer, to_line as nat, to_column as nat);
        },
        EditAction::SelectAll => {},
    }
}

/// Whatever actions are applied, in whatever order, the buffer stays well
/// formed.
pub proof fn lemma_apply_all_well_formed(buffer: BufferModel, actions: Seq<EditAction>)
    requires
        buffer.well_formed(),
    ensures
        buffer.apply_all(actions).well_formed(),
    decreases actions.len(),
{
    if actions.len() > 0 {
        lemma_apply_all_well_formed(buffer, actions.drop_last());
        lemma_apply_well_formed(buffer.apply_all(actions.drop_last()), actions.last());
    }
}

/// The buffer made from a text is well formed, whatever the text.
pub proof fn lemma_with_text_well_formed(text: Seq<char>)
    ensures
        BufferModel::with_text(text).well_formed(),
        BufferModel::empty().well_formed(),
{
    lemma_split_lines_are_lines(text);
}

/// A place in a document as programs hold it: a line and a column, both
/// counted from zero.
#[derive(Clone, Copy, Debug, PartialEq, Eq, Structural)]
pub struct Position {
    pub line: usize,
    pub column: usize,
}

impl View for Position {
    type V = Cursor;

    open spec fn view(&self) -> Cursor {
        Cursor { line: self.line as nat, column: self.column as nat }
    }
}

/// A selection as the model holds it.
pub open spec fn span_view(selection: Option<(Position, Position)>) -> Option<(Cursor, Cursor)> {
    match selection {
        Some(span) => Some((span.0@, span.1@)),
        None => None,
    }
}

/// The text of one document, with the cursor and the selection in it.
///
/// A buffer is made empty or from a text, and changes through `apply` alone.
/// Its view is a `BufferModel`, which is well formed at all times.
#[derive(Debug)]
pub struct TextBuffer {
    lines: Vec<Vec<char>>,
    cursor: Position,
    selection: Option<(Position, Position)>,
}

impl View for TextBuffer {
    type V = BufferModel;

    closed spec fn view(&self) -> BufferModel {
        BufferModel {
            lines: lines_view(self.lines@),
            cursor: self.cursor@,
            selection: span_view(self.selection),
        }
    }
}

impl TextBuffer {
    /// The invariant of the type: the model of a buffer is well formed
    /// wherever a program holds the buffer.
    #[verifier::type_invariant]
    pub open spec fn well_formed(self) -> bool {
        self@.well_formed()
    }

    /// The empty buffer: one empty line, the cursor at its start.
    pub fn new() -> (buffer: TextBuffer)
        ensures
            buffer@ == BufferModel::empty(),
    {
        let mut lines: Vec<Vec<char>> = Vec::new();
        lines.push(Vec::new());
        assert(lines_view(lines@) == BufferModel::empty().lines);
        TextBuffer { lines, cursor: Position { line: 0, column: 0 }, selection: None }
    }

    /// The buffer that holds `content`, the cursor at its start. Lines end
    /// at line feeds and nowhere else, and a line feed at the end of
    /// `content` gives an empty last line, so that `text` returns `content`
    /// as it was given.
    pub fn with(content: &str) -> (buffer: TextBuffer)
        ensures
            buffer@ == BufferModel::with_text(content@),
            buffer@.text() == content@,
    {
        let lines = split_text(content);
        proof {
            crate::text::lemma_join_split(content@);
        }
        TextBuffer { lines, cursor: Position { line: 0, column: 0 }, selection: None }
    }

    /// The whole text, a line feed between each two lines and none after the
    /// last.
    pub fn text(&self) -> (text: String)
        ensures
            text@ == self@.text(),
    {
        join_text(&self.lines)
    }

    /// The line and the column of the cursor, both counted from zero. They
    /// always name a place in the text.
    pub fn cursor_position(&self) -> (position: (usize, usize))
        ensures
            position.0 == self@.cursor.line,
            position.1 == self@.cursor.column,
            position.0 < self@.lines.len(),
            position.1 <= self@.lines[position.0 as int].len(),
    {
        proof {
            use_type_invariant(self);
        }
        (self.cursor.line, self.cursor.column)
    }

    /// The selection, if there is one: its anchor and its head.
    pub fn selection(&self) -> (selection: Option<(Position, Position)>)
        ensures
            span_view(selection) == self@.selection,
            self@.well_formed(),
    {
        proof {
            use_type_invariant(self);
        }
        self.selection
    }

    /// The number of lines, which is at least one.
    pub fn line_count(&self) -> (count: usize)
        ensures
            count == self@.lines.len(),
            count >= 1,
    {
        proof {
            use_type_invariant(self);
        }
        self.lines.len()
    }

    /// Applies `action`. No action fails: see `BufferModel::apply` for what
    /// each one does.
    pub fn apply(&mut self, action: EditAction)
        ensures
            final(self)@ == old(self)@.apply(action),
            final(self)@.well_formed(),
    {
        proof {
            use_type_invariant(&*self);
            lemma_apply_well_formed(self@, action);
        }
        match action {
            EditAction::InsertChar(c) => {
                if c == '\n' {
                    self.break_line();
                } else {
                    self.insert(c);
                }
            },
            EditAction::InsertNewline => self.break_line(),
            EditAction::Backspace => self.backspace(),
            EditAction::Delete => self.delete(),
            EditAction::MoveCursor(direction) => {
                let target = self.neighbour(direction);
                self.selection = None;
                self.cursor = target;
            },
            EditAction::MoveCursorTo(line, column) => {
                let target = self.nearest(line, column);
                self.selection = None;
                self.cursor = target;
            },
            EditAction::SelectTo(line, column) => {
                let anchor = match self.selection {
                    Some(span) => span.0,
                    None => self.cursor,
                };
                let head = self.nearest(line, column);
                self.selection = None;
                self.cursor = head;
                self.selection = Some((anchor, head));
            },
            EditAction::SelectAll => {
                let last: usize = self.lines.len() - 1;
                let head = Position { line: last, column: self.lines[last].len() };
                self.selection = None;
                self.cursor = head;
                self.selection = Some((Position { line: 0, column: 0 }, head));
            },
        }
    }

    /// The place in the text that is nearest to `line` and `column`.
    fn nearest(&self, line: usize, column: usize) -> (place: Position)
        ensures
            place@ == self@.clamp(line as nat, column as nat),
            self@.holds(place@),
    {
        proof {
            use_type_invariant(self);
        }
        let last: usize = self.lines.len() - 1;
        let line: usize = if line < last { line } else { last };
        let length: usize = self.lines[line].len();
        Position { line, column: if column < length { column } else { length } }
    }

    /// The place that the cursor reaches by one step in `direction`.
    fn neighbour(&self, direction: Direction) -> (place: Position)
        ensures
            self@.move_cursor(direction) == self@.at(place@),
            self@.holds(place@),
    {
        proof {
            use_type_invariant(self);
        }
        let line: usize = self.cursor.line;
        let column: usize = self.cursor.column;
        match direction {
            Direction::Left => if column > 0 {
                Position { line, column: column - 1 }
            } else {
                self.cursor
            },
            Direction::Right => if column < self.lines[line].len() {
                Position { line, column: column + 1 }
            } else {
                self.cursor
            },
            Direction::Up => if line > 0 {
                self.nearest(line - 1, column)
            } else {
                self.cursor
            },
            Direction::Down => if line < self.lines.len() - 1 {
                self.nearest(line + 1, column)
            } else {
                self.cursor
            },
        }
    }

    /// Hands the buffer out and leaves the empty buffer in its place.
    fn take(&mut self) -> (taken: TextBuffer)
        ensures
            taken@ == old(self)@,
            taken@.well_formed(),
    {
        let mut taken = TextBuffer::new();
        std::mem::swap(self, &mut taken);
        proof {
            use_type_invariant(&taken);
        }
        taken
    }

    /// Puts a character that is no line feed at the cursor.
    fn insert(&mut self, c: char)
        requires
            c != '\n',
        ensures
            final(self)@ == old(self)@.insert_char(c),
    {
        let taken = self.take();
        proof {
            lemma_apply_well_formed(taken@, EditAction::InsertChar(c));
        }
        let TextBuffer { mut lines, cursor, selection: _ } = taken;
        lines[cursor.line].insert(cursor.column, c);
        assert(cursor.column < lines[cursor.line as int].len());
        assert(lines_view(lines@) == taken@.insert_char(c).lines);
        *self = TextBuffer {
            lines,
            cursor: Position { line: cursor.line, column: cursor.column + 1 },
            selection: None,
        };
    }

    /// Breaks the current line at the cursor.
    fn break_line(&mut self)
        ensures
            final(self)@ == old(self)@.insert_newline(),
    {
        let taken = self.take();
        proof {
            lemma_insert_newline_well_formed(taken@);
        }
        let TextBuffer { mut lines, cursor, selection: _ } = taken;
        assert(cursor.line < lines.len());
        let rest = lines[cursor.line].split_off(cursor.column);
        lines.insert(cursor.line + 1, rest);
        assert(lines_view(lines@) == taken@.insert_newline().lines);
        *self = TextBuffer {
            lines,
            cursor: Position { line: cursor.line + 1, column: 0 },
            selection: None,
        };
    }

    /// Removes what stands before the cursor.
    fn backspace(&mut self)
        ensures
            final(self)@ == old(self)@.backspace(),
    {
        let taken = self.take();
        proof {
            lemma_apply_well_formed(taken@, EditAction::Backspace);
        }
        let TextBuffer { mut lines, cursor, selection: _ } = taken;
        let mut place = cursor;
        if cursor.column > 0 {
            lines[cursor.line].remove(cursor.column - 1);
            place = Position { line: cursor.line, column: cursor.column - 1 };
        } else if cursor.line > 0 {
            let mut current = lines.remove(cursor.line);
            let meeting: usize = lines[cursor.line - 1].len();
            lines[cursor.line - 1].append(&mut current);
            place = Position { line: cursor.line - 1, column: meeting };
        }
        assert(lines_view(lines@) == taken@.backspace().lines);
        *self = TextBuffer { lines, cursor: place, selection: None };
    }

    /// Removes what stands after the cursor.
    fn delete(&mut self)
        ensures
            final(self)@ == old(self)@.delete(),
    {
        let taken = self.take();
        proof {
            lemma_apply_well_formed(taken@, EditAction::Delete);
        }
        let TextBuffer { mut lines, cursor, selection: _ } = taken;
        if cursor.column < lines[cursor.line].len() {
            lines[cursor.line].remove(cursor.column);
        } else if cursor.line < lines.len() - 1 {
            let mut next = lines.remove(cursor.line + 1);
            lines[cursor.line].append(&mut next);
        }
        assert(lines_view(lines@) == taken@.delete().lines);
        *self = TextBuffer { lines, cursor, selection: None };
    }
}

} // verus!
