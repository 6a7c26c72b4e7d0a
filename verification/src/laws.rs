//! Laws that relate several operations of the editor to each other.
//!
//! Each is stated over the models, in the terms in which the contracts of
//! the operations are stated, and holds for every well-formed buffer and
//! every state.

use vstd::prelude::*;
use crate::action::EditAction;
use crate::buffer::{BufferModel, Cursor};
use crate::buffer::lemma_apply_all_well_formed;
use crate::editor::EditorModel;
use crate::error::ErrorKind;
use crate::event::{EffectModel, EventModel};
use crate::scheduler::{CompletionModel, ProgressModel};
use crate::text::{lemma_join_break, lemma_join_merge, lemma_join_update};
use crate::text::{lemma_join_around, lemma_join_split, lemma_split_join};
use crate::text::{text_after, text_before};

verus! {

/// Typing a character and pressing backspace right after it gives back the
/// text and the cursor as they were before. This holds for a line feed too,
/// which breaks a line that the backspace joins again.
pub proof fn lemma_insert_then_backspace(buffer: BufferModel, c: char)
    requires
        buffer.well_formed(),
    ensures
        buffer.apply(EditAction::InsertChar(c)).apply(EditAction::Backspace).lines
            == buffer.lines,
        buffer.apply(EditAction::InsertChar(c)).apply(EditAction::Backspace).cursor
            == buffer.cursor,
        buffer.apply(EditAction::InsertChar(c)).apply(EditAction::Backspace).text()
            == buffer.text(),
{
    let typed = buffer.insert_char(c);
    let line = buffer.cursor.line as int;
    let column = buffer.cursor.column as int;
    let current = buffer.current_line();
    if c == '\n' {
        assert(typed.lines[line] + typed.lines[line + 1] == current);
    } else {
        assert(typed.lines[line].remove(column) == current);
    }
    assert(typed.backspace().lines =~= buffer.lines);
}

/// The same after any edits whatever: in the buffer that a sequence of
/// actions has led to, a character typed and removed again by a backspace
/// leaves text and cursor as the sequence left them.
pub proof fn lemma_insert_then_backspace_after(
    start: BufferModel,
    actions: Seq<EditAction>,
    c: char,
)
    requires
        start.well_formed(),
    ensures
        start.apply_all(actions.push(EditAction::InsertChar(c)).push(EditAction::Backspace)).lines
            == start.apply_all(actions).lines,
        start.apply_all(actions.push(EditAction::InsertChar(c)).push(EditAction::Backspace)).cursor
            == start.apply_all(actions).cursor,
{
    let reached = start.apply_all(actions);
    let typed = actions.push(EditAction::InsertChar(c));
    let removed = typed.push(EditAction::Backspace);
    assert(typed.drop_last() == actions);
    assert(removed.drop_last() == typed);
    assert(start.apply_all(typed) == reached.apply(EditAction::InsertChar(c)));
    assert(start.apply_all(removed) == start.apply_all(typed).apply(EditAction::Backspace));
    lemma_apply_all_well_formed(start, actions);
    lemma_insert_then_backspace(reached, c);
}

/// The cursor stands inside the text: at most as many characters stand
/// before it as the text has. None stands before it at the start of the
/// first line and nowhere else.
pub proof fn lemma_offset_in_text(buffer: BufferModel)
    requires
        buffer.well_formed(),
    ensures
        buffer.offset() <= buffer.text().len(),
        buffer.offset() == 0 <==> buffer.cursor == (Cursor { line: 0, column: 0 }),
        buffer.offset() == buffer.text().len() <==> buffer.cursor == buffer.end(),
{
    let line = buffer.cursor.line as int;
    lemma_join_around(buffer.lines, line);
    if line + 1 == buffer.lines.len() {
        assert(buffer.end().line == buffer.cursor.line);
    }
}

/// Seen as one text, typing a character puts it where the cursor is and
/// moves the cursor behind it. This is so for every character, the line
/// feed among them.
pub proof fn lemma_insert_char_in_text(buffer: BufferModel, c: char)
    requires
        buffer.well_formed(),
    ensures
        buffer.insert_char(c).text() == buffer.text().insert(buffer.offset() as int, c),
        buffer.insert_char(c).offset() == buffer.offset() + 1,
{
    let line = buffer.cursor.line as int;
    let column = buffer.cursor.column as int;
    let current = buffer.current_line();
    let before = text_before(buffer.lines, line);
    let after = text_after(buffer.lines, line);
    lemma_join_around(buffer.lines, line);
    if c == '\n' {
        lemma_join_break(buffer.lines, line, current.take(column), current.skip(column));
        assert(current == current.take(column) + current.skip(column));
        assert(before + current.take(column) + seq!['\n'] + current.skip(column) + after == (
        before + current + after).insert(before.len() + column, c));
    } else {
        lemma_join_update(buffer.lines, line, current.insert(column, c));
        assert(before + current.insert(column, c) + after == (before + current + after).insert(
            before.len() + column,
            c,
        ));
    }
}

/// Seen as one text, a backspace removes the character before the cursor
/// and moves the cursor back by one. At the start of the text it changes
/// nothing.
pub proof fn lemma_backspace_in_text(buffer: BufferModel)
    requires
        buffer.well_formed(),
    ensures
        buffer.offset() > 0 ==> buffer.backspace().text() == buffer.text().remove(
            buffer.offset() - 1,
        ) && buffer.backspace().offset() == buffer.offset() - 1,
        buffer.offset() == 0 ==> buffer.backspace().text() == buffer.text()
            && buffer.backspace().offset() == 0,
{
    let line = buffer.cursor.line as int;
    let column = buffer.cursor.column as int;
    let current = buffer.current_line();
    lemma_offset_in_text(buffer);
    lemma_join_around(buffer.lines, line);
    if column > 0 {
        let before = text_before(buffer.lines, line);
        let after = text_after(buffer.lines, line);
        lemma_join_update(buffer.lines, line, current.remove(column - 1));
        assert(before + current.remove(column - 1) + after == (before + current + after).remove(
            before.len() + column - 1,
        ));
    } else if line > 0 {
        let before = text_before(buffer.lines, line - 1);
        let above = buffer.lines[line - 1];
        let after = text_after(buffer.lines, line);
        lemma_join_merge(buffer.lines, line - 1);
        crate::text::lemma_text_before_next(buffer.lines, line - 1);
        assert(before + above + current + after == (before + above + seq!['\n'] + current
            + after).remove((before.len() + above.len()) as int));
    }
}

/// Seen as one text, a delete removes the character at the cursor and
/// leaves the cursor where it is. At the end of the text it changes nothing.
pub proof fn lemma_delete_in_text(buffer: BufferModel)
    requires
        buffer.well_formed(),
    ensures
        buffer.offset() < buffer.text().len() ==> buffer.delete().text()
            == buffer.text().remove(buffer.offset() as int),
        buffer.offset() == buffer.text().len() ==> buffer.delete().text() == buffer.text(),
        buffer.delete().offset() == buffer.offset(),
{
    let line = buffer.cursor.line as int;
    let column = buffer.cursor.column as int;
    let current = buffer.current_line();
    let before = text_before(buffer.lines, line);
    lemma_offset_in_text(buffer);
    lemma_join_around(buffer.lines, line);
    if column < current.len() {
        let after = text_after(buffer.lines, line);
        lemma_join_update(buffer.lines, line, current.remove(column));
        assert(before + current.remove(column) + after == (before + current + after).remove(
            before.len() + column,
        ));
    } else if line + 1 < buffer.lines.len() {
        let below = buffer.lines[line + 1];
        let after = text_after(buffer.lines, line + 1);
        lemma_join_merge(buffer.lines, line);
        assert(before + current + below + after == (before + current + seq!['\n'] + below
            + after).remove(before.len() + column));
    }
}

/// A delete is the mirror of a backspace: where a backspace has something
/// to remove, it does what a delete does from one place further back.
pub proof fn lemma_backspace_mirrors_delete(buffer: BufferModel)
    requires
        buffer.well_formed(),
        buffer.cursor != (Cursor { line: 0, column: 0 }),
    ensures
        ({
            let back = if buffer.cursor.column > 0 {
                Cursor { line: buffer.cursor.line, column: (buffer.cursor.column - 1) as nat }
            } else {
                Cursor {
                    line: (buffer.cursor.line - 1) as nat,
                    column: buffer.lines[buffer.cursor.line - 1].len(),
                }
            };
            buffer.backspace() == buffer.at(back).delete()
        }),
{
}

/// Wherever the cursor is sent, it ends at a place in the text: on the line
/// asked for, or on the last line if there is no such line, and in the
/// column asked for, or at the end of the line if it is shorter. The text
/// does not change.
pub proof fn lemma_move_cursor_to_stays_inside(buffer: BufferModel, line: usize, column: usize)
    requires
        buffer.well_formed(),
    ensures
        ({
            let moved = buffer.apply(EditAction::MoveCursorTo(line, column));
            let last = buffer.lines.len() - 1;
            &&& moved.lines == buffer.lines
            &&& moved.cursor.line == if line < last { line as int } else { last }
            &&& moved.cursor.line < moved.lines.len()
            &&& moved.cursor.column == if column < moved.current_line().len() {
                column as nat
            } else {
                moved.current_line().len()
            }
            &&& moved.cursor.column <= moved.current_line().len()
        }),
{
}

/// A place in the text is reached exactly.
pub proof fn lemma_move_cursor_to_place(buffer: BufferModel, line: usize, column: usize)
    requires
        buffer.well_formed(),
        buffer.holds(Cursor { line: line as nat, column: column as nat }),
    ensures
        buffer.apply(EditAction::MoveCursorTo(line, column)).cursor == (Cursor {
            line: line as nat,
            column: column as nat,
        }),
{
}

/// A buffer made from a text holds that text, whatever the text is: a line
/// feed at its end is kept, and so is every other character.
pub proof fn lemma_with_text_round_trip(text: Seq<char>)
    ensures
        BufferModel::with_text(text).text() == text,
{
    lemma_join_split(text);
}

/// A buffer made from the text of another has the same lines.
pub proof fn lemma_text_round_trip(buffer: BufferModel)
    requires
        buffer.well_formed(),
    ensures
        BufferModel::with_text(buffer.text()).lines == buffer.lines,
{
    lemma_split_join(buffer.lines);
}

/// A failure to open is recorded as the last error, and the next edit
/// clears it.
pub proof fn lemma_edit_clears_error(state: EditorModel, error: ErrorKind, action: EditAction)
    ensures
        state.step(EventModel::FileOpened(Err(error))).0.last_error == Some(error),
        state.step(EventModel::FileOpened(Err(error))).0.step(
            EventModel::Edit(action),
        ).0.last_error == None::<ErrorKind>,
{
}

/// After an edit, and after a file was opened or saved, no error is left.
pub proof fn lemma_success_clears_error(state: EditorModel, event: EventModel)
    requires
        event is Edit || (event matches EventModel::FileOpened(opened) && opened is Ok) || (
        event matches EventModel::FileSaved(saved) && saved is Ok),
    ensures
        state.step(event).0.last_error == None::<ErrorKind>,
{
}

/// A failure changes neither the text nor the path, and is what the state
/// shows as its last error.
pub proof fn lemma_failure_keeps_document(state: EditorModel, error: ErrorKind)
    ensures
        state.step(EventModel::FileOpened(Err(error))).0.buffer == state.buffer,
        state.step(EventModel::FileOpened(Err(error))).0.path == state.path,
        state.step(EventModel::FileSaved(Err(error))).0.buffer == state.buffer,
        state.step(EventModel::FileSaved(Err(error))).0.path == state.path,
        state.step(EventModel::FileSaved(Err(error))).0.last_error == Some(error),
{
}

/// A request to save hands out the text of the buffer as it stands, and a
/// file that is opened with that very content gives a buffer with the same
/// text. Whether a file that was written is read back unchanged is for the
/// file system to keep; what the editor adds to the round trip is this.
pub proof fn lemma_saved_text_reopens(state: EditorModel, path: Seq<char>)
    ensures
        ({
            let (saving, effect) = state.step(EventModel::SaveRequested);
            let text = state.buffer.text();
            &&& effect == Some(
                match state.path {
                    Some(known) => EffectModel::SaveFile(known, text),
                    None => EffectModel::PickFileToSave(text),
                },
            )
            &&& saving.buffer == state.buffer
            &&& saving.step(EventModel::FileOpened(Ok((path, text)))).0.buffer.text() == text
        }),
{
    lemma_join_split(state.buffer.text());
}

/// Saving a document that has no path asks for one to be chosen. If none is
/// chosen, the editor shows a `DialogError` and the document stays untitled,
/// with its text as it was.
pub proof fn lemma_cancelled_save_stays_untitled(state: EditorModel)
    requires
        state.path is None,
    ensures
        ({
            let (saving, effect) = state.step(EventModel::SaveRequested);
            let cancelled = EventModel::FileSaved(Err(ErrorKind::DialogError));
            &&& effect == Some(EffectModel::PickFileToSave(state.buffer.text()))
            &&& effect->0.resolve(CompletionModel::Chosen(None)) == ProgressModel::Done(cancelled)
            &&& saving.step(cancelled).0.last_error == Some(ErrorKind::DialogError)
            &&& saving.step(cancelled).0.path is None
            &&& saving.step(cancelled).0.buffer == state.buffer
        }),
{
}

/// Edits are never held back: while an effect is awaited an edit changes
/// the buffer as it does at any other time, and the wait goes on.
pub proof fn lemma_edit_is_never_blocked(state: EditorModel, action: EditAction)
    ensures
        state.step(EventModel::Edit(action)).0.buffer == state.buffer.apply(action),
        state.step(EventModel::Edit(action)).0.phase == state.phase,
        state.step(EventModel::Edit(action)).0.path == state.path,
        state.step(EventModel::Edit(action)).1 is None,
{
}

} // verus!
