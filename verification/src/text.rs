//! Text as a sequence of lines: splitting on line feeds and joining again.
//!
//! A document is held as lines, and shown and stored as one text in which a
//! line feed stands between consecutive lines. The two spec functions here,
//! `split_lines` and `join_lines`, are inverse to each other: every text is
//! the joining of exactly one sequence of lines.

use vstd::prelude::*;

verus! {

/// Whether `line` holds no line feed, so that it can stand as one line.
pub open spec fn is_line(line: Seq<char>) -> bool {
    forall|i: int| 0 <= i < line.len() ==> line[i] != '\n'
}

/// Whether `lines` can be the lines of a document: there is at least one
/// line (the empty document is one empty line) and none holds a line feed.
pub open spec fn are_lines(lines: Seq<Seq<char>>) -> bool {
    &&& lines.len() >= 1
    &&& forall|i: int| 0 <= i < lines.len() ==> is_line(#[trigger] lines[i])
}

/// The lines written one after the other, a line feed between each two.
pub open spec fn join_lines(lines: Seq<Seq<char>>) -> Seq<char>
    decreases lines.len(),
{
    if lines.len() == 0 {
        Seq::empty()
    } else if lines.len() == 1 {
        lines[0]
    } else {
        join_lines(lines.drop_last()) + seq!['\n'] + lines.last()
    }
}

/// The lines of `text`: every line feed ends a line and begins the next one.
/// A text that ends in a line feed therefore has an empty last line, and the
/// empty text is one empty line.
pub open spec fn split_lines(text: Seq<char>) -> Seq<Seq<char>>
    decreases text.len(),
{
    if text.len() == 0 {
        seq![Seq::empty()]
    } else {
        let before = split_lines(text.drop_last());
        if text.last() == '\n' {
            before.push(Seq::empty())
        } else {
            before.drop_last().push(before.last().push(text.last()))
        }
    }
}

/// Splitting always yields valid lines.
pub proof fn lemma_split_lines_are_lines(text: Seq<char>)
    ensures
        are_lines(split_lines(text)),
    decreases text.len(),
{
    if text.len() > 0 {
        lemma_split_lines_are_lines(text.drop_last());
    }
}

/// Splitting a text into lines and joining them again gives the text back,
/// whatever the text: a line feed at its end is kept as an empty last line,
/// and every other character, a carriage return too, stays in its line.
pub proof fn lemma_join_split(text: Seq<char>)
    ensures
        join_lines(split_lines(text)) == text,
    decreases text.len(),
{
    if text.len() > 0 {
        let shorter = text.drop_last();
        let before = split_lines(shorter);
        lemma_join_split(shorter);
        lemma_split_lines_are_lines(shorter);
        assert(text == shorter.push(text.last()));
        if text.last() == '\n' {
            let after = before.push(Seq::empty());
            assert(after.drop_last() == before);
            assert(join_lines(after) == join_lines(before) + seq!['\n'] + Seq::<char>::empty());
            assert(join_lines(after) == text);
        } else {
            let grown = before.last().push(text.last());
            let after = before.drop_last().push(grown);
            assert(after.drop_last() == before.drop_last());
            if before.len() == 1 {
                assert(join_lines(after) == grown);
                assert(join_lines(before) == before.last());
            } else {
                assert(join_lines(after) == join_lines(before.drop_last()) + seq!['\n'] + grown);
                assert(join_lines(before) == join_lines(before.drop_last()) + seq!['\n']
                    + before.last());
            }
            assert(join_lines(after) == text);
        }
    }
}

/// Appending characters that are no line feeds only lengthens the last line.
pub proof fn lemma_split_append_line(text: Seq<char>, line: Seq<char>)
    requires
        is_line(line),
    ensures
        split_lines(text + line) == split_lines(text).drop_last().push(
            split_lines(text).last() + line,
        ),
    decreases line.len(),
{
    let lines = split_lines(text);
    lemma_split_lines_are_lines(text);
    if line.len() == 0 {
        assert(text + line == text);
        assert(lines.last() + line == lines.last());
        assert(lines.drop_last().push(lines.last()) == lines);
    } else {
        let shorter = line.drop_last();
        lemma_split_append_line(text, shorter);
        assert((text + line).drop_last() == text + shorter);
        assert((text + line).last() == line.last());
        let before = split_lines(text + shorter);
        assert(before.drop_last() == lines.drop_last());
        assert(before.last().push(line.last()) == lines.last() + line);
    }
}

/// Joining valid lines and splitting the text again gives the lines back.
/// Together with `lemma_join_split` this makes a text and its lines two
/// forms of the same thing.
pub proof fn lemma_split_join(lines: Seq<Seq<char>>)
    requires
        are_lines(lines),
    ensures
        split_lines(join_lines(lines)) == lines,
    decreases lines.len(),
{
    if lines.len() == 1 {
        let nothing = Seq::<char>::empty();
        lemma_split_append_line(nothing, lines[0]);
        assert(nothing + lines[0] == lines[0]);
        assert(split_lines(nothing) == seq![nothing]);
        assert(seq![nothing].drop_last().push(nothing + lines[0]) == lines);
    } else {
        let init = lines.drop_last();
        lemma_split_join(init);
        let head = join_lines(init) + seq!['\n'];
        assert(head.drop_last() == join_lines(init));
        assert(split_lines(head) == init.push(Seq::empty()));
        lemma_split_append_line(head, lines.last());
        assert(init.push(Seq::<char>::empty()).drop_last() == init);
        assert(Seq::<char>::empty() + lines.last() == lines.last());
        assert(init.push(lines.last()) == lines);
    }
}

/// What the joined text holds before line `line`: the lines before it, each
/// followed by its line feed.
pub open spec fn text_before(lines: Seq<Seq<char>>, line: int) -> Seq<char> {
    if line == 0 {
        Seq::empty()
    } else {
        join_lines(lines.take(line)) + seq!['\n']
    }
}

/// What the joined text holds after line `line`: the lines after it, each
/// preceded by its line feed.
pub open spec fn text_after(lines: Seq<Seq<char>>, line: int) -> Seq<char> {
    if line + 1 == lines.len() {
        Seq::empty()
    } else {
        seq!['\n'] + join_lines(lines.skip(line + 1))
    }
}

/// Joining two runs of lines, one after the other, puts a line feed between
/// their texts.
pub proof fn lemma_join_concat(first: Seq<Seq<char>>, second: Seq<Seq<char>>)
    requires
        first.len() >= 1,
        second.len() >= 1,
    ensures
        join_lines(first + second) == join_lines(first) + seq!['\n'] + join_lines(second),
    decreases second.len(),
{
    let all = first + second;
    assert(all.last() == second.last());
    if second.len() == 1 {
        assert(all.drop_last() == first);
    } else {
        assert(all.drop_last() == first + second.drop_last());
        lemma_join_concat(first, second.drop_last());
        assert(join_lines(all) == join_lines(first) + seq!['\n'] + join_lines(
            second.drop_last(),
        ) + seq!['\n'] + second.last());
        assert(join_lines(second) == join_lines(second.drop_last()) + seq!['\n']
            + second.last());
    }
}

/// The joined text is what stands before a line, the line, and what stands
/// after it.
pub proof fn lemma_join_around(lines: Seq<Seq<char>>, line: int)
    requires
        0 <= line < lines.len(),
    ensures
        join_lines(lines) == text_before(lines, line) + lines[line] + text_after(lines, line),
    decreases line,
{
    if line == 0 {
        if lines.len() > 1 {
            let head = seq![lines[0]];
            assert(lines == head + lines.skip(1));
            lemma_join_concat(head, lines.skip(1));
            assert(join_lines(head) == lines[0]);
        } else {
            assert(join_lines(lines) == Seq::<char>::empty() + lines[0] + Seq::<char>::empty());
        }
    } else {
        let rest = lines.skip(line);
        assert(lines == lines.take(line) + rest);
        lemma_join_concat(lines.take(line), rest);
        lemma_join_around(rest, 0);
        assert(rest[0] == lines[line]);
        assert(rest.skip(1) == lines.skip(line + 1));
        assert(text_after(rest, 0) == text_after(lines, line));
        let tail = Seq::<char>::empty() + lines[line] + text_after(lines, line);
        assert(join_lines(lines) == join_lines(lines.take(line)) + seq!['\n'] + tail);
    }
}

/// What stands before a line grows by that line and its line feed on the
/// way to the next line.
pub proof fn lemma_text_before_next(lines: Seq<Seq<char>>, line: int)
    requires
        0 <= line < lines.len(),
    ensures
        text_before(lines, line + 1) == text_before(lines, line) + lines[line] + seq!['\n'],
{
    let upto = lines.take(line + 1);
    lemma_join_around(upto, line);
    assert(upto.take(line) == lines.take(line));
    assert(text_before(upto, line) == text_before(lines, line));
    assert(join_lines(upto) == text_before(lines, line) + lines[line]);
}

/// Replacing one line replaces its part of the text and nothing else.
pub proof fn lemma_join_update(lines: Seq<Seq<char>>, line: int, new: Seq<char>)
    requires
        0 <= line < lines.len(),
    ensures
        join_lines(lines.update(line, new)) == text_before(lines, line) + new + text_after(
            lines,
            line,
        ),
        text_before(lines.update(line, new), line) == text_before(lines, line),
{
    let changed = lines.update(line, new);
    lemma_join_around(changed, line);
    assert(changed.take(line) == lines.take(line));
    assert(changed.skip(line + 1) == lines.skip(line + 1));
}

/// Breaking one line in two puts a line feed between the two parts.
pub proof fn lemma_join_break(
    lines: Seq<Seq<char>>,
    line: int,
    head: Seq<char>,
    tail: Seq<char>,
)
    requires
        0 <= line < lines.len(),
    ensures
        join_lines(lines.update(line, head).insert(line + 1, tail)) == text_before(lines, line)
            + head + seq!['\n'] + tail + text_after(lines, line),
        text_before(lines.update(line, head).insert(line + 1, tail), line + 1) == text_before(
            lines,
            line,
        ) + head + seq!['\n'],
{
    let broken = lines.update(line, head).insert(line + 1, tail);
    lemma_join_around(broken, line + 1);
    lemma_text_before_next(broken, line);
    assert(broken.take(line) == lines.take(line));
    assert(text_before(broken, line) == text_before(lines, line));
    assert(broken.skip(line + 2) == lines.skip(line + 1));
    assert(text_after(broken, line + 1) == text_after(lines, line));
}

/// Joining a line to the one after it takes the line feed between them out
/// of the text.
pub proof fn lemma_join_merge(lines: Seq<Seq<char>>, line: int)
    requires
        0 <= line,
        line + 1 < lines.len(),
    ensures
        join_lines(lines) == text_before(lines, line) + lines[line] + seq!['\n'] + lines[line
            + 1] + text_after(lines, line + 1),
        join_lines(lines.update(line, lines[line] + lines[line + 1]).remove(line + 1))
            == text_before(lines, line) + lines[line] + lines[line + 1] + text_after(
            lines,
            line + 1,
        ),
        text_before(lines.update(line, lines[line] + lines[line + 1]).remove(line + 1), line)
            == text_before(lines, line),
{
    let merged = lines.update(line, lines[line] + lines[line + 1]).remove(line + 1);
    lemma_join_around(lines, line + 1);
    lemma_text_before_next(lines, line);
    lemma_join_around(merged, line);
    assert(merged.take(line) == lines.take(line));
    assert(merged.skip(line + 1) == lines.skip(line + 2));
    assert(text_after(merged, line) == text_after(lines, line + 1));
}

/// The lines held in `lines`, each as the characters it holds.
pub open spec fn lines_view(lines: Seq<Vec<char>>) -> Seq<Seq<char>> {
    lines.map_values(|line: Vec<char>| line@)
}

/// Specifies `String::push` of the standard library: the character is
/// appended to the end of the string, and nothing else changes.
pub assume_specification[ String::push ](s: &mut String, c: char)
    ensures
        final(s)@ == old(s)@.push(c),
;

/// Splits `text` into its lines, one vector of characters for each.
pub fn split_text(text: &str) -> (lines: Vec<Vec<char>>)
    ensures
        lines_view(lines@) == split_lines(text@),
        are_lines(lines_view(lines@)),
{
    let mut lines: Vec<Vec<char>> = Vec::new();
    let mut current: Vec<char> = Vec::new();
    for c in it: text.chars()
        invariant
            it.seq() == text@,
            split_lines(text@.take(it.index() as int)) == lines_view(lines@).push(current@),
    {
        assert(text@.take(it.index() + 1).drop_last() == text@.take(it.index() as int));
        if c == '\n' {
            lines.push(current);
            current = Vec::new();
        } else {
            current.push(c);
        }
    }
    proof {
        assert(text@.take(text@.len() as int) == text@);
        lemma_split_lines_are_lines(text@);
    }
    lines.push(current);
    lines
}

/// Writes `lines` out as one text, a line feed between each two lines.
pub fn join_text(lines: &Vec<Vec<char>>) -> (text: String)
    ensures
        text@ == join_lines(lines_view(lines@)),
{
    let mut text = String::new();
    let mut i: usize = 0;
    while i < lines.len()
        invariant
            i <= lines.len(),
            text@ == join_lines(lines_view(lines@).take(i as int)),
        decreases lines.len() - i,
    {
        if i > 0 {
            text.push('\n');
        }
        let ghost start = text@;
        let line = &lines[i];
        let mut j: usize = 0;
        while j < line.len()
            invariant
                j <= line.len(),
                text@ == start + line@.take(j as int),
            decreases line.len() - j,
        {
            text.push(line[j]);
            assert(line@.take(j + 1) == line@.take(j as int).push(line@[j as int]));
            j += 1;
        }
        proof {
            let all = lines_view(lines@);
            assert(line@.take(line@.len() as int) == line@);
            assert(all.take(i + 1).drop_last() == all.take(i as int));
            assert(all.take(i + 1).last() == line@);
        }
        i += 1;
    }
    assert(lines_view(lines@).take(lines@.len() as int) == lines_view(lines@));
    text
}

} // verus!
