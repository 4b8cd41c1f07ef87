//! Script text as a sequence of characters, and the lines it is made of.

use vstd::prelude::*;

verus! {

/// `String::push` of the standard library appends one character to the
/// text and leaves the rest as it was.
pub assume_specification[ String::push ](text: &mut String, c: char)
    ensures
        final(text)@ == old(text)@.push(c),
;

/// The lines of a text: the pieces that its line feeds separate.
///
/// Every text has at least one line, and a text that ends in a line feed
/// has an empty last line.
pub open spec fn lines_of(text: Seq<char>) -> Seq<Seq<char>>
    decreases text.len(),
{
    if text.len() == 0 {
        seq![Seq::<char>::empty()]
    } else {
        let before = lines_of(text.drop_last());
        if text.last() == '\n' {
            before.push(Seq::<char>::empty())
        } else {
            before.drop_last().push(before.last().push(text.last()))
        }
    }
}

/// The text that a sequence of lines stands for: the lines in order, with
/// one line feed between each two neighbours.
pub open spec fn join_lines(lines: Seq<Seq<char>>) -> Seq<char>
    decreases lines.len(),
{
    if lines.len() == 0 {
        Seq::<char>::empty()
    } else if lines.len() == 1 {
        lines[0]
    } else {
        join_lines(lines.drop_last()).push('\n') + lines.last()
    }
}

/// Whether no line of `lines` holds a line feed.
pub open spec fn free_of_line_feeds(lines: Seq<Seq<char>>) -> bool {
    forall|i: int, j: int|
        0 <= i < lines.len() && 0 <= j < lines[i].len() ==> (#[trigger] lines[i][j]) != '\n'
}

/// A text has at least one line.
pub proof fn lemma_lines_nonempty(text: Seq<char>)
    ensures
        lines_of(text).len() >= 1,
    decreases text.len(),
{
    if text.len() > 0 {
        lemma_lines_nonempty(text.drop_last());
    }
}

/// No line of a text holds a line feed.
pub proof fn lemma_lines_free_of_line_feeds(text: Seq<char>)
    ensures
        free_of_line_feeds(lines_of(text)),
    decreases text.len(),
{
    if text.len() > 0 {
        lemma_lines_nonempty(text.drop_last());
        lemma_lines_free_of_line_feeds(text.drop_last());
    }
}

/// Joining the lines of a text with line feeds gives the text back.
pub proof fn lemma_join_of_lines(text: Seq<char>)
    ensures
        join_lines(lines_of(text)) == text,
    decreases text.len(),
{
    if text.len() > 0 {
        let shorter = text.drop_last();
        let before = lines_of(shorter);
        lemma_lines_nonempty(shorter);
        lemma_join_of_lines(shorter);
        if text.last() == '\n' {
            assert(before.push(Seq::<char>::empty()).drop_last() == before);
            assert(join_lines(lines_of(text)) == shorter.push('\n'));
        } else {
            let grown = before.drop_last().push(before.last().push(text.last()));
            assert(grown.drop_last() == before.drop_last());
            if before.len() == 1 {
                assert(join_lines(grown) == shorter.push(text.last()));
            } else {
                assert(join_lines(grown) == (join_lines(before.drop_last()).push('\n')
                    + before.last()).push(text.last()));
            }
        }
        assert(shorter.push(text.last()) == text);
    }
}

/// The lines of a text are the only way to cut the text at line feeds: any
/// lines without line feeds that join to the text are its lines.
pub proof fn lemma_lines_are_unique(text: Seq<char>, lines: Seq<Seq<char>>)
    requires
        lines.len() >= 1,
        free_of_line_feeds(lines),
        join_lines(lines) == text,
    ensures
        lines == lines_of(text),
    decreases text.len(),
{
    let last = lines.last();
    let front = lines.drop_last();
    if lines.len() >= 2 {
        assert(text == join_lines(front).push('\n') + last);
    } else {
        assert(text == last);
    }
    if text.len() == 0 {
        assert(lines.len() == 1);
        assert(last =~= Seq::<char>::empty());
        assert(lines =~= seq![Seq::<char>::empty()]);
    } else if last.len() == 0 {
        assert(text.last() == '\n');
        assert(text.drop_last() == join_lines(front));
        assert(free_of_line_feeds(front)) by {
            assert forall|i: int, j: int|
                0 <= i < front.len() && 0 <= j < front[i].len() implies (#[trigger] front[i][j])
                != '\n' by {
                assert(front[i][j] == lines[i][j]);
            }
        }
        lemma_lines_are_unique(text.drop_last(), front);
        assert(last =~= Seq::<char>::empty());
        assert(lines =~= front.push(Seq::<char>::empty()));
    } else {
        let shorter = front.push(last.drop_last());
        assert(text.last() == last.last());
        assert(lines[lines.len() - 1][last.len() - 1] != '\n');
        assert(shorter.drop_last() == front);
        assert(join_lines(shorter) == text.drop_last());
        assert(free_of_line_feeds(shorter)) by {
            assert forall|i: int, j: int|
                0 <= i < shorter.len() && 0 <= j < shorter[i].len() implies (
                #[trigger] shorter[i][j]) != '\n' by {
                assert(shorter[i][j] == lines[i][j]);
            }
        }
        lemma_lines_are_unique(text.drop_last(), shorter);
        assert(last.drop_last().push(text.last()) == last);
        assert(lines =~= shorter.drop_last().push(shorter.last().push(text.last())));
    }
}

/// Splits a text at its line feeds.
pub fn split_lines(text: &str) -> (lines: Vec<String>)
    ensures
        lines.deep_view() == lines_of(text@),
{
    let mut lines: Vec<String> = Vec::new();
    let mut current = String::new();
    assert(text@.take(0) == Seq::<char>::empty());
    assert(lines.deep_view().push(current@) == seq![Seq::<char>::empty()]);
    for c in it: text.chars()
        invariant
            it.seq() == text@,
            lines.deep_view().push(current@) == lines_of(text@.take(it.index() as int)),
    {
        let ghost seen = text@.take(it.index() as int);
        let ghost next = text@.take(it.index() + 1);
        let ghost done = lines.deep_view();
        let ghost line = current@;
        assert(next.drop_last() == seen);
        assert(next.last() == c);
        assert(done.push(current@).drop_last() == done);
        if c == '\n' {
            lines.push(current);
            current = String::new();
            assert(lines.deep_view() == done.push(line));
        } else {
            current.push(c);
            assert(lines.deep_view() == done);
        }
    }
    assert(text@.take(text@.len() as int) == text@);
    let ghost done = lines.deep_view();
    lines.push(current);
    assert(lines.deep_view() == done.push(current@));
    lines
}

} // verus!
