//! What is shown of a script when running it has failed.

use vstd::prelude::*;
use crate::failure::Failure;
use crate::position::Position;
use crate::text::{lines_of, split_lines};

verus! {

/// The lines shown around a failing line: this many from the line on, and
/// one fewer before it.
pub const CONTEXT_PADDING: usize = 3;

/// What stands before the failing line.
pub open spec fn marked_prefix() -> Seq<char> {
    seq!['-', '-', '>', ' ']
}

/// What stands before every other line: as wide as the mark.
pub open spec fn plain_prefix() -> Seq<char> {
    seq![' ', ' ', ' ', ' ']
}

/// One line as it is shown: its prefix, its text as it is, a line feed.
pub open spec fn render_line(line: Seq<char>, marked: bool) -> Seq<char> {
    (if marked {
        marked_prefix()
    } else {
        plain_prefix()
    }) + line + seq!['\n']
}

/// `value`, or the nearer of the two bounds where it lies outside them.
pub open spec fn clamp(value: int, low: int, high: int) -> int {
    if value < low {
        low
    } else if value > high {
        high
    } else {
        value
    }
}

/// The index, from zero, of the first line shown of a script of `count`
/// lines, for a failure on line `line`, counted from one.
pub open spec fn window_start(count: int, padding: int, line: int) -> int {
    clamp(line - padding, 0, count)
}

/// The index, from zero, behind the last line shown.
pub open spec fn window_end(count: int, padding: int, line: int) -> int {
    clamp(line + padding, 0, count)
}

/// The lines shown, each as it is shown. The window is cut where the script
/// begins or ends, and the mark stays on line `line` wherever the cut falls.
pub open spec fn window_lines(lines: Seq<Seq<char>>, padding: int, line: int) -> Seq<Seq<char>> {
    let start = window_start(lines.len() as int, padding, line);
    let end = window_end(lines.len() as int, padding, line);
    Seq::new((end - start) as nat, |k: int| render_line(lines[start + k], start + k == line - 1))
}

/// The excerpt of `source` shown for a failure at `pos`: nothing where
/// there is no line, else the window round the line.
pub open spec fn source_context(source: Seq<char>, padding: int, pos: Position) -> Seq<char> {
    match pos.line {
        Some(line) => window_lines(lines_of(source), padding, line as int).flatten(),
        None => Seq::<char>::empty(),
    }
}

/// The lines shown for one failure: made for one message and then dropped.
#[derive(Debug, PartialEq, Eq)]
pub struct SourceContext {
    /// The lines of the window, in the order of the script.
    pub lines: Vec<String>,
    /// The index, from zero, that the first of them has in the script.
    pub window_start: usize,
    /// The index in `lines` of the failing line, where the window holds it.
    pub marker_line: Option<usize>,
}

impl SourceContext {
    /// Whether line `k` of the window is the marked one.
    pub open spec fn marks(&self, k: int) -> bool {
        self.marker_line matches Some(marked) && marked == k
    }

    /// The window as it is shown: line after line, each with its prefix.
    pub open spec fn rendered(&self) -> Seq<char> {
        Seq::new(self.lines@.len(), |k: int| render_line(self.lines@[k]@, self.marks(k))).flatten()
    }

    /// Whether this is the window of `source` for a failure on line `line`,
    /// counted from one: its lines are those of the script from
    /// `window_start` up to `window_end`, and the mark is on the failing line
    /// if that lies among them, whether or not the window was cut.
    pub open spec fn is_window_of(&self, source: Seq<char>, padding: int, line: int) -> bool {
        let all = lines_of(source);
        let start = window_start(all.len() as int, padding, line);
        let end = window_end(all.len() as int, padding, line);
        &&& self.lines.deep_view() == all.subrange(start, end)
        &&& self.window_start == start
        &&& match self.marker_line {
            Some(marked) => start + marked == line - 1 && line - 1 < end,
            None => !(start <= line - 1 < end),
        }
    }

    /// Cuts the window for a failure on line `lineno` out of `source_code`.
    pub fn around(source_code: &str, padding: usize, lineno: usize) -> (context: SourceContext)
        ensures
            context.is_window_of(source_code@, padding as int, lineno as int),
    {
        let all = split_lines(source_code);
        let count: usize = all.len();
        let start: usize = if lineno < padding {
            0
        } else if lineno - padding > count {
            count
        } else {
            lineno - padding
        };
        let end: usize = if lineno >= count || padding >= count - lineno {
            count
        } else {
            lineno + padding
        };
        let marker_line: Option<usize> = if start < lineno && lineno <= end {
            Some(lineno - 1 - start)
        } else {
            None
        };
        let mut lines: Vec<String> = Vec::new();
        let mut i: usize = start;
        while i < end
            invariant
                start <= i <= end <= count,
                count == all.len(),
                lines.deep_view() == all.deep_view().subrange(start as int, i as int),
            decreases end - i,
        {
            let ghost before = lines.deep_view();
            lines.push(all[i].clone());
            assert(lines.deep_view() == before.push(all[i as int]@));
            assert(all.deep_view()[i as int] == all[i as int]@);
            i += 1;
        }
        SourceContext { lines, window_start: start, marker_line }
    }

    /// Writes the window: the arrow before the marked line, as many blanks
    /// before every other, and a line feed behind each.
    pub fn render(&self) -> (snippet: String)
        ensures
            snippet@ == self.rendered(),
    {
        let mut snippet = String::new();
        let ghost shown = Seq::new(
            self.lines@.len(),
            |k: int| render_line(self.lines@[k]@, self.marks(k)),
        );
        assert(shown.take(0) == Seq::<Seq<char>>::empty());
        let mut i: usize = 0;
        while i < self.lines.len()
            invariant
                i <= self.lines.len(),
                shown == Seq::new(
                    self.lines@.len(),
                    |k: int| render_line(self.lines@[k]@, self.marks(k)),
                ),
                snippet@ == shown.take(i as int).flatten(),
            decreases self.lines.len() - i,
        {
            let ghost before = snippet@;
            proof {
                reveal_strlit("--> ");
                reveal_strlit("    ");
                assert(shown.take(i + 1) == shown.take(i as int).push(shown[i as int]));
                shown.take(i as int).lemma_flatten_push(shown[i as int]);
            }
            let marked = match self.marker_line {
                Some(at) => at == i,
                None => false,
            };
            if marked {
                snippet.append("--> ");
                assert(snippet@ == before + marked_prefix());
            } else {
                snippet.append("    ");
                assert(snippet@ == before + plain_prefix());
            }
            snippet.append(self.lines[i].as_str());
            snippet.push('\n');
            assert(snippet@ == before + shown[i as int]);
            i += 1;
        }
        assert(shown.take(shown.len() as int) == shown);
        snippet
    }
}

/// The window of a script, written out, is the excerpt for the failing
/// line.
pub proof fn lemma_rendered_window(
    context: SourceContext,
    source: Seq<char>,
    padding: int,
    line: int,
)
    requires
        padding >= 0,
        context.is_window_of(source, padding, line),
    ensures
        context.rendered() == window_lines(lines_of(source), padding, line).flatten(),
{
    let all = lines_of(source);
    let start = window_start(all.len() as int, padding, line);
    let end = window_end(all.len() as int, padding, line);
    let shown = Seq::new(
        context.lines@.len(),
        |k: int| render_line(context.lines@[k]@, context.marks(k)),
    );
    let window = window_lines(all, padding, line);
    assert(context.lines.deep_view().len() == context.lines@.len());
    assert(shown.len() == window.len());
    assert forall|k: int| 0 <= k < shown.len() implies shown[k] == window[k] by {
        assert(context.lines.deep_view()[k] == context.lines@[k]@);
        assert(all.subrange(start, end)[k] == all[start + k]);
        assert(context.marks(k) == (start + k == line - 1));
    }
    assert(shown =~= window);
}

/// Renders the lines of `source_code` round the line of `pos`, the failing
/// line marked with an arrow.
pub fn get_source_context(source_code: &str, padding: usize, pos: Position) -> (snippet: String)
    ensures
        snippet@ == source_context(source_code@, padding as int, pos),
{
    match pos.line() {
        Some(lineno) => {
            let context = SourceContext::around(source_code, padding, lineno);
            proof {
                lemma_rendered_window(context, source_code@, padding as int, lineno as int);
            }
            context.render()
        },
        None => String::new(),
    }
}

/// The message for a failed run: what the failure says of itself, an empty
/// line, and the excerpt of the script round the place of its root cause.
pub open spec fn diagnostic(source: Seq<char>, failure: Failure) -> Seq<char> {
    failure.spec_description() + seq!['\n', '\n'] + source_context(
        source,
        CONTEXT_PADDING as int,
        failure.root_cause().spec_position(),
    )
}

/// Writes the message for a run of `source_code` that ended in `e`. The
/// place shown is that of the innermost failure, not that of a wrapper.
pub fn handle_runtime_error(source_code: &str, e: &Failure) -> (message: String)
    ensures
        message@ == diagnostic(source_code@, *e),
{
    let pos = e.innermost().position();
    let context = get_source_context(source_code, CONTEXT_PADDING, pos);
    let mut message = String::from_str(e.description());
    proof {
        reveal_strlit("\n\n");
        assert("\n\n"@ == seq!['\n', '\n']);
    }
    message.append("\n\n");
    message.append(context.as_str());
    message
}

/// The message for generated text that the parser of source text refuses:
/// what the parser says of it, an empty line, and the text as it was
/// generated. No place in the script is shown: what failed is what the
/// script gave, not the run.
pub open spec fn syntax_diagnostic(generated: Seq<char>, complaint: Seq<char>) -> Seq<char> {
    "invalid token stream: "@ + complaint + seq!['\n', '\n'] + generated
}

/// Writes the message for generated text that is no source text.
/// `complaint` is what the parser said of it.
pub fn handle_syntax_error(generated: &str, complaint: &str) -> (message: String)
    ensures
        message@ == syntax_diagnostic(generated@, complaint@),
{
    let mut message = String::from_str("invalid token stream: ");
    message.append(complaint);
    proof {
        reveal_strlit("\n\n");
        assert("\n\n"@ == seq!['\n', '\n']);
    }
    message.append("\n\n");
    message.append(generated);
    message
}

/// The message shows the place of the root cause: whatever wraps a
/// failure, and whatever place the wrapper names, the excerpt is the one
/// for the failure inside.
pub proof fn lemma_wrappers_do_not_move_the_excerpt(
    source: Seq<char>,
    inner: Failure,
    description: String,
    position: Position,
)
    ensures
        diagnostic(source, Failure::InFunctionCall { description, position, cause: Box::new(inner) })
            == description@ + seq!['\n', '\n'] + source_context(
            source,
            CONTEXT_PADDING as int,
            inner.root_cause().spec_position(),
        ),
        diagnostic(source, Failure::InModule { description, position, cause: Box::new(inner) })
            == description@ + seq!['\n', '\n'] + source_context(
            source,
            CONTEXT_PADDING as int,
            inner.root_cause().spec_position(),
        ),
        inner is Other ==> diagnostic(source, inner) == inner.spec_description() + seq!['\n', '\n']
            + source_context(source, CONTEXT_PADDING as int, inner.spec_position()),
{
}

/// For a failure on a line of the script, the window lies inside the
/// script, is at most twice the padding long, and holds the failing line:
/// that line is marked, and no other is.
pub proof fn lemma_window_marks_failing_line(lines: Seq<Seq<char>>, padding: int, line: int)
    requires
        padding >= 1,
        1 <= line <= lines.len(),
    ensures
        ({
            let start = window_start(lines.len() as int, padding, line);
            let end = window_end(lines.len() as int, padding, line);
            let window = window_lines(lines, padding, line);
            &&& start == if line <= padding { 0 } else { line - padding }
            &&& end == if line + padding >= lines.len() { lines.len() as int } else { line + padding }
            &&& 0 <= start <= line - 1 < end <= lines.len()
            &&& window.len() == end - start
            &&& window.len() <= 2 * padding
            &&& window[line - 1 - start] == render_line(lines[line - 1], true)
            &&& forall|k: int|
                0 <= k < window.len() && k != line - 1 - start ==> (#[trigger] window[k])
                    == render_line(lines[start + k], false)
        }),
{
}

/// Away from both ends of the script the window is whole: twice the padding
/// long, with the failing line in the place that the padding names.
pub proof fn lemma_window_whole(lines: Seq<Seq<char>>, padding: int, line: int)
    requires
        padding >= 1,
        padding <= line,
        line + padding <= lines.len(),
    ensures
        window_lines(lines, padding, line).len() == 2 * padding,
        window_start(lines.len() as int, padding, line) == line - padding,
        window_lines(lines, padding, line)[padding - 1] == render_line(lines[line - 1], true),
{
}

/// For a line that the script does not have, no line is marked.
pub proof fn lemma_window_without_mark(lines: Seq<Seq<char>>, padding: int, line: int)
    requires
        padding >= 0,
        line < 1 || line > lines.len(),
    ensures
        ({
            let start = window_start(lines.len() as int, padding, line);
            let window = window_lines(lines, padding, line);
            forall|k: int|
                0 <= k < window.len() ==> (#[trigger] window[k]) == render_line(
                    lines[start + k],
                    false,
                )
        }),
{
}

} // verus!
