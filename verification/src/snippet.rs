//! The snippet reader and the source frame it produces: an inclusive 1-based
//! line range of a file, each line right-trimmed, bundled with its position
//! and an annotation note.

use crate::position::Position;
use crate::text::{trim_end_spec, trimmed_end};
use vstd::prelude::*;

verus! {

/// Why a snippet could not be produced.
#[derive(Clone, Copy, Debug, PartialEq, Eq, Structural)]
pub enum SnippetError {
    /// The file could not be opened or read.
    Io,
    /// The requested start line lies beyond the last line of the file.
    Range,
}

/// How many lines the range `start..=end` covers in a file of `file_len`
/// lines, when `start` is within the file: up to `end`, or up to the last
/// line if the file ends first.
pub open spec fn snippet_len(file_len: int, start: int, end: int) -> int {
    if end <= file_len {
        end - (start - 1)
    } else {
        file_len - (start - 1)
    }
}

/// Lines `start..=end` (1-based, inclusive) of a file given as its lines,
/// each right-trimmed of trailing whitespace and in file order. Fewer lines
/// come back when the file ends before `end`; when `start` itself lies
/// beyond the last line the range is refused.
pub fn read_lines(file_lines: &Vec<String>, start: usize, end: usize) -> (r: Result<
    Vec<String>,
    SnippetError,
>)
    requires
        1 <= start <= end,
    ensures
        (r is Ok) <==> start <= file_lines@.len(),
        r is Err ==> r->Err_0 == SnippetError::Range,
        r is Ok ==> r->Ok_0@.len() == snippet_len(
            file_lines@.len() as int,
            start as int,
            end as int,
        ),
        r is Ok ==> forall|i: int|
            0 <= i < r->Ok_0@.len() ==> #[trigger] r->Ok_0@[i]@ == trim_end_spec(
                file_lines@[start - 1 + i]@,
            ),
{
    let len = file_lines.len();
    if start > len {
        return Err(SnippetError::Range);
    }
    let stop: usize = if end > len {
        len
    } else {
        end
    };
    let mut out: Vec<String> = Vec::new();
    let mut i: usize = start - 1;
    while i < stop
        invariant
            start - 1 <= i <= stop,
            stop <= file_lines@.len(),
            stop as int == if end <= file_lines@.len() {
                end as int
            } else {
                file_lines@.len() as int
            },
            out@.len() == i - (start - 1),
            forall|j: int|
                0 <= j < out@.len() ==> #[trigger] out@[j]@ == trim_end_spec(
                    file_lines@[start - 1 + j]@,
                ),
        decreases stop - i,
    {
        let t = trimmed_end(file_lines[i].as_str());
        out.push(t);
        i = i + 1;
    }
    Ok(out)
}

/// An immutable annotated excerpt of source text: the quoted lines, the
/// position they came from, and a note shown beside the caret.
#[derive(Clone, Debug)]
pub struct Source {
    pub lines: Vec<String>,
    pub position: Position,
    pub note: String,
}

impl Source {
    /// Every line number shown for this frame stays within `usize`.
    pub open spec fn numbers_fit(self) -> bool {
        self.position.start_line - 1 + self.lines@.len() <= usize::MAX
    }

    /// Build a frame directly from the lines of its span, already extracted
    /// in file order: each is right-trimmed and quoted as given. For callers
    /// that stream the span's lines themselves and keep nothing before the
    /// start line; `make_source` quotes out of a whole file instead.
    pub fn new(position: Position, note: String, window: &Vec<String>) -> (r: Self)
        requires
            position.start_line - 1 + window@.len() <= usize::MAX,
        ensures
            r.position == position,
            r.note == note,
            r.lines@.len() == window@.len(),
            forall|i: int|
                0 <= i < window@.len() ==> #[trigger] r.lines@[i]@ == trim_end_spec(window@[i]@),
            r.numbers_fit(),
    {
        let mut lines: Vec<String> = Vec::new();
        let mut i: usize = 0;
        while i < window.len()
            invariant
                i <= window@.len(),
                lines@.len() == i,
                forall|j: int|
                    0 <= j < i ==> #[trigger] lines@[j]@ == trim_end_spec(window@[j]@),
            decreases window@.len() - i,
        {
            let t = trimmed_end(window[i].as_str());
            lines.push(t);
            i = i + 1;
        }
        Source { lines, position, note }
    }
}

/// Build a source frame for a span: quote the span's lines out of the file's
/// lines, right-trimmed, and keep the position and the note beside them.
/// The range is refused when the span's start line lies beyond the file's
/// last line.
pub fn make_source(position: Position, note: String, file_lines: &Vec<String>) -> (r: Result<
    Source,
    SnippetError,
>)
    requires
        position.wf(),
    ensures
        (r is Ok) <==> position.start_line <= file_lines@.len(),
        r is Err ==> r->Err_0 == SnippetError::Range,
        r is Ok ==> ({
            let s = r->Ok_0;
            &&& s.position == position
            &&& s.note == note
            &&& s.lines@.len() == snippet_len(
                file_lines@.len() as int,
                position.start_line as int,
                position.end_line as int,
            )
            &&& forall|i: int|
                0 <= i < s.lines@.len() ==> #[trigger] s.lines@[i]@ == trim_end_spec(
                    file_lines@[position.start_line - 1 + i]@,
                )
            &&& s.numbers_fit()
        }),
{
    match read_lines(file_lines, position.start_line, position.end_line) {
        Ok(lines) => Ok(Source { lines, position, note }),
        Err(e) => Err(e),
    }
}

} // verus!
