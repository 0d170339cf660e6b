//! The diagnostic record and its renderer: a pure transformation from a
//! record and a severity style to the formatted multi-line report.

use crate::position::Position;
use crate::snippet::Source;
use crate::style::{
    paint_blue, paint_bold, paint_bright_blue, paint_bright_red, paint_bright_yellow, paint_red,
    DisplayStyle, Styling,
};
use crate::text::{
    concat_all, dec_str, left_pad, left_padded, lemma_concat_all_push, lemma_left_pad_len_mono,
    norm_path, normalize_path, trim_end_spec, usize_to_string,
};
use vstd::prelude::*;
use vstd::string::StringExecFns;

verus! {

/// A fully assembled diagnostic record, ready for rendering: the brief
/// description, optional details and help, the optional primary frame the
/// caret points at, and the causal trace, ordered from the outermost cause
/// to the frame nearest the error.
#[derive(Debug)]
pub struct AppError {
    pub brief: String,
    pub details: Option<String>,
    pub help: Option<String>,
    pub source: Option<Box<Source>>,
    pub trace: Vec<Source>,
}

/// The label text of a severity.
pub open spec fn label_text(style: DisplayStyle) -> Seq<char> {
    match style {
        DisplayStyle::Info => "info"@,
        DisplayStyle::Warning => "warning"@,
        DisplayStyle::Error => "error"@,
    }
}

/// `path:line:col` of a span's start, with the path normalized.
pub open spec fn pos_header_spec(p: Position) -> Seq<char> {
    norm_path(p.path@) + ":"@ + dec_str(p.start_line as nat) + ":"@ + dec_str(p.start_col as nat)
}

/// One quoted snippet row: the line number right-aligned to width 3, a bar,
/// and the line itself.
pub open spec fn row_spec(n: nat, line: Seq<char>) -> Seq<char> {
    left_pad(dec_str(n), 3) + " "@ + "|"@ + " "@ + line + "\n"@
}

/// The rows of a snippet, numbered upward from `start`.
pub open spec fn snippet_rows(lines: Seq<Seq<char>>, start: nat) -> Seq<Seq<char>> {
    Seq::new(lines.len(), |i: int| row_spec((start + i) as nat, lines[i]))
}

/// One trace entry: an arrow marker, the frame's position header, then the
/// first line of its snippet; nothing when the frame has no lines.
pub open spec fn trace_entry_spec(s: Source) -> Seq<char> {
    if s.lines@.len() == 0 {
        Seq::<char>::empty()
    } else {
        "    "@ + "\u{2193}"@ + "  "@ + pos_header_spec(s.position) + "\n"@ + row_spec(
            s.position.start_line as nat,
            s.lines@[0]@,
        )
    }
}

/// The trace block: the entries in stored order.
pub open spec fn trace_spec(trace: Seq<Source>) -> Seq<char> {
    concat_all(trace.map_values(|s: Source| trace_entry_spec(s)))
}

/// The caret line: a bar, the caret right-aligned to the frame's start
/// column, and the note.
pub open spec fn caret_line_spec(s: Source) -> Seq<char> {
    "    |"@ + " "@ + left_pad("^"@, s.position.start_col as nat) + " "@ + s.note@
}

/// The source block: the trace entries, the primary frame's header, a bar,
/// the numbered snippet, and the caret line, in that fixed order.
pub open spec fn source_block_spec(trace: Seq<Source>, primary: Source) -> Seq<char> {
    trace_spec(trace) + "   "@ + "-->"@ + " "@ + pos_header_spec(primary.position) + "\n"@
        + "    |"@ + "\n"@ + concat_all(
        snippet_rows(primary.lines.deep_view(), primary.position.start_line as nat),
    ) + caret_line_spec(primary) + "\n"@
}

/// What the optional source block of a record renders to: the block when a
/// primary frame is present, nothing otherwise.
pub open spec fn source_opt_spec(e: AppError) -> Seq<char> {
    match e.source {
        Some(b) => source_block_spec(e.trace@, *b),
        None => Seq::<char>::empty(),
    }
}

/// The details text, verbatim when present, empty otherwise.
pub open spec fn details_spec(e: AppError) -> Seq<char> {
    match e.details {
        Some(d) => d@,
        None => Seq::<char>::empty(),
    }
}

/// The help line: label, text and a line break when a non-empty help text
/// is present; empty otherwise.
pub open spec fn help_spec(e: AppError) -> Seq<char> {
    match e.help {
        Some(h) => if h@.len() == 0 {
            Seq::<char>::empty()
        } else {
            "help"@ + ": "@ + h@ + "\n"@
        },
        None => Seq::<char>::empty(),
    }
}

/// The whole report: the severity label and the brief, a blank line, the
/// details, the source block, and the help line.
pub open spec fn long_spec(e: AppError, style: DisplayStyle) -> Seq<char> {
    label_text(style) + ": "@ + e.brief@ + "\n\n"@ + details_spec(e) + source_opt_spec(e)
        + help_spec(e)
}

/// The position header of a frame, `path:line:col`, path in bold.
fn pos_header(p: &Position, styling: Styling) -> (r: String)
    ensures
        styling == Styling::Plain ==> r@ == pos_header_spec(*p),
        r@.len() >= pos_header_spec(*p).len(),
{
    let path = normalize_path(p.path.as_str());
    let mut out = paint_bold(path.as_str(), styling);
    out.append(":");
    out.append(usize_to_string(p.start_line).as_str());
    out.append(":");
    out.append(usize_to_string(p.start_col).as_str());
    out
}

/// One numbered snippet row; the number and the bar are decorated bright
/// for trace entries and dark for the primary snippet.
fn snippet_row(n: usize, line: &str, styling: Styling, bright: bool) -> (r: String)
    ensures
        styling == Styling::Plain ==> r@ == row_spec(n as nat, line@),
        r@.len() >= row_spec(n as nat, line@).len(),
{
    let num = usize_to_string(n);
    let painted = if bright {
        paint_bright_blue(num.as_str(), styling)
    } else {
        paint_blue(num.as_str(), styling)
    };
    proof {
        lemma_left_pad_len_mono(dec_str(n as nat), painted@, 3);
    }
    let mut out = left_padded(painted.as_str(), 3);
    out.append(" ");
    let bar = if bright {
        paint_bright_blue("|", styling)
    } else {
        paint_blue("|", styling)
    };
    out.append(bar.as_str());
    out.append(" ");
    out.append(line);
    out.append("\n");
    out
}

/// One rendered trace entry, empty for a frame with no lines.
fn trace_entry(s: &Source, styling: Styling) -> (r: String)
    ensures
        styling == Styling::Plain ==> r@ == trace_entry_spec(*s),
        r@.len() >= trace_entry_spec(*s).len(),
{
    if s.lines.len() == 0 {
        return String::new();
    }
    let mut out = String::from_str("    ");
    out.append(paint_bright_blue("\u{2193}", styling).as_str());
    out.append("  ");
    out.append(pos_header(&s.position, styling).as_str());
    out.append("\n");
    out.append(snippet_row(s.position.start_line, s.lines[0].as_str(), styling, true).as_str());
    out
}

impl AppError {
    /// The line numbers of the primary frame, if one is present, stay
    /// within `usize`.
    pub open spec fn renderable(self) -> bool {
        match self.source {
            Some(b) => (*b).numbers_fit(),
            None => true,
        }
    }

    /// The brief description alone.
    pub fn short(&self) -> (r: &str)
        ensures
            r@ == self.brief@,
    {
        self.brief.as_str()
    }

    /// The rendered source block, present exactly when the record has a
    /// primary frame: the trace entries in stored order, the primary
    /// header, a bar, the numbered snippet, and the caret line. Under the
    /// plain strategy the text is exactly `source_block_spec`; under the
    /// ANSI strategy the same text is decorated through colored, which
    /// decides by terminal and environment whether to emit escape codes.
    pub fn source(&self, styling: Styling) -> (r: Option<String>)
        requires
            self.renderable(),
        ensures
            (r is Some) <==> (self.source is Some),
            (styling == Styling::Plain && self.source is Some) ==> r->0@ == source_block_spec(
                self.trace@,
                *self.source->0,
            ),
            (self.source is Some) ==> r->0@.len() >= source_block_spec(
                self.trace@,
                *self.source->0,
            ).len(),
    {
        let primary: &Source = match &self.source {
            Some(b) => &**b,
            None => { return None },
        };
        let ghost entries = self.trace@.map_values(|s: Source| trace_entry_spec(s));
        let mut out = String::new();
        let mut i: usize = 0;
        proof {
            assert(entries.subrange(0, 0) =~= Seq::<Seq<char>>::empty());
        }
        while i < self.trace.len()
            invariant
                i <= self.trace@.len(),
                entries == self.trace@.map_values(|s: Source| trace_entry_spec(s)),
                styling == Styling::Plain ==> out@ == concat_all(entries.subrange(0, i as int)),
                out@.len() >= concat_all(entries.subrange(0, i as int)).len(),
            decreases self.trace@.len() - i,
        {
            let entry = trace_entry(&self.trace[i], styling);
            out.append(entry.as_str());
            proof {
                lemma_concat_all_push(entries.subrange(0, i as int), entries[i as int]);
                assert(entries.subrange(0, i + 1) =~= entries.subrange(0, i as int).push(
                    entries[i as int],
                ));
                assert(entries[i as int] == trace_entry_spec(self.trace@[i as int]));
            }
            i = i + 1;
        }
        proof {
            assert(entries.subrange(0, self.trace@.len() as int) =~= entries);
            assert(out@.len() >= trace_spec(self.trace@).len());
        }
        out.append("   ");
        out.append(paint_blue("-->", styling).as_str());
        out.append(" ");
        out.append(pos_header(&primary.position, styling).as_str());
        out.append("\n");
        let bar = paint_blue("    |", styling);
        out.append(bar.as_str());
        out.append("\n");
        let ghost rows = snippet_rows(
            primary.lines.deep_view(),
            primary.position.start_line as nat,
        );
        let ghost spec_pre = trace_spec(self.trace@) + "   "@ + "-->"@ + " "@ + pos_header_spec(
            primary.position,
        ) + "\n"@ + "    |"@ + "\n"@;
        proof {
            assert(out@.len() >= spec_pre.len());
        }
        let ghost before_rows = out@;
        let mut j: usize = 0;
        proof {
            assert(rows.subrange(0, 0) =~= Seq::<Seq<char>>::empty());
        }
        while j < primary.lines.len()
            invariant
                j <= primary.lines@.len(),
                primary.numbers_fit(),
                rows == snippet_rows(
                    primary.lines.deep_view(),
                    primary.position.start_line as nat,
                ),
                rows.len() == primary.lines@.len(),
                before_rows == out@.subrange(0, before_rows.len() as int) || styling
                    != Styling::Plain,
                styling == Styling::Plain ==> out@ == before_rows + concat_all(
                    rows.subrange(0, j as int),
                ),
                out@.len() >= spec_pre.len() + concat_all(rows.subrange(0, j as int)).len(),
            decreases primary.lines@.len() - j,
        {
            let n = primary.position.start_line + j;
            let row = snippet_row(n, primary.lines[j].as_str(), styling, false);
            out.append(row.as_str());
            proof {
                lemma_concat_all_push(rows.subrange(0, j as int), rows[j as int]);
                assert(rows.subrange(0, j + 1) =~= rows.subrange(0, j as int).push(
                    rows[j as int],
                ));
                assert(rows[j as int] == row_spec(
                    (primary.position.start_line + j) as nat,
                    primary.lines.deep_view()[j as int],
                ));
                assert(primary.lines.deep_view()[j as int] == primary.lines@[j as int]@);
            }
            j = j + 1;
        }
        proof {
            assert(rows.subrange(0, rows.len() as int) =~= rows);
        }
        out.append(bar.as_str());
        out.append(" ");
        let caret = paint_red("^", styling);
        proof {
            lemma_left_pad_len_mono("^"@, caret@, primary.position.start_col as nat);
        }
        out.append(left_padded(caret.as_str(), primary.position.start_col).as_str());
        out.append(" ");
        out.append(paint_red(primary.note.as_str(), styling).as_str());
        out.append("\n");
        proof {
            if styling == Styling::Plain {
                assert(out@ =~= source_block_spec(self.trace@, *primary));
            }
            assert(out@.len() >= source_block_spec(self.trace@, *primary).len());
        }
        Some(out)
    }

    /// Render the whole report for a severity: the colored, bold severity
    /// label and the bold brief, a blank line, the details verbatim, the
    /// source block, and the help line. Under the plain strategy the result
    /// is exactly `long_spec`; under the ANSI strategy the same text is
    /// decorated through colored, which decides by terminal and environment
    /// whether to emit escape codes.
    pub fn long(&self, style: &DisplayStyle, styling: Styling) -> (r: String)
        requires
            self.renderable(),
        ensures
            styling == Styling::Plain ==> r@ == long_spec(*self, *style),
            r@.len() >= long_spec(*self, *style).len(),
    {
        let label = match style {
            DisplayStyle::Info => paint_bright_blue("info", styling),
            DisplayStyle::Warning => paint_bright_yellow("warning", styling),
            DisplayStyle::Error => paint_bright_red("error", styling),
        };
        let labeled = label.concat(": ");
        let mut out = paint_bold(labeled.as_str(), styling);
        out.append(paint_bold(self.brief.as_str(), styling).as_str());
        out.append("\n\n");
        proof {
            if styling == Styling::Plain {
                assert(out@ =~= label_text(*style) + ": "@ + self.brief@ + "\n\n"@);
            }
            assert(out@.len() >= (label_text(*style) + ": "@ + self.brief@ + "\n\n"@).len());
        }
        let ghost header = out@;
        match &self.details {
            Some(d) => out.append(d.as_str()),
            None => {},
        }
        proof {
            if styling == Styling::Plain {
                assert(out@ =~= header + details_spec(*self));
            }
            assert(out@.len() >= (label_text(*style) + ": "@ + self.brief@ + "\n\n"@
                + details_spec(*self)).len());
        }
        let ghost with_details = out@;
        match self.source(styling) {
            Some(s) => out.append(s.as_str()),
            None => {},
        }
        proof {
            if styling == Styling::Plain {
                assert(out@ =~= with_details + source_opt_spec(*self));
            }
            assert(out@.len() >= (label_text(*style) + ": "@ + self.brief@ + "\n\n"@
                + details_spec(*self) + source_opt_spec(*self)).len());
        }
        let ghost with_block = out@;
        match &self.help {
            Some(h) => {
                if !h.as_str().is_empty() {
                    out.append(paint_bright_yellow("help", styling).as_str());
                    out.append(": ");
                    out.append(h.as_str());
                    out.append("\n");
                }
            },
            None => {},
        }
        proof {
            if styling == Styling::Plain {
                assert(out@ =~= with_block + help_spec(*self));
                assert(out@ =~= long_spec(*self, *style));
            }
            assert(out@.len() >= long_spec(*self, *style).len());
        }
        out
    }
}

/// Round trip: a frame whose lines were quoted out of a file's lines from
/// line `start` on — as `make_source` quotes them — shows, in the row at
/// offset `i`, the line number `start + i` beside the file's line
/// `start + i`, right-trimmed. The snippet quotes the file at exactly the
/// numbers it prints.
pub proof fn lemma_snippet_round_trip(file: Seq<Seq<char>>, lines: Seq<Seq<char>>, start: nat, i: int)
    requires
        1 <= start,
        lines.len() <= file.len() - (start - 1),
        forall|j: int|
            0 <= j < lines.len() ==> lines[j] == trim_end_spec(file[start - 1 + j]),
        0 <= i < lines.len(),
    ensures
        snippet_rows(lines, start)[i] == row_spec((start + i) as nat, trim_end_spec(
            file[start - 1 + i],
        )),
{
}

/// Positions whose paths normalize alike, such as a backslash spelling and
/// its forward-slash form, render the same position header.
pub proof fn lemma_path_normal_consistency(p: Position, q: Position)
    requires
        norm_path(p.path@) == norm_path(q.path@),
        p.start_line == q.start_line,
        p.start_col == q.start_col,
    ensures
        pos_header_spec(p) == pos_header_spec(q),
{
}

/// With no primary frame, a report is exactly the severity label and the
/// brief, a blank line, and the details when present: no source block, and
/// no help line when help is absent.
pub proof fn lemma_minimal_report(e: AppError, style: DisplayStyle)
    requires
        e.source is None,
        e.help is None,
    ensures
        long_spec(e, style) == label_text(style) + ": "@ + e.brief@ + "\n\n"@ + details_spec(e),
{
    assert(long_spec(e, style) =~= label_text(style) + ": "@ + e.brief@ + "\n\n"@ + details_spec(
        e,
    ));
}

/// With exactly one trace frame that has at least one line, the source
/// block is exactly one arrow entry, then the primary header, the opening
/// bar, the numbered snippet, and the caret line, in that fixed order.
pub proof fn lemma_single_trace_order(trace: Seq<Source>, primary: Source)
    requires
        trace.len() == 1,
        trace[0].lines@.len() > 0,
    ensures
        source_block_spec(trace, primary) == trace_entry_spec(trace[0]) + "   "@ + "-->"@ + " "@
            + pos_header_spec(primary.position) + "\n"@ + "    |"@ + "\n"@ + concat_all(
            snippet_rows(primary.lines.deep_view(), primary.position.start_line as nat),
        ) + caret_line_spec(primary) + "\n"@,
{
    let m = trace.map_values(|s: Source| trace_entry_spec(s));
    assert(m.len() == 1);
    assert(m.drop_first() =~= Seq::<Seq<char>>::empty());
    assert(concat_all(m.drop_first()) == Seq::<char>::empty());
    assert(concat_all(m) == m[0] + Seq::<char>::empty());
    assert(m[0] + Seq::<char>::empty() =~= m[0]);
    assert(m[0] == trace_entry_spec(trace[0]));
}

/// The capability an error type implements to make itself renderable: a
/// brief description, and optionally details, help, a primary frame and a
/// causal trace. All but `brief` default to nothing, so a minimal error
/// supplies only its brief text.
pub trait PrettyError {
    /// A one-line description of the error.
    fn brief(&self) -> String;

    /// Further free-text explanation, shown verbatim under the header.
    fn details(&self) -> Option<String> {
        None
    }

    /// A hint on how the error might be fixed.
    fn help(&self) -> Option<String> {
        None
    }

    /// The frame the caret ultimately points at.
    fn source(&self) -> Option<Box<Source>> {
        None
    }

    /// Causal context, ordered from the outermost cause inward.
    fn trace(&self) -> Vec<Source> {
        Vec::new()
    }
}

impl AppError {
    /// Convert any diagnosable error into a record. The conversion is total
    /// and never fails: an error that supplies no frames yields a record
    /// that renders its brief, details and help alone. Each field holds
    /// exactly what one call of the matching capability method on `e`
    /// returns, so whatever an implementation promises of its methods
    /// carries over to the record.
    pub fn from_error<E: PrettyError>(e: &E) -> (r: Self)
        ensures
            call_ensures(E::brief, (e,), r.brief),
            call_ensures(E::details, (e,), r.details),
            call_ensures(E::help, (e,), r.help),
            call_ensures(E::source, (e,), r.source),
            call_ensures(E::trace, (e,), r.trace),
    {
        AppError {
            brief: e.brief(),
            details: e.details(),
            help: e.help(),
            source: e.source(),
            trace: e.trace(),
        }
    }
}

} // verus!
