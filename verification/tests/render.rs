use pretty_error::position::Position;
use pretty_error::report::{AppError, PrettyError};
use pretty_error::snippet::Source;
use pretty_error::style::{DisplayStyle, Styling};

fn frame(path: &str, start: (usize, usize), lines: Vec<&str>, note: &str) -> Source {
    Source {
        lines: lines.into_iter().map(String::from).collect(),
        position: Position::new(String::from(path), start, start),
        note: String::from(note),
    }
}

fn record(brief: &str) -> AppError {
    AppError {
        brief: String::from(brief),
        details: None,
        help: None,
        source: None,
        trace: Vec::new(),
    }
}

#[test]
fn short_is_the_brief() {
    let e = record("oops");
    assert_eq!(e.short(), "oops");
}

#[test]
fn minimal_report_without_details() {
    let e = record("oops");
    assert_eq!(e.long(&DisplayStyle::Info, Styling::Plain), "info: oops\n\n");
    assert_eq!(
        e.long(&DisplayStyle::Warning, Styling::Plain),
        "warning: oops\n\n"
    );
    assert_eq!(
        e.long(&DisplayStyle::Error, Styling::Plain),
        "error: oops\n\n"
    );
}

#[test]
fn minimal_report_with_details() {
    let mut e = record("oops");
    e.details = Some(String::from("it broke"));
    assert_eq!(
        e.long(&DisplayStyle::Warning, Styling::Plain),
        "warning: oops\n\nit broke"
    );
}

#[test]
fn absent_primary_frame_means_no_source_block() {
    let e = record("oops");
    assert!(e.source(Styling::Plain).is_none());
}

#[test]
fn empty_help_is_omitted() {
    let mut e = record("oops");
    e.help = Some(String::new());
    assert_eq!(e.long(&DisplayStyle::Error, Styling::Plain), "error: oops\n\n");
}

#[test]
fn help_line_has_label_and_line_break() {
    let mut e = record("oops");
    e.help = Some(String::from("try again"));
    assert_eq!(
        e.long(&DisplayStyle::Error, Styling::Plain),
        "error: oops\n\nhelp: try again\n"
    );
}

#[test]
fn golden_error_report() {
    let e = AppError {
        brief: String::from("unexpected token"),
        details: Some(String::from("expected ';'")),
        help: Some(String::from("add a semicolon")),
        source: Some(Box::new(frame("test.cfg", (4, 5), vec!["foo = bar"], "here"))),
        trace: Vec::new(),
    };
    let expected = "error: unexpected token\n\nexpected ';'   --> test.cfg:4:5\n    |\n  4 | foo = bar\n    |     ^ here\nhelp: add a semicolon\n";
    assert_eq!(e.long(&DisplayStyle::Error, Styling::Plain), expected);
}

#[test]
fn one_trace_frame_renders_one_arrow_block_in_order() {
    let e = AppError {
        brief: String::from("b"),
        details: None,
        help: None,
        source: Some(Box::new(frame("main.cfg", (7, 4), vec!["x = 1;"], "bad"))),
        trace: vec![frame("t1.cfg", (2, 3), vec!["first line"], "n1")],
    };
    let expected = "error: b\n\n    \u{2193}  t1.cfg:2:3\n  2 | first line\n   --> main.cfg:7:4\n    |\n  7 | x = 1;\n    |    ^ bad\n";
    assert_eq!(e.long(&DisplayStyle::Error, Styling::Plain), expected);
}

#[test]
fn trace_frame_without_lines_is_skipped() {
    let e = AppError {
        brief: String::from("b"),
        details: None,
        help: None,
        source: Some(Box::new(frame("main.cfg", (1, 1), vec!["top"], "n"))),
        trace: vec![frame("empty.cfg", (9, 9), vec![], "unseen")],
    };
    let expected = "error: b\n\n   --> main.cfg:1:1\n    |\n  1 | top\n    | ^ n\n";
    assert_eq!(e.long(&DisplayStyle::Error, Styling::Plain), expected);
}

#[test]
fn multi_line_snippet_numbers_increment_and_align() {
    let e = AppError {
        brief: String::from("b"),
        details: None,
        help: None,
        source: Some(Box::new(frame(
            "wide.cfg",
            (9, 2),
            vec!["line nine", "line ten", "line eleven"],
            "note",
        ))),
        trace: Vec::new(),
    };
    let expected = "error: b\n\n   --> wide.cfg:9:2\n    |\n  9 | line nine\n 10 | line ten\n 11 | line eleven\n    |  ^ note\n";
    assert_eq!(e.long(&DisplayStyle::Error, Styling::Plain), expected);
}

#[test]
fn backslash_path_renders_normalized() {
    let e = AppError {
        brief: String::from("b"),
        details: None,
        help: None,
        source: Some(Box::new(frame(
            "\\addons\\main.cfg",
            (1, 1),
            vec!["x"],
            "n",
        ))),
        trace: Vec::new(),
    };
    let out = e.long(&DisplayStyle::Error, Styling::Plain);
    assert!(out.contains("   --> addons/main.cfg:1:1\n"));
}

struct MinimalError;

impl PrettyError for MinimalError {
    fn brief(&self) -> String {
        String::from("minimal failure")
    }
}

#[test]
fn conversion_from_a_minimal_error_is_total() {
    let e = AppError::from_error(&MinimalError);
    assert_eq!(e.brief, "minimal failure");
    assert!(e.details.is_none());
    assert!(e.help.is_none());
    assert!(e.source.is_none());
    assert!(e.trace.is_empty());
    assert_eq!(
        e.long(&DisplayStyle::Info, Styling::Plain),
        "info: minimal failure\n\n"
    );
}

struct RichError;

impl PrettyError for RichError {
    fn brief(&self) -> String {
        String::from("rich failure")
    }

    fn details(&self) -> Option<String> {
        Some(String::from("all the detail\n"))
    }

    fn help(&self) -> Option<String> {
        Some(String::from("read the manual"))
    }

    fn source(&self) -> Option<Box<Source>> {
        Some(Box::new(frame("r.cfg", (3, 2), vec!["oh no"], "this")))
    }

    fn trace(&self) -> Vec<Source> {
        vec![frame("outer.cfg", (1, 1), vec!["include"], "from here")]
    }
}

#[test]
fn conversion_keeps_every_capability_field() {
    let e = AppError::from_error(&RichError);
    let expected = "warning: rich failure\n\nall the detail\n    \u{2193}  outer.cfg:1:1\n  1 | include\n   --> r.cfg:3:2\n    |\n  3 | oh no\n    |  ^ this\nhelp: read the manual\n";
    assert_eq!(e.long(&DisplayStyle::Warning, Styling::Plain), expected);
}
