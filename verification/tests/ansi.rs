use pretty_error::position::Position;
use pretty_error::report::AppError;
use pretty_error::snippet::Source;
use pretty_error::style::{DisplayStyle, Styling};

fn rich_record() -> AppError {
    AppError {
        brief: String::from("unexpected token"),
        details: Some(String::from("expected ';'")),
        help: Some(String::from("add a semicolon")),
        source: Some(Box::new(Source {
            lines: vec![String::from("foo = bar")],
            position: Position::new(String::from("test.cfg"), (4, 5), (4, 9)),
            note: String::from("here"),
        })),
        trace: vec![Source {
            lines: vec![String::from("include")],
            position: Position::new(String::from("outer.cfg"), (1, 1), (1, 7)),
            note: String::from("from"),
        }],
    }
}

#[test]
fn ansi_styling_decorates_the_report() {
    colored::control::set_override(true);
    let e = rich_record();
    let plain = e.long(&DisplayStyle::Error, Styling::Plain);
    let styled = e.long(&DisplayStyle::Error, Styling::Ansi);
    assert_ne!(styled, plain);
    // bold label block, bright-red severity, blue arrow, red caret,
    // bright-blue trace marker, bright-yellow help label
    assert!(styled.contains("\u{1b}[1m"));
    assert!(styled.contains("\u{1b}[91merror"));
    assert!(styled.contains("\u{1b}[34m-->"));
    assert!(styled.contains("\u{1b}[31m^"));
    assert!(styled.contains("\u{1b}[94m\u{2193}"));
    assert!(styled.contains("\u{1b}[93mhelp"));
    assert!(styled.contains("foo = bar"));
}
