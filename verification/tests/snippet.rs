use pretty_error::position::Position;
use pretty_error::snippet::{make_source, read_lines, SnippetError, Source};
use pretty_error::text::{left_padded, normalize_path, trimmed_end, usize_to_string};

fn file() -> Vec<String> {
    vec![
        String::from("alpha  "),
        String::from("bravo\t"),
        String::from("charlie"),
    ]
}

#[test]
fn read_lines_full_range() {
    let lines = read_lines(&file(), 1, 3).unwrap();
    assert_eq!(lines, vec!["alpha", "bravo", "charlie"]);
}

#[test]
fn read_lines_single_line() {
    let lines = read_lines(&file(), 2, 2).unwrap();
    assert_eq!(lines, vec!["bravo"]);
}

#[test]
fn read_lines_stops_at_eof() {
    let lines = read_lines(&file(), 2, 10).unwrap();
    assert_eq!(lines, vec!["bravo", "charlie"]);
}

#[test]
fn read_lines_last_line_in_range() {
    let lines = read_lines(&file(), 3, 5).unwrap();
    assert_eq!(lines, vec!["charlie"]);
}

#[test]
fn read_lines_start_beyond_eof_is_range_error() {
    assert_eq!(read_lines(&file(), 4, 5), Err(SnippetError::Range));
    assert_eq!(read_lines(&file(), 100, 200), Err(SnippetError::Range));
}

#[test]
fn make_source_quotes_trimmed_lines() {
    let position = Position::new(String::from("test.cfg"), (2, 1), (3, 4));
    let src = make_source(position, String::from("note"), &file()).unwrap();
    assert_eq!(src.lines, vec!["bravo", "charlie"]);
    assert_eq!(src.note, "note");
    assert_eq!(src.position.path, "test.cfg");
    assert_eq!(src.position.start_line, 2);
}

#[test]
fn make_source_stops_at_eof() {
    let position = Position::new(String::from("test.cfg"), (3, 2), (9, 1));
    let src = make_source(position, String::from("n"), &file()).unwrap();
    assert_eq!(src.lines, vec!["charlie"]);
    assert_eq!(src.position.end_line, 9);
}

#[test]
fn position_accessors_return_the_coordinates() {
    let p = Position::new(String::from("a\\b.cfg"), (2, 3), (4, 5));
    assert_eq!(p.path(), "a\\b.cfg");
    assert_eq!(p.start(), (2, 3));
    assert_eq!(p.end(), (4, 5));
}

#[test]
fn make_source_start_beyond_eof_is_range_error() {
    let position = Position::new(String::from("test.cfg"), (4, 1), (4, 2));
    let r = make_source(position, String::from("note"), &file());
    assert!(matches!(r, Err(SnippetError::Range)));
}

#[test]
fn source_new_trims_a_streamed_window() {
    let position = Position::new(String::from("test.cfg"), (5, 2), (6, 3));
    let window = vec![String::from("first  "), String::from("second\t")];
    let src = Source::new(position, String::from("note"), &window);
    assert_eq!(src.lines, vec!["first", "second"]);
    assert_eq!(src.note, "note");
    assert_eq!(src.position.start_line, 5);
    assert_eq!(src.position.end_line, 6);
}

#[test]
fn source_new_keeps_an_empty_window_empty() {
    let position = Position::new(String::from("test.cfg"), (5, 2), (6, 3));
    let src = Source::new(position, String::from("note"), &Vec::new());
    assert!(src.lines.is_empty());
}

#[test]
fn trimmed_end_removes_trailing_whitespace() {
    assert_eq!(trimmed_end("foo \t "), "foo");
    assert_eq!(trimmed_end("  foo"), "  foo");
    assert_eq!(trimmed_end(""), "");
    assert_eq!(trimmed_end(" \t"), "");
    assert_eq!(trimmed_end("bar"), "bar");
}

#[test]
fn usize_to_string_renders_decimal() {
    assert_eq!(usize_to_string(0), "0");
    assert_eq!(usize_to_string(7), "7");
    assert_eq!(usize_to_string(42), "42");
    assert_eq!(usize_to_string(105), "105");
    assert_eq!(usize_to_string(9001), "9001");
}

#[test]
fn left_padded_aligns_to_width() {
    assert_eq!(left_padded("7", 3), "  7");
    assert_eq!(left_padded("42", 3), " 42");
    assert_eq!(left_padded("105", 3), "105");
    assert_eq!(left_padded("9001", 3), "9001");
    assert_eq!(left_padded("^", 5), "    ^");
}

#[test]
fn normalize_path_replaces_backslashes_and_strips_one_slash() {
    assert_eq!(normalize_path("\\a\\b.cfg"), "a/b.cfg");
    assert_eq!(normalize_path("/test.cfg"), "test.cfg");
    assert_eq!(normalize_path("test.cfg"), "test.cfg");
    assert_eq!(normalize_path("dir\\test.cfg"), "dir/test.cfg");
    assert_eq!(normalize_path("//twice"), "/twice");
    assert_eq!(normalize_path(""), "");
}

#[test]
fn normalized_spellings_agree() {
    assert_eq!(
        normalize_path("\\addons\\main\\script.cpp"),
        normalize_path("/addons/main/script.cpp"),
    );
}
