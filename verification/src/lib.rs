//! Source-anchored diagnostic rendering: structured error values carrying
//! positions into source files are turned into deterministic, severity-styled
//! multi-line reports with aligned line numbers, quoted snippets and a caret
//! pointing at the offending column.

pub mod config;
pub mod position;
pub mod report;
pub mod snippet;
pub mod style;
pub mod text;

pub use config::{BuildOptions, DevOptions, Features, LaunchOptions};
pub use position::Position;
pub use report::{AppError, PrettyError};
pub use snippet::{make_source, read_lines, SnippetError, Source};
pub use style::{DisplayStyle, Styling};
