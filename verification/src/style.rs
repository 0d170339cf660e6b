//! Severity styles and the text-styling strategy: reports render either as
//! plain text or decorated with ANSI escape codes through the colored crate.

use colored::Colorize;
use vstd::prelude::*;
use vstd::string::StringExecFns;

verus! {

/// Severity of a report; purely presentational, it selects the label text
/// and its color.
pub enum DisplayStyle {
    Info,
    Warning,
    Error,
}

/// The text-styling strategy: plain text for non-terminal contexts, or ANSI
/// escape styling.
#[derive(Clone, Copy, Debug, PartialEq, Eq, Structural)]
pub enum Styling {
    Plain,
    Ansi,
}

/// Holds when `s` contains no ANSI escape character.
pub open spec fn esc_free(s: Seq<char>) -> bool {
    forall|i: int| 0 <= i < s.len() ==> s[i] != '\u{1b}'
}

/// `s` wrapped in the ANSI code `code` and the trailing reset sequence.
pub open spec fn ansi_wrapped(code: Seq<char>, s: Seq<char>) -> Seq<char> {
    code + s + "\u{1b}[0m"@
}

/// Relies on colored's `Colorize::bright_blue`: when colors are disabled for
/// this process the text comes back unchanged, and when they are enabled,
/// text free of escape characters comes back wrapped in the bright-blue code
/// and a reset. Which of the two happens depends on the terminal and the
/// environment, so only the disjunction is stated; decorating never shortens
/// the text.
#[verifier::external_body]
fn ansi_bright_blue(s: &str) -> (r: String)
    ensures
        r@.len() >= s@.len(),
        esc_free(s@) ==> (r@ == s@ || r@ == ansi_wrapped("\u{1b}[94m"@, s@)),
{
    s.bright_blue().to_string()
}

/// Relies on colored's `Colorize::bright_yellow`, as `ansi_bright_blue`
/// relies on `bright_blue`; the code is bright yellow's.
#[verifier::external_body]
fn ansi_bright_yellow(s: &str) -> (r: String)
    ensures
        r@.len() >= s@.len(),
        esc_free(s@) ==> (r@ == s@ || r@ == ansi_wrapped("\u{1b}[93m"@, s@)),
{
    s.bright_yellow().to_string()
}

/// Relies on colored's `Colorize::bright_red`, as `ansi_bright_blue` relies
/// on `bright_blue`; the code is bright red's.
#[verifier::external_body]
fn ansi_bright_red(s: &str) -> (r: String)
    ensures
        r@.len() >= s@.len(),
        esc_free(s@) ==> (r@ == s@ || r@ == ansi_wrapped("\u{1b}[91m"@, s@)),
{
    s.bright_red().to_string()
}

/// Relies on colored's `Colorize::blue`, as `ansi_bright_blue` relies on
/// `bright_blue`; the code is blue's.
#[verifier::external_body]
fn ansi_blue(s: &str) -> (r: String)
    ensures
        r@.len() >= s@.len(),
        esc_free(s@) ==> (r@ == s@ || r@ == ansi_wrapped("\u{1b}[34m"@, s@)),
{
    s.blue().to_string()
}

/// Relies on colored's `Colorize::red`, as `ansi_bright_blue` relies on
/// `bright_blue`; the code is red's.
#[verifier::external_body]
fn ansi_red(s: &str) -> (r: String)
    ensures
        r@.len() >= s@.len(),
        esc_free(s@) ==> (r@ == s@ || r@ == ansi_wrapped("\u{1b}[31m"@, s@)),
{
    s.red().to_string()
}

/// Relies on colored's `Colorize::bold`: as `ansi_bright_blue` relies on
/// `bright_blue`, with the bold code; on text that already carries escape
/// sequences colored re-applies the bold code after each inner reset, which
/// only lengthens the text, so for such input only the length is stated.
#[verifier::external_body]
fn ansi_bold(s: &str) -> (r: String)
    ensures
        r@.len() >= s@.len(),
        esc_free(s@) ==> (r@ == s@ || r@ == ansi_wrapped("\u{1b}[1m"@, s@)),
{
    s.bold().to_string()
}

/// `s` decorated bright blue under the ANSI strategy; `s` itself when plain.
pub(crate) fn paint_bright_blue(s: &str, styling: Styling) -> (r: String)
    ensures
        styling == Styling::Plain ==> r@ == s@,
        r@.len() >= s@.len(),
{
    match styling {
        Styling::Plain => String::from_str(s),
        Styling::Ansi => ansi_bright_blue(s),
    }
}

/// `s` decorated bright yellow under the ANSI strategy; `s` itself when
/// plain.
pub(crate) fn paint_bright_yellow(s: &str, styling: Styling) -> (r: String)
    ensures
        styling == Styling::Plain ==> r@ == s@,
        r@.len() >= s@.len(),
{
    match styling {
        Styling::Plain => String::from_str(s),
        Styling::Ansi => ansi_bright_yellow(s),
    }
}

/// `s` decorated bright red under the ANSI strategy; `s` itself when plain.
pub(crate) fn paint_bright_red(s: &str, styling: Styling) -> (r: String)
    ensures
        styling == Styling::Plain ==> r@ == s@,
        r@.len() >= s@.len(),
{
    match styling {
        Styling::Plain => String::from_str(s),
        Styling::Ansi => ansi_bright_red(s),
    }
}

/// `s` decorated blue under the ANSI strategy; `s` itself when plain.
pub(crate) fn paint_blue(s: &str, styling: Styling) -> (r: String)
    ensures
        styling == Styling::Plain ==> r@ == s@,
        r@.len() >= s@.len(),
{
    match styling {
        Styling::Plain => String::from_str(s),
        Styling::Ansi => ansi_blue(s),
    }
}

/// `s` decorated red under the ANSI strategy; `s` itself when plain.
pub(crate) fn paint_red(s: &str, styling: Styling) -> (r: String)
    ensures
        styling == Styling::Plain ==> r@ == s@,
        r@.len() >= s@.len(),
{
    match styling {
        Styling::Plain => String::from_str(s),
        Styling::Ansi => ansi_red(s),
    }
}

/// `s` in bold under the ANSI strategy; `s` itself when plain.
pub(crate) fn paint_bold(s: &str, styling: Styling) -> (r: String)
    ensures
        styling == Styling::Plain ==> r@ == s@,
        r@.len() >= s@.len(),
{
    match styling {
        Styling::Plain => String::from_str(s),
        Styling::Ansi => ansi_bold(s),
    }
}

} // verus!
