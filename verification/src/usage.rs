//! The texts that the program shows: the help text and the report of an
//! argument it does not know.

use vstd::prelude::*;
use vstd::string::StringExecFns;

verus! {

/// The help text.
pub const USAGE: &'static str = "Usage: program [OPTIONS]

Copies the current working directory to the clipboard in WSL-compatible format.

Options:
  -q, --quote-if-needed   Wrap the path in quotes only if it contains spaces.
  -Q, --quote-always      Always wrap the path in quotes.
  -n, --no-quote          Never wrap the path in quotes (overrides other quote options).
  -h, --help              Show this help message and exit.";

/// The title under which the help text is shown.
pub const USAGE_TITLE: &'static str = "Usage";

/// The title under which an unknown argument is reported.
pub const ERROR_TITLE: &'static str = "Error";

/// What stands in front of the unknown argument in its report.
pub const INVALID_ARGUMENT: &'static str = "Invalid argument: ";

/// The blank line between the report and the help text that follows it.
pub const BLANK_LINE: &'static str = "\n\n";

/// The help text as characters.
pub open spec fn usage_text() -> Seq<char> {
    USAGE@
}

/// The report of the unknown argument `arg`: the argument named, a blank line,
/// the help text.
pub open spec fn invalid_argument_text(arg: Seq<char>) -> Seq<char> {
    INVALID_ARGUMENT@ + arg + BLANK_LINE@ + usage_text()
}

/// Returns the help text.
pub fn get_usage_message() -> (text: String)
    ensures
        text@ == usage_text(),
{
    String::from_str(USAGE)
}

/// Returns the report of the unknown argument `arg`.
pub fn invalid_argument_message(arg: &str) -> (text: String)
    ensures
        text@ == invalid_argument_text(arg@),
{
    let mut text = String::from_str(INVALID_ARGUMENT);
    text.append(arg);
    text.append(BLANK_LINE);
    text.append(get_usage_message().as_str());
    text
}

} // verus!
