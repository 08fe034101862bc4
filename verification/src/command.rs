//! The program as two decisions: from the arguments, whether a message is
//! shown or the path is copied; and from the directory and the quoting
//! options, the text that goes to the clipboard.

use vstd::prelude::*;
use crate::arguments::{
    all_recognized, find_invalid, first_invalid, help_requested, is_first_invalid,
    is_no_quote_flag, is_quote_always_flag, is_quote_if_needed_flag, lemma_first_invalid_exists,
    lemma_first_invalid_unique, quote_flags, read_quote_flags, wants_help,
};
use crate::notice::{show_message_box, MessageBox, MessageBoxView};
use crate::path::{begins_with_colon, to_wsl_path, wsl_path};
use crate::quoting::{apply_quoting, quoted_under, QuoteFlags};
use crate::usage::{
    get_usage_message, invalid_argument_message, invalid_argument_text, usage_text, BLANK_LINE,
    ERROR_TITLE, INVALID_ARGUMENT, USAGE, USAGE_TITLE,
};

verus! {

/// What the program does for a command line. Nothing is copied where a
/// message is shown.
#[derive(Debug, PartialEq, Eq)]
pub enum Command {
    /// Show this dialog and end. The run counts as a success, also where the
    /// dialog reports an unknown argument.
    ShowMessage(MessageBox),
    /// Copy the mounted path of the working directory, quoted as these
    /// options say.
    CopyPath(QuoteFlags),
}

/// A [`Command`] as characters.
pub enum CommandView {
    ShowMessage(MessageBoxView),
    CopyPath(QuoteFlags),
}

impl View for Command {
    type V = CommandView;

    open spec fn view(&self) -> CommandView {
        match self {
            Command::ShowMessage(shown) => CommandView::ShowMessage(shown@),
            Command::CopyPath(flags) => CommandView::CopyPath(*flags),
        }
    }
}

/// The dialog that shows the help text.
pub open spec fn usage_box() -> MessageBoxView {
    MessageBoxView { title: USAGE_TITLE@, message: usage_text() }
}

/// The dialog that reports the unknown argument `arg`.
pub open spec fn error_box(arg: Seq<char>) -> MessageBoxView {
    MessageBoxView { title: ERROR_TITLE@, message: invalid_argument_text(arg) }
}

/// What the program does for the arguments `args`. A request for help, at any
/// place, comes first and shows the help text. Else the first unknown
/// argument, if there is one, is reported, and no other. Else the path is
/// copied under the quoting options that the arguments set.
pub open spec fn command_for(args: Seq<Seq<char>>) -> CommandView {
    if help_requested(args) {
        CommandView::ShowMessage(usage_box())
    } else if all_recognized(args) {
        CommandView::CopyPath(quote_flags(args))
    } else {
        CommandView::ShowMessage(error_box(args[first_invalid(args)]))
    }
}

/// The text that goes to the clipboard for the working directory `dir` under
/// the quoting options `flags`.
pub open spec fn clipboard_text_for(dir: Seq<char>, flags: QuoteFlags) -> Seq<char> {
    quoted_under(flags, wsl_path(dir))
}

/// Decides from the arguments, those after the program's name, what the
/// program does.
pub fn parse_arguments(args: &Vec<String>) -> (command: Command)
    ensures
        command@ == command_for(args.deep_view()),
{
    if wants_help(args) {
        return Command::ShowMessage(show_message_box(USAGE_TITLE, get_usage_message().as_str()));
    }
    match find_invalid(args) {
        Some(i) => {
            proof {
                lemma_first_invalid_exists(args.deep_view(), i as int);
                lemma_first_invalid_unique(
                    args.deep_view(),
                    i as int,
                    first_invalid(args.deep_view()),
                );
            }
            let report = invalid_argument_message(args[i].as_str());
            Command::ShowMessage(show_message_box(ERROR_TITLE, report.as_str()))
        },
        None => Command::CopyPath(read_quote_flags(args)),
    }
}

/// Makes the text that goes to the clipboard: the mounted path of `dir`,
/// quoted where `flags` ask for it.
///
/// A directory whose path begins with a colon is left out: it has no drive
/// letter in front of the colon.
pub fn clipboard_text(dir: &str, flags: QuoteFlags) -> (text: String)
    requires
        !begins_with_colon(dir@),
    ensures
        text@ == clipboard_text_for(dir@, flags),
{
    apply_quoting(to_wsl_path(dir), flags)
}

/// A request for help anywhere among the arguments shows the help text,
/// whatever else the arguments hold, and nothing is copied.
pub proof fn lemma_help_shows_usage(args: Seq<Seq<char>>)
    requires
        help_requested(args),
    ensures
        command_for(args) == CommandView::ShowMessage(
            MessageBoxView { title: USAGE_TITLE@, message: USAGE@ },
        ),
{
}

/// Without a request for help, the first unknown argument from the left is
/// the one reported: it is named, a blank line follows, then the help text.
/// Nothing is copied.
pub proof fn lemma_first_invalid_reported(args: Seq<Seq<char>>, i: int)
    requires
        !help_requested(args),
        is_first_invalid(args, i),
    ensures
        command_for(args) == CommandView::ShowMessage(
            MessageBoxView {
                title: ERROR_TITLE@,
                message: INVALID_ARGUMENT@ + args[i] + BLANK_LINE@ + USAGE@,
            },
        ),
{
    lemma_first_invalid_exists(args, i);
    lemma_first_invalid_unique(args, i, first_invalid(args));
}

/// Where every argument is a known flag and none asks for help, the path is
/// copied under the quoting options that the arguments set.
pub proof fn lemma_flags_copy_path(args: Seq<Seq<char>>)
    requires
        !help_requested(args),
        all_recognized(args),
    ensures
        command_for(args) == CommandView::CopyPath(quote_flags(args)),
{
}

/// An argument that forbids quotes wins over the other quoting flags: where
/// one stands among the arguments, the path is copied as it is.
pub proof fn lemma_no_quote_argument_wins(args: Seq<Seq<char>>, dir: Seq<char>)
    requires
        exists|i: int| 0 <= i < args.len() && is_no_quote_flag(#[trigger] args[i]),
    ensures
        clipboard_text_for(dir, quote_flags(args)) == wsl_path(dir),
{
}

/// Where no argument is a quoting flag, and so with no argument at all, the
/// path is copied as it is, whatever the directory holds.
pub proof fn lemma_without_flags_never_quoted(args: Seq<Seq<char>>, dir: Seq<char>)
    requires
        forall|i: int|
            0 <= i < args.len() ==> !is_quote_if_needed_flag(#[trigger] args[i])
                && !is_quote_always_flag(args[i]) && !is_no_quote_flag(args[i]),
    ensures
        clipboard_text_for(dir, quote_flags(args)) == wsl_path(dir),
        args.len() == 0 ==> command_for(args) == CommandView::CopyPath(quote_flags(args)),
{
}

} // verus!
