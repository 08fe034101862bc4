//! The command line: which arguments are flags of the program, whether help
//! is asked for, which argument is the first unknown one, and which quoting
//! options are set.
//!
//! The arguments are those after the program's name.

use vstd::prelude::*;
use crate::quoting::QuoteFlags;
use crate::text::same_text;

verus! {

/// Whether `arg` asks for the help text.
pub open spec fn is_help_flag(arg: Seq<char>) -> bool {
    arg == "--help"@ || arg == "-h"@
}

/// Whether `arg` asks for quotes where the path holds a space.
pub open spec fn is_quote_if_needed_flag(arg: Seq<char>) -> bool {
    arg == "--quote-if-needed"@ || arg == "-q"@
}

/// Whether `arg` asks for quotes in every case.
pub open spec fn is_quote_always_flag(arg: Seq<char>) -> bool {
    arg == "--quote-always"@ || arg == "-Q"@
}

/// Whether `arg` forbids quotes.
pub open spec fn is_no_quote_flag(arg: Seq<char>) -> bool {
    arg == "--no-quote"@ || arg == "-n"@
}

/// Whether `arg` is one of the eight flags that the program knows.
pub open spec fn is_recognized(arg: Seq<char>) -> bool {
    is_quote_if_needed_flag(arg) || is_quote_always_flag(arg) || is_no_quote_flag(arg)
        || is_help_flag(arg)
}

/// Whether some argument, at any place, asks for the help text.
pub open spec fn help_requested(args: Seq<Seq<char>>) -> bool {
    exists|i: int| 0 <= i < args.len() && is_help_flag(#[trigger] args[i])
}

/// Whether `i` is the place of the first argument that the program does not
/// know: the argument there is unknown, and every argument before it is known.
pub open spec fn is_first_invalid(args: Seq<Seq<char>>, i: int) -> bool {
    &&& 0 <= i < args.len()
    &&& !is_recognized(args[i])
    &&& forall|j: int| 0 <= j < i ==> is_recognized(#[trigger] args[j])
}

/// The place of the first unknown argument. It means something only where
/// not every argument is known: see [`lemma_first_invalid_exists`].
pub open spec fn first_invalid(args: Seq<Seq<char>>) -> int {
    choose|i: int| is_first_invalid(args, i)
}

/// Whether the program knows every argument.
pub open spec fn all_recognized(args: Seq<Seq<char>>) -> bool {
    forall|j: int| 0 <= j < args.len() ==> is_recognized(#[trigger] args[j])
}

/// The quoting options that `args` set: each is set when one of its two
/// spellings occurs at any place.
pub open spec fn quote_flags(args: Seq<Seq<char>>) -> QuoteFlags {
    QuoteFlags {
        quote_if_needed: exists|i: int|
            0 <= i < args.len() && is_quote_if_needed_flag(#[trigger] args[i]),
        quote_always: exists|i: int|
            0 <= i < args.len() && is_quote_always_flag(#[trigger] args[i]),
        no_quote: exists|i: int| 0 <= i < args.len() && is_no_quote_flag(#[trigger] args[i]),
    }
}

/// Tells whether `arg` is `--help` or `-h`.
pub fn is_help(arg: &str) -> (yes: bool)
    ensures
        yes == is_help_flag(arg@),
{
    same_text(arg, "--help") || same_text(arg, "-h")
}

/// Tells whether `arg` is `--quote-if-needed` or `-q`.
pub fn is_quote_if_needed(arg: &str) -> (yes: bool)
    ensures
        yes == is_quote_if_needed_flag(arg@),
{
    same_text(arg, "--quote-if-needed") || same_text(arg, "-q")
}

/// Tells whether `arg` is `--quote-always` or `-Q`.
pub fn is_quote_always(arg: &str) -> (yes: bool)
    ensures
        yes == is_quote_always_flag(arg@),
{
    same_text(arg, "--quote-always") || same_text(arg, "-Q")
}

/// Tells whether `arg` is `--no-quote` or `-n`.
pub fn is_no_quote(arg: &str) -> (yes: bool)
    ensures
        yes == is_no_quote_flag(arg@),
{
    same_text(arg, "--no-quote") || same_text(arg, "-n")
}

/// Tells whether `arg` is one of the eight flags.
pub fn is_valid_argument(arg: &str) -> (yes: bool)
    ensures
        yes == is_recognized(arg@),
{
    is_quote_if_needed(arg) || is_quote_always(arg) || is_no_quote(arg) || is_help(arg)
}

/// Tells whether help is asked for anywhere in `args`.
pub fn wants_help(args: &Vec<String>) -> (yes: bool)
    ensures
        yes == help_requested(args.deep_view()),
{
    let mut i: usize = 0;
    while i < args.len()
        invariant
            i <= args.len(),
            forall|j: int| 0 <= j < i ==> !is_help_flag(#[trigger] args.deep_view()[j]),
        decreases args.len() - i,
    {
        if is_help(args[i].as_str()) {
            assert(is_help_flag(args.deep_view()[i as int]));
            return true;
        }
        i += 1;
    }
    false
}

/// Finds the first argument that the program does not know, reading from the
/// left. `None` when it knows them all.
pub fn find_invalid(args: &Vec<String>) -> (found: Option<usize>)
    ensures
        match found {
            Some(i) => is_first_invalid(args.deep_view(), i as int),
            None => all_recognized(args.deep_view()),
        },
{
    let mut i: usize = 0;
    while i < args.len()
        invariant
            i <= args.len(),
            forall|j: int| 0 <= j < i ==> is_recognized(#[trigger] args.deep_view()[j]),
        decreases args.len() - i,
    {
        if !is_valid_argument(args[i].as_str()) {
            return Some(i);
        }
        i += 1;
    }
    None
}

/// Reads the quoting options off `args`.
pub fn read_quote_flags(args: &Vec<String>) -> (flags: QuoteFlags)
    ensures
        flags == quote_flags(args.deep_view()),
{
    let mut flags = QuoteFlags { quote_if_needed: false, quote_always: false, no_quote: false };
    let mut i: usize = 0;
    while i < args.len()
        invariant
            i <= args.len(),
            flags.quote_if_needed == exists|j: int|
                0 <= j < i && is_quote_if_needed_flag(#[trigger] args.deep_view()[j]),
            flags.quote_always == exists|j: int|
                0 <= j < i && is_quote_always_flag(#[trigger] args.deep_view()[j]),
            flags.no_quote == exists|j: int|
                0 <= j < i && is_no_quote_flag(#[trigger] args.deep_view()[j]),
        decreases args.len() - i,
    {
        let arg = args[i].as_str();
        assert(arg@ == args.deep_view()[i as int]);
        if is_quote_if_needed(arg) {
            flags.quote_if_needed = true;
        }
        if is_quote_always(arg) {
            flags.quote_always = true;
        }
        if is_no_quote(arg) {
            flags.no_quote = true;
        }
        i += 1;
    }
    flags
}

/// No two places are that of the first unknown argument, and where there is
/// one, not every argument is known.
pub proof fn lemma_first_invalid_unique(args: Seq<Seq<char>>, i: int, k: int)
    requires
        is_first_invalid(args, i),
        is_first_invalid(args, k),
    ensures
        i == k,
        !all_recognized(args),
{
}

/// Where the argument at `k` is unknown, there is a first unknown argument, at
/// `k` or before it, and [`first_invalid`] is its place.
pub proof fn lemma_first_invalid_exists(args: Seq<Seq<char>>, k: int)
    requires
        0 <= k < args.len(),
        !is_recognized(args[k]),
    ensures
        is_first_invalid(args, first_invalid(args)),
        first_invalid(args) <= k,
    decreases k,
{
    if forall|j: int| 0 <= j < k ==> is_recognized(#[trigger] args[j]) {
        assert(is_first_invalid(args, k));
    } else {
        let j = choose|j: int| 0 <= j < k && !is_recognized(#[trigger] args[j]);
        lemma_first_invalid_exists(args, j);
    }
}

} // verus!
