//! Whether the path is wrapped in double quotes, and the wrapping.

use vstd::prelude::*;
use vstd::string::StringExecFns;
use crate::text::contains_char;

verus! {

/// The three quoting options, each set when its flag was given.
#[derive(Clone, Copy, Debug, PartialEq, Eq)]
pub struct QuoteFlags {
    /// Quote when the path holds a space.
    pub quote_if_needed: bool,
    /// Quote whatever the path holds.
    pub quote_always: bool,
    /// Never quote; this one overrides the other two.
    pub no_quote: bool,
}

/// Whether `path` is quoted under `flags`: never with `no_quote`; else always
/// with `quote_always`; else, with `quote_if_needed`, when it holds a space;
/// and not at all when no flag is set.
pub open spec fn should_quote(flags: QuoteFlags, path: Seq<char>) -> bool {
    !flags.no_quote && (flags.quote_always || (flags.quote_if_needed && path.contains(' ')))
}

/// `path` between two double quotes. Quotes inside it are not escaped.
pub open spec fn quoted(path: Seq<char>) -> Seq<char> {
    seq!['"'] + path + seq!['"']
}

/// `path` as it is copied under `flags`: quoted or as it is.
pub open spec fn quoted_under(flags: QuoteFlags, path: Seq<char>) -> Seq<char> {
    if should_quote(flags, path) {
        quoted(path)
    } else {
        path
    }
}

/// Decides whether `path` is to be quoted under `flags`.
pub fn needs_quotes(flags: QuoteFlags, path: &str) -> (yes: bool)
    ensures
        yes == should_quote(flags, path@),
{
    !flags.no_quote && (flags.quote_always || (flags.quote_if_needed && contains_char(path, ' ')))
}

/// Wraps `path` in a pair of double quotes.
pub fn quote(path: &str) -> (out: String)
    ensures
        out@ == quoted(path@),
{
    let mut out = String::new();
    out.push('"');
    out.append(path);
    out.push('"');
    out
}

/// Quotes `path` where `flags` ask for it, and hands it back unchanged where
/// they do not.
pub fn apply_quoting(path: String, flags: QuoteFlags) -> (out: String)
    ensures
        out@ == quoted_under(flags, path@),
{
    if needs_quotes(flags, path.as_str()) {
        quote(path.as_str())
    } else {
        path
    }
}

/// `no_quote` wins over the other two flags: with it the path is never quoted.
pub proof fn lemma_no_quote_overrides(flags: QuoteFlags, path: Seq<char>)
    requires
        flags.no_quote,
    ensures
        quoted_under(flags, path) == path,
{
}

/// Without `no_quote`, `quote_always` quotes every path.
pub proof fn lemma_quote_always_quotes(flags: QuoteFlags, path: Seq<char>)
    requires
        flags.quote_always,
        !flags.no_quote,
    ensures
        quoted_under(flags, path) == quoted(path),
{
}

/// With `quote_if_needed` alone, a path is quoted exactly when it holds a
/// space.
pub proof fn lemma_quote_if_needed(flags: QuoteFlags, path: Seq<char>)
    requires
        flags.quote_if_needed,
        !flags.quote_always,
        !flags.no_quote,
    ensures
        quoted_under(flags, path) == if path.contains(' ') {
            quoted(path)
        } else {
            path
        },
{
}

/// With no flag set, no path is quoted, whatever it holds.
pub proof fn lemma_no_flags_never_quoted(flags: QuoteFlags, path: Seq<char>)
    requires
        !flags.quote_if_needed,
        !flags.quote_always,
        !flags.no_quote,
    ensures
        quoted_under(flags, path) == path,
{
}

} // verus!
