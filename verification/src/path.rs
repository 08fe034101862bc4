//! From a directory path to the path under which it is mounted.
//!
//! Three steps, each a function from text to text: every backslash becomes a
//! forward slash, a trailing slash is added where there is none, and the drive
//! letter in front of the first colon moves behind the mount point.

use vstd::prelude::*;
use vstd::string::StringExecFns;
use vstd::string::StrSliceExecFns;
use crate::text::{ends_with_char, lemma_index_of_first, lowercase, lowercase_of, split_once};

verus! {

/// Where the drives are mounted.
pub const MOUNT_POINT: &'static str = "/mnt/";

/// A backslash becomes a forward slash; any other character stays.
pub open spec fn slash_of(c: char) -> char {
    if c == '\\' {
        '/'
    } else {
        c
    }
}

/// `p` with every backslash replaced by a forward slash.
pub open spec fn normalized(p: Seq<char>) -> Seq<char> {
    p.map_values(|c: char| slash_of(c))
}

/// `p` itself where it ends in a slash, else `p` with one slash added.
pub open spec fn with_trailing_slash(p: Seq<char>) -> Seq<char> {
    if p.len() > 0 && p.last() == '/' {
        p
    } else {
        p.push('/')
    }
}

/// Whether the first character of `p` is a colon: a path with a colon and
/// nothing in front of it has no drive letter to take.
pub open spec fn begins_with_colon(p: Seq<char>) -> bool {
    p.len() > 0 && p[0] == ':'
}

/// The character that stands for the drive of `p`, and the path on that
/// drive. Where `p` holds a colon, the first one is the drive separator: the
/// path's first character stands for the drive, whatever else stands between
/// it and that colon is dropped, the colon goes, and what follows it is kept
/// as it is. A path without a colon has no drive.
pub open spec fn drive_and_rest(p: Seq<char>) -> Option<(char, Seq<char>)> {
    match p.index_of_first(':') {
        Some(i) => Some((p[0], p.skip(i + 1))),
        None => None,
    }
}

/// `rest` under the mount point, behind the name `drive` of its drive.
pub open spec fn mounted(drive: Seq<char>, rest: Seq<char>) -> Seq<char> {
    MOUNT_POINT@ + drive + rest
}

/// `p` under the mount point: behind its drive letter in lower case where it
/// has a drive, else all of it behind the mount point alone.
pub open spec fn drive_remapped(p: Seq<char>) -> Seq<char> {
    match drive_and_rest(p) {
        Some((drive, rest)) => mounted(lowercase_of(drive), rest),
        None => mounted(Seq::empty(), p),
    }
}

/// The mounted path of the directory `dir`: the three steps in their order.
pub open spec fn wsl_path(dir: Seq<char>) -> Seq<char> {
    drive_remapped(with_trailing_slash(normalized(dir)))
}

/// Replaces every backslash in `p` by a forward slash.
pub fn normalize_separators(p: &str) -> (out: String)
    ensures
        out@ == normalized(p@),
{
    let mut out = String::new();
    for c in it: p.chars()
        invariant
            it.seq() == p@,
            out@ == normalized(p@.take(it.index() as int)),
    {
        if c == '\\' {
            out.push('/');
        } else {
            out.push(c);
        }
    }
    out
}

/// Adds a slash to the end of `p` unless it ends in one already.
pub fn ensure_trailing_slash(p: String) -> (out: String)
    ensures
        out@ == with_trailing_slash(p@),
{
    let mut out = p;
    if !ends_with_char(out.as_str(), '/') {
        out.push('/');
    }
    out
}

/// Takes `p` apart into the character that stands for its drive and the
/// path on that drive. `None` when `p` holds no colon.
///
/// A path that begins with a colon is left out: there is no character in
/// front of the colon to take as the drive.
pub fn split_drive(p: &str) -> (parts: Option<(char, String)>)
    requires
        !begins_with_colon(p@),
    ensures
        match drive_and_rest(p@) {
            Some((drive, rest)) => parts matches Some(pair) && pair.0 == drive && pair.1@ == rest,
            None => parts is None,
        },
{
    proof {
        lemma_index_of_first(p@, ':');
    }
    match split_once(p, ':') {
        Some((head, tail)) => Some((head.as_str().get_char(0), tail)),
        None => None,
    }
}

/// Puts `rest` under the mount point, behind the name `drive` of its drive.
pub fn mount(drive: &str, rest: &str) -> (out: String)
    ensures
        out@ == mounted(drive@, rest@),
{
    let mut out = String::from_str(MOUNT_POINT);
    out.append(drive);
    out.append(rest);
    out
}

/// Moves `p` under the mount point, its drive letter in lower case.
///
/// A path that begins with a colon is left out, as in [`split_drive`].
pub fn remap_drive(p: &str) -> (out: String)
    requires
        !begins_with_colon(p@),
    ensures
        out@ == drive_remapped(p@),
{
    match split_drive(p) {
        Some((drive, rest)) => mount(lowercase(drive).as_str(), rest.as_str()),
        None => {
            proof {
                reveal_strlit("");
            }
            mount("", p)
        },
    }
}

/// The mounted path of the directory `dir`.
///
/// A directory whose path begins with a colon is left out, as in
/// [`remap_drive`].
pub fn to_wsl_path(dir: &str) -> (out: String)
    requires
        !begins_with_colon(dir@),
    ensures
        out@ == wsl_path(dir@),
{
    let slashed = ensure_trailing_slash(normalize_separators(dir));
    remap_drive(slashed.as_str())
}

/// The trailing slash is added once only: a path that ends in a slash
/// already is left as it is, so the step done twice is the step done once.
pub proof fn lemma_trailing_slash_idempotent(p: Seq<char>)
    ensures
        p.len() > 0 && p.last() == '/' ==> with_trailing_slash(p) == p,
        with_trailing_slash(p).len() > 0,
        with_trailing_slash(p).last() == '/',
        with_trailing_slash(with_trailing_slash(p)) == with_trailing_slash(p),
{
}

/// A directory without a colon is put under the mount point whole, its own
/// leading slash included.
pub proof fn lemma_without_colon_kept_whole(dir: Seq<char>)
    requires
        !dir.contains(':'),
    ensures
        wsl_path(dir) == MOUNT_POINT@ + with_trailing_slash(normalized(dir)),
{
    let slashed = with_trailing_slash(normalized(dir));
    lemma_index_of_first(slashed, ':');
}

/// Every mounted path begins with the mount point and ends in a slash.
pub proof fn lemma_wsl_path_shape(dir: Seq<char>)
    ensures
        MOUNT_POINT@.is_prefix_of(wsl_path(dir)),
        wsl_path(dir).last() == '/',
{
    let slashed = with_trailing_slash(normalized(dir));
    lemma_index_of_first(slashed, ':');
}

} // verus!
