//! Questions about the characters of a string, answered in one pass each.

use vstd::prelude::*;
use vstd::std_specs::iter::IteratorSpec;

verus! {

/// `String::push` of the standard library: it appends the one character to the
/// end of the string and changes nothing before it. This is taken on trust.
pub assume_specification[ String::push ](s: &mut String, c: char)
    ensures
        final(s)@ == old(s)@.push(c),
;

/// The characters that `char::to_lowercase` of the standard library yields for
/// `c`, in order. The mapping is Unicode's and depends on `c` alone; it is
/// named here, not written out.
pub uninterp spec fn lowercase_of(c: char) -> Seq<char>;

/// Calls `char::to_lowercase` and collects the characters it yields into a
/// string. Nothing is proved of the mapping: the contract only says that the
/// result is what [`lowercase_of`] names.
#[verifier::external_body]
pub(crate) fn lowercase(c: char) -> (lower: String)
    ensures
        lower@ == lowercase_of(c),
{
    c.to_lowercase().to_string()
}

/// Whether two strings hold the same characters.
pub fn same_text(a: &str, b: &str) -> (same: bool)
    ensures
        same == (a@ == b@),
{
    let mut others = b.chars();
    for c in it: a.chars()
        invariant
            it.seq() == a@,
            others.obeys_prophetic_iter_laws(),
            it.index() <= b@.len(),
            others.remaining() == b@.skip(it.index() as int),
            a@.take(it.index() as int) == b@.take(it.index() as int),
    {
        match others.next() {
            Some(d) => {
                if c != d {
                    return false;
                }
            },
            None => {
                return false;
            },
        }
    }
    assert(a@.take(a@.len() as int) =~= a@);
    match others.next() {
        Some(_) => false,
        None => true,
    }
}

/// Whether `c` occurs in `s`.
pub fn contains_char(s: &str, c: char) -> (found: bool)
    ensures
        found == s@.contains(c),
{
    for d in it: s.chars()
        invariant
            it.seq() == s@,
            forall|j: int| 0 <= j < it.index() ==> s@[j] != c,
    {
        if d == c {
            return true;
        }
    }
    false
}

/// Whether `s` is not empty and its first character is `c`.
pub fn starts_with_char(s: &str, c: char) -> (starts: bool)
    ensures
        starts == (s@.len() > 0 && s@[0] == c),
{
    match s.chars().next() {
        Some(d) => d == c,
        None => false,
    }
}

/// Whether `s` is not empty and its last character is `c`.
pub fn ends_with_char(s: &str, c: char) -> (ends: bool)
    ensures
        ends == (s@.len() > 0 && s@.last() == c),
{
    let mut ends = false;
    for d in it: s.chars()
        invariant
            it.seq() == s@,
            ends == (it.index() > 0 && s@[it.index() - 1] == c),
    {
        ends = d == c;
    }
    ends
}

/// Whether `i` is the place of the first `c` in `s`: `c` stands there and
/// nowhere before.
pub open spec fn is_first_at(s: Seq<char>, c: char, i: int) -> bool {
    &&& 0 <= i < s.len()
    &&& s[i] == c
    &&& forall|j: int| 0 <= j < i ==> s[j] != c
}

/// `index_of_first` gives the place of the first `c` in `s`, and `None` when
/// there is no `c` in it.
pub proof fn lemma_index_of_first(s: Seq<char>, c: char)
    ensures
        forall|i: int| is_first_at(s, c, i) ==> s.index_of_first(c) == Some(i),
        s.index_of_first(c) matches Some(i) ==> is_first_at(s, c, i),
        s.index_of_first(c) is None <==> !s.contains(c),
{
    s.index_of_first_ensures(c);
}

/// Splits `s` at the first `sep`: what stands before it and what stands after
/// it, the separator itself left out. `None` when `sep` does not occur.
pub fn split_once(s: &str, sep: char) -> (parts: Option<(String, String)>)
    ensures
        match s@.index_of_first(sep) {
            Some(i) => parts matches Some(pair) && pair.0@ == s@.take(i) && pair.1@ == s@.skip(
                i + 1,
            ),
            None => parts is None,
        },
{
    let mut head = String::new();
    let mut tail = String::new();
    let mut found = false;
    let ghost mut at: int = 0;
    for c in it: s.chars()
        invariant
            it.seq() == s@,
            !found ==> head@ == s@.take(it.index() as int) && tail@.len() == 0,
            !found ==> forall|j: int| 0 <= j < it.index() ==> s@[j] != sep,
            found ==> at < it.index() && is_first_at(s@, sep, at),
            found ==> head@ == s@.take(at) && tail@ == s@.subrange(at + 1, it.index() as int),
    {
        if found {
            tail.push(c);
        } else if c == sep {
            found = true;
            proof {
                at = it.index() as int;
            }
        } else {
            head.push(c);
        }
    }
    proof {
        lemma_index_of_first(s@, sep);
    }
    if found {
        Some((head, tail))
    } else {
        None
    }
}

} // verus!
