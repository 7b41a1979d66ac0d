//! Text primitives the rest of the library is built from.

use vstd::prelude::*;
use vstd::string::*;
use crate::search::{first_index, first_index_found, first_index_missing};

verus! {

/// `String::push` from the standard library: the character is added at the
/// end and nothing else changes.  Assumed, not proved.
pub assume_specification[ String::push ](s: &mut String, ch: char)
    ensures
        final(s)@ == old(s)@.push(ch),
;

/// Whether both hold the same characters in the same order.
pub(crate) fn same_text(a: &str, b: &str) -> (same: bool)
    ensures
        same == (a@ == b@),
{
    String::from_str(a) == String::from_str(b)
}

/// The text with every comma replaced by a single space.
pub open spec fn commas_as_spaces(s: Seq<char>) -> Seq<char> {
    Seq::new(s.len(), |i: int| if s[i] == ',' { ' ' } else { s[i] })
}

/// Turns a comma-separated argument list into a space-separated one.
pub fn spread_arguments(list: &str) -> (out: String)
    ensures
        out@ == commas_as_spaces(list@),
{
    let mut out = String::new();
    for c in it: list.chars()
        invariant
            it.seq() == list@,
            out@ == commas_as_spaces(list@.take(it.index() as int)),
    {
        if c == ',' {
            out.push(' ');
        } else {
            out.push(c);
        }
    }
    out
}

/// The characters of a string, one by one.
pub fn characters(s: &str) -> (out: Vec<char>)
    ensures
        out@ == s@,
{
    let mut out: Vec<char> = Vec::new();
    for c in it: s.chars()
        invariant
            it.seq() == s@,
            out@ == s@.take(it.index() as int),
    {
        out.push(c);
    }
    out
}

/// The string made of `chars[from..to]`.
pub fn text_of(chars: &Vec<char>, from: usize, to: usize) -> (out: String)
    requires
        from <= to <= chars.len(),
    ensures
        out@ == chars@.subrange(from as int, to as int),
{
    let mut out = String::new();
    let mut i: usize = from;
    while i < to
        invariant
            from <= i <= to <= chars.len(),
            out@ == chars@.subrange(from as int, i as int),
        decreases to - i,
    {
        out.push(chars[i]);
        i += 1;
    }
    out
}

/// The property of a character to be `c`.
pub open spec fn is_char(c: char) -> spec_fn(char) -> bool {
    |x: char| x == c
}

/// How far `text` runs before the first `c`: the position of the first `c`,
/// or the length of the text where it holds none.
pub open spec fn reach(text: Seq<char>, c: char) -> int {
    match first_index(text, is_char(c)) {
        Some(i) => i,
        None => text.len() as int,
    }
}

/// Finds the first `c` in `chars[from..to]`; `to` where there is none.
pub fn seek(chars: &Vec<char>, from: usize, to: usize, c: char) -> (at: usize)
    requires
        from <= to <= chars.len(),
    ensures
        from <= at <= to,
        at - from == reach(chars@.subrange(from as int, to as int), c),
{
    let ghost part = chars@.subrange(from as int, to as int);
    let ghost wanted = is_char(c);
    let mut at: usize = from;
    while at < to
        invariant
            from <= at <= to <= chars.len(),
            part == chars@.subrange(from as int, to as int),
            wanted == is_char(c),
            forall|j: int| 0 <= j < at - from ==> !#[trigger] wanted(part[j]),
        decreases to - at,
    {
        if chars[at] == c {
            proof {
                assert(wanted(part[at - from]));
                first_index_found(part, wanted, at - from);
            }
            return at;
        }
        at += 1;
    }
    proof {
        first_index_missing(part, wanted);
    }
    at
}

} // verus!
