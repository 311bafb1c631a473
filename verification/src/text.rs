//! Character-level operations on strings.
//!
//! Every position in this module counts characters, never bytes: a text is
//! modelled by its view, a `Seq<char>`.

use vstd::prelude::*;
use vstd::string::*;

verus! {

/// The position nearest to `pos` that lies inside a text of `len`
/// characters (the end of the text counts as a position).
pub open spec fn clamped(pos: nat, len: nat) -> nat {
    if pos > len {
        len
    } else {
        pos
    }
}

/// Appends one character to `text`.
///
/// Trusted: the body is a call of `String::push`, which std documents as
/// appending the given `char` to the end of the string. Nothing else is
/// claimed.
#[verifier::external_body]
pub(crate) fn push_char(text: &mut String, c: char)
    ensures
        final(text)@ == old(text)@.push(c),
{
    text.push(c);
}

/// The characters of `s`, in order.
pub fn chars_of(s: &str) -> (r: Vec<char>)
    ensures
        r@ == s@,
{
    let mut out: Vec<char> = Vec::new();
    for c in it: s.chars()
        invariant
            out@ == it.seq().take(it.index() as int),
            it.seq() == s@,
    {
        out.push(c);
    }
    out
}

/// The string made of the characters of `chars`, in order.
pub fn string_of(chars: &Vec<char>) -> (r: String)
    ensures
        r@ == chars@,
{
    let mut out = String::new();
    let mut i: usize = 0;
    while i < chars.len()
        invariant
            i <= chars.len(),
            out@ == chars@.take(i as int),
        decreases chars.len() - i,
    {
        push_char(&mut out, chars[i]);
        i += 1;
    }
    out
}

/// Whether two strings hold the same characters.
pub fn same_text(a: &str, b: &str) -> (r: bool)
    ensures
        r == (a@ == b@),
{
    let left = chars_of(a);
    let right = chars_of(b);
    if left.len() != right.len() {
        return false;
    }
    let mut i: usize = 0;
    while i < left.len()
        invariant
            i <= left.len(),
            left.len() == right.len(),
            left@ == a@,
            right@ == b@,
            forall|j: int| 0 <= j < i ==> left@[j] == right@[j],
        decreases left.len() - i,
    {
        if left[i] != right[i] {
            return false;
        }
        i += 1;
    }
    assert(a@ =~= b@);
    true
}

/// What a text becomes when `c` is put in at position `at`: the character
/// that stood there and every later one move one place to the right. A
/// position past the end counts as the end.
pub open spec fn inserted(text: Seq<char>, at: nat, c: char) -> Seq<char> {
    text.insert(clamped(at, text.len()) as int, c)
}

/// What a text becomes when the character at position `at` is taken out.
/// Where no character stands at `at`, the text stays as it is.
pub open spec fn removed(text: Seq<char>, at: nat) -> Seq<char> {
    if at < text.len() {
        text.remove(at as int)
    } else {
        text
    }
}

/// The text with `c` put in at position `at`.
pub fn with_char_inserted(text: &str, at: usize, c: char) -> (r: String)
    ensures
        r@ == inserted(text@, at as nat, c),
{
    let mut chars = chars_of(text);
    let place = if at > chars.len() {
        chars.len()
    } else {
        at
    };
    chars.insert(place, c);
    string_of(&chars)
}

/// The text without the character at position `at`.
pub fn with_char_removed(text: &str, at: usize) -> (r: String)
    ensures
        r@ == removed(text@, at as nat),
{
    let mut chars = chars_of(text);
    if at < chars.len() {
        chars.remove(at);
    }
    string_of(&chars)
}

} // verus!
