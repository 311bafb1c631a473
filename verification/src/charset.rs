//! The character classes that passwords are made of.
//!
//! A class is a string constant; a character belongs to the class when it
//! occurs in the string. The constants are the only place where the
//! characters are written down.

use vstd::prelude::*;
use vstd::string::*;
use crate::text::chars_of;

verus! {

/// The lowercase letters.
pub const LETTERS_CHARSET: &'static str = "abcdefghijklmnopqrstuvwxyz";

/// The uppercase letters.
pub const U_LETTERS_CHARSET: &'static str = "ABCDEFGHIJKLMNOPQRSTUVWXYZ";

/// The decimal digits.
pub const NUMBERS_CHARSET: &'static str = "0123456789";

/// The full set of symbols.
pub const SPEC_SYMB_CHARSET: &'static str = ")([]{}*&^%$#@!~";

/// The symbols that are easy to type and to tell apart.
pub const SIMP_SYMB_CHARSET: &'static str = "*&%$#@!";

/// The letters that cannot be mistaken for another glyph: no `I`, `L`, `O`,
/// `i`, `l`, `o`.
pub const CONVENIENT_LETTERS_CHARSET: &'static str =
    "ABCDEFGHJKMNPQRSTUVWXYZabcdefghjkmnpqrstuvwxyz";

/// The digits that cannot be mistaken for a letter: no `0`, no `1`.
pub const CONVENIENT_NUMBERS_CHARSET: &'static str = "23456789";

/// Whether some character of `text` belongs to `charset`.
pub open spec fn has_any_of(text: Seq<char>, charset: Seq<char>) -> bool {
    exists|i: int| 0 <= i < text.len() && charset.contains(#[trigger] text[i])
}

/// Whether every character of `text` belongs to `charset`.
pub open spec fn drawn_from(text: Seq<char>, charset: Seq<char>) -> bool {
    forall|i: int| 0 <= i < text.len() ==> charset.contains(#[trigger] text[i])
}

/// Which characters each class holds, by ranges and by name.
pub proof fn lemma_class_members()
    ensures
        forall|c: char| LETTERS_CHARSET@.contains(c) <==> 'a' <= c <= 'z',
        forall|c: char| U_LETTERS_CHARSET@.contains(c) <==> 'A' <= c <= 'Z',
        forall|c: char| NUMBERS_CHARSET@.contains(c) <==> '0' <= c <= '9',
        forall|c: char|
            SPEC_SYMB_CHARSET@.contains(c) <==> (c == ')' || c == '(' || c == '[' || c == ']' || c
                == '{' || c == '}' || c == '*' || c == '&' || c == '^' || c == '%' || c == '$' || c
                == '#' || c == '@' || c == '!' || c == '~'),
        forall|c: char|
            SIMP_SYMB_CHARSET@.contains(c) <==> (c == '*' || c == '&' || c == '%' || c == '$' || c
                == '#' || c == '@' || c == '!'),
        forall|c: char|
            CONVENIENT_LETTERS_CHARSET@.contains(c) <==> (('A' <= c <= 'Z' || 'a' <= c <= 'z') && c
                != 'I' && c != 'L' && c != 'O' && c != 'i' && c != 'l' && c != 'o'),
        forall|c: char| CONVENIENT_NUMBERS_CHARSET@.contains(c) <==> '2' <= c <= '9',
{
    lemma_lowercase_members();
    lemma_uppercase_members();
    lemma_digit_members();
    lemma_symbol_members();
    lemma_convenient_members();
}

proof fn lemma_lowercase_members()
    ensures
        forall|c: char| LETTERS_CHARSET@.contains(c) <==> 'a' <= c <= 'z',
{
    reveal_strlit("abcdefghijklmnopqrstuvwxyz");
    let s = LETTERS_CHARSET@;
    assert forall|c: char| 'a' <= c <= 'z' implies s.contains(c) by {
        assert(s[c as int - 'a' as int] == c);
    }
}

proof fn lemma_uppercase_members()
    ensures
        forall|c: char| U_LETTERS_CHARSET@.contains(c) <==> 'A' <= c <= 'Z',
{
    reveal_strlit("ABCDEFGHIJKLMNOPQRSTUVWXYZ");
    let s = U_LETTERS_CHARSET@;
    assert forall|c: char| 'A' <= c <= 'Z' implies s.contains(c) by {
        assert(s[c as int - 'A' as int] == c);
    }
}

proof fn lemma_digit_members()
    ensures
        forall|c: char| NUMBERS_CHARSET@.contains(c) <==> '0' <= c <= '9',
        forall|c: char| CONVENIENT_NUMBERS_CHARSET@.contains(c) <==> '2' <= c <= '9',
{
    reveal_strlit("0123456789");
    reveal_strlit("23456789");
    let s = NUMBERS_CHARSET@;
    assert forall|c: char| '0' <= c <= '9' implies s.contains(c) by {
        assert(s[c as int - '0' as int] == c);
    }
    let t = CONVENIENT_NUMBERS_CHARSET@;
    assert forall|c: char| '2' <= c <= '9' implies t.contains(c) by {
        assert(t[c as int - '2' as int] == c);
    }
}

proof fn lemma_symbol_members()
    ensures
        forall|c: char|
            SPEC_SYMB_CHARSET@.contains(c) <==> (c == ')' || c == '(' || c == '[' || c == ']' || c
                == '{' || c == '}' || c == '*' || c == '&' || c == '^' || c == '%' || c == '$' || c
                == '#' || c == '@' || c == '!' || c == '~'),
        forall|c: char|
            SIMP_SYMB_CHARSET@.contains(c) <==> (c == '*' || c == '&' || c == '%' || c == '$' || c
                == '#' || c == '@' || c == '!'),
{
    reveal_strlit(")([]{}*&^%$#@!~");
    reveal_strlit("*&%$#@!");
    let s = SPEC_SYMB_CHARSET@;
    assert(s[0] == ')' && s[1] == '(' && s[2] == '[' && s[3] == ']' && s[4] == '{' && s[5] == '}'
        && s[6] == '*' && s[7] == '&' && s[8] == '^' && s[9] == '%' && s[10] == '$' && s[11] == '#'
        && s[12] == '@' && s[13] == '!' && s[14] == '~');
    let t = SIMP_SYMB_CHARSET@;
    assert(t[0] == '*' && t[1] == '&' && t[2] == '%' && t[3] == '$' && t[4] == '#' && t[5] == '@'
        && t[6] == '!');
}

proof fn lemma_convenient_members()
    ensures
        forall|c: char|
            CONVENIENT_LETTERS_CHARSET@.contains(c) <==> (('A' <= c <= 'Z' || 'a' <= c <= 'z') && c
                != 'I' && c != 'L' && c != 'O' && c != 'i' && c != 'l' && c != 'o'),
{
    reveal_strlit("ABCDEFGHJKMNPQRSTUVWXYZabcdefghjkmnpqrstuvwxyz");
    let s = CONVENIENT_LETTERS_CHARSET@;
    assert forall|c: char|
        (('A' <= c <= 'Z' || 'a' <= c <= 'z') && c != 'I' && c != 'L' && c != 'O' && c != 'i' && c
            != 'l' && c != 'o') implies s.contains(c) by {
        let k: int = if 'I' > c {
            c as int - 'A' as int
        } else if 'L' > c {
            c as int - 'A' as int - 1
        } else if 'O' > c {
            c as int - 'A' as int - 2
        } else if c <= 'Z' {
            c as int - 'A' as int - 3
        } else if 'i' > c {
            c as int - 'a' as int + 23
        } else if 'l' > c {
            c as int - 'a' as int + 22
        } else if 'o' > c {
            c as int - 'a' as int + 21
        } else {
            c as int - 'a' as int + 20
        };
        assert(s[k] == c);
    }
}

/// Whether `c` occurs in `charset`.
pub fn contains_char(charset: &Vec<char>, c: char) -> (r: bool)
    ensures
        r == charset@.contains(c),
{
    let mut i: usize = 0;
    while i < charset.len()
        invariant
            i <= charset.len(),
            forall|j: int| 0 <= j < i ==> charset@[j] != c,
        decreases charset.len() - i,
    {
        if charset[i] == c {
            return true;
        }
        i += 1;
    }
    false
}

/// Whether some character of `text` belongs to the class `charset`.
pub fn has_char_of(text: &Vec<char>, charset: &str) -> (r: bool)
    ensures
        r == has_any_of(text@, charset@),
{
    let class = chars_of(charset);
    let mut i: usize = 0;
    while i < text.len()
        invariant
            i <= text.len(),
            class@ == charset@,
            forall|j: int| 0 <= j < i ==> !charset@.contains(#[trigger] text@[j]),
        decreases text.len() - i,
    {
        if contains_char(&class, text[i]) {
            return true;
        }
        i += 1;
    }
    false
}

} // verus!
