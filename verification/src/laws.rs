//! What holds of the form and of the generation engine, whatever the
//! input.

use vstd::prelude::*;
use vstd::string::*;
use crate::charset::{
    has_any_of, lemma_class_members, CONVENIENT_LETTERS_CHARSET, CONVENIENT_NUMBERS_CHARSET,
    LETTERS_CHARSET, NUMBERS_CHARSET, SIMP_SYMB_CHARSET, SPEC_SYMB_CHARSET, U_LETTERS_CHARSET,
};
use crate::error::GenError;
use crate::gen_engine::class_part;
use crate::generator::GeneratorView;

verus! {

/// Whether two forms ask for the same rules.
pub open spec fn same_rules(a: GeneratorView, b: GeneratorView) -> bool {
    &&& a.letters == b.letters
    &&& a.u_letters == b.u_letters
    &&& a.numbs == b.numbs
    &&& a.spec_symbs == b.spec_symbs
    &&& a.convenience_criterion == b.convenience_criterion
}

/// The alphabet is a matter of the rules alone: assembled again for
/// unchanged rules, it holds the same characters, whatever else of the form
/// has changed in between.
pub proof fn lemma_same_rules_same_alphabet(a: GeneratorView, b: GeneratorView)
    requires
        same_rules(a, b),
    ensures
        a.alphabet() == b.alphabet(),
        a.alphabet().to_set() == b.alphabet().to_set(),
{
}

/// While the preset is on, the four rules have no say in the alphabet.
pub proof fn lemma_preset_overrides_rules(a: GeneratorView, b: GeneratorView)
    requires
        a.convenience_criterion,
        b.convenience_criterion,
    ensures
        a.alphabet() == b.alphabet(),
        forall|pwd: Seq<char>| a.complies(pwd) == b.complies(pwd),
{
}

/// The alphabet is empty exactly when the preset is off and no class is
/// asked for.
pub proof fn lemma_empty_alphabet(form: GeneratorView)
    ensures
        form.alphabet().len() == 0 <==> !form.convenience_criterion && !form.letters
            && !form.u_letters && !form.numbs && !form.spec_symbs,
{
    reveal_strlit("abcdefghijklmnopqrstuvwxyz");
    reveal_strlit("ABCDEFGHIJKLMNOPQRSTUVWXYZ");
    reveal_strlit("0123456789");
    reveal_strlit(")([]{}*&^%$#@!~");
    reveal_strlit("*&%$#@!");
    reveal_strlit("ABCDEFGHJKMNPQRSTUVWXYZabcdefghjkmnpqrstuvwxyz");
    reveal_strlit("23456789");
}

/// Typing a character other than a blank puts it where the cursor stood:
/// the text grows by one character and the cursor moves one place to the
/// right, behind the new character.
pub proof fn lemma_typing_moves_cursor(form: GeneratorView, c: char)
    requires
        form.wf(),
        c != ' ',
    ensures
        form.char_entered(c).wf(),
        form.char_entered(c).cursor_position == form.cursor_position + 1,
        form.char_entered(c).pwd_len.len() == form.pwd_len.len() + 1,
        form.char_entered(c).pwd_len[form.cursor_position as int] == c,
        form.char_entered(c).char_backspaced() == form,
{
    let after = form.char_entered(c);
    assert(after.char_backspaced().pwd_len =~= form.pwd_len);
}

/// Deleting never takes the cursor out of the text: it stays at or after
/// the start and at or before the end, and the text loses at most one
/// character.
pub proof fn lemma_deleting_keeps_cursor(form: GeneratorView)
    requires
        form.wf(),
    ensures
        form.char_backspaced().wf(),
        form.char_deleted().wf(),
        form.cursor_position == 0 ==> form.char_backspaced() == form,
        form.cursor_position > 0 ==> {
            &&& form.char_backspaced().cursor_position == form.cursor_position - 1
            &&& form.char_backspaced().pwd_len.len() == form.pwd_len.len() - 1
        },
        form.char_deleted().cursor_position == form.cursor_position,
        form.cursor_position == form.pwd_len.len() ==> form.char_deleted() == form,
        form.cursor_position < form.pwd_len.len() ==> form.char_deleted().pwd_len.len()
            == form.pwd_len.len() - 1,
{
}

/// No character belongs to two of the four classes.
pub proof fn lemma_classes_are_disjoint(c: char)
    ensures
        !(LETTERS_CHARSET@.contains(c) && U_LETTERS_CHARSET@.contains(c)),
        !(LETTERS_CHARSET@.contains(c) && NUMBERS_CHARSET@.contains(c)),
        !(LETTERS_CHARSET@.contains(c) && SPEC_SYMB_CHARSET@.contains(c)),
        !(U_LETTERS_CHARSET@.contains(c) && NUMBERS_CHARSET@.contains(c)),
        !(U_LETTERS_CHARSET@.contains(c) && SPEC_SYMB_CHARSET@.contains(c)),
        !(NUMBERS_CHARSET@.contains(c) && SPEC_SYMB_CHARSET@.contains(c)),
{
    lemma_class_members();
}

/// The parts of the preset lie within the classes: its letters are
/// letters, its digits are digits, its symbols are symbols.
pub proof fn lemma_preset_within_classes(c: char)
    ensures
        CONVENIENT_LETTERS_CHARSET@.contains(c) ==> LETTERS_CHARSET@.contains(c)
            || U_LETTERS_CHARSET@.contains(c),
        CONVENIENT_NUMBERS_CHARSET@.contains(c) ==> NUMBERS_CHARSET@.contains(c),
        SIMP_SYMB_CHARSET@.contains(c) ==> SPEC_SYMB_CHARSET@.contains(c),
{
    lemma_class_members();
}

/// A password that is shorter than the number of classes it must hold a
/// character of holds no character of one of them.
pub proof fn lemma_too_short_never_complies(form: GeneratorView, pwd: Seq<char>)
    requires
        pwd.len() < form.required_classes(),
    ensures
        !form.complies(pwd),
{
    if form.complies(pwd) {
        let l = if form.wants_lowercase() {
            choose|i: int| 0 <= i < pwd.len() && LETTERS_CHARSET@.contains(#[trigger] pwd[i])
        } else {
            -1
        };
        let u = if form.wants_uppercase() {
            choose|i: int| 0 <= i < pwd.len() && U_LETTERS_CHARSET@.contains(#[trigger] pwd[i])
        } else {
            -2
        };
        let d = if form.wants_digit() {
            choose|i: int| 0 <= i < pwd.len() && NUMBERS_CHARSET@.contains(#[trigger] pwd[i])
        } else {
            -3
        };
        let s = if form.wants_symbol() {
            choose|i: int| 0 <= i < pwd.len() && SPEC_SYMB_CHARSET@.contains(#[trigger] pwd[i])
        } else {
            -4
        };
        if l >= 0 {
            lemma_classes_are_disjoint(pwd[l]);
        }
        if u >= 0 {
            lemma_classes_are_disjoint(pwd[u]);
        }
        if d >= 0 {
            lemma_classes_are_disjoint(pwd[d]);
        }
        assert(l != u && l != d && l != s && u != d && u != s && d != s);
    }
}

/// A character of a concatenation is a character of one of its parts.
proof fn lemma_concat_contains(a: Seq<char>, b: Seq<char>, c: char)
    ensures
        (a + b).contains(c) <==> a.contains(c) || b.contains(c),
{
    if a.contains(c) {
        let k = choose|k: int| 0 <= k < a.len() && a[k] == c;
        assert((a + b)[k] == c);
    }
    if b.contains(c) {
        let k = choose|k: int| 0 <= k < b.len() && b[k] == c;
        assert((a + b)[a.len() + k] == c);
    }
    if (a + b).contains(c) {
        let k = choose|k: int| 0 <= k < (a + b).len() && (a + b)[k] == c;
        if k < a.len() {
            assert(a[k] == c);
        } else {
            assert(b[k - a.len()] == c);
        }
    }
}

/// Which characters the alphabet holds: those of the parts it is put
/// together from.
pub proof fn lemma_alphabet_members(form: GeneratorView, c: char)
    ensures
        form.alphabet().contains(c) <==> if form.convenience_criterion {
            CONVENIENT_LETTERS_CHARSET@.contains(c) || CONVENIENT_NUMBERS_CHARSET@.contains(c)
                || SIMP_SYMB_CHARSET@.contains(c)
        } else {
            (form.letters && LETTERS_CHARSET@.contains(c)) || (form.u_letters
                && U_LETTERS_CHARSET@.contains(c)) || (form.numbs && NUMBERS_CHARSET@.contains(c))
                || (form.spec_symbs && SPEC_SYMB_CHARSET@.contains(c))
        },
{
    if form.convenience_criterion {
        let letters = CONVENIENT_LETTERS_CHARSET@;
        let numbers = CONVENIENT_NUMBERS_CHARSET@;
        lemma_concat_contains(letters, numbers, c);
        lemma_concat_contains(letters + numbers, SIMP_SYMB_CHARSET@, c);
    } else {
        let lower = class_part(form.letters, LETTERS_CHARSET@);
        let upper = class_part(form.u_letters, U_LETTERS_CHARSET@);
        let digits = class_part(form.numbs, NUMBERS_CHARSET@);
        let symbols = class_part(form.spec_symbs, SPEC_SYMB_CHARSET@);
        lemma_concat_contains(lower, upper, c);
        lemma_concat_contains(lower + upper, digits, c);
        lemma_concat_contains(lower + upper + digits, symbols, c);
    }
}

/// One character of each class that is asked for, in the order of the
/// classes.
spec fn one_of_each(form: GeneratorView) -> Seq<char> {
    class_part(form.letters, seq!['a']) + class_part(form.u_letters, seq!['A']) + class_part(
        form.numbs,
        seq!['0'],
    ) + class_part(form.spec_symbs, seq![')'])
}

/// A password of `n` characters that complies, where there is one.
spec fn exemplar(form: GeneratorView, n: nat) -> Seq<char> {
    if form.convenience_criterion {
        Seq::new(
            n,
            |i: int|
                if i == 0 {
                    'A'
                } else if i == n - 1 {
                    '*'
                } else if i == 1 {
                    'a'
                } else {
                    '2'
                },
        )
    } else {
        Seq::new(
            n,
            |i: int|
                if i < one_of_each(form).len() {
                    one_of_each(form)[i]
                } else {
                    one_of_each(form)[0]
                },
        )
    }
}

/// Where there is something to draw from, and the password is long enough
/// to hold a character of every class that it must hold one of, some
/// candidate complies: the search for one is not in vain.
pub proof fn lemma_long_enough_can_comply(form: GeneratorView, n: nat)
    requires
        form.alphabet().len() > 0,
        n >= form.required_classes(),
    ensures
        exists|pwd: Seq<char>| form.is_candidate(n, pwd) && form.complies(pwd),
{
    let pwd = exemplar(form, n);
    lemma_class_members();
    lemma_empty_alphabet(form);
    assert forall|i: int| 0 <= i < n implies form.pool(n, i).contains(#[trigger] pwd[i]) by {
        lemma_alphabet_members(form, pwd[i]);
    }
    if form.convenience_criterion {
        assert(pwd[0] == 'A' && pwd[1] == 'a' && pwd[2] == '2' && pwd[n - 1] == '*');
    } else {
        let each = one_of_each(form);
        assert(each.len() == form.required_classes());
        if form.letters {
            assert(pwd[0] == 'a');
        }
        if form.u_letters {
            let k = class_part(form.letters, seq!['a']).len() as int;
            assert(pwd[k] == 'A');
        }
        if form.numbs {
            let k = (class_part(form.letters, seq!['a']) + class_part(
                form.u_letters,
                seq!['A'],
            )).len() as int;
            assert(pwd[k] == '0');
        }
        if form.spec_symbs {
            let k = each.len() - 1;
            assert(pwd[k] == ')');
        }
    }
    assert(form.is_candidate(n, pwd) && form.complies(pwd));
}

/// The form is turned down as unsatisfiable before any drawing exactly
/// when no candidate of the length asked for complies.
pub proof fn lemma_unsatisfiable_is_exact(form: GeneratorView)
    requires
        form.length().is_some(),
        form.alphabet().len() > 0,
    ensures
        form.refusal() == Some(GenError::UnsatisfiableConstraint) <==> forall|pwd: Seq<char>|
            form.is_candidate(form.length().unwrap() as nat, pwd) ==> !form.complies(pwd),
{
    let n = form.length().unwrap() as nat;
    if n < form.required_classes() {
        assert forall|pwd: Seq<char>| form.is_candidate(n, pwd) implies !form.complies(pwd) by {
            lemma_too_short_never_complies(form, pwd);
        }
    } else {
        lemma_long_enough_can_comply(form, n);
    }
}

/// With the preset on, a candidate of two characters or more begins with a
/// letter and ends with one of the symbols that are easy to type, so it
/// holds a symbol.
pub proof fn lemma_preset_shapes_candidate(form: GeneratorView, n: nat, pwd: Seq<char>)
    requires
        form.convenience_criterion,
        n >= 2,
        form.is_candidate(n, pwd),
    ensures
        CONVENIENT_LETTERS_CHARSET@.contains(pwd[0]),
        LETTERS_CHARSET@.contains(pwd[0]) || U_LETTERS_CHARSET@.contains(pwd[0]),
        SIMP_SYMB_CHARSET@.contains(pwd[n - 1]),
        has_any_of(pwd, SPEC_SYMB_CHARSET@),
{
    assert(form.pool(n, 0).contains(pwd[0]));
    assert(form.pool(n, n - 1).contains(pwd[n - 1]));
    lemma_preset_within_classes(pwd[0]);
    lemma_preset_within_classes(pwd[n - 1]);
}

/// With the preset off, a candidate holds no character of a class that is
/// not asked for.
pub proof fn lemma_candidate_keeps_to_classes(form: GeneratorView, n: nat, pwd: Seq<char>)
    requires
        !form.convenience_criterion,
        form.is_candidate(n, pwd),
    ensures
        !form.letters ==> !has_any_of(pwd, LETTERS_CHARSET@),
        !form.u_letters ==> !has_any_of(pwd, U_LETTERS_CHARSET@),
        !form.numbs ==> !has_any_of(pwd, NUMBERS_CHARSET@),
        !form.spec_symbs ==> !has_any_of(pwd, SPEC_SYMB_CHARSET@),
{
    assert forall|i: int| 0 <= i < pwd.len() implies {
        &&& !form.letters ==> !LETTERS_CHARSET@.contains(#[trigger] pwd[i])
        &&& !form.u_letters ==> !U_LETTERS_CHARSET@.contains(pwd[i])
        &&& !form.numbs ==> !NUMBERS_CHARSET@.contains(pwd[i])
        &&& !form.spec_symbs ==> !SPEC_SYMB_CHARSET@.contains(pwd[i])
    } by {
        assert(form.pool(n, i).contains(pwd[i]));
        lemma_alphabet_members(form, pwd[i]);
        lemma_classes_are_disjoint(pwd[i]);
    }
}

/// Every candidate can be drawn: some draws that fit select it.
pub proof fn lemma_candidates_can_be_drawn(form: GeneratorView, n: nat, pwd: Seq<char>)
    requires
        form.is_candidate(n, pwd),
    ensures
        exists|draws: Seq<usize>| form.draws_fit(n, draws) && form.candidate(n, draws) == pwd,
{
    reveal_strlit("abcdefghijklmnopqrstuvwxyz");
    reveal_strlit("ABCDEFGHIJKLMNOPQRSTUVWXYZ");
    reveal_strlit("0123456789");
    reveal_strlit(")([]{}*&^%$#@!~");
    reveal_strlit("*&%$#@!");
    reveal_strlit("ABCDEFGHJKMNPQRSTUVWXYZabcdefghjkmnpqrstuvwxyz");
    reveal_strlit("23456789");
    let place = |i: int| choose|k: int| 0 <= k < form.pool(n, i).len() && form.pool(n, i)[k] == pwd[i];
    let draws = Seq::new(n, |i: int| place(i) as usize);
    assert forall|i: int| 0 <= i < n implies (#[trigger] draws[i]) < form.pool(n, i).len()
        && form.pool(n, i)[draws[i] as int] == pwd[i] by {
        assert(form.pool(n, i).contains(pwd[i]));
        assert(form.pool(n, i).len() <= 77);
    }
    assert(form.candidate(n, draws) =~= pwd);
}

/// Chance has no say in whether a password is generated exactly when the
/// preset is off and one class alone is asked for: then every candidate
/// complies, and otherwise some candidate does not.
pub proof fn lemma_one_class_always_complies(form: GeneratorView)
    requires
        form.refusal().is_none(),
    ensures
        form.every_candidate_complies() <==> !form.convenience_criterion
            && form.required_classes() == 1,
{
    let n = form.length().unwrap() as nat;
    lemma_class_members();
    lemma_empty_alphabet(form);
    if !form.convenience_criterion && form.required_classes() == 1 {
        assert forall|pwd: Seq<char>| #[trigger] form.is_candidate(n, pwd) implies form.complies(
            pwd,
        ) by {
            assert(form.pool(n, 0).contains(pwd[0]));
            lemma_alphabet_members(form, pwd[0]);
        }
    } else {
        let pwd = if form.convenience_criterion {
            Seq::new(
                n,
                |i: int|
                    if i == n - 1 {
                        '*'
                    } else {
                        'A'
                    },
            )
        } else {
            Seq::new(n, |i: int| one_of_each(form)[0])
        };
        assert forall|i: int| 0 <= i < n implies form.pool(n, i).contains(#[trigger] pwd[i]) by {
            lemma_alphabet_members(form, pwd[i]);
        }
        assert(form.is_candidate(n, pwd));
        if form.convenience_criterion {
            assert forall|i: int| 0 <= i < n implies !LETTERS_CHARSET@.contains(
                #[trigger] pwd[i],
            ) by {}
            assert(!has_any_of(pwd, LETTERS_CHARSET@));
        } else {
            let c = one_of_each(form)[0];
            lemma_classes_are_disjoint(c);
            assert forall|i: int| 0 <= i < n implies pwd[i] == c by {}
            if form.letters {
                assert(c == 'a');
                assert forall|i: int| 0 <= i < n implies !U_LETTERS_CHARSET@.contains(
                    #[trigger] pwd[i],
                ) && !NUMBERS_CHARSET@.contains(pwd[i]) && !SPEC_SYMB_CHARSET@.contains(pwd[i]) by {}
            } else if form.u_letters {
                assert(c == 'A');
                assert forall|i: int| 0 <= i < n implies !NUMBERS_CHARSET@.contains(
                    #[trigger] pwd[i],
                ) && !SPEC_SYMB_CHARSET@.contains(pwd[i]) by {}
            } else {
                assert(c == '0');
                assert forall|i: int| 0 <= i < n implies !SPEC_SYMB_CHARSET@.contains(
                    #[trigger] pwd[i],
                ) by {}
            }
        }
        assert(!form.complies(pwd));
    }
}

} // verus!
