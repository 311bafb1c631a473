//! The fields of the form, and the order in which the focus visits them.

use vstd::prelude::*;
use vstd::string::*;
use crate::text::same_text;

verus! {

/// A field of the form: the password length, or one of the rules.
#[derive(Clone, Copy, Debug, PartialEq, Eq, Structural)]
pub enum Field {
    /// The text field that holds the password length.
    PwdLen,
    /// Lowercase letters.
    Letters,
    /// Uppercase letters.
    ULetters,
    /// Digits.
    Numbs,
    /// Symbols.
    SpecSymbs,
    /// The preset for passwords that are strong and easy to read and type.
    ConvenienceCriterion,
}

impl Field {
    /// The fields in the order in which the focus visits them.
    pub open spec fn circuit() -> Seq<Field> {
        seq![
            Field::PwdLen,
            Field::Letters,
            Field::ULetters,
            Field::Numbs,
            Field::SpecSymbs,
            Field::ConvenienceCriterion,
        ]
    }

    /// The place of the field in the circuit, counted from 0.
    pub open spec fn place(self) -> int {
        match self {
            Field::PwdLen => 0,
            Field::Letters => 1,
            Field::ULetters => 2,
            Field::Numbs => 3,
            Field::SpecSymbs => 4,
            Field::ConvenienceCriterion => 5,
        }
    }

    /// The field that the focus moves to going forward: the next one of the
    /// circuit, and the first one after the last.
    pub open spec fn following(self) -> Field {
        Self::circuit()[(self.place() + 1) % 6]
    }

    /// The field that the focus moves to going backward: the one before in
    /// the circuit, and the last one before the first.
    pub open spec fn preceding(self) -> Field {
        Self::circuit()[(self.place() + 5) % 6]
    }

    /// The name by which the field is known to callers.
    pub open spec fn spec_name(self) -> Seq<char> {
        match self {
            Field::PwdLen => "pwd_len"@,
            Field::Letters => "letters"@,
            Field::ULetters => "u_letters"@,
            Field::Numbs => "numbs"@,
            Field::SpecSymbs => "spec_symbs"@,
            Field::ConvenienceCriterion => "convenience_criterion"@,
        }
    }

    /// The field that goes by `name`, if there is one.
    pub open spec fn named(name: Seq<char>) -> Option<Field> {
        if name == Field::PwdLen.spec_name() {
            Some(Field::PwdLen)
        } else if name == Field::Letters.spec_name() {
            Some(Field::Letters)
        } else if name == Field::ULetters.spec_name() {
            Some(Field::ULetters)
        } else if name == Field::Numbs.spec_name() {
            Some(Field::Numbs)
        } else if name == Field::SpecSymbs.spec_name() {
            Some(Field::SpecSymbs)
        } else if name == Field::ConvenienceCriterion.spec_name() {
            Some(Field::ConvenienceCriterion)
        } else {
            None
        }
    }

    /// The field after this one in the circuit.
    pub fn next(self) -> (r: Field)
        ensures
            r == self.following(),
    {
        match self {
            Field::PwdLen => Field::Letters,
            Field::Letters => Field::ULetters,
            Field::ULetters => Field::Numbs,
            Field::Numbs => Field::SpecSymbs,
            Field::SpecSymbs => Field::ConvenienceCriterion,
            Field::ConvenienceCriterion => Field::PwdLen,
        }
    }

    /// The field before this one in the circuit.
    pub fn previous(self) -> (r: Field)
        ensures
            r == self.preceding(),
    {
        match self {
            Field::PwdLen => Field::ConvenienceCriterion,
            Field::Letters => Field::PwdLen,
            Field::ULetters => Field::Letters,
            Field::Numbs => Field::ULetters,
            Field::SpecSymbs => Field::Numbs,
            Field::ConvenienceCriterion => Field::SpecSymbs,
        }
    }

    /// The name of the field.
    pub fn name(self) -> (r: &'static str)
        ensures
            r@ == self.spec_name(),
    {
        match self {
            Field::PwdLen => "pwd_len",
            Field::Letters => "letters",
            Field::ULetters => "u_letters",
            Field::Numbs => "numbs",
            Field::SpecSymbs => "spec_symbs",
            Field::ConvenienceCriterion => "convenience_criterion",
        }
    }

    /// Finds the field that goes by `name`.
    pub fn from_name(name: &str) -> (r: Option<Field>)
        ensures
            r == Field::named(name@),
    {
        if same_text(name, "pwd_len") {
            Some(Field::PwdLen)
        } else if same_text(name, "letters") {
            Some(Field::Letters)
        } else if same_text(name, "u_letters") {
            Some(Field::ULetters)
        } else if same_text(name, "numbs") {
            Some(Field::Numbs)
        } else if same_text(name, "spec_symbs") {
            Some(Field::SpecSymbs)
        } else if same_text(name, "convenience_criterion") {
            Some(Field::ConvenienceCriterion)
        } else {
            None
        }
    }
}

/// The steps round the circuit, one by one.
proof fn lemma_steps(field: Field)
    ensures
        field.following() == match field {
            Field::PwdLen => Field::Letters,
            Field::Letters => Field::ULetters,
            Field::ULetters => Field::Numbs,
            Field::Numbs => Field::SpecSymbs,
            Field::SpecSymbs => Field::ConvenienceCriterion,
            Field::ConvenienceCriterion => Field::PwdLen,
        },
        field.preceding() == match field {
            Field::PwdLen => Field::ConvenienceCriterion,
            Field::Letters => Field::PwdLen,
            Field::ULetters => Field::Letters,
            Field::Numbs => Field::ULetters,
            Field::SpecSymbs => Field::Numbs,
            Field::ConvenienceCriterion => Field::SpecSymbs,
        },
{
}

/// Going forward and then backward, or backward and then forward, ends on
/// the field where it began.
pub proof fn lemma_forward_and_backward_cancel(field: Field)
    ensures
        field.following().preceding() == field,
        field.preceding().following() == field,
{
    lemma_steps(field);
    lemma_steps(field.following());
    lemma_steps(field.preceding());
}

/// Every field has its place in the circuit, and six steps in one direction
/// go once round it.
pub proof fn lemma_circuit_is_closed(field: Field)
    ensures
        0 <= field.place() < Field::circuit().len(),
        Field::circuit()[field.place()] == field,
        field.following().following().following().following().following().following() == field,
        field.preceding().preceding().preceding().preceding().preceding().preceding() == field,
{
    lemma_steps(Field::PwdLen);
    lemma_steps(Field::Letters);
    lemma_steps(Field::ULetters);
    lemma_steps(Field::Numbs);
    lemma_steps(Field::SpecSymbs);
    lemma_steps(Field::ConvenienceCriterion);
}

/// No two fields share a name: a field is found again by its name.
pub proof fn lemma_names_identify_fields(field: Field)
    ensures
        Field::named(field.spec_name()) == Some(field),
{
    reveal_strlit("pwd_len");
    reveal_strlit("letters");
    reveal_strlit("u_letters");
    reveal_strlit("numbs");
    reveal_strlit("spec_symbs");
    reveal_strlit("convenience_criterion");
    assert("pwd_len"@[0] == 'p');
    assert("letters"@[0] == 'l');
    assert("u_letters"@[0] == 'u');
    assert("numbs"@[0] == 'n');
    assert("spec_symbs"@[0] == 's');
    assert("convenience_criterion"@[0] == 'c');
}

} // verus!
