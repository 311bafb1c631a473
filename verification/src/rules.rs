//! The form in its plain variant: three classes and one preset, without a
//! choice of language.

use vstd::prelude::*;
use vstd::string::*;
use crate::text::{clamped, inserted, removed, same_text, with_char_inserted, with_char_removed};

verus! {

/// A field of the plain form: the password length, or one of its rules.
#[derive(Clone, Copy, Debug, PartialEq, Eq, Structural)]
pub enum RulesField {
    /// The text field that holds the password length.
    PwdLen,
    /// Letters and digits that cannot be mistaken for one another.
    LetNumDrcFree,
    /// Letters.
    Letters,
    /// Digits.
    Numbs,
    /// Symbols.
    SpecSymbs,
}

impl RulesField {
    /// The fields in the order in which the focus visits them.
    pub open spec fn circuit() -> Seq<RulesField> {
        seq![
            RulesField::PwdLen,
            RulesField::LetNumDrcFree,
            RulesField::Letters,
            RulesField::Numbs,
            RulesField::SpecSymbs,
        ]
    }

    /// The place of the field in the circuit, counted from 0.
    pub open spec fn place(self) -> int {
        match self {
            RulesField::PwdLen => 0,
            RulesField::LetNumDrcFree => 1,
            RulesField::Letters => 2,
            RulesField::Numbs => 3,
            RulesField::SpecSymbs => 4,
        }
    }

    /// The next field of the circuit, and the first one after the last.
    pub open spec fn following(self) -> RulesField {
        Self::circuit()[(self.place() + 1) % 5]
    }

    /// The field before in the circuit, and the last one before the first.
    pub open spec fn preceding(self) -> RulesField {
        Self::circuit()[(self.place() + 4) % 5]
    }

    /// The name by which the field is known to callers.
    pub open spec fn spec_name(self) -> Seq<char> {
        match self {
            RulesField::PwdLen => "pwd_len"@,
            RulesField::LetNumDrcFree => "let_num_drc_free"@,
            RulesField::Letters => "letters"@,
            RulesField::Numbs => "numbs"@,
            RulesField::SpecSymbs => "spec_symbs"@,
        }
    }

    /// The field that goes by `name`, if there is one.
    pub open spec fn named(name: Seq<char>) -> Option<RulesField> {
        if name == RulesField::PwdLen.spec_name() {
            Some(RulesField::PwdLen)
        } else if name == RulesField::LetNumDrcFree.spec_name() {
            Some(RulesField::LetNumDrcFree)
        } else if name == RulesField::Letters.spec_name() {
            Some(RulesField::Letters)
        } else if name == RulesField::Numbs.spec_name() {
            Some(RulesField::Numbs)
        } else if name == RulesField::SpecSymbs.spec_name() {
            Some(RulesField::SpecSymbs)
        } else {
            None
        }
    }

    /// The field after this one in the circuit.
    pub fn next(self) -> (r: RulesField)
        ensures
            r == self.following(),
    {
        match self {
            RulesField::PwdLen => RulesField::LetNumDrcFree,
            RulesField::LetNumDrcFree => RulesField::Letters,
            RulesField::Letters => RulesField::Numbs,
            RulesField::Numbs => RulesField::SpecSymbs,
            RulesField::SpecSymbs => RulesField::PwdLen,
        }
    }

    /// The field before this one in the circuit.
    pub fn previous(self) -> (r: RulesField)
        ensures
            r == self.preceding(),
    {
        match self {
            RulesField::PwdLen => RulesField::SpecSymbs,
            RulesField::LetNumDrcFree => RulesField::PwdLen,
            RulesField::Letters => RulesField::LetNumDrcFree,
            RulesField::Numbs => RulesField::Letters,
            RulesField::SpecSymbs => RulesField::Numbs,
        }
    }

    /// The name of the field.
    pub fn name(self) -> (r: &'static str)
        ensures
            r@ == self.spec_name(),
    {
        match self {
            RulesField::PwdLen => "pwd_len",
            RulesField::LetNumDrcFree => "let_num_drc_free",
            RulesField::Letters => "letters",
            RulesField::Numbs => "numbs",
            RulesField::SpecSymbs => "spec_symbs",
        }
    }

    /// Finds the field that goes by `name`.
    pub fn from_name(name: &str) -> (r: Option<RulesField>)
        ensures
            r == RulesField::named(name@),
    {
        if same_text(name, "pwd_len") {
            Some(RulesField::PwdLen)
        } else if same_text(name, "let_num_drc_free") {
            Some(RulesField::LetNumDrcFree)
        } else if same_text(name, "letters") {
            Some(RulesField::Letters)
        } else if same_text(name, "numbs") {
            Some(RulesField::Numbs)
        } else if same_text(name, "spec_symbs") {
            Some(RulesField::SpecSymbs)
        } else {
            None
        }
    }
}

/// The plain form as the user edits it.
pub struct Rules {
    /// Letters are asked for.
    pub letters: bool,
    /// Digits are asked for.
    pub numbs: bool,
    /// Symbols are asked for.
    pub spec_symbs: bool,
    /// Letters and digits that cannot be mistaken are asked for.
    pub let_num_drc_free: bool,
    /// Where the cursor stands in `pass_len`, counted in characters.
    pub cursor_position: usize,
    /// The field that has the focus.
    pub field_position: RulesField,
    /// The text of the length field.
    pub pass_len: String,
    /// The last password; empty before the first one.
    pub pwd: String,
}

/// What a `Rules` holds, as mathematics.
pub struct RulesView {
    pub letters: bool,
    pub numbs: bool,
    pub spec_symbs: bool,
    pub let_num_drc_free: bool,
    pub cursor_position: nat,
    pub field_position: RulesField,
    pub pass_len: Seq<char>,
    pub pwd: Seq<char>,
}

impl View for Rules {
    type V = RulesView;

    open spec fn view(&self) -> RulesView {
        RulesView {
            letters: self.letters,
            numbs: self.numbs,
            spec_symbs: self.spec_symbs,
            let_num_drc_free: self.let_num_drc_free,
            cursor_position: self.cursor_position as nat,
            field_position: self.field_position,
            pass_len: self.pass_len@,
            pwd: self.pwd@,
        }
    }
}

impl RulesView {
    /// The form as it is when the program starts.
    pub open spec fn initial() -> RulesView {
        RulesView {
            letters: false,
            numbs: false,
            spec_symbs: true,
            let_num_drc_free: true,
            cursor_position: 1,
            field_position: RulesField::PwdLen,
            pass_len: seq!['8'],
            pwd: Seq::empty(),
        }
    }

    /// The cursor stands inside the text of the length field, or at its
    /// end.
    pub open spec fn wf(self) -> bool {
        self.cursor_position <= self.pass_len.len()
    }

    /// Whether the rule behind `field` is on. The length field is no rule
    /// and counts as on.
    pub open spec fn rule_state(self, field: RulesField) -> bool {
        match field {
            RulesField::PwdLen => true,
            RulesField::LetNumDrcFree => self.let_num_drc_free,
            RulesField::Letters => self.letters,
            RulesField::Numbs => self.numbs,
            RulesField::SpecSymbs => self.spec_symbs,
        }
    }

    /// The form with the rule behind `field` set to `state`. The length
    /// field is no rule: for it the form stays as it is.
    pub open spec fn with_rule_state(self, field: RulesField, state: bool) -> RulesView {
        match field {
            RulesField::PwdLen => self,
            RulesField::LetNumDrcFree => RulesView { let_num_drc_free: state, ..self },
            RulesField::Letters => RulesView { letters: state, ..self },
            RulesField::Numbs => RulesView { numbs: state, ..self },
            RulesField::SpecSymbs => RulesView { spec_symbs: state, ..self },
        }
    }

    /// The form with the cursor at `position`, or at the end of the text
    /// if `position` lies behind it.
    pub open spec fn with_cursor(self, position: nat) -> RulesView {
        RulesView { cursor_position: clamped(position, self.pass_len.len()), ..self }
    }

    /// The form with the cursor one character to the left, if it was not
    /// at the start of the text.
    pub open spec fn cursor_moved_left(self) -> RulesView {
        self.with_cursor(
            if self.cursor_position == 0 {
                0
            } else {
                (self.cursor_position - 1) as nat
            },
        )
    }

    /// The form with the cursor one character to the right, if it was not
    /// at the end of the text.
    pub open spec fn cursor_moved_right(self) -> RulesView {
        self.with_cursor(self.cursor_position + 1)
    }

    /// The form after the character `c` was typed. A blank flips the rule
    /// that has the focus, and does nothing while the length field has it.
    /// Any other character goes into the length text at the cursor, and the
    /// cursor moves behind it.
    pub open spec fn char_entered(self, c: char) -> RulesView {
        if c == ' ' {
            self.with_rule_state(self.field_position, !self.rule_state(self.field_position))
        } else {
            RulesView {
                pass_len: inserted(self.pass_len, self.cursor_position, c),
                cursor_position: clamped(self.cursor_position, self.pass_len.len()) + 1,
                ..self
            }
        }
    }

    /// The form after the character before the cursor was deleted: the
    /// cursor moves left with it. With the cursor at the start nothing
    /// changes.
    pub open spec fn char_deleted(self) -> RulesView {
        if self.cursor_position == 0 {
            self
        } else {
            RulesView {
                pass_len: removed(self.pass_len, (self.cursor_position - 1) as nat),
                ..self
            }.cursor_moved_left()
        }
    }
}

impl Rules {
    /// The form as it is when the program starts.
    pub fn default() -> (r: Rules)
        ensures
            r@ == RulesView::initial(),
            r@.wf(),
    {
        proof {
            reveal_strlit("8");
        }
        let r = Rules {
            letters: false,
            numbs: false,
            spec_symbs: true,
            let_num_drc_free: true,
            cursor_position: 1,
            field_position: RulesField::PwdLen,
            pass_len: String::from_str("8"),
            pwd: String::new(),
        };
        assert(r.pass_len@ =~= seq!['8']);
        r
    }

    /// Whether the rule that goes by `field_string` is on. A name that
    /// names no rule is answered with `true`.
    pub fn get(&self, field_string: &str) -> (r: bool)
        ensures
            r == match RulesField::named(field_string@) {
                Some(field) => self@.rule_state(field),
                None => true,
            },
    {
        match RulesField::from_name(field_string) {
            Some(RulesField::LetNumDrcFree) => self.let_num_drc_free,
            Some(RulesField::Letters) => self.letters,
            Some(RulesField::Numbs) => self.numbs,
            Some(RulesField::SpecSymbs) => self.spec_symbs,
            _ => true,
        }
    }

    /// Sets the rule that goes by `field_string`. A name that names no rule
    /// changes nothing.
    pub fn set(&mut self, field_string: &str, new_val: bool)
        ensures
            final(self)@ == match RulesField::named(field_string@) {
                Some(field) => old(self)@.with_rule_state(field, new_val),
                None => old(self)@,
            },
    {
        match RulesField::from_name(field_string) {
            Some(RulesField::LetNumDrcFree) => {
                self.let_num_drc_free = new_val;
            },
            Some(RulesField::Letters) => {
                self.letters = new_val;
            },
            Some(RulesField::Numbs) => {
                self.numbs = new_val;
            },
            Some(RulesField::SpecSymbs) => {
                self.spec_symbs = new_val;
            },
            _ => {},
        }
    }

    /// Moves the cursor one character to the left.
    pub fn move_cursor_left(&mut self)
        ensures
            final(self)@ == old(self)@.cursor_moved_left(),
            final(self)@.wf(),
    {
        let cursor_moved_left = self.cursor_position.saturating_sub(1);
        self.cursor_position = self.clamp_cursor(cursor_moved_left);
    }

    /// Moves the cursor one character to the right.
    pub fn move_cursor_right(&mut self)
        ensures
            final(self)@ == old(self)@.cursor_moved_right(),
            final(self)@.wf(),
    {
        let end = self.pass_len.as_str().unicode_len();
        if self.cursor_position < end {
            self.cursor_position += 1;
        } else {
            self.cursor_position = end;
        }
    }

    /// Takes the character `new_char` from the keyboard: a blank flips the
    /// rule that has the focus, any other character is put into the length
    /// text at the cursor.
    pub fn enter_char(&mut self, new_char: char)
        ensures
            final(self)@ == old(self)@.char_entered(new_char),
            old(self)@.wf() ==> final(self)@.wf(),
            new_char != ' ' && old(self)@.wf() ==> {
                &&& final(self)@.cursor_position == old(self)@.cursor_position + 1
                &&& final(self)@.pass_len.len() == old(self)@.pass_len.len() + 1
            },
    {
        if new_char == ' ' {
            match self.field_position {
                RulesField::PwdLen => {},
                RulesField::LetNumDrcFree => {
                    self.let_num_drc_free = !self.let_num_drc_free;
                },
                RulesField::Letters => {
                    self.letters = !self.letters;
                },
                RulesField::Numbs => {
                    self.numbs = !self.numbs;
                },
                RulesField::SpecSymbs => {
                    self.spec_symbs = !self.spec_symbs;
                },
            }
        } else {
            self.cursor_position = self.clamp_cursor(self.cursor_position);
            self.pass_len =
            with_char_inserted(self.pass_len.as_str(), self.cursor_position, new_char);
            self.move_cursor_right();
        }
    }

    /// Deletes the character before the cursor.
    pub fn delete_char(&mut self)
        ensures
            final(self)@ == old(self)@.char_deleted(),
            old(self)@.wf() ==> final(self)@.wf(),
            final(self)@.cursor_position <= old(self)@.cursor_position,
    {
        let is_not_cursor_leftmost = self.cursor_position != 0;
        if is_not_cursor_leftmost {
            let current_index = self.cursor_position;
            let from_left_to_current_index = current_index - 1;
            self.pass_len = with_char_removed(self.pass_len.as_str(), from_left_to_current_index);
            self.move_cursor_left();
        }
    }

    /// The cursor position nearest to `new_cursor_pos` that the length text
    /// has.
    pub fn clamp_cursor(&self, new_cursor_pos: usize) -> (r: usize)
        ensures
            r == clamped(new_cursor_pos as nat, self@.pass_len.len()),
    {
        let end = self.pass_len.as_str().unicode_len();
        if new_cursor_pos > end {
            end
        } else {
            new_cursor_pos
        }
    }

    /// Puts the cursor at the start of the length text.
    pub fn reset_cursor(&mut self)
        ensures
            final(self)@ == old(self)@.with_cursor(0),
            final(self)@.wf(),
    {
        self.cursor_position = 0;
    }

    /// Puts the cursor at the end of the length text.
    pub fn cursor_to_end(&mut self)
        ensures
            final(self)@ == old(self)@.with_cursor(old(self)@.pass_len.len()),
            final(self)@.wf(),
    {
        self.cursor_position = self.pass_len.as_str().unicode_len();
    }

    /// Moves the focus to the next field; from the last one to the first.
    pub fn circ_cursor(&mut self)
        ensures
            final(self)@ == (RulesView {
                field_position: old(self)@.field_position.following(),
                ..old(self)@
            }),
    {
        self.field_position = self.field_position.next();
    }

    /// Moves the focus to the previous field; from the first one to the
    /// last.
    pub fn up_cursor(&mut self)
        ensures
            final(self)@ == (RulesView {
                field_position: old(self)@.field_position.preceding(),
                ..old(self)@
            }),
    {
        self.field_position = self.field_position.previous();
    }
}

} // verus!
