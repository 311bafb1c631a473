//! The state of the password form: the rules, the text of the length field
//! with its cursor, the field that has the focus, and the last password.

use vstd::prelude::*;
use vstd::string::*;
use crate::charset::drawn_from;
use crate::error::{ClipboardFailure, GenError};
use crate::field::Field;
use crate::text::{clamped, inserted, removed, same_text, with_char_inserted, with_char_removed};

verus! {

/// The form as the user edits it.
pub struct Generator {
    /// Lowercase letters are asked for.
    pub letters: bool,
    /// Uppercase letters are asked for.
    pub u_letters: bool,
    /// Digits are asked for.
    pub numbs: bool,
    /// Symbols are asked for.
    pub spec_symbs: bool,
    /// The preset for strong and convenient passwords is on. While it is,
    /// the four rules above have no say in what is generated.
    pub convenience_criterion: bool,
    /// Where the cursor stands in `pwd_len`, counted in characters.
    pub cursor_position: usize,
    /// The field that has the focus.
    pub rules_position: Field,
    /// The text of the length field.
    pub pwd_len: String,
    /// The shortest password that is accepted.
    pub min_pwd_len: u32,
    /// The longest password that is accepted.
    pub max_pwd_len: u32,
    /// The last password generated; empty before the first one.
    pub pwd: String,
    /// The language of the interface: `en` or `ru`.
    pub lang: String,
    /// The last failure to reach the clipboard, in English and in Russian;
    /// both empty while there was none.
    pub errors: (String, String),
}

/// What a `Generator` holds, as mathematics: texts are sequences of
/// characters and the cursor is a natural number.
pub struct GeneratorView {
    pub letters: bool,
    pub u_letters: bool,
    pub numbs: bool,
    pub spec_symbs: bool,
    pub convenience_criterion: bool,
    pub cursor_position: nat,
    pub rules_position: Field,
    pub pwd_len: Seq<char>,
    pub min_pwd_len: u32,
    pub max_pwd_len: u32,
    pub pwd: Seq<char>,
    pub lang: Seq<char>,
    pub errors: (Seq<char>, Seq<char>),
}

impl View for Generator {
    type V = GeneratorView;

    open spec fn view(&self) -> GeneratorView {
        GeneratorView {
            letters: self.letters,
            u_letters: self.u_letters,
            numbs: self.numbs,
            spec_symbs: self.spec_symbs,
            convenience_criterion: self.convenience_criterion,
            cursor_position: self.cursor_position as nat,
            rules_position: self.rules_position,
            pwd_len: self.pwd_len@,
            min_pwd_len: self.min_pwd_len,
            max_pwd_len: self.max_pwd_len,
            pwd: self.pwd@,
            lang: self.lang@,
            errors: (self.errors.0@, self.errors.1@),
        }
    }
}

impl GeneratorView {
    /// The form as it is when the program starts: symbols and the preset
    /// are on, the length reads `8` with the cursor behind it, the focus is
    /// on the length, and there is no password yet.
    pub open spec fn initial() -> GeneratorView {
        GeneratorView {
            letters: false,
            u_letters: false,
            numbs: false,
            spec_symbs: true,
            convenience_criterion: true,
            cursor_position: 1,
            rules_position: Field::PwdLen,
            pwd_len: seq!['8'],
            min_pwd_len: 4,
            max_pwd_len: 10000,
            pwd: Seq::empty(),
            lang: seq!['e', 'n'],
            errors: (Seq::empty(), Seq::empty()),
        }
    }

    /// The cursor stands inside the text of the length field, or at its
    /// end.
    pub open spec fn wf(self) -> bool {
        self.cursor_position <= self.pwd_len.len()
    }

    /// Whether the rule behind `field` is on. The length field is no rule
    /// and counts as on.
    pub open spec fn rule_state(self, field: Field) -> bool {
        match field {
            Field::PwdLen => true,
            Field::Letters => self.letters,
            Field::ULetters => self.u_letters,
            Field::Numbs => self.numbs,
            Field::SpecSymbs => self.spec_symbs,
            Field::ConvenienceCriterion => self.convenience_criterion,
        }
    }

    /// The form with the rule behind `field` set to `state`. The length
    /// field is no rule: for it the form stays as it is.
    pub open spec fn with_rule_state(self, field: Field, state: bool) -> GeneratorView {
        match field {
            Field::PwdLen => self,
            Field::Letters => GeneratorView { letters: state, ..self },
            Field::ULetters => GeneratorView { u_letters: state, ..self },
            Field::Numbs => GeneratorView { numbs: state, ..self },
            Field::SpecSymbs => GeneratorView { spec_symbs: state, ..self },
            Field::ConvenienceCriterion => GeneratorView { convenience_criterion: state, ..self },
        }
    }

    /// The form with the rule behind `field` flipped.
    pub open spec fn toggled(self, field: Field) -> GeneratorView {
        self.with_rule_state(field, !self.rule_state(field))
    }

    /// The form with the other language: Russian after English, English
    /// after anything else.
    pub open spec fn lang_switched(self) -> GeneratorView {
        GeneratorView {
            lang: if self.lang == seq!['e', 'n'] {
                seq!['r', 'u']
            } else {
                seq!['e', 'n']
            },
            ..self
        }
    }

    /// The form with the cursor at `position`, or at the end of the text
    /// if `position` lies behind it.
    pub open spec fn with_cursor(self, position: nat) -> GeneratorView {
        GeneratorView { cursor_position: clamped(position, self.pwd_len.len()), ..self }
    }

    /// The form with the cursor one character to the left, if it was not
    /// at the start of the text.
    pub open spec fn cursor_moved_left(self) -> GeneratorView {
        self.with_cursor(
            if self.cursor_position == 0 {
                0
            } else {
                (self.cursor_position - 1) as nat
            },
        )
    }

    /// The form with the cursor one character to the right, if it was not
    /// at the end of the text.
    pub open spec fn cursor_moved_right(self) -> GeneratorView {
        self.with_cursor(self.cursor_position + 1)
    }

    /// The form after the character `c` was typed. A blank flips the rule
    /// that has the focus, and does nothing while the length field has it.
    /// Any other character goes into the length text at the cursor, and the
    /// cursor moves behind it.
    pub open spec fn char_entered(self, c: char) -> GeneratorView {
        if c == ' ' {
            self.toggled(self.rules_position)
        } else {
            GeneratorView {
                pwd_len: inserted(self.pwd_len, self.cursor_position, c),
                cursor_position: clamped(self.cursor_position, self.pwd_len.len()) + 1,
                ..self
            }
        }
    }

    /// The form after the character before the cursor was deleted: the
    /// cursor moves left with it. With the cursor at the start nothing
    /// changes.
    pub open spec fn char_backspaced(self) -> GeneratorView {
        if self.cursor_position == 0 {
            self
        } else {
            GeneratorView {
                pwd_len: removed(self.pwd_len, (self.cursor_position - 1) as nat),
                ..self
            }.cursor_moved_left()
        }
    }

    /// The form after the character at the cursor was deleted: the cursor
    /// stays. With the cursor at the end nothing changes.
    pub open spec fn char_deleted(self) -> GeneratorView {
        GeneratorView { pwd_len: removed(self.pwd_len, self.cursor_position), ..self }
    }

    /// The form after a length that is not valid was turned down: the
    /// length reads `8` again with the cursor behind it, and the focus is
    /// on the length field. The rules and the last password stay.
    pub open spec fn length_reset(self) -> GeneratorView {
        GeneratorView {
            cursor_position: 1,
            rules_position: Field::PwdLen,
            pwd_len: seq!['8'],
            ..self
        }
    }

    /// The form with `pwd` as its last password.
    pub open spec fn with_password(self, pwd: Seq<char>) -> GeneratorView {
        GeneratorView { pwd, ..self }
    }

    /// Whether taking this form in can end with `outcome` and leave the
    /// form as `after`.
    ///
    /// Where `refusal` names an error, that error is the outcome. Where it
    /// names none, a password is generated, or the search for one is given
    /// up as unsatisfiable; it is not given up where every candidate
    /// complies. A password that was generated is the last
    /// password of `after`: it has the length asked for, each character
    /// from the pool of its place, and a character of every class that it
    /// must hold one of. A length that is not valid resets the length
    /// field. Any other error leaves the form as it was.
    pub open spec fn submitted(self, outcome: Result<(), GenError>, after: GeneratorView) -> bool {
        &&& self.refusal() matches Some(e) ==> outcome == Err::<(), GenError>(e)
        &&& self.refusal().is_none() ==> outcome.is_ok() || outcome == Err::<(), GenError>(
            GenError::UnsatisfiableConstraint,
        )
        &&& self.refusal().is_none() && self.every_candidate_complies() ==> outcome.is_ok()
        &&& match outcome {
            Ok(_) => {
                &&& self.length() matches Some(n)
                &&& after == self.with_password(after.pwd)
                &&& self.is_candidate(n as nat, after.pwd)
                &&& drawn_from(after.pwd, self.alphabet())
                &&& self.complies(after.pwd)
            },
            Err(GenError::InvalidLength) => after == self.length_reset(),
            Err(_) => after == self,
        }
    }

    /// The form after the clipboard failed: it holds what the user is told
    /// of the failure. The last password stays.
    pub open spec fn clipboard_failed(self, failure: ClipboardFailure) -> GeneratorView {
        GeneratorView { errors: failure.spec_messages(), ..self }
    }

    /// The form with the focus on the next field of the circuit.
    pub open spec fn focus_forward(self) -> GeneratorView {
        GeneratorView { rules_position: self.rules_position.following(), ..self }
    }

    /// The form with the focus on the previous field of the circuit.
    pub open spec fn focus_backward(self) -> GeneratorView {
        GeneratorView { rules_position: self.rules_position.preceding(), ..self }
    }
}

impl Generator {
    /// The form as it is when the program starts.
    pub fn default() -> (r: Generator)
        ensures
            r@ == GeneratorView::initial(),
            r@.wf(),
    {
        proof {
            reveal_strlit("8");
            reveal_strlit("en");
        }
        let r = Generator {
            letters: false,
            u_letters: false,
            numbs: false,
            spec_symbs: true,
            convenience_criterion: true,
            cursor_position: 1,
            rules_position: Field::PwdLen,
            pwd_len: String::from_str("8"),
            min_pwd_len: 4,
            max_pwd_len: 10000,
            pwd: String::new(),
            lang: String::from_str("en"),
            errors: (String::new(), String::new()),
        };
        assert(r.pwd_len@ =~= seq!['8']);
        assert(r.lang@ =~= seq!['e', 'n']);
        r
    }

    /// Whether the rule that goes by `rule_name` is on. A name that names no
    /// rule is answered with `true`.
    pub fn get_rule_state(&self, rule_name: &str) -> (r: bool)
        ensures
            r == match Field::named(rule_name@) {
                Some(field) => self@.rule_state(field),
                None => true,
            },
    {
        match Field::from_name(rule_name) {
            Some(field) => self.rule_state(field),
            None => true,
        }
    }

    /// Sets the rule that goes by `rule_name`. A name that names no rule
    /// changes nothing.
    pub fn set_rule_state(&mut self, rule_name: &str, new_val: bool)
        ensures
            final(self)@ == match Field::named(rule_name@) {
                Some(field) => old(self)@.with_rule_state(field, new_val),
                None => old(self)@,
            },
    {
        match Field::from_name(rule_name) {
            Some(field) => self.set_rule(field, new_val),
            None => {},
        }
    }

    /// Whether the rule behind `field` is on.
    pub fn rule_state(&self, field: Field) -> (r: bool)
        ensures
            r == self@.rule_state(field),
    {
        match field {
            Field::PwdLen => true,
            Field::Letters => self.letters,
            Field::ULetters => self.u_letters,
            Field::Numbs => self.numbs,
            Field::SpecSymbs => self.spec_symbs,
            Field::ConvenienceCriterion => self.convenience_criterion,
        }
    }

    /// Sets the rule behind `field`.
    pub fn set_rule(&mut self, field: Field, state: bool)
        ensures
            final(self)@ == old(self)@.with_rule_state(field, state),
    {
        match field {
            Field::PwdLen => {},
            Field::Letters => {
                self.letters = state;
            },
            Field::ULetters => {
                self.u_letters = state;
            },
            Field::Numbs => {
                self.numbs = state;
            },
            Field::SpecSymbs => {
                self.spec_symbs = state;
            },
            Field::ConvenienceCriterion => {
                self.convenience_criterion = state;
            },
        }
    }

    /// Flips the rule behind `field`; the length field is left alone.
    pub fn toggle_field(&mut self, field: Field)
        ensures
            final(self)@ == old(self)@.toggled(field),
    {
        let state = self.rule_state(field);
        self.set_rule(field, !state);
    }

    /// Switches the interface between English and Russian.
    pub fn switch_lang(&mut self)
        ensures
            final(self)@ == old(self)@.lang_switched(),
    {
        proof {
            reveal_strlit("en");
            reveal_strlit("ru");
            assert("en"@ =~= seq!['e', 'n']);
            assert("ru"@ =~= seq!['r', 'u']);
        }
        if same_text(self.lang.as_str(), "en") {
            self.lang = String::from_str("ru");
        } else {
            self.lang = String::from_str("en");
        }
    }

    /// Moves the cursor one character to the left.
    pub fn move_cursor_left(&mut self)
        ensures
            final(self)@ == old(self)@.cursor_moved_left(),
            final(self)@.wf(),
    {
        let cursor_moved_left = self.cursor_position.saturating_sub(1);
        self.cursor_position = self.clamp_cursor(cursor_moved_left);
    }

    /// Moves the cursor one character to the right.
    pub fn move_cursor_right(&mut self)
        ensures
            final(self)@ == old(self)@.cursor_moved_right(),
            final(self)@.wf(),
    {
        let end = self.pwd_len.as_str().unicode_len();
        if self.cursor_position < end {
            self.cursor_position += 1;
        } else {
            self.cursor_position = end;
        }
    }

    /// Takes the character `new_char` from the keyboard: a blank flips the
    /// rule that has the focus, any other character is put into the length
    /// text at the cursor.
    pub fn enter_char(&mut self, new_char: char)
        ensures
            final(self)@ == old(self)@.char_entered(new_char),
            old(self)@.wf() ==> final(self)@.wf(),
            new_char != ' ' && old(self)@.wf() ==> {
                &&& final(self)@.cursor_position == old(self)@.cursor_position + 1
                &&& final(self)@.pwd_len.len() == old(self)@.pwd_len.len() + 1
            },
    {
        if new_char == ' ' {
            self.toggle_field(self.rules_position);
        } else {
            self.cursor_position = self.clamp_cursor(self.cursor_position);
            self.pwd_len = with_char_inserted(self.pwd_len.as_str(), self.cursor_position, new_char);
            self.move_cursor_right();
        }
    }

    /// Deletes the character before the cursor.
    pub fn backspace_char(&mut self)
        ensures
            final(self)@ == old(self)@.char_backspaced(),
            old(self)@.wf() ==> final(self)@.wf(),
            final(self)@.cursor_position <= old(self)@.cursor_position,
    {
        let is_not_cursor_leftmost = self.cursor_position != 0;
        if is_not_cursor_leftmost {
            let current_index = self.cursor_position;
            self.pwd_len = with_char_removed(self.pwd_len.as_str(), current_index - 1);
            self.move_cursor_left();
        }
    }

    /// Deletes the character at the cursor.
    pub fn delete_char(&mut self)
        ensures
            final(self)@ == old(self)@.char_deleted(),
            old(self)@.wf() ==> final(self)@.wf(),
    {
        self.pwd_len = with_char_removed(self.pwd_len.as_str(), self.cursor_position);
    }

    /// The cursor position nearest to `new_cursor_pos` that the length text
    /// has.
    pub fn clamp_cursor(&self, new_cursor_pos: usize) -> (r: usize)
        ensures
            r == clamped(new_cursor_pos as nat, self@.pwd_len.len()),
    {
        let end = self.pwd_len.as_str().unicode_len();
        if new_cursor_pos > end {
            end
        } else {
            new_cursor_pos
        }
    }

    /// Puts the cursor at the start of the length text.
    pub fn reset_cursor(&mut self)
        ensures
            final(self)@ == old(self)@.with_cursor(0),
            final(self)@.wf(),
    {
        self.cursor_position = 0;
    }

    /// Puts the cursor at the end of the length text.
    pub fn cursor_to_end(&mut self)
        ensures
            final(self)@ == old(self)@.with_cursor(old(self)@.pwd_len.len()),
            final(self)@.wf(),
    {
        self.cursor_position = self.pwd_len.as_str().unicode_len();
    }

    /// Takes the form in: generates a password for it and keeps it as the
    /// last password. Where the length is not valid, the length field is
    /// reset instead; where nothing can be generated for another reason,
    /// the form stays as it is. The last password changes only when a new
    /// one was generated.
    pub fn submit_to_pwd(&mut self) -> (r: Result<(), GenError>)
        ensures
            old(self)@.submitted(r, final(self)@),
            old(self)@.wf() ==> final(self)@.wf(),
    {
        match self.generate() {
            Ok(pwd) => {
                self.pwd = pwd;
                Ok(())
            },
            Err(GenError::InvalidLength) => {
                proof {
                    reveal_strlit("8");
                }
                self.cursor_position = 1;
                self.rules_position = Field::PwdLen;
                self.pwd_len = String::from_str("8");
                assert(self.pwd_len@ =~= seq!['8']);
                Err(GenError::InvalidLength)
            },
            Err(e) => Err(e),
        }
    }

    /// Takes note that handing the last password to the clipboard failed.
    pub fn clipboard_failed(&mut self, failure: ClipboardFailure)
        ensures
            final(self)@ == old(self)@.clipboard_failed(failure),
            final(self)@.pwd == old(self)@.pwd,
    {
        self.errors = failure.messages();
    }

    /// Moves the focus to the next field; from the last one to the first.
    pub fn circ_cursor(&mut self)
        ensures
            final(self)@ == old(self)@.focus_forward(),
    {
        self.rules_position = self.rules_position.next();
    }

    /// Moves the focus to the previous field; from the first one to the
    /// last.
    pub fn up_cursor(&mut self)
        ensures
            final(self)@ == old(self)@.focus_backward(),
    {
        self.rules_position = self.rules_position.previous();
    }
}

} // verus!
