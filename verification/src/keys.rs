//! The keyboard as the form sees it: which key does what.

use vstd::prelude::*;
use crate::error::GenError;
use crate::generator::{Generator, GeneratorView};

verus! {

/// A key that was pressed.
#[derive(Clone, Copy, Debug, PartialEq, Eq, Structural)]
pub enum Key {
    Esc,
    /// A function key, by its number.
    F(u8),
    Enter,
    Backspace,
    Delete,
    Left,
    Right,
    Home,
    End,
    Tab,
    Up,
    Down,
    /// A key that types a character.
    Char(char),
    /// Any key that the form has no use for.
    Other,
}

/// What is left to do, outside the form, after a key was taken.
#[derive(Clone, Copy, Debug, PartialEq, Eq, Structural)]
pub enum Action {
    /// Nothing but to show the form again.
    Continue,
    /// A new password was generated: hand it to the clipboard.
    CopyPassword,
    /// No password was generated: tell the user why.
    Report(GenError),
    /// Leave the program.
    Quit,
}

impl GeneratorView {
    /// The form after `key` was pressed, for every key but `Enter`, whose
    /// outcome is not a matter of the form alone.
    pub open spec fn key_pressed(self, key: Key) -> GeneratorView {
        match key {
            Key::F(n) => if n == 9 {
                self.lang_switched()
            } else {
                self
            },
            Key::Backspace => self.char_backspaced(),
            Key::Delete => self.char_deleted(),
            Key::Left => self.cursor_moved_left(),
            Key::Right => self.cursor_moved_right(),
            Key::Home => self.with_cursor(0),
            Key::End => self.with_cursor(self.pwd_len.len()),
            Key::Tab => self.focus_forward(),
            Key::Down => self.focus_forward(),
            Key::Up => self.focus_backward(),
            Key::Char(c) => self.char_entered(c),
            Key::Esc => self,
            Key::Enter => self,
            Key::Other => self,
        }
    }
}

impl Generator {
    /// Takes a key: changes the form as the key asks, and says what is left
    /// to do outside the form.
    ///
    /// `Esc` asks to leave. `Enter` takes the form in, and a new password
    /// is to be copied, or the reason why there is none is to be reported.
    /// Every other key only changes the form.
    pub fn handle_key(&mut self, key: Key) -> (action: Action)
        ensures
            match key {
                Key::Esc => action == Action::Quit && final(self)@ == old(self)@,
                Key::Enter => match action {
                    Action::CopyPassword => old(self)@.submitted(Ok(()), final(self)@),
                    Action::Report(e) => old(self)@.submitted(Err(e), final(self)@),
                    _ => false,
                },
                _ => action == Action::Continue && final(self)@ == old(self)@.key_pressed(key),
            },
            old(self)@.wf() ==> final(self)@.wf(),
    {
        match key {
            Key::Esc => {
                return Action::Quit;
            },
            Key::Enter => {
                return match self.submit_to_pwd() {
                    Ok(_) => Action::CopyPassword,
                    Err(e) => Action::Report(e),
                };
            },
            Key::F(n) => {
                if n == 9 {
                    self.switch_lang();
                }
            },
            Key::Backspace => {
                self.backspace_char();
            },
            Key::Delete => {
                self.delete_char();
            },
            Key::Left => {
                self.move_cursor_left();
            },
            Key::Right => {
                self.move_cursor_right();
            },
            Key::Home => {
                self.reset_cursor();
            },
            Key::End => {
                self.cursor_to_end();
            },
            Key::Tab => {
                self.circ_cursor();
            },
            Key::Up => {
                self.up_cursor();
            },
            Key::Down => {
                self.circ_cursor();
            },
            Key::Char(to_insert) => {
                self.enter_char(to_insert);
            },
            Key::Other => {},
        }
        Action::Continue
    }
}

} // verus!
