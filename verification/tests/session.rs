use passgen::error::{ClipboardFailure, GenError};
use passgen::field::Field;
use passgen::generator::Generator;
use passgen::keys::{Action, Key};

#[test]
fn submitting_stores_the_password() {
    let mut form = Generator::default();
    assert_eq!(form.submit_to_pwd(), Ok(()));
    assert_eq!(form.pwd.chars().count(), 8);
    assert!(form.is_valid_pwd_by_consist(form.pwd.clone()));
    assert_eq!(form.pwd_len, "8");
    assert_eq!(form.cursor_position, 1);
    assert_eq!(form.rules_position, Field::PwdLen);
    assert_eq!(form.lang, "en");
    assert_eq!(form.errors, (String::new(), String::new()));
    assert!(form.convenience_criterion);
}

#[test]
fn submitting_again_replaces_the_password() {
    let mut form = Generator::default();
    form.pwd_len = "40".to_string();
    assert_eq!(form.submit_to_pwd(), Ok(()));
    let first = form.pwd.clone();
    assert_eq!(form.submit_to_pwd(), Ok(()));
    assert_eq!(form.pwd.len(), 40);
    assert_ne!(form.pwd, first);
}

#[test]
fn an_invalid_length_resets_the_length_field() {
    let mut form = Generator::default();
    form.pwd = "kept".to_string();
    form.pwd_len = "12x".to_string();
    form.cursor_position = 3;
    form.rules_position = Field::Numbs;
    form.numbs = true;
    form.lang = "ru".to_string();
    assert_eq!(form.submit_to_pwd(), Err(GenError::InvalidLength));
    assert_eq!(form.pwd, "kept");
    assert_eq!(form.pwd_len, "8");
    assert_eq!(form.cursor_position, 1);
    assert_eq!(form.rules_position, Field::PwdLen);
    assert!(form.numbs);
    assert_eq!(form.lang, "ru");
}

#[test]
fn a_length_out_of_range_resets_the_length_field() {
    for text in ["3", "10001", "0", ""] {
        let mut form = Generator::default();
        form.pwd = "kept".to_string();
        form.pwd_len = text.to_string();
        form.cursor_position = 0;
        assert_eq!(form.submit_to_pwd(), Err(GenError::InvalidLength));
        assert_eq!(form.pwd, "kept");
        assert_eq!(form.pwd_len, "8");
        assert_eq!(form.cursor_position, 1);
    }
}

#[test]
fn an_empty_alphabet_leaves_the_form() {
    let mut form = Generator::default();
    form.spec_symbs = false;
    form.convenience_criterion = false;
    form.pwd = "kept".to_string();
    form.pwd_len = "12".to_string();
    form.cursor_position = 2;
    form.rules_position = Field::SpecSymbs;
    assert_eq!(form.submit_to_pwd(), Err(GenError::EmptyAlphabet));
    assert_eq!(form.pwd, "kept");
    assert_eq!(form.pwd_len, "12");
    assert_eq!(form.cursor_position, 2);
    assert_eq!(form.rules_position, Field::SpecSymbs);
}

#[test]
fn an_unsatisfiable_form_is_left_as_it_is() {
    let mut form = Generator::default();
    form.min_pwd_len = 1;
    form.pwd_len = "2".to_string();
    form.pwd = "kept".to_string();
    assert_eq!(form.submit_to_pwd(), Err(GenError::UnsatisfiableConstraint));
    assert_eq!(form.pwd, "kept");
    assert_eq!(form.pwd_len, "2");
    assert_eq!(form.cursor_position, 1);
}

#[test]
fn a_clipboard_failure_is_noted() {
    let mut form = Generator::default();
    form.pwd = "kept".to_string();
    form.clipboard_failed(ClipboardFailure::CopyFailed);
    assert_eq!(form.pwd, "kept");
    assert_eq!(form.errors.0, "Copy to clipboard error!");
    assert_eq!(form.errors.1, "Ошибка копирования в буфер обмена!");
    assert_eq!(form.pwd_len, "8");
    assert_eq!(form.cursor_position, 1);
}

#[test]
fn each_clipboard_failure_has_its_messages() {
    assert_eq!(
        ClipboardFailure::PipeFailed.messages(),
        (
            "echo error by copy to clipbord!".to_string(),
            "При вставке в буфер обмена произошла ошибка echo!".to_string()
        )
    );
    assert_eq!(
        ClipboardFailure::ToolMissing.messages(),
        (
            "'xclip' packet needed for copy to clipbord!".to_string(),
            "Для вставки в буфер обмена установите пакет 'xclip'!".to_string()
        )
    );
    assert_eq!(
        ClipboardFailure::ToolFailed.messages(),
        ("Failed to run xclip!".to_string(), "Failed to run xclip!".to_string())
    );
    assert_eq!(
        ClipboardFailure::CopyFailed.messages(),
        (
            "Copy to clipboard error!".to_string(),
            "Ошибка копирования в буфер обмена!".to_string()
        )
    );
}

#[test]
fn a_noted_failure_stays_until_the_next_one() {
    let mut form = Generator::default();
    form.clipboard_failed(ClipboardFailure::ToolMissing);
    assert_eq!(form.submit_to_pwd(), Ok(()));
    assert_eq!(form.errors.0, "'xclip' packet needed for copy to clipbord!");
    form.clipboard_failed(ClipboardFailure::ToolFailed);
    assert_eq!(form.errors.0, "Failed to run xclip!");
    assert_eq!(form.pwd.chars().count(), 8);
}

#[test]
fn escape_asks_to_quit() {
    let mut form = Generator::default();
    assert_eq!(form.handle_key(Key::Esc), Action::Quit);
    assert_eq!(form.pwd_len, "8");
    assert_eq!(form.cursor_position, 1);
    assert_eq!(form.pwd, "");
}

#[test]
fn enter_generates_and_asks_to_copy() {
    let mut form = Generator::default();
    assert_eq!(form.handle_key(Key::Enter), Action::CopyPassword);
    assert_eq!(form.pwd.chars().count(), 8);
}

#[test]
fn enter_reports_why_there_is_no_password() {
    let mut form = Generator::default();
    form.pwd_len = "1".to_string();
    assert_eq!(form.handle_key(Key::Enter), Action::Report(GenError::InvalidLength));
    assert_eq!(form.pwd_len, "8");
    assert_eq!(form.pwd, "");
    form.convenience_criterion = false;
    form.spec_symbs = false;
    assert_eq!(form.handle_key(Key::Enter), Action::Report(GenError::EmptyAlphabet));
    form.min_pwd_len = 1;
    form.pwd_len = "1".to_string();
    form.letters = true;
    form.numbs = true;
    assert_eq!(form.handle_key(Key::Enter), Action::Report(GenError::UnsatisfiableConstraint));
    assert_eq!(form.pwd, "");
}

#[test]
fn f9_switches_the_language() {
    let mut form = Generator::default();
    assert_eq!(form.handle_key(Key::F(9)), Action::Continue);
    assert_eq!(form.lang, "ru");
    assert_eq!(form.handle_key(Key::F(1)), Action::Continue);
    assert_eq!(form.lang, "ru");
    assert_eq!(form.handle_key(Key::F(9)), Action::Continue);
    assert_eq!(form.lang, "en");
}

#[test]
fn editing_keys_edit_the_length() {
    let mut form = Generator::default();
    assert_eq!(form.handle_key(Key::Char('1')), Action::Continue);
    assert_eq!(form.pwd_len, "81");
    assert_eq!(form.handle_key(Key::Home), Action::Continue);
    assert_eq!(form.cursor_position, 0);
    assert_eq!(form.handle_key(Key::Delete), Action::Continue);
    assert_eq!(form.pwd_len, "1");
    assert_eq!(form.handle_key(Key::End), Action::Continue);
    assert_eq!(form.cursor_position, 1);
    assert_eq!(form.handle_key(Key::Char('6')), Action::Continue);
    assert_eq!(form.pwd_len, "16");
    assert_eq!(form.handle_key(Key::Left), Action::Continue);
    assert_eq!(form.cursor_position, 1);
    assert_eq!(form.handle_key(Key::Backspace), Action::Continue);
    assert_eq!(form.pwd_len, "6");
    assert_eq!(form.cursor_position, 0);
    assert_eq!(form.handle_key(Key::Right), Action::Continue);
    assert_eq!(form.cursor_position, 1);
    assert_eq!(form.handle_key(Key::Enter), Action::CopyPassword);
    assert_eq!(form.pwd.chars().count(), 6);
}

#[test]
fn focus_keys_move_the_focus() {
    let mut form = Generator::default();
    assert_eq!(form.handle_key(Key::Tab), Action::Continue);
    assert_eq!(form.rules_position, Field::Letters);
    assert_eq!(form.handle_key(Key::Down), Action::Continue);
    assert_eq!(form.rules_position, Field::ULetters);
    assert_eq!(form.handle_key(Key::Up), Action::Continue);
    assert_eq!(form.rules_position, Field::Letters);
    assert_eq!(form.handle_key(Key::Char(' ')), Action::Continue);
    assert!(form.letters);
    assert_eq!(form.pwd_len, "8");
}

#[test]
fn other_keys_do_nothing() {
    let mut form = Generator::default();
    assert_eq!(form.handle_key(Key::Other), Action::Continue);
    assert_eq!(form.pwd_len, "8");
    assert_eq!(form.cursor_position, 1);
    assert_eq!(form.rules_position, Field::PwdLen);
    assert_eq!(form.lang, "en");
    assert_eq!(form.pwd, "");
}

#[test]
fn a_session_from_start_to_password() {
    let mut form = Generator::default();
    for key in [Key::Down, Key::Down, Key::Down, Key::Char(' '), Key::Down, Key::Char(' '), Key::Down, Key::Char(' ')] {
        assert_eq!(form.handle_key(key), Action::Continue);
    }
    assert!(form.numbs);
    assert!(!form.spec_symbs);
    assert!(!form.convenience_criterion);
    for key in [Key::Tab, Key::Backspace, Key::Char('1'), Key::Char('2')] {
        assert_eq!(form.handle_key(key), Action::Continue);
    }
    assert_eq!(form.rules_position, Field::PwdLen);
    assert_eq!(form.pwd_len, "12");
    assert_eq!(form.handle_key(Key::Enter), Action::CopyPassword);
    assert_eq!(form.pwd.len(), 12);
    assert!(form.pwd.chars().all(|c| c.is_ascii_digit()));
}

#[test]
fn one_class_alone_always_gives_a_password() {
    let mut form = Generator::default();
    form.convenience_criterion = false;
    form.spec_symbs = false;
    form.numbs = true;
    form.pwd_len = "5".to_string();
    for _ in 0..200 {
        assert_eq!(form.submit_to_pwd(), Ok(()));
        assert_eq!(form.pwd.len(), 5);
        assert!(form.pwd.chars().all(|c| c.is_ascii_digit()));
        assert_eq!(form.handle_key(Key::Enter), Action::CopyPassword);
        assert_eq!(form.pwd.len(), 5);
    }
}
