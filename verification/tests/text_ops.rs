use passgen::text::{chars_of, same_text, string_of, with_char_inserted, with_char_removed};

#[test]
fn chars_and_back() {
    assert_eq!(chars_of("aé1"), vec!['a', 'é', '1']);
    assert_eq!(chars_of(""), Vec::<char>::new());
    assert_eq!(string_of(&vec!['a', 'é', '1']), "aé1");
    assert_eq!(string_of(&Vec::new()), "");
    assert_eq!(string_of(&chars_of("пароль")), "пароль");
}

#[test]
fn same_text_compares_characters() {
    assert!(same_text("", ""));
    assert!(same_text("en", "en"));
    assert!(!same_text("en", "ru"));
    assert!(!same_text("en", "e"));
    assert!(!same_text("e", "en"));
    assert!(!same_text("en", "eN"));
    assert!(same_text("é", "é"));
    assert!(!same_text("é", "e"));
}

#[test]
fn insertion_by_character_position() {
    assert_eq!(with_char_inserted("abc", 0, 'x'), "xabc");
    assert_eq!(with_char_inserted("abc", 1, 'x'), "axbc");
    assert_eq!(with_char_inserted("abc", 3, 'x'), "abcx");
    assert_eq!(with_char_inserted("abc", 4, 'x'), "abcx");
    assert_eq!(with_char_inserted("", 0, 'x'), "x");
    assert_eq!(with_char_inserted("éé", 1, 'x'), "éxé");
    assert_eq!(with_char_inserted("ab", 1, 'é'), "aéb");
}

#[test]
fn removal_by_character_position() {
    assert_eq!(with_char_removed("abc", 0), "bc");
    assert_eq!(with_char_removed("abc", 1), "ac");
    assert_eq!(with_char_removed("abc", 2), "ab");
    assert_eq!(with_char_removed("abc", 3), "abc");
    assert_eq!(with_char_removed("abc", usize::MAX), "abc");
    assert_eq!(with_char_removed("", 0), "");
    assert_eq!(with_char_removed("aéb", 1), "ab");
    assert_eq!(with_char_removed("aéb", 2), "aé");
}
