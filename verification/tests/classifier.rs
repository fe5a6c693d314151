use snippet_expander::keys::{classify_key, key_to_char, KeyAction, KeyId};

#[test]
fn key_to_char_maps_letters_digits_and_symbols() {
    assert_eq!(key_to_char(KeyId::KeyA), Some('a'));
    assert_eq!(key_to_char(KeyId::KeyB), Some('b'));
    assert_eq!(key_to_char(KeyId::KeyZ), Some('z'));
    assert_eq!(key_to_char(KeyId::Num0), Some('0'));
    assert_eq!(key_to_char(KeyId::Num9), Some('9'));
    assert_eq!(key_to_char(KeyId::Minus), Some('-'));
    assert_eq!(key_to_char(KeyId::Equal), Some('='));
}

#[test]
fn key_to_char_gives_none_for_non_character_keys() {
    assert_eq!(key_to_char(KeyId::Space), None);
    assert_eq!(key_to_char(KeyId::Return), None);
    assert_eq!(key_to_char(KeyId::Tab), None);
    assert_eq!(key_to_char(KeyId::Backspace), None);
    assert_eq!(key_to_char(KeyId::Other), None);
}

#[test]
fn classify_word_boundary_keys() {
    assert_eq!(classify_key(KeyId::Space), KeyAction::WordBoundary);
    assert_eq!(classify_key(KeyId::Return), KeyAction::WordBoundary);
    assert_eq!(classify_key(KeyId::Tab), KeyAction::WordBoundary);
}

#[test]
fn classify_backspace_erases_last() {
    assert_eq!(classify_key(KeyId::Backspace), KeyAction::EraseLast);
}

#[test]
fn classify_character_keys() {
    assert_eq!(classify_key(KeyId::KeyB), KeyAction::Character('b'));
    assert_eq!(classify_key(KeyId::Num5), KeyAction::Character('5'));
    assert_eq!(classify_key(KeyId::Minus), KeyAction::Character('-'));
}

#[test]
fn classify_other_keys_are_ignored() {
    assert_eq!(classify_key(KeyId::Other), KeyAction::Ignore);
}
