use miditoqwerty::keycodes::{
    all_key_releases, Key, KeyError, KeyEvent, KeypressType, NamedKey, UniversalKeyCode,
};

#[test]
fn resolves_plain_character() {
    let k = Key::new("1");
    assert_eq!(k.code, 2);
    assert!(!k.shifted);
}

#[test]
fn resolves_shifted_symbol_to_base_key() {
    let k = Key::new("!");
    assert_eq!(k.code, 2);
    assert!(k.shifted);
    let upper = Key::new("A");
    assert_eq!(upper.code, 30);
    assert!(upper.shifted);
}

#[test]
fn resolves_long_names() {
    assert_eq!(Key::new("shift").code, 42);
    assert_eq!(Key::new("space").code, 57);
    assert_eq!(Key::new("leftalt").code, 56);
    assert_eq!(Key::new("leftctrl").code, 29);
    assert_eq!(Key::new("kpasterisk").code, 55);
    assert_eq!(Key::new("kpplus").code, 78);
    assert!(!Key::new("shift").shifted);
}

#[test]
fn unknown_name_is_an_error() {
    assert_eq!(Key::resolve("comma"), Err(KeyError::UnknownKey));
    assert_eq!(Key::resolve(""), Err(KeyError::UnknownKey));
    assert_eq!(Key::resolve(","), Err(KeyError::UnknownKey));
    assert_eq!(Key::resolve("kp"), Err(KeyError::UnknownKey));
    assert_eq!(Key::resolve("m").map(|k| k.code), Ok(50));
}

#[test]
fn table_lookup_does_not_substitute_shift() {
    assert_eq!(UniversalKeyCode::get("A"), None);
    assert_eq!(UniversalKeyCode::get("a"), Some(30));
    assert_eq!(UniversalKeyCode::get("kp0"), Some(82));
    assert_eq!(UniversalKeyCode::get_mac("space"), Some(0x31));
    assert_eq!(UniversalKeyCode::get_mac("q"), Some(0x0c));
    assert_eq!(UniversalKeyCode::get("nothing"), None);
}

#[test]
fn named_key_lookup() {
    assert_eq!(NamedKey::from_name("grave"), Some(NamedKey::Grave));
    assert_eq!(NamedKey::from_name("Grave"), None);
    assert_eq!(Key::named(NamedKey::Semicolon).code, 39);
}

#[test]
fn key_equality_goes_by_code() {
    assert_eq!(Key { code: 2, shifted: true }, Key { code: 2, shifted: false });
    assert_ne!(Key { code: 2, shifted: false }, Key { code: 3, shifted: false });
}

#[test]
fn event_code_and_direction_values() {
    let k = Key::new("z");
    assert_eq!(KeyEvent::Press(k).code(), 44);
    assert_eq!(KeyEvent::Release(k).code(), 44);
    assert_eq!(KeypressType::Release.value(), 0);
    assert_eq!(KeypressType::Press.value(), 1);
    assert_eq!(KeypressType::Repeat.value(), 2);
}

#[test]
fn release_all_covers_the_table() {
    let all = all_key_releases();
    assert_eq!(all.len(), 58);
    assert!(all.iter().all(|e| matches!(e, KeyEvent::Release(_))));
    for code in [2u16, 11, 14, 29, 42, 50, 55, 56, 57, 71, 82] {
        assert!(all.iter().any(|e| e.code() == code));
    }
}
