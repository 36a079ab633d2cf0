use screenocr::hotkey::parse_hotkey;
use screenocr::hotkey::Hotkey;
use screenocr::hotkey::HotkeyError;
use screenocr::hotkey::KeyCode;
use screenocr::hotkey::Modifiers;

#[test]
fn test_parse_combination() {
    let hotkey = parse_hotkey("Ctrl+Shift+A").unwrap();
    assert!(hotkey.mods.ctrl);
    assert!(hotkey.mods.shift);
}

#[test]
fn test_parse_invalid() {
    let result = parse_hotkey("InvalidKey");
    assert!(result.is_err());
}

#[test]
fn lone_modifier_names_no_key() {
    assert_eq!(parse_hotkey("Alt"), Err(HotkeyError::MissingKey));
}

#[test]
fn combination_is_read_in_full() {
    let expected = Hotkey {
        mods: Modifiers { ctrl: true, alt: false, shift: true, meta: false },
        key: KeyCode::KeyA,
    };
    assert_eq!(parse_hotkey("Ctrl+Shift+A"), Ok(expected));
}

#[test]
fn case_and_spacing_are_forgiven() {
    let expected = Hotkey {
        mods: Modifiers { ctrl: true, alt: false, shift: false, meta: false },
        key: KeyCode::KeyA,
    };
    assert_eq!(parse_hotkey(" ctrl + a "), Ok(expected));
    assert_eq!(parse_hotkey("CONTROL+A"), Ok(expected));
}

#[test]
fn bare_key_needs_no_modifier() {
    let hotkey = parse_hotkey("F10").unwrap();
    assert_eq!(hotkey.key, KeyCode::F10);
    assert_eq!(hotkey.mods, Modifiers { ctrl: false, alt: false, shift: false, meta: false });
}

#[test]
fn synonyms_name_the_same_keys() {
    let win = parse_hotkey("Win+Space").unwrap();
    let cmd = parse_hotkey("Cmd+Space").unwrap();
    let sup = parse_hotkey("Super+Space").unwrap();
    assert_eq!(win, cmd);
    assert_eq!(cmd, sup);
    assert!(win.mods.meta);
    assert_eq!(win.key, KeyCode::Space);
    assert_eq!(parse_hotkey("Esc"), parse_hotkey("Escape"));
}

#[test]
fn last_key_named_wins() {
    let hotkey = parse_hotkey("A+B").unwrap();
    assert_eq!(hotkey.key, KeyCode::KeyB);
}

#[test]
fn empty_parts_are_errors() {
    assert_eq!(parse_hotkey(""), Err(HotkeyError::UnsupportedKey));
    assert_eq!(parse_hotkey("Ctrl++A"), Err(HotkeyError::UnsupportedKey));
}

#[test]
fn digits_and_special_keys_parse() {
    assert_eq!(parse_hotkey("Alt+3").unwrap().key, KeyCode::Digit3);
    assert_eq!(parse_hotkey("Shift+Enter").unwrap().key, KeyCode::Enter);
    assert_eq!(parse_hotkey("Ctrl+Backspace").unwrap().key, KeyCode::Backspace);
    assert_eq!(parse_hotkey("Tab").unwrap().key, KeyCode::Tab);
}
