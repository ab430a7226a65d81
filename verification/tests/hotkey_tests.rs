use ait::hotkey::{Hotkey, KeyCode, Modifiers};

#[test]
fn parses_default_hotkey() {
    let hotkey = "Ctrl+Alt+E".parse::<Hotkey>().unwrap();

    assert_eq!(
        hotkey.modifiers,
        Modifiers {
            ctrl: true,
            alt: true,
            shift: false,
            win: false
        }
    );
    assert_eq!(hotkey.key, KeyCode::Char('E'));
}

#[test]
fn rejects_shortcut_without_non_modifier_key() {
    let err = "Ctrl+Alt".parse::<Hotkey>().unwrap_err().display_string();
    assert!(err.contains("必须包含一个普通按键"));
}

#[test]
fn normalizes_display_text() {
    let hotkey = " shift + ctrl + k ".parse::<Hotkey>().unwrap();

    assert_eq!(hotkey.display_string(), "Ctrl+Shift+K");
}

#[test]
fn parses_numeric_hotkey() {
    let hotkey = "Ctrl+Shift+1".parse::<Hotkey>().unwrap();

    assert_eq!(
        hotkey.modifiers,
        Modifiers {
            ctrl: true,
            alt: false,
            shift: true,
            win: false
        }
    );
    assert_eq!(hotkey.key, KeyCode::Char('1'));
    assert_eq!(hotkey.display_string(), "Ctrl+Shift+1");
}

#[test]
fn rejects_shortcut_without_modifier() {
    let err = "E".parse::<Hotkey>().unwrap_err().display_string();

    assert!(err.contains("至少包含一个修饰键"));
}

#[test]
fn hotkey_text_reads_back_to_the_same_hotkey() {
    let hotkey = "win+alt+f12".parse::<Hotkey>().unwrap();
    assert_eq!(hotkey.display_string(), "Alt+Win+F12");
    assert_eq!(hotkey.display_string().parse::<Hotkey>().unwrap(), hotkey);
}

#[test]
fn hotkey_virtual_keys_and_modifier_bits() {
    let hotkey = "Ctrl+Shift+F3".parse::<Hotkey>().unwrap();
    assert_eq!(hotkey.win32_vk(), 0x72);
    assert_eq!(hotkey.win32_modifier_bits(), 0x2 | 0x4);
    let letter = "Alt+Win+Q".parse::<Hotkey>().unwrap();
    assert_eq!(letter.win32_vk(), 'Q' as u32);
    assert_eq!(letter.win32_modifier_bits(), 0x1 | 0x8);
}

#[test]
fn hotkey_rejects_unknown_keys() {
    let err = "Ctrl+Space".parse::<Hotkey>().unwrap_err().display_string();
    assert!(err.contains("不支持的按键"));
}
