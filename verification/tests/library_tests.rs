use ait::error::AppError;
use ait::secret::{base64_decode, base64_encode, SecretStore};
use ait::text::{str_blank, trim_str};
use ait::ui::settings_window::hotkey_capture_text;

#[test]
fn base64_round_trips_bytes() {
    let bytes: Vec<u8> = (0u8..=255).collect();
    let text = base64_encode(&bytes);
    assert_eq!(base64_decode(&text).unwrap(), bytes);
    assert_eq!(base64_encode(b"ab"), "YWI=");
    assert_eq!(base64_encode(b"abc"), "YWJj");
    assert_eq!(base64_decode(" YWI= ").unwrap(), b"ab".to_vec());
}

#[test]
fn base64_rejects_bad_text() {
    assert!(matches!(base64_decode("abc"), Err(AppError::Secret(_))));
    assert!(matches!(base64_decode("ab$="), Err(AppError::Secret(_))));
}

#[test]
fn secret_store_keeps_its_purpose() {
    let store = SecretStore::new("ait-test");
    assert_eq!(store.purpose(), "ait-test");
}

#[test]
fn error_texts_and_summaries() {
    assert_eq!(
        AppError::Hotkey("x".to_string()).user_summary(),
        "快捷键注册失败，请在设置中更换快捷键。"
    );
    assert_eq!(
        AppError::Config("x".to_string()).user_summary(),
        "配置读取失败，已尝试恢复默认配置。"
    );
    assert_eq!(AppError::Io("disk".to_string()).user_summary(), "IO 错误: disk");
    assert_eq!(
        AppError::Translate("boom".to_string()).user_summary(),
        "翻译失败：boom"
    );
}

#[test]
fn text_helpers_follow_unicode_whitespace() {
    assert!(str_blank("\u{3000}\t\n"));
    assert!(!str_blank(" a "));
    assert_eq!(trim_str("\u{2028} a b \u{00A0}"), "a b");
}

#[test]
fn captured_hotkey_reads_back() {
    let mods = ait::hotkey::Modifiers {
        ctrl: false,
        alt: true,
        shift: false,
        win: true,
    };
    let text = hotkey_capture_text(0x5A, mods).unwrap();
    assert_eq!(text, "Alt+Win+Z");
    let parsed = text.parse::<ait::hotkey::Hotkey>().unwrap();
    assert_eq!(parsed.display_string(), text);
    assert_eq!(hotkey_capture_text(0x88, mods), None);
}

#[test]
fn base64_text_has_four_characters_per_three_bytes_begun() {
    assert_eq!(base64_encode(b"Ma"), "TWE=");
    for n in 0..10usize {
        let bytes: Vec<u8> = (0..n).map(|i| (i * 37 + 250) as u8).collect();
        let text = base64_encode(&bytes);
        assert_eq!(text.len(), 4 * ((n + 2) / 3));
        assert!(text
            .chars()
            .all(|c| c.is_ascii_alphanumeric() || c == '+' || c == '/' || c == '='));
    }
}
