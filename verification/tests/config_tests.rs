use ait::config::{AppSettings, TranslatorProvider};

#[test]
fn defaults_include_builtin_translator_profiles() {
    let settings = AppSettings::default();

    assert_eq!(settings.default_profile_id, "google");
    let names: Vec<_> = settings
        .translator_profiles
        .iter()
        .map(|profile| profile.name.as_str())
        .collect();
    assert_eq!(
        names,
        vec!["Google", "OpenAI", "Anthropic", "Gemini", "DeepSeek"]
    );
    assert_eq!(
        settings
            .translator_profiles
            .iter()
            .map(|profile| profile.provider)
            .collect::<Vec<_>>(),
        vec![
            TranslatorProvider::Google,
            TranslatorProvider::OpenAi,
            TranslatorProvider::Claude,
            TranslatorProvider::Gemini,
            TranslatorProvider::DeepSeek,
        ]
    );
    assert!(settings.profile_by_id("google").unwrap().built_in);
    assert_eq!(settings.hotkey, "Ctrl+Alt+E");
    assert!(settings.clipboard_capture.enabled);
    assert!(settings.clipboard_capture.open_manual_input_on_failure);
    assert!(!settings.markdown.render_enabled);
}

#[test]
fn google_profile_does_not_require_network_fields() {
    let google = AppSettings::default()
        .profile_by_id("google")
        .unwrap()
        .clone();

    assert_eq!(google.provider, TranslatorProvider::Google);
    assert_eq!(google.base_url, "");
    assert_eq!(google.model, "");
    assert_eq!(google.encrypted_api_key, None);
    assert_eq!(google.timeout_secs, 0);
}

#[test]
fn normalized_settings_restore_missing_builtins_and_default() {
    let mut settings = AppSettings::default();
    settings.translator_profiles.retain(|p| p.id != "anthropic");
    settings.default_profile_id = "nowhere".to_string();

    let repaired = settings.normalized();

    assert_eq!(repaired.default_profile_id, "google");
    assert_eq!(repaired.translator_profiles.last().unwrap().id, "anthropic");
    assert_eq!(repaired.clone().normalized(), repaired);
}

#[test]
fn custom_profiles_get_the_first_free_id() {
    let mut settings = AppSettings::default();
    assert_eq!(settings.add_custom_profile().id, "custom");
    assert_eq!(settings.add_custom_profile().id, "custom-2");
    settings.delete_profile("custom").unwrap();
    assert_eq!(settings.add_custom_profile().id, "custom");
}

#[test]
fn deleting_and_defaulting_unknown_profiles_is_refused() {
    let mut settings = AppSettings::default();
    assert_eq!(
        settings.delete_profile("nope").unwrap_err().display_string(),
        "配置错误: 翻译配置不存在"
    );
    assert_eq!(
        settings.set_default_profile("nope").unwrap_err().display_string(),
        "配置错误: 翻译配置不存在"
    );
    assert_eq!(settings, AppSettings::default());
}
