use ait::app::{translator_plan, TranslatorPlan};
use ait::config::AppSettings;
use ait::error::AppError;
use ait::ui::settings_window::{
    api_key_purpose, api_key_visibility_button_rect, settings_profile_detail_control_id,
    settings_profile_detail_control_placement, settings_profile_detail_control_rect,
    timeout_from_input, SettingsControlRect, SettingsProfileDetailControl,
    SettingsProfileDetailControlState,
};
use ait::ui::translate_window::{
    translation_status_text, window_position_near_cursor, ShowMode, TranslationWindowState,
};
use ait::update::{
    release_api_url, release_status_error, update_status_from_release, GitHubRelease,
    UpdateStatus,
};

fn state() -> TranslationWindowState {
    TranslationWindowState {
        source_text: "old source".to_string(),
        translated_text: "old translation".to_string(),
        loading: false,
        error: Some("old error".to_string()),
    }
}

#[test]
fn loading_a_window_text_clears_the_translation() {
    let mut s = state();
    s.begin_loading("new source".to_string());
    assert_eq!(s.source_text, "new source");
    assert_eq!(s.translated_text, "");
    assert!(s.loading);
    assert_eq!(s.error, None);
}

#[test]
fn finishing_shows_result_or_error_summary() {
    let mut s = state();
    s.begin_loading("x".to_string());
    s.finish(&Err(AppError::Network("reset".to_string())));
    assert!(!s.loading);
    assert_eq!(s.source_text, "x");
    assert_eq!(
        s.error.as_deref(),
        Some("网络连接失败，请检查网络或代理设置后重试。")
    );
    s.finish(&Ok(ait::app::TranslationWorkflowResult {
        source_text: "hello".to_string(),
        translated_text: "你好".to_string(),
        provider: ait::translator::ProviderKind::Google,
    }));
    assert_eq!(s.translated_text, "你好");
    assert_eq!(s.error, None);
}

#[test]
fn status_line_follows_the_mode() {
    assert_eq!(translation_status_text(ShowMode::Starting, None), "正在取词...");
    assert_eq!(translation_status_text(ShowMode::Loading, None), "正在翻译...");
    assert_eq!(translation_status_text(ShowMode::Result, Some("x")), "翻译完成");
    assert_eq!(translation_status_text(ShowMode::Error, Some("网络错误")), "网络错误");
    assert_eq!(translation_status_text(ShowMode::Error, None), "翻译失败");
}

#[test]
fn window_near_cursor_stays_in_the_work_area() {
    assert_eq!(
        window_position_near_cursor((100, 100), (400, 300), (0, 0, 1920, 1080)),
        (112, 112)
    );
    assert_eq!(
        window_position_near_cursor((1900, 1070), (400, 300), (0, 0, 1920, 1080)),
        (1520, 780)
    );
    assert_eq!(
        window_position_near_cursor((-50, -50), (400, 300), (0, 0, 1920, 1080)),
        (0, 0)
    );
}

#[test]
fn detail_controls_have_ids_and_hide_off_window() {
    assert_eq!(
        settings_profile_detail_control_id(SettingsProfileDetailControl::ApiKeyInput),
        Some(3106)
    );
    assert_eq!(
        settings_profile_detail_control_id(SettingsProfileDetailControl::GoogleNotice),
        Some(3110)
    );
    let shown = SettingsProfileDetailControlState {
        control: SettingsProfileDetailControl::ModelInput,
        visible: true,
        enabled: true,
    };
    assert_eq!(
        settings_profile_detail_control_placement(shown),
        settings_profile_detail_control_rect(SettingsProfileDetailControl::ModelInput)
    );
    let hidden = SettingsProfileDetailControlState {
        visible: false,
        ..shown
    };
    assert_eq!(settings_profile_detail_control_placement(hidden).width, 0);
    assert_eq!(
        api_key_visibility_button_rect(true),
        SettingsControlRect {
            x: 618,
            y: 234,
            width: 52,
            height: 28
        }
    );
    assert!(api_key_visibility_button_rect(false).x < 0);
}

#[test]
fn timeout_field_reads_numbers_else_thirty() {
    assert_eq!(timeout_from_input("45"), 45);
    assert_eq!(timeout_from_input("+7"), 7);
    assert_eq!(timeout_from_input(" 45"), 30);
    assert_eq!(timeout_from_input(""), 30);
    assert_eq!(timeout_from_input("99999999999999999999999"), 30);
    assert_eq!(api_key_purpose("openai"), "ait-translator-profile-openai");
}

#[test]
fn translator_plan_needs_a_key_except_for_google() {
    let mut settings = AppSettings::default();
    assert_eq!(
        translator_plan(settings.profile_by_id("google").unwrap()).unwrap(),
        TranslatorPlan::GoogleFree
    );
    let err = translator_plan(settings.profile_by_id("openai").unwrap()).unwrap_err();
    assert_eq!(err.display_string(), "翻译错误: API Key 缺失");
    settings.profile_by_id_mut("deepseek").unwrap().encrypted_api_key = Some("QUJD".to_string());
    match translator_plan(settings.profile_by_id("deepseek").unwrap()).unwrap() {
        TranslatorPlan::Chat {
            base_url,
            encrypted_api_key,
            key_purpose,
            timeout_secs,
            ..
        } => {
            assert_eq!(base_url, "https://api.deepseek.com/v1");
            assert_eq!(encrypted_api_key, "QUJD");
            assert_eq!(key_purpose, "ait-translator-profile-deepseek");
            assert_eq!(timeout_secs, 30);
        }
        other => panic!("unexpected plan {other:?}"),
    }
}

#[test]
fn release_api_pieces() {
    assert_eq!(
        release_api_url("https://api.github.com/"),
        "https://api.github.com/repos/aitsuki/ait/releases/latest"
    );
    assert!(release_status_error(200).is_none());
    assert_eq!(
        release_status_error(403).unwrap().display_string(),
        "网络错误: GitHub Releases 访问被拒绝"
    );
    assert_eq!(
        release_status_error(502).unwrap().display_string(),
        "网络错误: 获取最新版本失败，状态码: 502 Bad Gateway"
    );
    let release = GitHubRelease {
        tag_name: "v0.2.1".to_string(),
        html_url: "https://example.test/releases/v0.2.1".to_string(),
        name: Some("v0.2.1".to_string()),
    };
    assert!(matches!(
        update_status_from_release("v0.2.0", &release).unwrap(),
        UpdateStatus::UpdateAvailable { .. }
    ));
}
