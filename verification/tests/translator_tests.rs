use ait::json::JsonValue;
use ait::translator::google_free::{
    google_status_error, google_translate_url, google_translation_response, parse_google_response,
};
use ait::translator::openai_compatible::{
    chat_completions_url, chat_translation_response, chat_translation_text, check_openai_config,
    disables_thinking, not_json_error, openai_status_error, translation_system_prompt,
    translation_user_prompt, OpenAiCompatibleConfig,
};
use ait::translator::{
    invalid_response_error, response_snippet, send_failure_error, status_text,
    trim_end_slashes, ProviderKind, TranslationErrorKind, TranslationRequest,
};

#[test]
fn translation_request_reports_text_length_without_text() {
    let request = TranslationRequest {
        text: "secret source text".to_string(),
        source_lang: "auto".to_string(),
        target_lang: "zh-CN".to_string(),
    };

    assert_eq!(request.text_len(), 18);
    assert!(!request.debug_summary().contains("secret source text"));
}

#[test]
fn provider_kind_names_are_stable_for_logs() {
    assert_eq!(ProviderKind::Google.as_log_name(), "google");
    assert_eq!(ProviderKind::OpenAi.as_log_name(), "openai");
    assert_eq!(ProviderKind::Claude.as_log_name(), "anthropic");
    assert_eq!(ProviderKind::Gemini.as_log_name(), "gemini");
    assert_eq!(ProviderKind::DeepSeek.as_log_name(), "deepseek");
    assert_eq!(ProviderKind::Custom.as_log_name(), "custom");
}

#[test]
fn error_kind_user_messages_are_actionable() {
    assert!(
        TranslationErrorKind::RateLimited
            .user_message()
            .contains("稍后重试")
    );
    assert!(
        TranslationErrorKind::ProviderChanged
            .user_message()
            .contains("切换")
    );
}

fn request(text: &str) -> TranslationRequest {
    TranslationRequest {
        text: text.to_string(),
        source_lang: "auto".to_string(),
        target_lang: "zh-CN".to_string(),
    }
}

#[test]
fn request_summary_names_languages_and_length() {
    assert_eq!(
        request("hello").debug_summary(),
        "TranslationRequest { text_len: 5, source_lang: \"auto\", target_lang: \"zh-CN\" }"
    );
}

#[test]
fn google_url_encodes_every_part() {
    let url = google_translate_url("https://translate.googleapis.com//", &request("a b&c/好"));
    assert_eq!(
        url,
        "https://translate.googleapis.com/translate_a/single?client=gtx&sl=auto&tl=zh-CN&dt=t&q=a%20b%26c%2F%E5%A5%BD"
    );
}

#[test]
fn google_status_errors() {
    assert!(google_status_error(200).is_none());
    assert!(google_status_error(429)
        .unwrap()
        .display_string()
        .contains("限流"));
    assert!(google_status_error(403)
        .unwrap()
        .display_string()
        .contains("内置翻译接口可能已变化"));
    assert_eq!(
        google_status_error(500).unwrap().display_string(),
        "翻译错误: 内置 Google 翻译失败，状态码: 500 Internal Server Error"
    );
    assert_eq!(status_text(599), "599 <unknown status code>");
}

fn text(s: &str) -> JsonValue {
    JsonValue::Text(s.to_string())
}

#[test]
fn google_answer_joins_segments() {
    let answer = JsonValue::Array(vec![
        JsonValue::Array(vec![
            JsonValue::Array(vec![text("你好，"), text("hello, "), JsonValue::Null]),
            JsonValue::Array(vec![text("世界"), text("world")]),
        ]),
        JsonValue::Null,
        text("en"),
    ]);
    assert_eq!(parse_google_response(&answer).unwrap(), "你好，世界");
    let response = google_translation_response(&answer).unwrap();
    assert_eq!(response.provider, ProviderKind::Google);
}

#[test]
fn google_answer_of_another_shape_is_invalid() {
    let invalid = "翻译错误: 翻译服务返回了无法识别的数据。";
    assert_eq!(
        parse_google_response(&JsonValue::Null).unwrap_err().display_string(),
        invalid
    );
    let no_text = JsonValue::Array(vec![JsonValue::Array(vec![JsonValue::Array(vec![
        JsonValue::Number("1".to_string()),
    ])])]);
    assert_eq!(parse_google_response(&no_text).unwrap_err().display_string(), invalid);
    let blank = JsonValue::Array(vec![JsonValue::Array(vec![JsonValue::Array(vec![text(
        "  ",
    )])])]);
    assert_eq!(parse_google_response(&blank).unwrap_err().display_string(), invalid);
}

fn config(provider: ProviderKind, key: &str) -> OpenAiCompatibleConfig {
    OpenAiCompatibleConfig {
        provider,
        base_url: "https://api.example.test/v1/".to_string(),
        api_key: key.to_string(),
        model: "m".to_string(),
        timeout_secs: 10,
    }
}

#[test]
fn openai_config_needs_a_key() {
    assert!(check_openai_config(&config(ProviderKind::OpenAi, "sk")).is_ok());
    assert_eq!(
        check_openai_config(&config(ProviderKind::OpenAi, " \t"))
            .unwrap_err()
            .user_summary(),
        "翻译失败：API Key 缺失，请在设置中填写 API Key。"
    );
}

#[test]
fn openai_request_pieces() {
    assert_eq!(
        chat_completions_url("https://api.example.test/v1/"),
        "https://api.example.test/v1/chat/completions"
    );
    assert_eq!(
        translation_user_prompt("hello"),
        "请将以下内容翻译成中文，只输出译文：\n\nhello"
    );
    assert!(translation_system_prompt().starts_with("你是专业中文翻译"));
    assert!(disables_thinking(ProviderKind::DeepSeek));
    assert!(!disables_thinking(ProviderKind::OpenAi));
}

#[test]
fn openai_status_errors() {
    assert!(openai_status_error(ProviderKind::OpenAi, 204).is_none());
    assert!(openai_status_error(ProviderKind::OpenAi, 401)
        .unwrap()
        .display_string()
        .contains("认证失败"));
    assert!(openai_status_error(ProviderKind::Claude, 429)
        .unwrap()
        .display_string()
        .contains("限流"));
    assert_eq!(
        openai_status_error(ProviderKind::DeepSeek, 404).unwrap().display_string(),
        "翻译错误: DeepSeek 翻译失败，状态码: 404 Not Found"
    );
}

#[test]
fn openai_answer_takes_first_trimmed_choice() {
    let contents = vec![" \r\n你好\r\n ".to_string(), "ignored".to_string()];
    assert_eq!(chat_translation_text(&contents).unwrap(), "你好");
    let response = chat_translation_response(ProviderKind::OpenAi, &contents).unwrap();
    assert_eq!(response.provider, ProviderKind::OpenAi);
    assert_eq!(response.translated_text, "你好");
    let err = chat_translation_text(&vec![" \r\n ".to_string()]).unwrap_err();
    assert!(err.display_string().contains("choices[0].message.content 为空"));
    assert!(chat_translation_text(&Vec::new()).is_err());
}

#[test]
fn not_json_answers_name_content_type_and_snippet() {
    let err = not_json_error("text/html", "<html>\nblocked</html>", "expected value");
    assert_eq!(
        err.display_string(),
        "翻译错误: 翻译服务返回了无法识别的数据。详情: 响应不是 JSON；content-type: text/html；片段: <html> blocked</html>；解析错误: expected value"
    );
    assert_eq!(err.user_summary(), "翻译服务返回了无法识别的数据。");
}

#[test]
fn snippets_are_cut_at_240_characters() {
    let long = "x".repeat(300);
    let snippet = response_snippet(&long);
    assert_eq!(snippet.chars().count(), 243);
    assert!(snippet.ends_with("..."));
    assert_eq!(response_snippet("a\r\nb"), "a  b");
}

#[test]
fn send_failures_are_timeouts_or_network_errors() {
    assert_eq!(
        send_failure_error(true, "operation timed out").user_summary(),
        "翻译失败：翻译请求超时，请重试。"
    );
    assert_eq!(
        send_failure_error(false, "dns error").display_string(),
        "网络错误: dns error"
    );
    assert_eq!(
        invalid_response_error("x").display_string(),
        "翻译错误: 翻译服务返回了无法识别的数据。详情: x"
    );
    assert_eq!(trim_end_slashes("https://a///"), "https://a");
}
