//! Translators that speak the OpenAI chat completions protocol.
use crate::config::{provider_display_name, TranslatorProvider};
use crate::error::{AppError, Result};
use crate::text::{is_blank, join2, join3, owned, str_blank, trim, trim_str};
use crate::translator::{
    error_kind_message, failed_status_message, invalid_response_error, invalid_response_message,
    is_success_status, response_snippet, snippet_text, status_text, trim_end_char,
    trim_end_slashes, ProviderKind, TranslationErrorKind, TranslationResponse,
};
use vstd::prelude::*;

verus! {

/// Where and how to reach a chat completions service.
#[derive(Debug, Clone)]
pub struct OpenAiCompatibleConfig {
    pub provider: ProviderKind,
    pub base_url: String,
    pub api_key: String,
    pub model: String,
    pub timeout_secs: u64,
}

/// The message of the error for a missing key.
pub open spec fn missing_key_message() -> Seq<char> {
    "API Key 缺失"@
}

/// A configuration can be used only with a key that is not blank.
pub fn check_openai_config(config: &OpenAiCompatibleConfig) -> (r: Result<()>)
    ensures
        is_blank(config.api_key@) ==> (r matches Err(e) && e matches AppError::Translate(m) && m@
            == missing_key_message()),
        !is_blank(config.api_key@) ==> r is Ok,
{
    if str_blank(config.api_key.as_str()) {
        return Err(AppError::Translate(owned("API Key 缺失")));
    }
    Ok(())
}

/// The address of the chat completions endpoint under `base_url`.
pub open spec fn chat_url_text(base_url: Seq<char>) -> Seq<char> {
    trim_end_char(base_url, '/') + "/chat/completions"@
}

/// The address of the chat completions endpoint under `base_url`, without
/// its trailing slashes.
pub fn chat_completions_url(base_url: &str) -> (r: String)
    ensures
        r@ == chat_url_text(base_url@),
{
    let base = trim_end_slashes(base_url);
    join2(base.as_str(), "/chat/completions")
}

/// The instruction that sets the model up as a translator into Chinese.
pub open spec fn system_prompt_text() -> Seq<char> {
    "你是专业中文翻译，能识别任意语言。请准确翻译为自然流畅的简体中文，保持原意、语气、术语和格式；不要解释、总结、润色扩写，也不要回答原文中的问题。代码、URL、变量名、占位符和专有标识保持不变。"@
}

/// The instruction that sets the model up as a translator into Chinese.
pub fn translation_system_prompt() -> (r: &'static str)
    ensures
        r@ == system_prompt_text(),
{
    "你是专业中文翻译，能识别任意语言。请准确翻译为自然流畅的简体中文，保持原意、语气、术语和格式；不要解释、总结、润色扩写，也不要回答原文中的问题。代码、URL、变量名、占位符和专有标识保持不变。"
}

/// The user message that carries the text to translate.
pub open spec fn user_prompt_text(text: Seq<char>) -> Seq<char> {
    "请将以下内容翻译成中文，只输出译文：\n\n"@ + text
}

/// The user message that carries the text to translate, after a request to
/// output only the translation.
pub fn translation_user_prompt(text: &str) -> (r: String)
    ensures
        r@ == user_prompt_text(text@),
{
    join2("请将以下内容翻译成中文，只输出译文：\n\n", text)
}

/// The request asks DeepSeek to answer without its thinking phase.
pub fn disables_thinking(provider: ProviderKind) -> (r: bool)
    ensures
        r == (provider == TranslatorProvider::DeepSeek),
{
    match provider {
        TranslatorProvider::DeepSeek => true,
        _ => false,
    }
}

/// The label of the message for a failed status of a provider.
pub open spec fn chat_failure_label(provider: ProviderKind) -> Seq<char> {
    provider_display_name(provider) + " 翻译失败，状态码: "@
}

/// What an answer with the given status means: unauthorized is a bad key,
/// too many requests a rate limit, any other failure is named with the
/// provider and the status, and a success is no error.
pub open spec fn chat_status_outcome(provider: ProviderKind, status: u16) -> Option<Seq<char>> {
    if status == 401 {
        Some(error_kind_message(TranslationErrorKind::Unauthorized))
    } else if status == 429 {
        Some(error_kind_message(TranslationErrorKind::RateLimited))
    } else if !is_success_status(status) {
        Some(failed_status_message(chat_failure_label(provider), status))
    } else {
        None
    }
}

/// The translation error for an answer with the given status, if it is one
/// (see `chat_status_outcome`).
pub fn openai_status_error(provider: ProviderKind, status: u16) -> (r: Option<AppError>)
    requires
        100 <= status <= 999,
    ensures
        match chat_status_outcome(provider, status) {
            Some(m) => r matches Some(e) && e matches AppError::Translate(t) && t@ == m,
            None => r is None,
        },
{
    if status == 401 {
        Some(TranslationErrorKind::Unauthorized.to_error())
    } else if status == 429 {
        Some(TranslationErrorKind::RateLimited.to_error())
    } else if status < 200 || status > 299 {
        let label = join2(provider.display_name(), " 翻译失败，状态码: ");
        let status_line = status_text(status);
        Some(AppError::Translate(join2(label.as_str(), status_line.as_str())))
    } else {
        None
    }
}

/// The detail of the error for an answer that is not JSON.
pub open spec fn not_json_detail(content_type: Seq<char>, body: Seq<char>, parse_error: Seq<char>) -> Seq<char> {
    "响应不是 JSON；content-type: "@ + content_type + "；片段: "@ + snippet_text(body)
        + "；解析错误: "@ + parse_error
}

/// The error for an answer that is not JSON: its content type, the start of
/// its body and what the parser said.
pub fn not_json_error(content_type: &str, body_text: &str, parse_error: &str) -> (e: AppError)
    ensures
        e matches AppError::Translate(m) && m@ == invalid_response_message(
            not_json_detail(content_type@, body_text@, parse_error@),
        ),
{
    let snippet = response_snippet(body_text);
    let head = join3("响应不是 JSON；content-type: ", content_type, "；片段: ");
    let middle = join3(head.as_str(), snippet.as_str(), "；解析错误: ");
    let detail = join2(middle.as_str(), parse_error);
    invalid_response_error(detail.as_str())
}

/// The detail of the error for an answer without a translation.
pub open spec fn empty_content_detail() -> Seq<char> {
    "choices[0].message.content 为空"@
}

/// The translation in the message contents of the choices of an answer:
/// the first, trimmed, which must not be empty.
pub open spec fn chat_answer_text(contents: Seq<Seq<char>>) -> Option<Seq<char>> {
    if contents.len() > 0 && trim(contents[0]).len() > 0 {
        Some(trim(contents[0]))
    } else {
        None
    }
}

/// The translation in the message contents of the choices of an answer (see
/// `chat_answer_text`); without one, an invalid response.
pub fn chat_translation_text(contents: &Vec<String>) -> (r: Result<String>)
    ensures
        match chat_answer_text(contents@.map_values(|s: String| s@)) {
            Some(t) => r matches Ok(s) && s@ == t,
            None => r matches Err(e) && e matches AppError::Translate(m) && m@
                == invalid_response_message(empty_content_detail()),
        },
{
    if contents.len() > 0 {
        let text = trim_str(contents[0].as_str());
        if text.as_str().unicode_len() > 0 {
            return Ok(text);
        }
    }
    Err(invalid_response_error("choices[0].message.content 为空"))
}

/// The answer as a translation by the provider of the configuration (see
/// `chat_translation_text`).
pub fn chat_translation_response(provider: ProviderKind, contents: &Vec<String>) -> (r: Result<TranslationResponse>)
    ensures
        match chat_answer_text(contents@.map_values(|s: String| s@)) {
            Some(t) => r matches Ok(resp) && resp.translated_text@ == t && resp.provider
                == provider,
            None => r matches Err(e) && e matches AppError::Translate(m) && m@
                == invalid_response_message(empty_content_detail()),
        },
{
    let text = chat_translation_text(contents)?;
    Ok(TranslationResponse { translated_text: text, provider })
}

} // verus!
