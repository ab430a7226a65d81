//! The error type shared by every part of the application.
use crate::text::{contains_text, join2, owned, starts_with_text, str_contains, str_starts_with};
use vstd::prelude::*;

verus! {

/// What went wrong, with a message for the log.
#[derive(Debug)]
pub enum AppError {
    Config(String),
    Secret(String),
    Hotkey(String),
    Capture(String),
    Translate(String),
    Windows(String),
    Network(String),
    /// An I/O failure, with the message of the system error.
    Io(String),
    /// A JSON encoding or decoding failure, with the message of the parser.
    Json(String),
}

/// A result that fails with an `AppError`.
pub type Result<T> = std::result::Result<T, AppError>;

/// The label that the error's text starts with.
pub open spec fn error_label(e: AppError) -> Seq<char> {
    match e {
        AppError::Config(_) => "配置错误: "@,
        AppError::Secret(_) => "密钥存储错误: "@,
        AppError::Hotkey(_) => "快捷键错误: "@,
        AppError::Capture(_) => "取词错误: "@,
        AppError::Translate(_) => "翻译错误: "@,
        AppError::Windows(_) => "Windows API 错误: "@,
        AppError::Network(_) => "网络错误: "@,
        AppError::Io(_) => "IO 错误: "@,
        AppError::Json(_) => "JSON 错误: "@,
    }
}

/// The message that the error carries.
pub open spec fn error_message(e: AppError) -> Seq<char> {
    match e {
        AppError::Config(m) => m@,
        AppError::Secret(m) => m@,
        AppError::Hotkey(m) => m@,
        AppError::Capture(m) => m@,
        AppError::Translate(m) => m@,
        AppError::Windows(m) => m@,
        AppError::Network(m) => m@,
        AppError::Io(m) => m@,
        AppError::Json(m) => m@,
    }
}

/// The full text of the error: its label, then its message.
pub open spec fn error_text(e: AppError) -> Seq<char> {
    error_label(e) + error_message(e)
}

/// The message shown to the user for an error.
pub open spec fn user_summary_text(e: AppError) -> Seq<char> {
    match e {
        AppError::Hotkey(_) => "快捷键注册失败，请在设置中更换快捷键。"@,
        AppError::Capture(_) => "没有取到选中文本，可以手动粘贴文本后重试。"@,
        AppError::Translate(m) => if contains_text(m@, "API Key 缺失"@) {
            "翻译失败：API Key 缺失，请在设置中填写 API Key。"@
        } else if starts_with_text(m@, "翻译服务返回了无法识别的数据。"@) {
            "翻译服务返回了无法识别的数据。"@
        } else {
            "翻译失败："@ + m@
        },
        AppError::Network(_) => "网络连接失败，请检查网络或代理设置后重试。"@,
        AppError::Secret(_) => "API Key 读取失败，请重新保存接口配置。"@,
        AppError::Config(_) => "配置读取失败，已尝试恢复默认配置。"@,
        AppError::Windows(_) | AppError::Io(_) | AppError::Json(_) => error_text(e),
    }
}

impl AppError {
    /// The label of the error's text.
    pub fn label(&self) -> (r: &'static str)
        ensures
            r@ == error_label(*self),
    {
        match self {
            AppError::Config(_) => "配置错误: ",
            AppError::Secret(_) => "密钥存储错误: ",
            AppError::Hotkey(_) => "快捷键错误: ",
            AppError::Capture(_) => "取词错误: ",
            AppError::Translate(_) => "翻译错误: ",
            AppError::Windows(_) => "Windows API 错误: ",
            AppError::Network(_) => "网络错误: ",
            AppError::Io(_) => "IO 错误: ",
            AppError::Json(_) => "JSON 错误: ",
        }
    }

    /// The message that the error carries.
    pub fn message(&self) -> (r: &str)
        ensures
            r@ == error_message(*self),
    {
        match self {
            AppError::Config(m) => m.as_str(),
            AppError::Secret(m) => m.as_str(),
            AppError::Hotkey(m) => m.as_str(),
            AppError::Capture(m) => m.as_str(),
            AppError::Translate(m) => m.as_str(),
            AppError::Windows(m) => m.as_str(),
            AppError::Network(m) => m.as_str(),
            AppError::Io(m) => m.as_str(),
            AppError::Json(m) => m.as_str(),
        }
    }

    /// The full text of the error, as it is written to the log.
    pub fn display_string(&self) -> (r: String)
        ensures
            r@ == error_text(*self),
    {
        join2(self.label(), self.message())
    }

    /// The message shown to the user for this error.
    pub fn user_summary(&self) -> (r: String)
        ensures
            r@ == user_summary_text(*self),
    {
        match self {
            AppError::Hotkey(_) => owned("快捷键注册失败，请在设置中更换快捷键。"),
            AppError::Capture(_) => owned("没有取到选中文本，可以手动粘贴文本后重试。"),
            AppError::Translate(msg) => {
                if str_contains(msg.as_str(), "API Key 缺失") {
                    owned("翻译失败：API Key 缺失，请在设置中填写 API Key。")
                } else if str_starts_with(msg.as_str(), "翻译服务返回了无法识别的数据。") {
                    owned("翻译服务返回了无法识别的数据。")
                } else {
                    join2("翻译失败：", msg.as_str())
                }
            },
            AppError::Network(_) => owned("网络连接失败，请检查网络或代理设置后重试。"),
            AppError::Secret(_) => owned("API Key 读取失败，请重新保存接口配置。"),
            AppError::Config(_) => owned("配置读取失败，已尝试恢复默认配置。"),
            AppError::Windows(_) | AppError::Io(_) | AppError::Json(_) => self.display_string(),
        }
    }
}

} // verus!
