//! Translation requests and answers, and what the translators share.
pub mod google_free;
pub mod openai_compatible;

pub use crate::config::{ProviderKind, TranslatorProvider};
use crate::config::opt_text;
use crate::error::AppError;
use crate::text::{decimal, join2, join3, owned, str_chars, string_from_chars, u64_decimal};
use vstd::prelude::*;

verus! {

/// A text to translate, with its language and the language wanted.
#[derive(Clone)]
pub struct TranslationRequest {
    pub text: String,
    pub source_lang: String,
    pub target_lang: String,
}

/// The text that stands for a request in the log: its languages and the
/// length of its text, never the text itself.
pub open spec fn request_summary_text(text_len: nat, source: Seq<char>, target: Seq<char>) -> Seq<char> {
    "TranslationRequest { text_len: "@ + decimal(text_len) + ", source_lang: \""@ + source
        + "\", target_lang: \""@ + target + "\" }"@
}

impl TranslationRequest {
    /// The number of characters of the text to translate.
    pub fn text_len(&self) -> (n: usize)
        ensures
            n == self.text@.len(),
    {
        self.text.as_str().unicode_len()
    }

    /// How the request is written to the log: the length of its text and
    /// its languages, never the text.
    pub fn debug_summary(&self) -> (r: String)
        ensures
            r@ == request_summary_text(
                self.text@.len(),
                self.source_lang@,
                self.target_lang@,
            ),
    {
        let n = self.text_len();
        let count = u64_decimal(n as u64);
        let head = join3("TranslationRequest { text_len: ", count.as_str(), ", source_lang: \"");
        let middle = join3(head.as_str(), self.source_lang.as_str(), "\", target_lang: \"");
        join3(middle.as_str(), self.target_lang.as_str(), "\" }")
    }
}

/// A translated text and the service that translated it.
#[derive(Debug, Clone, PartialEq, Eq)]
pub struct TranslationResponse {
    pub translated_text: String,
    pub provider: ProviderKind,
}

/// The failures of a translation that the user is told about.
#[derive(Debug, Clone, Copy, PartialEq, Eq, Structural)]
pub enum TranslationErrorKind {
    Unauthorized,
    RateLimited,
    Timeout,
    Network,
    ProviderChanged,
    InvalidResponse,
}

/// What the user is told for each kind of failure.
pub open spec fn error_kind_message(kind: TranslationErrorKind) -> Seq<char> {
    match kind {
        TranslationErrorKind::Unauthorized => "接口认证失败，请检查 API Key。"@,
        TranslationErrorKind::RateLimited => "翻译服务暂时限流，请稍后重试，或切换到其他翻译提供方。"@,
        TranslationErrorKind::Timeout => "翻译请求超时，请重试。"@,
        TranslationErrorKind::Network => "网络连接失败，请检查网络或代理设置。"@,
        TranslationErrorKind::ProviderChanged => "内置翻译接口可能已变化，请重试或切换到 OpenAI 兼容接口。"@,
        TranslationErrorKind::InvalidResponse => "翻译服务返回了无法识别的数据。"@,
    }
}

impl TranslationErrorKind {
    /// What the user is told, with what they can do about it.
    pub fn user_message(self) -> (r: &'static str)
        ensures
            r@ == error_kind_message(self),
    {
        match self {
            TranslationErrorKind::Unauthorized => "接口认证失败，请检查 API Key。",
            TranslationErrorKind::RateLimited => "翻译服务暂时限流，请稍后重试，或切换到其他翻译提供方。",
            TranslationErrorKind::Timeout => "翻译请求超时，请重试。",
            TranslationErrorKind::Network => "网络连接失败，请检查网络或代理设置。",
            TranslationErrorKind::ProviderChanged => "内置翻译接口可能已变化，请重试或切换到 OpenAI 兼容接口。",
            TranslationErrorKind::InvalidResponse => "翻译服务返回了无法识别的数据。",
        }
    }

    /// The translation error of this kind.
    pub fn to_error(self) -> (e: AppError)
        ensures
            e matches AppError::Translate(m) && m@ == error_kind_message(self),
    {
        AppError::Translate(owned(self.user_message()))
    }
}

/// The message of an answer that could not be read, with the detail.
pub open spec fn invalid_response_message(detail: Seq<char>) -> Seq<char> {
    "翻译服务返回了无法识别的数据。详情: "@ + detail
}

/// The error for an answer that could not be read, with the detail.
pub fn invalid_response_error(detail: &str) -> (e: AppError)
    ensures
        e matches AppError::Translate(m) && m@ == invalid_response_message(detail@),
{
    AppError::Translate(join2("翻译服务返回了无法识别的数据。详情: ", detail))
}

/// The number of characters of a body that a snippet keeps.
pub const SNIPPET_LIMIT: usize = 240;

/// `c`, with carriage returns and line feeds as spaces.
pub open spec fn flatten_char(c: char) -> char {
    if c == '\r' || c == '\n' {
        ' '
    } else {
        c
    }
}

/// The beginning of a body for an error message: its first 240 characters,
/// `...` when there were more, and every line break a space.
pub open spec fn snippet_text(body: Seq<char>) -> Seq<char> {
    let kept = if body.len() > SNIPPET_LIMIT {
        body.take(SNIPPET_LIMIT as int) + "..."@
    } else {
        body
    };
    kept.map_values(|c: char| flatten_char(c))
}

/// A snippet is never longer than 240 characters and the three dots, and
/// holds no line break.
pub proof fn law_snippet_is_short_and_flat(body: Seq<char>)
    ensures
        snippet_text(body).len() <= SNIPPET_LIMIT + 3,
        forall|i: int|
            0 <= i < snippet_text(body).len() ==> (#[trigger] snippet_text(body)[i]) != '\r'
                && snippet_text(body)[i] != '\n',
{
    reveal_strlit("...");
}

/// The beginning of a body, for an error message (see `snippet_text`).
pub fn response_snippet(body: &str) -> (r: String)
    ensures
        r@ == snippet_text(body@),
{
    let chars = str_chars(body);
    let mut kept: Vec<char> = Vec::new();
    let n = if chars.len() > SNIPPET_LIMIT {
        SNIPPET_LIMIT
    } else {
        chars.len()
    };
    let mut i: usize = 0;
    while i < n
        invariant
            n <= chars.len(),
            i <= n,
            kept@ == chars@.take(i as int),
        decreases n - i,
    {
        kept.push(chars[i]);
        i = i + 1;
    }
    if chars.len() > SNIPPET_LIMIT {
        kept.push('.');
        kept.push('.');
        kept.push('.');
    }
    let ghost whole = kept@;
    assert(whole == (if body@.len() > SNIPPET_LIMIT {
        body@.take(SNIPPET_LIMIT as int) + "..."@
    } else {
        body@
    })) by {
        reveal_strlit("...");
        if body@.len() <= SNIPPET_LIMIT {
            assert(chars@.take(chars@.len() as int) == chars@);
        }
    }
    let mut j: usize = 0;
    while j < kept.len()
        invariant
            j <= kept.len(),
            kept.len() == whole.len(),
            forall|k: int| 0 <= k < j ==> kept@[k] == flatten_char(whole[k]),
            forall|k: int| j <= k < kept.len() ==> kept@[k] == whole[k],
        decreases kept.len() - j,
    {
        let c = kept[j];
        if c == '\r' || c == '\n' {
            kept.set(j, ' ');
        }
        j = j + 1;
    }
    assert(kept@ == whole.map_values(|c: char| flatten_char(c)));
    string_from_chars(&kept)
}

/// The reason phrase that the HTTP standard gives a status code, where it
/// names one.
pub uninterp spec fn status_reason(code: u16) -> Option<Seq<char>>;

/// `reqwest::StatusCode::canonical_reason` for a status code in `100..=999`:
/// its reason phrase from the table of the `http` crate, where the table has
/// one; what the table holds is not written out here.
#[verifier::external_body]
fn canonical_reason(code: u16) -> (r: Option<String>)
    requires
        100 <= code <= 999,
    ensures
        opt_text(r) == status_reason(code),
{
    match reqwest::StatusCode::from_u16(code) {
        Ok(status) => match status.canonical_reason() {
            Some(reason) => Some(reason.to_string()),
            None => None,
        },
        Err(_) => None,
    }
}

/// How a status is written in a message: its number, a space and its reason
/// phrase, or a placeholder where it has none.
pub open spec fn status_line(code: u16, reason: Option<Seq<char>>) -> Seq<char> {
    decimal(code as nat) + " "@ + match reason {
        Some(r) => r,
        None => "<unknown status code>"@,
    }
}

/// How a status with the given reason phrase is written in a message.
pub fn status_text_with_reason(code: u16, reason: Option<&str>) -> (r: String)
    ensures
        r@ == status_line(
            code,
            match reason {
                Some(t) => Some(t@),
                None => None,
            },
        ),
{
    let number = u64_decimal(code as u64);
    match reason {
        Some(t) => join3(number.as_str(), " ", t),
        None => join3(number.as_str(), " ", "<unknown status code>"),
    }
}

/// How a status is written in a message, with the reason phrase of the
/// standard.
pub fn status_text(code: u16) -> (r: String)
    requires
        100 <= code <= 999,
    ensures
        r@ == status_line(code, status_reason(code)),
{
    let reason = canonical_reason(code);
    match reason {
        Some(t) => status_text_with_reason(code, Some(t.as_str())),
        None => status_text_with_reason(code, None),
    }
}

/// The status is a success (`200..=299`).
pub open spec fn is_success_status(code: u16) -> bool {
    200 <= code <= 299
}

/// The message of an error for an answer that failed with a status: a
/// label, then the status.
pub open spec fn failed_status_message(label: Seq<char>, code: u16) -> Seq<char> {
    label + status_line(code, status_reason(code))
}

/// The error for an answer that failed with a status: the label, then the
/// status.
pub fn failed_status_error(label: &str, code: u16) -> (e: AppError)
    requires
        100 <= code <= 999,
    ensures
        e matches AppError::Translate(m) && m@ == failed_status_message(label@, code),
{
    let status = status_text(code);
    AppError::Translate(join2(label, status.as_str()))
}

/// The error for a request that got no answer: a timeout is a translation
/// error that says so, anything else a network error with its message.
pub fn send_failure_error(is_timeout: bool, message: &str) -> (e: AppError)
    ensures
        is_timeout ==> (e matches AppError::Translate(m) && m@ == error_kind_message(
            TranslationErrorKind::Timeout,
        )),
        !is_timeout ==> (e matches AppError::Network(m) && m@ == message@),
{
    if is_timeout {
        TranslationErrorKind::Timeout.to_error()
    } else {
        AppError::Network(owned(message))
    }
}

/// `s` without the characters `c` at its end.
pub open spec fn trim_end_char(s: Seq<char>, c: char) -> Seq<char>
    decreases s.len(),
{
    if s.len() > 0 && s.last() == c {
        trim_end_char(s.drop_last(), c)
    } else {
        s
    }
}

/// `s.trim_end_matches('/')`.
pub fn trim_end_slashes(s: &str) -> (r: String)
    ensures
        r@ == trim_end_char(s@, '/'),
{
    let v = str_chars(s);
    let mut n: usize = v.len();
    assert(v@.take(n as int) == v@);
    while n > 0 && v[n - 1] == '/'
        invariant
            n <= v.len(),
            trim_end_char(v@.take(n as int), '/') == trim_end_char(v@, '/'),
        decreases n,
    {
        assert(v@.take(n as int).drop_last() == v@.take(n - 1));
        n = n - 1;
    }
    let mut kept: Vec<char> = Vec::new();
    let mut i: usize = 0;
    while i < n
        invariant
            n <= v.len(),
            i <= n,
            kept@ == v@.take(i as int),
        decreases n - i,
    {
        kept.push(v[i]);
        i = i + 1;
    }
    string_from_chars(&kept)
}

} // verus!
