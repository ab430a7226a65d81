//! The built-in Google translator, which needs no key.
use crate::error::{AppError, Result};
use crate::json::{json_element, json_items, json_text, JsonValue};
use crate::text::{is_blank, join2, owned, str_blank};
use crate::translator::{
    error_kind_message, failed_status_error, failed_status_message, is_success_status,
    trim_end_char, trim_end_slashes, ProviderKind, TranslationErrorKind, TranslationRequest,
    TranslationResponse,
};
use vstd::prelude::*;

verus! {

/// The address of the service used when none is given.
pub const GOOGLE_TRANSLATE_BASE_URL: &'static str = "https://translate.googleapis.com";

/// A byte that stands for itself in a URL: an ASCII letter or digit, `-`,
/// `.`, `_` or `~`.
pub open spec fn is_url_safe_byte(b: u8) -> bool {
    (0x30 <= b <= 0x39) || (0x41 <= b <= 0x5A) || (0x61 <= b <= 0x7A) || b == 0x2D || b == 0x2E
        || b == 0x5F || b == 0x7E
}

/// The upper-case hexadecimal digit of `d`.
pub open spec fn hex_digit(d: u8) -> char {
    if d < 10 {
        (0x30 + d) as char
    } else {
        (0x41 - 10 + d) as char
    }
}

/// `bytes` with every byte but the safe ones written as `%` and two
/// upper-case hexadecimal digits.
pub open spec fn percent_encoded(bytes: Seq<u8>) -> Seq<char>
    decreases bytes.len(),
{
    if bytes.len() == 0 {
        Seq::empty()
    } else {
        let b = bytes[0];
        let head = if is_url_safe_byte(b) {
            seq![b as char]
        } else {
            seq!['%', hex_digit(b / 16), hex_digit(b % 16)]
        };
        head + percent_encoded(bytes.drop_first())
    }
}

/// `s` as it is written in a URL: its UTF-8 bytes, percent-encoded.
pub open spec fn url_encoded(s: Seq<char>) -> Seq<char> {
    percent_encoded(vstd::utf8::encode_utf8(s))
}

/// `urlencoding::encode`: percent-encodes every UTF-8 byte of `text` except
/// ASCII letters, digits, `-`, `.`, `_` and `~`, with upper-case hexadecimal
/// digits (as its documentation and source show).
#[verifier::external_body]
fn url_encode(text: &str) -> (r: String)
    ensures
        r@ == url_encoded(text@),
{
    urlencoding::encode(text).into_owned()
}

/// The address that asks the service behind `base_url` to translate the
/// request.
pub open spec fn google_url_text(base_url: Seq<char>, source: Seq<char>, target: Seq<char>, text: Seq<char>) -> Seq<char> {
    trim_end_char(base_url, '/') + "/translate_a/single?client=gtx&sl="@ + url_encoded(source)
        + "&tl="@ + url_encoded(target) + "&dt=t&q="@ + url_encoded(text)
}

/// The address that asks the service behind `base_url` (without its
/// trailing slashes) to translate the request, each part URL-encoded.
pub fn google_translate_url(base_url: &str, request: &TranslationRequest) -> (r: String)
    ensures
        r@ == google_url_text(
            base_url@,
            request.source_lang@,
            request.target_lang@,
            request.text@,
        ),
{
    let base = trim_end_slashes(base_url);
    let source = url_encode(request.source_lang.as_str());
    let target = url_encode(request.target_lang.as_str());
    let text = url_encode(request.text.as_str());
    let mut url = join2(base.as_str(), "/translate_a/single?client=gtx&sl=");
    url.append(source.as_str());
    url.append("&tl=");
    url.append(target.as_str());
    url.append("&dt=t&q=");
    url.append(text.as_str());
    url
}

/// The label of the message for a failed status.
pub open spec fn google_failure_label() -> Seq<char> {
    "内置 Google 翻译失败，状态码: "@
}

/// What an answer with the given status means: too many requests is a rate
/// limit, forbidden means the interface changed, any other failure is named
/// with its status, and a success is no error.
pub open spec fn google_status_outcome(status: u16) -> Option<Seq<char>> {
    if status == 429 {
        Some(error_kind_message(TranslationErrorKind::RateLimited))
    } else if status == 403 {
        Some(error_kind_message(TranslationErrorKind::ProviderChanged))
    } else if !is_success_status(status) {
        Some(failed_status_message(google_failure_label(), status))
    } else {
        None
    }
}

/// The translation error for an answer with the given status, if it is one
/// (see `google_status_outcome`).
pub fn google_status_error(status: u16) -> (r: Option<AppError>)
    requires
        100 <= status <= 999,
    ensures
        match google_status_outcome(status) {
            Some(m) => r matches Some(e) && e matches AppError::Translate(t) && t@ == m,
            None => r is None,
        },
{
    if status == 429 {
        Some(TranslationErrorKind::RateLimited.to_error())
    } else if status == 403 {
        Some(TranslationErrorKind::ProviderChanged.to_error())
    } else if status < 200 || status > 299 {
        Some(failed_status_error("内置 Google 翻译失败，状态码: ", status))
    } else {
        None
    }
}

/// The texts of the segments, joined; nothing when one has no text first.
pub open spec fn segments_text(segments: Seq<JsonValue>) -> Option<Seq<char>>
    decreases segments.len(),
{
    if segments.len() == 0 {
        Some(Seq::empty())
    } else {
        match json_element(segments.last(), 0) {
            Some(first) => match json_text(first) {
                Some(t) => match segments_text(segments.drop_last()) {
                    Some(before) => Some(before + t),
                    None => None,
                },
                None => None,
            },
            None => None,
        }
    }
}

/// The translation in an answer of the service: the first element is an
/// array of segments, each an array whose first element is the translated
/// text of the segment; the texts joined must not be blank.
pub open spec fn google_answer_text(json: JsonValue) -> Option<Seq<char>> {
    match json_element(json, 0) {
        Some(first) => match json_items(first) {
            Some(segments) => match segments_text(segments) {
                Some(t) => if is_blank(t) {
                    None
                } else {
                    Some(t)
                },
                None => None,
            },
            None => None,
        },
        None => None,
    }
}

fn invalid_response() -> (e: AppError)
    ensures
        e matches AppError::Translate(m) && m@ == error_kind_message(
            TranslationErrorKind::InvalidResponse,
        ),
{
    TranslationErrorKind::InvalidResponse.to_error()
}

/// The translation in an answer of the service (see `google_answer_text`);
/// an answer of another shape is an invalid response.
pub fn parse_google_response(json: &JsonValue) -> (r: Result<String>)
    ensures
        match google_answer_text(*json) {
            Some(t) => r matches Ok(s) && s@ == t,
            None => r matches Err(e) && e matches AppError::Translate(m) && m@
                == error_kind_message(TranslationErrorKind::InvalidResponse),
        },
{
    let first = match json.get(0) {
        Some(first) => first,
        None => return Err(invalid_response()),
    };
    let segments = match first.as_array() {
        Some(segments) => segments,
        None => return Err(invalid_response()),
    };
    let mut out = String::new();
    let mut i: usize = 0;
    while i < segments.len()
        invariant
            i <= segments.len(),
            json_element(*json, 0) == Some(*first),
            json_items(*first) == Some(segments@),
            segments_text(segments@.take(i as int)) == Some(out@),
        decreases segments.len() - i,
    {
        assert(segments@.take(i + 1).drop_last() == segments@.take(i as int));
        assert(segments@.take(i + 1).last() == segments@[i as int]);
        let text = match segments[i].get(0) {
            Some(head) => match head.as_str() {
                Some(text) => text,
                None => {
                    proof {
                        lemma_segments_fail_after(segments@, i as int + 1);
                    }
                    return Err(invalid_response());
                },
            },
            None => {
                proof {
                    lemma_segments_fail_after(segments@, i as int + 1);
                }
                return Err(invalid_response());
            },
        };
        out.append(text);
        i = i + 1;
    }
    assert(segments@.take(segments@.len() as int) == segments@);
    if str_blank(out.as_str()) {
        return Err(invalid_response());
    }
    Ok(out)
}

/// Once a prefix of the segments has no text, no longer prefix has one.
proof fn lemma_segments_fail_after(segments: Seq<JsonValue>, k: int)
    requires
        0 < k <= segments.len(),
        segments_text(segments.take(k)) is None,
    ensures
        segments_text(segments) is None,
    decreases segments.len() - k,
{
    if k < segments.len() {
        assert(segments.take(k + 1).drop_last() == segments.take(k));
        lemma_segments_fail_after(segments, k + 1);
    } else {
        assert(segments.take(k) == segments);
    }
}

/// The answer of the service as a translation by the built-in Google
/// provider (see `parse_google_response`).
pub fn google_translation_response(json: &JsonValue) -> (r: Result<TranslationResponse>)
    ensures
        match google_answer_text(*json) {
            Some(t) => r matches Ok(resp) && resp.translated_text@ == t && resp.provider
                == ProviderKind::Google,
            None => r matches Err(e) && e matches AppError::Translate(m) && m@
                == error_kind_message(TranslationErrorKind::InvalidResponse),
        },
{
    let text = parse_google_response(json)?;
    Ok(TranslationResponse { translated_text: text, provider: ProviderKind::Google })
}

} // verus!
