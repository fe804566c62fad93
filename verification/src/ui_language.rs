//! The interface language setting: how the stored JSON value is read back,
//! and how a new choice is checked and written.

use vstd::prelude::*;

use crate::api::{normalize_ui_language, spec_ui_language, ApiError, ApiErrorCode};
use crate::json_text::{json_decode_string, json_encode_str, json_plain, json_plain_quoted, json_quoted, json_string_parsed, json_unquoted, lemma_plain_text_unescaped};
use crate::strutil::trim_seq;

verus! {

/// The settings key under which the interface language is kept.
pub const UI_LANGUAGE_SETTING_KEY: &'static str = "ui.language";

/// The settings category of interface preferences.
pub const UI_SETTING_CATEGORY: &'static str = "ui";

/// The language used when none, or none that is offered, is stored.
pub const DEFAULT_UI_LANGUAGE: &'static str = "zh-CN";

/// The offered locale `locale` names, or the default.
pub open spec fn normalized_or_default(locale: Seq<char>) -> Seq<char> {
    match spec_ui_language(locale) {
        Some(l) => l,
        None => "zh-CN"@,
    }
}

/// The interface language a stored JSON value gives.
pub open spec fn spec_stored_ui_language(raw: Seq<char>) -> Seq<char> {
    match json_string_parsed(raw) {
        Ok(locale) => normalized_or_default(locale),
        Err(_) => "zh-CN"@,
    }
}

/// The interface language from what the settings store answered: the stored
/// value where it is a JSON string naming an offered locale, else the default;
/// a failed read is reported.
pub fn read_ui_language(stored: Result<Option<String>, String>) -> (r: Result<String, ApiError>)
    ensures
        match stored {
            Err(e) => r matches Err(err) && err.code == ApiErrorCode::DbReadFailed
                && err.message@ == "读取界面语言失败: "@ + e@ && err.detail is None && err.params is None,
            Ok(None) => r matches Ok(l) && l@ == "zh-CN"@,
            Ok(Some(raw)) => r matches Ok(l) && l@ == spec_stored_ui_language(raw@)
                && (json_plain_quoted(raw@) ==> l@ == normalized_or_default(json_unquoted(raw@))),
        },
{
    match stored {
        Err(e) => Err(ApiError {
            code: ApiErrorCode::DbReadFailed,
            message: String::from_str("读取界面语言失败: ").concat(e.as_str()),
            detail: None,
            params: None,
        }),
        Ok(None) => Ok(String::from_str(DEFAULT_UI_LANGUAGE)),
        Ok(Some(raw)) => match json_decode_string(raw.as_str()) {
            Ok(locale) => match normalize_ui_language(locale.as_str()) {
                Some(l) => Ok(String::from_str(l)),
                None => Ok(String::from_str(DEFAULT_UI_LANGUAGE)),
            },
            Err(_) => Ok(String::from_str(DEFAULT_UI_LANGUAGE)),
        },
    }
}

proof fn lemma_offered_locales_plain()
    ensures
        json_plain("zh-CN"@),
        json_plain("en-US"@),
{
    reveal_strlit("zh-CN");
    reveal_strlit("en-US");
}

/// The JSON value to store for a new interface language, or the refusal of a
/// locale that is not offered.
pub fn prepare_ui_language_value(locale: &str) -> (r: Result<String, ApiError>)
    ensures
        match spec_ui_language(locale@) {
            None => r matches Err(err) && err.code == ApiErrorCode::InvalidLocale
                && err.message@ == "不支持的界面语言: "@ + locale@ && err.detail is None
                && err.params is Some && err.params->0@.len() == 1 && err.params->0@[0].0@ == "locale"@
                && err.params->0@[0].1@ == locale@,
            Some(l) => r matches Ok(v) && v@ == json_quoted(l),
        },
{
    match normalize_ui_language(locale) {
        None => {
            let mut params: Vec<(String, String)> = Vec::new();
            params.push((String::from_str("locale"), String::from_str(locale)));
            Err(ApiError {
                code: ApiErrorCode::InvalidLocale,
                message: String::from_str("不支持的界面语言: ").concat(locale),
                detail: None,
                params: Some(params),
            })
        },
        Some(l) => {
            proof {
                lemma_offered_locales_plain();
                lemma_plain_text_unescaped(l@);
            }
            match json_encode_str(l) {
                Ok(value) => Ok(value),
                Err(err) => Err(ApiError {
                    code: ApiErrorCode::InternalError,
                    message: String::from_str("序列化界面语言失败: ").concat(err.as_str()),
                    detail: None,
                    params: None,
                }),
            }
        },
    }
}

/// The answer to a write of the interface language to the settings store.
pub fn finish_ui_language_write(outcome: Result<(), String>) -> (r: Result<(), ApiError>)
    ensures
        match outcome {
            Ok(()) => r is Ok,
            Err(e) => r matches Err(err) && err.code == ApiErrorCode::DbWriteFailed
                && err.message@ == "保存界面语言失败: "@ + e@ && err.detail is None && err.params is None,
        },
{
    match outcome {
        Ok(()) => Ok(()),
        Err(e) => Err(ApiError {
            code: ApiErrorCode::DbWriteFailed,
            message: String::from_str("保存界面语言失败: ").concat(e.as_str()),
            detail: None,
            params: None,
        }),
    }
}

/// What is written for an offered locale reads back as that locale.
pub proof fn ui_language_write_then_read(locale: Seq<char>)
    requires
        spec_ui_language(locale) is Some,
    ensures
        json_plain_quoted(json_quoted(spec_ui_language(locale)->0)),
        normalized_or_default(json_unquoted(json_quoted(spec_ui_language(locale)->0)))
            == spec_ui_language(locale)->0,
{
    reveal_strlit("zh-CN");
    reveal_strlit("en-US");
    let l = spec_ui_language(locale)->0;
    let q = json_quoted(l);
    assert(json_unquoted(q) =~= l);
    lemma_offered_locales_plain();
    if l == "zh-CN"@ {
        assert(trim_seq(l) == l);
    } else {
        assert(trim_seq(l) == l);
    }
}

} // verus!
