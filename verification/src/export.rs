//! Exported files as the interface receives them: a name, a MIME type and the
//! bytes in standard base64.

use vstd::prelude::*;

use base64::Engine;

use vstd::string::*;

use crate::api::{ApiError, ApiErrorCode, CaptureExportMeta};
use crate::requests::{ExportCaptureResponse, PointTableTemplateExportResponse};
use crate::seqs::{lemma_filter_all, lemma_filter_take_step};
use crate::strutil::{trim_bounds, trim_seq};

verus! {

/// The character of a six-bit value in the standard base64 alphabet:
/// `A-Z`, `a-z`, `0-9`, `+` and `/`.
pub open spec fn base64_digit(v: int) -> char {
    if v < 26 {
        (65 + v) as char
    } else if v < 52 {
        (97 + v - 26) as char
    } else if v < 62 {
        (48 + v - 52) as char
    } else if v == 62 {
        '+'
    } else {
        '/'
    }
}

/// The standard base64 text (RFC 4648) of some bytes: each group of three
/// bytes gives four characters of six bits each; a last group of one or two
/// bytes is padded with `=` to four characters.
pub open spec fn base64_standard(bytes: Seq<u8>) -> Seq<char>
    decreases bytes.len(),
{
    if bytes.len() == 0 {
        Seq::empty()
    } else if bytes.len() == 1 {
        let a = bytes[0] as int;
        seq![base64_digit(a / 4), base64_digit((a % 4) * 16), '=', '=']
    } else if bytes.len() == 2 {
        let a = bytes[0] as int;
        let b = bytes[1] as int;
        seq![base64_digit(a / 4), base64_digit((a % 4) * 16 + b / 16), base64_digit((b % 16) * 4), '=']
    } else {
        let a = bytes[0] as int;
        let b = bytes[1] as int;
        let c = bytes[2] as int;
        seq![base64_digit(a / 4), base64_digit((a % 4) * 16 + b / 16), base64_digit((b % 16) * 4 + c / 64), base64_digit(c % 64)]
            + base64_standard(bytes.subrange(3, bytes.len() as int))
    }
}

/// Bytes whose base64 length fits in memory.
pub open spec fn base64_encodable(len: nat) -> bool {
    4 * ((len + 2) / 3) <= usize::MAX
}

/// What standard base64 text decodes to: the bytes, or the decoder's message
/// where the text is not canonical standard base64.
pub uninterp spec fn base64_standard_decoded(text: Seq<char>) -> Result<Seq<u8>, Seq<char>>;

/// A character of the standard base64 alphabet, or the padding character.
pub open spec fn base64_text_char(c: char) -> bool {
    ('A' <= c && c <= 'Z') || ('a' <= c && c <= 'z') || ('0' <= c && c <= '9') || c == '+' || c == '/' || c == '='
}

/// `base64::engine::general_purpose::STANDARD.encode(bytes)`: the contract
/// claims the standard encoding with padding, and that the same engine
/// decodes it back to the bytes.
#[verifier::external_body]
fn base64_encode(bytes: &[u8]) -> (r: String)
    requires
        base64_encodable(bytes@.len()),
    ensures
        r@ == base64_standard(bytes@),
        base64_standard_decoded(r@) is Ok,
        base64_standard_decoded(r@)->Ok_0 == bytes@,
{
    base64::engine::general_purpose::STANDARD.encode(bytes)
}

/// The spec value of a decoding outcome.
pub open spec fn decoded_view(r: Result<Vec<u8>, String>) -> Result<Seq<u8>, Seq<char>> {
    match r {
        Ok(b) => Ok(b@),
        Err(e) => Err(e@),
    }
}

/// `base64::engine::general_purpose::STANDARD.decode(text)`, its error shown
/// as text. The outcome is named, not stated.
#[verifier::external_body]
fn base64_decode(text: &str) -> (r: Result<Vec<u8>, String>)
    ensures
        decoded_view(r) == base64_standard_decoded(text@),
{
    match base64::engine::general_purpose::STANDARD.decode(text) {
        Ok(bytes) => Ok(bytes),
        Err(err) => Err(err.to_string()),
    }
}

/// The whitespace that `u8::is_ascii_whitespace` names: space, tab, line
/// feed, form feed and carriage return.
pub open spec fn is_ascii_ws(c: char) -> bool {
    c == ' ' || c == '\t' || c == '\n' || c == '\x0C' || c == '\r'
}

/// The text without its ASCII whitespace.
pub open spec fn strip_ascii_ws(s: Seq<char>) -> Seq<char> {
    s.filter(|c: char| !is_ascii_ws(c))
}

/// `s` with every ASCII whitespace character removed.
pub fn strip_ascii_whitespace(s: &str) -> (r: String)
    ensures
        r@ == strip_ascii_ws(s@),
{
    let ghost p = |c: char| !is_ascii_ws(c);
    let n = s.unicode_len();
    let mut out = String::new();
    let mut i: usize = 0;
    while i < n
        invariant
            n == s@.len(),
            i <= n,
            p == (|c: char| !is_ascii_ws(c)),
            out@ == s@.take(i as int).filter(p),
        decreases n - i,
    {
        let c = s.get_char(i);
        proof { lemma_filter_take_step(s@, i as int, p); }
        if !(c == ' ' || c == '\t' || c == '\n' || c == '\x0C' || c == '\r') {
            out.append(s.substring_char(i, i + 1));
            assert(s@.subrange(i as int, i + 1) =~= seq![c]);
        }
        i = i + 1;
    }
    assert(s@.take(n as int) =~= s@);
    out
}

/// The message of a base64 text that does not decode.
pub open spec fn base64_invalid_message(err: Seq<char>) -> Seq<char> {
    "Base64 数据不合法: "@ + err
}

/// Decodes standard base64 text, ignoring ASCII whitespace in it.
pub fn decode_base64_bytes(input: &str) -> (r: Result<Vec<u8>, String>)
    ensures
        match base64_standard_decoded(strip_ascii_ws(input@)) {
            Ok(b) => r is Ok && r->Ok_0@ == b,
            Err(e) => r is Err && r->Err_0@ == base64_invalid_message(e),
        },
{
    let compact = strip_ascii_whitespace(input);
    match base64_decode(compact.as_str()) {
        Ok(bytes) => Ok(bytes),
        Err(err) => Err(String::from_str("Base64 数据不合法: ").concat(err.as_str())),
    }
}

/// The path an export is saved to: `file_path` trimmed, refused when nothing is left.
pub fn validate_export_path(file_path: &str) -> (r: Result<String, ApiError>)
    ensures
        trim_seq(file_path@).len() == 0 <==> r is Err,
        r matches Ok(p) ==> p@ == trim_seq(file_path@),
        r matches Err(e) ==> e.code == ApiErrorCode::InvalidExportPath && e.message@ == "保存路径不能为空"@
            && e.detail is None && e.params is None,
{
    let (a, b) = trim_bounds(file_path);
    if a == b {
        Err(ApiError {
            code: ApiErrorCode::InvalidExportPath,
            message: String::from_str("保存路径不能为空"),
            detail: None,
            params: None,
        })
    } else {
        Ok(String::from_str(file_path.substring_char(a, b)))
    }
}

/// The bytes an export carries in base64, or the refusal of data that does not decode.
pub fn decode_export_data(data_base64: &str) -> (r: Result<Vec<u8>, ApiError>)
    ensures
        match base64_standard_decoded(strip_ascii_ws(data_base64@)) {
            Ok(b) => r is Ok && r->Ok_0@ == b,
            Err(e) => r matches Err(err) && err.code == ApiErrorCode::InvalidExportData
                && err.message@ == "导出内容解码失败: "@ + base64_invalid_message(e)
                && err.detail is None && err.params is None,
        },
{
    match decode_base64_bytes(data_base64) {
        Ok(bytes) => Ok(bytes),
        Err(err) => Err(ApiError {
            code: ApiErrorCode::InvalidExportData,
            message: String::from_str("导出内容解码失败: ").concat(err.as_str()),
            detail: None,
            params: None,
        }),
    }
}

/// The answer to a capture export: the capture's name and type and its bytes in base64.
pub fn build_capture_export_response(meta: CaptureExportMeta, bytes: &[u8]) -> (r: ExportCaptureResponse)
    requires
        base64_encodable(bytes@.len()),
    ensures
        r.file_name == meta.file_name,
        r.mime_type@ == meta.mime_type@,
        r.data_base64@ == base64_standard(bytes@),
        base64_standard_decoded(strip_ascii_ws(r.data_base64@)) is Ok,
        base64_standard_decoded(strip_ascii_ws(r.data_base64@))->Ok_0 == bytes@,
{
    let data_base64 = base64_encode(bytes);
    proof {
        lemma_base64_standard_shape(bytes@);
        lemma_encoded_text_decodes(bytes@, data_base64@);
    }
    ExportCaptureResponse { file_name: meta.file_name, mime_type: String::from_str(meta.mime_type), data_base64 }
}

/// The answer to a point table template export: a CSV file in base64.
pub fn build_template_export_response(file_name: String, bytes: &[u8]) -> (r: PointTableTemplateExportResponse)
    requires
        base64_encodable(bytes@.len()),
    ensures
        r.file_name == file_name,
        r.mime_type@ == "text/csv;charset=utf-8"@,
        r.data_base64@ == base64_standard(bytes@),
        base64_standard_decoded(strip_ascii_ws(r.data_base64@)) is Ok,
        base64_standard_decoded(strip_ascii_ws(r.data_base64@))->Ok_0 == bytes@,
{
    let data_base64 = base64_encode(bytes);
    proof {
        lemma_base64_standard_shape(bytes@);
        lemma_encoded_text_decodes(bytes@, data_base64@);
    }
    PointTableTemplateExportResponse { file_name, mime_type: String::from_str("text/csv;charset=utf-8"), data_base64 }
}

proof fn lemma_base64_digit(v: int)
    requires
        0 <= v < 64,
    ensures
        base64_text_char(base64_digit(v)),
{
}

/// The standard base64 text of some bytes has four characters for every
/// started group of three bytes, each of the alphabet or `=`.
pub proof fn lemma_base64_standard_shape(bytes: Seq<u8>)
    ensures
        base64_standard(bytes).len() == 4 * ((bytes.len() + 2) / 3),
        forall|i: int| 0 <= i < base64_standard(bytes).len() ==> base64_text_char(#[trigger] base64_standard(bytes)[i]),
    decreases bytes.len(),
{
    let t = base64_standard(bytes);
    if bytes.len() == 0 {
    } else if bytes.len() <= 2 {
        let a = bytes[0] as int;
        lemma_base64_digit(a / 4);
        lemma_base64_digit((a % 4) * 16);
        if bytes.len() == 2 {
            let b = bytes[1] as int;
            lemma_base64_digit((a % 4) * 16 + b / 16);
            lemma_base64_digit((b % 16) * 4);
        }
    } else {
        let a = bytes[0] as int;
        let b = bytes[1] as int;
        let c = bytes[2] as int;
        let rest = bytes.subrange(3, bytes.len() as int);
        lemma_base64_standard_shape(rest);
        lemma_base64_digit(a / 4);
        lemma_base64_digit((a % 4) * 16 + b / 16);
        lemma_base64_digit((b % 16) * 4 + c / 64);
        lemma_base64_digit(c % 64);
        let head = seq![base64_digit(a / 4), base64_digit((a % 4) * 16 + b / 16), base64_digit((b % 16) * 4 + c / 64), base64_digit(c % 64)];
        assert(t == head + base64_standard(rest));
        assert forall|i: int| 0 <= i < t.len() implies base64_text_char(#[trigger] t[i]) by {
            if i >= 4 {
                assert(t[i] == base64_standard(rest)[i - 4]);
            }
        }
    }
}

/// Base64 text in the standard alphabet has no whitespace to strip before decoding.
proof fn lemma_encoded_text_decodes(bytes: Seq<u8>, text: Seq<char>)
    requires
        text == base64_standard(bytes),
        forall|i: int| 0 <= i < text.len() ==> base64_text_char(#[trigger] text[i]),
        base64_standard_decoded(text) is Ok,
        base64_standard_decoded(text)->Ok_0 == bytes,
    ensures
        base64_standard_decoded(strip_ascii_ws(text)) is Ok,
        base64_standard_decoded(strip_ascii_ws(text))->Ok_0 == bytes,
{
    let p = |c: char| !is_ascii_ws(c);
    assert forall|i: int| 0 <= i < text.len() implies p(#[trigger] text[i]) by {
        assert(base64_text_char(text[i]));
    }
    lemma_filter_all(text, p);
}

} // verus!
