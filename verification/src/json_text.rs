//! Strings kept as JSON text in the settings store: what the serializer
//! writes for a string and what the parser reads back.

use vstd::prelude::*;

verus! {

/// A character that JSON writes inside a string as it is.
pub open spec fn json_plain_char(c: char) -> bool {
    c != '"' && c != '\\' && (c as u32) >= 0x20
}

/// Text that JSON writes inside a string unescaped.
pub open spec fn json_plain(s: Seq<char>) -> bool {
    forall|i: int| 0 <= i < s.len() ==> json_plain_char(#[trigger] s[i])
}

/// `s` between double quotes.
pub open spec fn json_quoted(s: Seq<char>) -> Seq<char> {
    seq!['"'] + s + seq!['"']
}

/// The content of a quoted text.
pub open spec fn json_unquoted(t: Seq<char>) -> Seq<char> {
    t.subrange(1, t.len() - 1)
}

/// A JSON string literal with nothing escaped in it.
pub open spec fn json_plain_quoted(t: Seq<char>) -> bool {
    &&& t.len() >= 2
    &&& t[0] == '"'
    &&& t[t.len() - 1] == '"'
    &&& json_plain(json_unquoted(t))
}

/// A lowercase hexadecimal digit.
pub open spec fn json_hex_digit(d: int) -> char {
    if d < 10 { (48 + d) as char } else { (97 + d - 10) as char }
}

/// How JSON writes a character inside a string: a quote and a backslash
/// behind a backslash, backspace, tab, line feed, form feed and carriage
/// return by their short escapes, other characters below 0x20 as `\u00XX`,
/// everything else as it is.
pub open spec fn json_escaped_char(c: char) -> Seq<char> {
    let v = c as u32;
    if c == '"' {
        seq!['\\', '"']
    } else if c == '\\' {
        seq!['\\', '\\']
    } else if v == 0x08 {
        seq!['\\', 'b']
    } else if v == 0x09 {
        seq!['\\', 't']
    } else if v == 0x0A {
        seq!['\\', 'n']
    } else if v == 0x0C {
        seq!['\\', 'f']
    } else if v == 0x0D {
        seq!['\\', 'r']
    } else if v < 0x20 {
        seq!['\\', 'u', '0', '0', json_hex_digit(v as int / 16), json_hex_digit(v as int % 16)]
    } else {
        seq![c]
    }
}

/// The characters of a text as JSON writes them inside a string.
pub open spec fn json_escaped(s: Seq<char>) -> Seq<char>
    decreases s.len(),
{
    if s.len() == 0 { Seq::empty() } else { json_escaped(s.drop_last()) + json_escaped_char(s.last()) }
}

/// The JSON string literal of a text.
pub open spec fn json_string_literal(s: Seq<char>) -> Seq<char> {
    seq!['"'] + json_escaped(s) + seq!['"']
}

/// Text with nothing to escape is written as it is.
pub proof fn lemma_plain_text_unescaped(s: Seq<char>)
    requires
        json_plain(s),
    ensures
        json_escaped(s) == s,
        json_string_literal(s) == json_quoted(s),
    decreases s.len(),
{
    if s.len() > 0 {
        let init = s.drop_last();
        assert forall|i: int| 0 <= i < init.len() implies json_plain_char(#[trigger] init[i]) by {
            assert(init[i] == s[i]);
        }
        lemma_plain_text_unescaped(init);
        assert(json_plain_char(s[s.len() - 1]));
        assert(json_escaped_char(s.last()) == seq![s.last()]);
        assert(init.push(s.last()) =~= s);
        assert(init + seq![s.last()] =~= s);
    }
}

/// The string a JSON text holds, or the parser's message where it holds none.
pub uninterp spec fn json_string_parsed(raw: Seq<char>) -> Result<Seq<char>, Seq<char>>;

/// The spec value of a serialization outcome.
pub open spec fn text_result_view(r: Result<String, String>) -> Result<Seq<char>, Seq<char>> {
    match r {
        Ok(t) => Ok(t@),
        Err(e) => Err(e@),
    }
}

/// `serde_json::to_string(s)` on a string, its error shown as text. The
/// contract claims the string literal its escape table writes; the text is
/// written into a `Vec`, which takes every write, so no error comes back.
#[verifier::external_body]
pub(crate) fn json_encode_str(s: &str) -> (r: Result<String, String>)
    ensures
        r is Ok,
        r->Ok_0@ == json_string_literal(s@),
{
    match serde_json::to_string(s) {
        Ok(text) => Ok(text),
        Err(err) => Err(err.to_string()),
    }
}

/// `serde_json::from_str::<String>(raw)`, its error shown as text. The
/// outcome is named; where `raw` is a string literal with nothing escaped in
/// it the contract claims it gives the literal's content.
#[verifier::external_body]
pub(crate) fn json_decode_string(raw: &str) -> (r: Result<String, String>)
    ensures
        text_result_view(r) == json_string_parsed(raw@),
        json_plain_quoted(raw@) ==> r is Ok && r->Ok_0@ == json_unquoted(raw@),
{
    match serde_json::from_str::<String>(raw) {
        Ok(value) => Ok(value),
        Err(err) => Err(err.to_string()),
    }
}

} // verus!
