//! Read-only access to JSON documents, through `serde_json`.
//!
//! A [`JsonDoc`] keeps the text it was parsed from next to the parsed value;
//! its view is that text. Every lookup is stated over names that stand for
//! what `serde_json` computes from the text, so the logic built on top is
//! verified for every answer the parser may give.
use vstd::prelude::*;
use crate::text::hex_char;

verus! {

#[verifier::external_type_specification]
#[verifier::external_body]
pub struct ExJsonValue(serde_json::Value);

/// Whether `serde_json::from_str::<Value>` accepts `text`.
pub uninterp spec fn json_parses(text: Seq<char>) -> bool;

/// `Value::pointer(pointer).and_then(Value::as_str)` on the value parsed from `text`.
pub uninterp spec fn json_str_at(text: Seq<char>, pointer: Seq<char>) -> Option<Seq<char>>;

/// `Value::pointer(pointer).and_then(Value::as_i64)` on the value parsed from `text`.
pub uninterp spec fn json_i64_at(text: Seq<char>, pointer: Seq<char>) -> Option<i64>;

/// `Value::pointer(pointer).is_some()` on the value parsed from `text`.
pub uninterp spec fn json_present_at(text: Seq<char>, pointer: Seq<char>) -> bool;

/// The keys of the object found at `pointer` in the value parsed from `text`,
/// in the order in which `serde_json::Map` walks them; `None` where there is
/// no object there.
pub uninterp spec fn json_keys_at(text: Seq<char>, pointer: Seq<char>) -> Option<Seq<Seq<char>>>;

/// How `serde_json` writes one character inside a string literal: `"` and
/// `\` with a backslash, the control characters below U+0020 as `\b`, `\t`,
/// `\n`, `\f`, `\r` or `\u00xx` (lowercase hex), anything else as it is.
pub open spec fn json_escape_char(c: char) -> Seq<char> {
    if c == '"' {
        seq!['\\', '"']
    } else if c == '\\' {
        seq!['\\', '\\']
    } else if c == '\u{8}' {
        seq!['\\', 'b']
    } else if c == '\t' {
        seq!['\\', 't']
    } else if c == '\n' {
        seq!['\\', 'n']
    } else if c == '\u{c}' {
        seq!['\\', 'f']
    } else if c == '\r' {
        seq!['\\', 'r']
    } else if (c as u32) < 0x20 {
        seq!['\\', 'u', '0', '0', hex_char(((c as u32) / 16) as nat), hex_char(((c as u32) % 16) as nat)]
    } else {
        seq![c]
    }
}

/// The escaped contents of a JSON string literal for `s`.
pub open spec fn json_escape(s: Seq<char>) -> Seq<char>
    decreases s.len(),
{
    if s.len() == 0 {
        Seq::empty()
    } else {
        json_escape(s.drop_last()) + json_escape_char(s.last())
    }
}

/// The JSON string literal for `s`, as `serde_json::to_string` writes it.
pub open spec fn json_quote(s: Seq<char>) -> Seq<char> {
    seq!['"'] + json_escape(s) + seq!['"']
}

/// A parsed JSON document together with its source text.
///
/// The two fields are only ever set together, by [`JsonDoc::parse`], so the
/// value is always what `serde_json` parsed from the text.
pub struct JsonDoc {
    text: String,
    value: serde_json::Value,
}

impl View for JsonDoc {
    type V = Seq<char>;

    closed spec fn view(&self) -> Seq<char> {
        self.text@
    }
}

impl JsonDoc {
    /// Parses `text` with `serde_json::from_str::<serde_json::Value>`.
    /// Claims: the result is `Some` exactly when the parser accepts the text,
    /// and then the document's view is the text.
    #[verifier::external_body]
    pub(crate) fn parse(text: &str) -> (res: Option<JsonDoc>)
        ensures
            res is Some <==> json_parses(text@),
            res matches Some(doc) ==> doc@ == text@,
    {
        match serde_json::from_str::<serde_json::Value>(text) {
            Ok(value) => Some(JsonDoc { text: text.to_string(), value }),
            Err(_) => None,
        }
    }

    /// `serde_json::Value::pointer` followed by `Value::as_str`, copied out.
    /// Claims: the result is the named lookup on the document's text.
    #[verifier::external_body]
    pub(crate) fn str_at(&self, pointer: &str) -> (res: Option<String>)
        ensures
            res.deep_view() == json_str_at(self@, pointer@),
    {
        match self.value.pointer(pointer).and_then(serde_json::Value::as_str) {
            Some(s) => Some(s.to_string()),
            None => None,
        }
    }

    /// `serde_json::Value::pointer` followed by `Value::as_i64`.
    /// Claims: the result is the named lookup on the document's text.
    #[verifier::external_body]
    pub(crate) fn i64_at(&self, pointer: &str) -> (res: Option<i64>)
        ensures
            res == json_i64_at(self@, pointer@),
    {
        self.value.pointer(pointer).and_then(serde_json::Value::as_i64)
    }

    /// `serde_json::Value::pointer(..).is_some()`.
    /// Claims: the result is the named lookup on the document's text.
    #[verifier::external_body]
    pub(crate) fn present_at(&self, pointer: &str) -> (res: bool)
        ensures
            res == json_present_at(self@, pointer@),
    {
        self.value.pointer(pointer).is_some()
    }

    /// `serde_json::Value::pointer`, `Value::as_object`, then the map's keys.
    /// Claims: the result is the named lookup on the document's text.
    #[verifier::external_body]
    pub(crate) fn keys_at(&self, pointer: &str) -> (res: Option<Vec<String>>)
        ensures
            res.deep_view() == json_keys_at(self@, pointer@),
    {
        match self.value.pointer(pointer).and_then(serde_json::Value::as_object) {
            Some(m) => Some(m.keys().cloned().collect()),
            None => None,
        }
    }
}

/// `serde_json::to_string` on a `&str`, which cannot fail for a string.
/// Claims: the result is the JSON string literal [`json_quote`] of `s`:
/// quotes around `s`, with `"`, the backslash and the control characters escaped as
/// `format_escaped_str` and its escape table do.
#[verifier::external_body]
pub(crate) fn quote(s: &str) -> (res: String)
    ensures
        res@ == json_quote(s@),
{
    serde_json::to_string(s).unwrap_or_default()
}

} // verus!
