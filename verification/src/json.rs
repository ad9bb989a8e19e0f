//! JSON text for the values the library sends: string literals as
//! `serde_json` writes them, and decoding of JSON string literals.

use vstd::prelude::*;
use vstd::string::*;

use crate::text::push_str;

verus! {

/// The hexadecimal digit (lower case) for `d < 16`.
pub open spec fn hex_char(d: nat) -> char {
    if d < 10 {
        (d + '0' as int) as char
    } else {
        (d - 10 + 'a' as int) as char
    }
}

/// How `serde_json` writes one character inside a string literal: `"` and
/// `\` get a backslash; backspace, tab, line feed, form feed and carriage
/// return their short escapes; other characters below U+0020 become
/// `\u00XX` in lower-case hex; every other character stands as is.
pub open spec fn json_escape_char(c: char) -> Seq<char> {
    if c == '"' {
        seq!['\\', '"']
    } else if c == '\\' {
        seq!['\\', '\\']
    } else if c == '\u{8}' {
        seq!['\\', 'b']
    } else if c == '\t' {
        seq!['\\', 't']
    } else if c == '\n' {
        seq!['\\', 'n']
    } else if c == '\u{c}' {
        seq!['\\', 'f']
    } else if c == '\r' {
        seq!['\\', 'r']
    } else if (c as int) < 0x20 {
        seq!['\\', 'u', '0', '0', hex_char((c as nat) / 16), hex_char((c as nat) % 16)]
    } else {
        seq![c]
    }
}

/// The escaped characters of `s`, in order.
pub open spec fn json_escape(s: Seq<char>) -> Seq<char>
    decreases s.len(),
{
    if s.len() == 0 {
        Seq::empty()
    } else {
        json_escape(s.drop_last()) + json_escape_char(s.last())
    }
}

/// The JSON string literal that `serde_json` writes for `s`: a quote, the
/// escaped characters, a quote.
pub open spec fn json_string(s: Seq<char>) -> Seq<char> {
    seq!['"'] + json_escape(s) + seq!['"']
}

/// Calls `serde_json::to_string` on the string `t`: the JSON string literal
/// for it (see [`json_string`]). Writing a string cannot fail.
#[verifier::external_body]
fn json_string_text(t: &str) -> (r: String)
    ensures
        r@ == json_string(t@),
{
    serde_json::to_string(t).unwrap_or_default()
}

/// Appends the JSON string literal for `t` to `s`.
pub fn write_json_string(s: &mut String, t: &str)
    ensures
        final(s)@ == old(s)@ + json_string(t@),
{
    let text = json_string_text(t);
    push_str(s, text.as_str());
}

/// The string a JSON string literal stands for (`serde_json::from_str::<String>`
/// on the whole text); `None` where that text is not a single JSON string.
pub uninterp spec fn json_string_literal_value(text: Seq<char>) -> Option<Seq<char>>;

/// Calls `serde_json::from_str::<String>`: parses `text` as one JSON string
/// literal (whitespace allowed around it) and gives the string it denotes.
/// The contract claims only that the result is a function of `text`.
#[verifier::external_body]
pub(crate) fn parse_json_string_literal(text: &str) -> (r: Option<String>)
    ensures
        match r {
            Some(v) => json_string_literal_value(text@) == Some(v@),
            None => json_string_literal_value(text@).is_none(),
        },
{
    serde_json::from_str::<String>(text).ok()
}

} // verus!
