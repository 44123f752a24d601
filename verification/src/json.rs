use vstd::prelude::*;

verus! {

/// The lowercase hexadecimal digit of `n`, for `n` below 16.
pub open spec fn hex_digit(n: u32) -> char {
    seq!['0', '1', '2', '3', '4', '5', '6', '7', '8', '9', 'a', 'b', 'c', 'd', 'e', 'f'][n as int]
}

/// How `serde_json` writes `c` inside a JSON string: the quote and the
/// backslash behind a backslash; backspace, form feed, newline, carriage
/// return and tab as their short escapes; the other controls below 0x20
/// as `\u00xx` in lowercase hex; every other character as it is.
pub open spec fn json_escaped_char(c: char) -> Seq<char> {
    if c == '"' {
        seq!['\\', '"']
    } else if c == '\\' {
        seq!['\\', '\\']
    } else if c == '\x08' {
        seq!['\\', 'b']
    } else if c == '\x0c' {
        seq!['\\', 'f']
    } else if c == '\n' {
        seq!['\\', 'n']
    } else if c == '\r' {
        seq!['\\', 'r']
    } else if c == '\t' {
        seq!['\\', 't']
    } else if (c as u32) < 0x20 {
        seq!['\\', 'u', '0', '0', hex_digit((c as u32) / 16), hex_digit((c as u32) % 16)]
    } else {
        seq![c]
    }
}

/// The characters of `text`, each written as `json_escaped_char` says.
pub open spec fn json_escaped(text: Seq<char>) -> Seq<char>
    decreases text.len(),
{
    if text.len() == 0 {
        seq![]
    } else {
        json_escaped_char(text[0]) + json_escaped(text.drop_first())
    }
}

/// What `serde_json` prints for a JSON string holding `text`: the escaped
/// text between two quotes.
pub open spec fn json_string_text(text: Seq<char>) -> Seq<char> {
    seq!['"'] + json_escaped(text) + seq!['"']
}

/// True when `serde_json` writes `c` inside a string as it is: every
/// character but the quote, the backslash and the controls below 0x20.
pub open spec fn json_plain_char(c: char) -> bool {
    c != '"' && c != '\\' && (c as u32) >= 0x20
}

/// A text made of plain characters is written as it is.
pub proof fn lemma_plain_text_unescaped(text: Seq<char>)
    requires
        forall|i: int| 0 <= i < text.len() ==> json_plain_char(#[trigger] text[i]),
    ensures
        json_escaped(text) == text,
    decreases text.len(),
{
    if text.len() > 0 {
        assert(json_plain_char(text[0]));
        let rest = text.drop_first();
        assert forall|i: int| 0 <= i < rest.len() implies json_plain_char(#[trigger] rest[i]) by {
            assert(rest[i] == text[i + 1]);
        }
        lemma_plain_text_unescaped(rest);
        assert(seq![text[0]] + rest =~= text);
    }
}

/// Calls `serde_json::Value::String` and prints the value through its
/// `Display` impl (compact form), as `json!(text).to_string()` does.
/// Claimed: the result is the text between quotes, escaped character by
/// character as `json_escaped_char` says.
#[verifier::external_body]
pub(crate) fn json_string(text: &str) -> (json: String)
    ensures
        json@ == json_string_text(text@),
{
    serde_json::Value::String(text.to_owned()).to_string()
}

/// The bytes that JSON counts as whitespace: space, tab, newline and
/// carriage return.
pub open spec fn json_ws(b: u8) -> bool {
    b == 0x20 || b == 0x09 || b == 0x0a || b == 0x0d
}

/// `bytes` without its leading JSON whitespace.
pub open spec fn trim_json_ws_start(bytes: Seq<u8>) -> Seq<u8>
    decreases bytes.len(),
{
    if bytes.len() > 0 && json_ws(bytes[0]) {
        trim_json_ws_start(bytes.drop_first())
    } else {
        bytes
    }
}

/// `bytes` without its trailing JSON whitespace.
pub open spec fn trim_json_ws_end(bytes: Seq<u8>) -> Seq<u8>
    decreases bytes.len(),
{
    if bytes.len() > 0 && json_ws(bytes.last()) {
        trim_json_ws_end(bytes.drop_last())
    } else {
        bytes
    }
}

/// The bytes of `true`.
pub open spec fn true_bytes() -> Seq<u8> {
    seq![0x74u8, 0x72, 0x75, 0x65]
}

/// The bytes of `false`.
pub open spec fn false_bytes() -> Seq<u8> {
    seq![0x66u8, 0x61, 0x6c, 0x73, 0x65]
}

/// What `serde_json` reads from `bytes` as one JSON boolean: `true` or
/// `false` with nothing around them but JSON whitespace, or else nothing.
pub open spec fn json_bool_reading(bytes: Seq<u8>) -> Option<bool> {
    let core = trim_json_ws_end(trim_json_ws_start(bytes));
    if core == true_bytes() {
        Some(true)
    } else if core == false_bytes() {
        Some(false)
    } else {
        None
    }
}

/// Calls `serde_json::from_slice::<bool>` and drops its error. Claimed:
/// the bytes hold a boolean exactly where they are `true` or `false` with
/// only JSON whitespace around them, and then the result is that boolean.
#[verifier::external_body]
pub(crate) fn parse_json_bool(bytes: &[u8]) -> (parsed: Option<bool>)
    ensures
        parsed == json_bool_reading(bytes@),
{
    serde_json::from_slice::<bool>(bytes).ok()
}

} // verus!
