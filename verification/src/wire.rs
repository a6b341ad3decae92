//! The wire form of an event: one JSON object per text frame.
//!
//! An event travels as `{"kind":K,"value":V}`, where `K` is the name of the
//! kind as a JSON string and `V` is either a JSON string (the name of a button
//! or key) or the object `{"x":X,"y":Y}` of two number literals.

use crate::device::{DeviceEvent, DeviceValue, EventView, ValueView};
use vstd::prelude::*;
use vstd::string::*;

verus! {

/// The error type of the JSON serializer.
#[verifier::external_type_specification]
#[verifier::external_body]
pub struct ExJsonError(serde_json::Error);

/// The lower-case hexadecimal digit of value `n`, for `0 <= n < 16`.
pub open spec fn hex_digit(n: int) -> char {
    seq!['0', '1', '2', '3', '4', '5', '6', '7', '8', '9', 'a', 'b', 'c', 'd', 'e', 'f'][n]
}

/// How one character stands inside a JSON string: the quotation mark, the
/// backslash and the control characters below U+0020 are escaped, every other
/// character stands for itself.
pub open spec fn escape(c: char) -> Seq<char> {
    if c == '"' {
        seq!['\\', '"']
    } else if c == '\\' {
        seq!['\\', '\\']
    } else if c == '\u{8}' {
        seq!['\\', 'b']
    } else if c == '\u{9}' {
        seq!['\\', 't']
    } else if c == '\u{a}' {
        seq!['\\', 'n']
    } else if c == '\u{c}' {
        seq!['\\', 'f']
    } else if c == '\u{d}' {
        seq!['\\', 'r']
    } else if (c as int) < 0x20 {
        seq!['\\', 'u', '0', '0', hex_digit((c as int) / 16), hex_digit((c as int) % 16)]
    } else {
        seq![c]
    }
}

/// The characters of `s`, each in its escaped form.
pub open spec fn escaped(s: Seq<char>) -> Seq<char>
    decreases s.len(),
{
    if s.len() == 0 {
        Seq::empty()
    } else {
        escape(s.first()) + escaped(s.drop_first())
    }
}

/// The JSON string that holds `s`: its escaped characters between quotation
/// marks.
pub open spec fn json_string(s: Seq<char>) -> Seq<char> {
    seq!['"'] + escaped(s) + seq!['"']
}

/// The wire form of a payload.
pub open spec fn value_text(value: ValueView) -> Seq<char> {
    match value {
        ValueView::Name(name) => json_string(name),
        ValueView::Position { x, y } => "{\"x\":"@ + x + ",\"y\":"@ + y + "}"@,
    }
}

/// The wire form of an event.
pub open spec fn frame_text(event: EventView) -> Seq<char> {
    "{\"kind\":"@ + json_string(event.kind.name()) + ",\"value\":"@ + value_text(event.value)
        + "}"@
}

/// Serializes a string with `serde_json::to_string`.
///
/// Trusted: the serializer writes a string as a quotation mark, the
/// characters with `"`, `\` and the control characters below U+0020 escaped
/// (the short forms `\b`, `\t`, `\n`, `\f`, `\r` where they exist, `\u00XX`
/// in lower-case hexadecimal otherwise), and a closing quotation mark. It
/// fails only where the value's own serialization fails or a map has a key
/// that is no string; a string is neither, so the result is `Ok`.
#[verifier::external_body]
fn to_json(value: &str) -> (text: Result<String, serde_json::Error>)
    ensures
        text is Ok,
        text matches Ok(t) ==> t@ == json_string(value@),
{
    serde_json::to_string(value)
}

/// Renders `value` as a JSON string.
pub fn quote(value: &str) -> (text: String)
    ensures
        text@ == json_string(value@),
{
    match to_json(value) {
        Ok(text) => text,
        Err(_) => unreached(),
    }
}

/// Encodes an event as the text of one frame.
pub fn encode(event: &DeviceEvent) -> (frame: String)
    ensures
        frame@ == frame_text(event@),
{
    let mut frame = "{\"kind\":".to_owned();
    let kind = quote(event.kind().as_str());
    frame.append(kind.as_str());
    frame.append(",\"value\":");
    match event.value() {
        DeviceValue::Name(name) => {
            let name = quote(name.as_str());
            frame.append(name.as_str());
        },
        DeviceValue::Position { x, y } => {
            frame.append("{\"x\":");
            frame.append(x.as_str());
            frame.append(",\"y\":");
            frame.append(y.as_str());
            frame.append("}");
        },
    }
    frame.append("}");
    frame
}

} // verus!
