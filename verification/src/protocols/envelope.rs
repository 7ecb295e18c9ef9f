//! The error envelope of the Anthropic Messages API, as text on the wire.

use crate::json::{self, Json};
use vstd::prelude::*;
use vstd::string::*;
use vstd::utf8::*;

verus! {

/// A hexadecimal digit, in lower case.
pub open spec fn hex_digit(d: int) -> char {
    if d < 10 {
        ('0' as int + d) as char
    } else {
        ('a' as int + d - 10) as char
    }
}

/// How a character is written inside a JSON string.
pub open spec fn json_escaped(c: char) -> Seq<char> {
    if c == '"' || c == '\\' {
        seq!['\\', c]
    } else if c == '\u{8}' {
        seq!['\\', 'b']
    } else if c == '\u{9}' {
        seq!['\\', 't']
    } else if c == '\u{a}' {
        seq!['\\', 'n']
    } else if c == '\u{c}' {
        seq!['\\', 'f']
    } else if c == '\u{d}' {
        seq!['\\', 'r']
    } else if '\u{20}' > c {
        seq!['\\', 'u', '0', '0', hex_digit(c as int / 16), hex_digit(c as int % 16)]
    } else {
        seq![c]
    }
}

/// The JSON string that holds `text`, quotes included.
pub open spec fn json_quoted(text: Seq<char>) -> Seq<char> {
    seq!['"'] + text.flat_map(|c: char| json_escaped(c)) + seq!['"']
}

/// The envelope's text around a message that is already a JSON string. The
/// canonical field order puts `type` before the rest, on both levels.
pub open spec fn envelope_text(quoted_message: Seq<char>) -> Seq<char> {
    "{\"type\":\"error\",\"error\":{\"type\":\"invalid_request_error\",\"message\":"@
        + quoted_message + "}}"@
}

/// The bytes of the envelope that reports `message`.
pub open spec fn envelope_bytes(message: Seq<char>) -> Seq<u8> {
    encode_utf8(envelope_text(json_quoted(message)))
}

/// The envelope that reports `message`, as a JSON value.
pub open spec fn envelope(message: Seq<char>) -> Json {
    Json::Object(
        map![
            "type"@ => Json::Text("error"@),
            "error"@ => Json::Object(
                map![
                    "type"@ => Json::Text("invalid_request_error"@),
                    "message"@ => Json::Text(message),
                ],
            ),
        ],
    )
}

/// `serde_json::to_string` on text, which it always succeeds on: the JSON
/// string that holds the text. The last clause says that what `serde_json`
/// wrote it reads back: put into the envelope's text, the written string is
/// read as the envelope with the same message.
#[verifier::external_body]
fn quote(text: &str) -> (quoted: Option<String>)
    ensures
        quoted is Some,
        quoted->0@ == json_quoted(text@),
        json::json_document(encode_utf8(envelope_text(quoted->0@))) == Some(envelope(text@)),
{
    serde_json::to_string(text).ok()
}

/// The bytes of the error envelope that reports `message`.
pub fn error_envelope(message: &str) -> (bytes: Vec<u8>)
    ensures
        bytes@ == envelope_bytes(message@),
        bytes@ == encode_utf8(
            "{\"type\":\"error\",\"error\":{\"type\":\"invalid_request_error\",\"message\":"@
                + json_quoted(message@) + "}}"@,
        ),
        json::json_document(bytes@) == Some(envelope(message@)),
{
    let quoted = quote(message).unwrap();
    let mut text = String::from_str(
        "{\"type\":\"error\",\"error\":{\"type\":\"invalid_request_error\",\"message\":",
    );
    text.append(quoted.as_str());
    text.append("}}");
    text.as_str().as_bytes_vec()
}

/// The bytes of an envelope are its fixed text with the message, as a JSON
/// string, in its place.
pub proof fn law_envelope_frames_the_message(message: Seq<char>)
    ensures
        envelope_bytes(message) == encode_utf8(
            "{\"type\":\"error\",\"error\":{\"type\":\"invalid_request_error\",\"message\":"@
                + json_quoted(message) + "}}"@,
        ),
{
}

/// As JSON, an envelope is an object with the members `type` and `error`, and
/// its error is an object with the members `type` and `message`.
pub proof fn law_envelope_has_two_levels(message: Seq<char>)
    ensures
        envelope(message) matches Json::Object(outer) && {
            &&& outer.dom() == set!["type"@, "error"@]
            &&& outer["type"@] == Json::Text("error"@)
            &&& outer["error"@] matches Json::Object(inner)
            &&& inner.dom() == set!["type"@, "message"@]
            &&& inner["type"@] == Json::Text("invalid_request_error"@)
            &&& inner["message"@] == Json::Text(message)
        },
{
    reveal_strlit("type");
    reveal_strlit("error");
    reveal_strlit("message");
    assert("type"@.len() != "error"@.len());
    assert("type"@.len() != "message"@.len());
    assert(envelope(message)->Object_0.dom() == set!["type"@, "error"@]);
    let inner = envelope(message)->Object_0["error"@];
    assert(inner->Object_0.dom() == set!["type"@, "message"@]);
}

/// The JSON string of the empty text is two quotes.
pub proof fn law_empty_text_is_two_quotes()
    ensures
        json_quoted(Seq::empty()) == seq!['"', '"'],
{
    assert(Seq::<char>::empty().map_values(|c: char| json_escaped(c)).len() == 0);
    assert(Seq::<char>::empty().flat_map(|c: char| json_escaped(c)).len() == 0);
}

proof fn lemma_quoted_push(text: Seq<char>, c: char)
    ensures
        json_quoted(text.push(c)) == json_quoted(text).drop_last() + json_escaped(c) + seq!['"'],
{
    let f = |c: char| json_escaped(c);
    assert(text.push(c).map_values(f) == text.map_values(f).push(json_escaped(c)));
    text.map_values(f).lemma_flatten_push(json_escaped(c));
    assert(json_quoted(text).drop_last() == seq!['"'] + text.flat_map(f));
}

/// A character that needs no escape stands for itself: one more of them in a
/// text is one more in front of the closing quote.
pub proof fn law_ordinary_character_is_written_as_itself(text: Seq<char>, c: char)
    requires
        c as int >= 0x20,
        c != '"',
        c != '\\',
    ensures
        json_quoted(text.push(c)) == json_quoted(text).drop_last() + seq![c, '"'],
{
    lemma_quoted_push(text, c);
    assert(json_quoted(text).drop_last() + seq![c] + seq!['"'] == json_quoted(text).drop_last()
        + seq![c, '"']);
}

/// A quote, a backslash and the control characters that have a letter are
/// written as a backslash and that letter.
pub proof fn law_short_escape_is_a_backslash_and_a_letter(text: Seq<char>, c: char, letter: char)
    requires
        ({
            ||| c as int == 0x22 && letter == '"'
            ||| c as int == 0x5c && letter == '\\'
            ||| c as int == 0x08 && letter == 'b'
            ||| c as int == 0x09 && letter == 't'
            ||| c as int == 0x0a && letter == 'n'
            ||| c as int == 0x0c && letter == 'f'
            ||| c as int == 0x0d && letter == 'r'
        }),
    ensures
        json_quoted(text.push(c)) == json_quoted(text).drop_last() + seq!['\\', letter, '"'],
{
    lemma_quoted_push(text, c);
    assert(json_quoted(text).drop_last() + seq!['\\', letter] + seq!['"'] == json_quoted(
        text,
    ).drop_last() + seq!['\\', letter, '"']);
}

/// Any other control character is written as its code, in four lower-case
/// hexadecimal digits.
pub proof fn law_control_character_is_written_as_its_code(text: Seq<char>, c: char)
    requires
        c as int <= 0x1f,
        c as int != 0x08 && c as int != 0x09 && c as int != 0x0a,
        c as int != 0x0c && c as int != 0x0d,
    ensures
        json_quoted(text.push(c)) == json_quoted(text).drop_last() + seq![
            '\\',
            'u',
            '0',
            '0',
            "0123456789abcdef"@[c as int / 16],
            "0123456789abcdef"@[c as int % 16],
            '"',
        ],
{
    lemma_quoted_push(text, c);
    reveal_strlit("0123456789abcdef");
    let digits = "0123456789abcdef"@;
    let d = c as int / 16;
    let e = c as int % 16;
    assert(digits[d] == hex_digit(d));
    assert(digits[e] == hex_digit(e));
    assert(json_quoted(text).drop_last() + seq!['\\', 'u', '0', '0', digits[d], digits[e]]
        + seq!['"'] == json_quoted(text).drop_last() + seq![
        '\\',
        'u',
        '0',
        '0',
        digits[d],
        digits[e],
        '"',
    ]);
}

/// A text that needs no escapes is quoted as it stands.
pub proof fn law_ordinary_text_is_quoted_as_it_stands(text: Seq<char>)
    requires
        forall|i: int|
            0 <= i < text.len() ==> #[trigger] text[i] as int >= 0x20 && text[i] != '"' && text[i]
                != '\\',
    ensures
        json_quoted(text) == seq!['"'] + text + seq!['"'],
    decreases text.len(),
{
    if text.len() == 0 {
        law_empty_text_is_two_quotes();
        assert(text == Seq::<char>::empty());
        assert(seq!['"'] + text + seq!['"'] == seq!['"', '"']);
    } else {
        let before = text.drop_last();
        assert forall|i: int| 0 <= i < before.len() implies #[trigger] before[i] as int >= 0x20
            && before[i] != '"' && before[i] != '\\' by {
            assert(before[i] == text[i]);
        }
        law_ordinary_text_is_quoted_as_it_stands(before);
        assert(before.push(text.last()) == text);
        law_ordinary_character_is_written_as_itself(before, text.last());
        assert((seq!['"'] + before + seq!['"']).drop_last() + seq![text.last(), '"'] == seq!['"']
            + text + seq!['"']);
    }
}

} // verus!
