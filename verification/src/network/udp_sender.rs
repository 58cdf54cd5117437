//! The payload and the one datagram that carries it.
//!
//! The wire format is a compact JSON object with a single field, `image`,
//! whose value is the Base64 text of the compressed picture. The string is
//! quoted by `serde_json`; the object around it is written here.

use crate::base64_text::{
    base64_standard, encode_standard, encoded_len, is_base64_char, lemma_base64_chars,
};
use vstd::prelude::*;
use vstd::string::StringExecFns;

verus! {

/// `serde_json::Error`: carried from the call to where it is dropped, and
/// never looked into.
#[verifier::external_type_specification]
#[verifier::external_body]
pub struct ExJsonError(serde_json::Error);

/// The lower-case hexadecimal digit of a value below sixteen.
pub open spec fn hex_digit(value: int) -> char {
    if value < 10 {
        (value + 48) as char
    } else {
        (value + 87) as char
    }
}

/// How one character stands inside a JSON string: the quote and the
/// backslash behind a backslash, the control characters as `\b`, `\t`,
/// `\n`, `\f`, `\r` or `\u00` and two hexadecimal digits, everything else as
/// itself.
pub open spec fn escape(c: char) -> Seq<char> {
    let code = c as int;
    if c == '"' {
        seq!['\\', '"']
    } else if c == '\\' {
        seq!['\\', '\\']
    } else if code == 8 {
        seq!['\\', 'b']
    } else if code == 9 {
        seq!['\\', 't']
    } else if code == 10 {
        seq!['\\', 'n']
    } else if code == 12 {
        seq!['\\', 'f']
    } else if code == 13 {
        seq!['\\', 'r']
    } else if code < 32 {
        seq!['\\', 'u', '0', '0', hex_digit(code / 16), hex_digit(code % 16)]
    } else {
        seq![c]
    }
}

/// The characters of `text`, each as it stands inside a JSON string.
pub open spec fn escape_all(text: Seq<char>) -> Seq<char>
    decreases text.len(),
{
    if text.len() == 0 {
        Seq::empty()
    } else {
        escape(text[0]) + escape_all(text.skip(1))
    }
}

/// `text` as a JSON string: escaped, between two quotes.
pub open spec fn json_string(text: Seq<char>) -> Seq<char> {
    seq!['"'] + escape_all(text) + seq!['"']
}

/// The JSON object on the wire: `{"image":` followed by the string and `}`.
pub open spec fn wire_text(image: Seq<char>) -> Seq<char> {
    seq!['{', '"', 'i', 'm', 'a', 'g', 'e', '"', ':'] + json_string(image) + seq!['}']
}

/// `serde_json::to_string`, given a string slice. It writes the slice as a
/// JSON string: a quote, the characters with the escapes of `escape`, a
/// quote. It cannot fail on a string slice: its only failures are a value
/// that refuses to be serialised and a map whose keys are not strings, and
/// it writes into a byte vector, which takes every write.
#[verifier::external_body]
fn quote(value: &str) -> (quoted: Result<String, serde_json::Error>)
    ensures
        quoted is Ok,
        quoted matches Ok(text) ==> text@ == json_string(value@),
{
    serde_json::to_string(value)
}

/// The message that goes on the wire: one field holding the picture as text.
#[derive(Debug, PartialEq, Eq)]
pub struct Payload {
    pub image: String,
}

impl Payload {
    /// The payload for a compressed picture: its bytes as Base64 text.
    pub fn from_image(bytes: &[u8]) -> (payload: Payload)
        requires
            encoded_len(bytes@.len()) <= isize::MAX,
        ensures
            payload.image@ == base64_standard(bytes@),
    {
        Payload { image: encode_standard(bytes) }
    }

    /// The payload as compact JSON text.
    pub fn to_json(&self) -> (text: String)
        ensures
            text@ == wire_text(self.image@),
    {
        let mut text = String::from_str("{\"image\":");
        if let Ok(quoted) = quote(self.image.as_str()) {
            text.append(quoted.as_str());
        }
        text.append("}");
        proof {
            reveal_strlit("{\"image\":");
            reveal_strlit("}");
            assert(text@ =~= wire_text(self.image@));
        }
        text
    }
}

/// One datagram, ready to be handed to a socket: the local endpoint to
/// send it from, where it goes, and what it holds.
#[derive(Debug, PartialEq, Eq)]
pub struct Datagram {
    pub local: String,
    pub destination: String,
    pub body: String,
}

/// The local endpoint of every datagram: the wildcard address, with a port
/// of the system's choosing.
pub open spec fn local_endpoint() -> Seq<char> {
    "0.0.0.0:0"@
}

/// Prepares the single datagram that carries `payload` to `addr`: the
/// payload as compact JSON, addressed as given, to be sent from the
/// wildcard address. Binding a socket and transmitting it, exactly once, is
/// left to the caller.
pub fn send_data(payload: &Payload, addr: &str) -> (datagram: Datagram)
    ensures
        datagram.local@ == local_endpoint(),
        datagram.destination@ == addr@,
        datagram.body@ == wire_text(payload.image@),
{
    Datagram {
        local: String::from_str("0.0.0.0:0"),
        destination: String::from_str(addr),
        body: payload.to_json(),
    }
}

/// A character that a JSON string holds as it is.
pub open spec fn is_plain(c: char) -> bool {
    c as int >= 32 && c != '"' && c != '\\'
}

/// Text made of plain characters is escaped to itself.
pub proof fn lemma_escape_plain(text: Seq<char>)
    requires
        forall|i: int| 0 <= i < text.len() ==> is_plain(#[trigger] text[i]),
    ensures
        escape_all(text) == text,
    decreases text.len(),
{
    if text.len() > 0 {
        lemma_escape_plain(text.skip(1));
        assert(escape(text[0]) == seq![text[0]]);
        assert(seq![text[0]] + text.skip(1) =~= text);
    }
}

/// On the wire a picture is exactly `{"image":"`, its Base64 text, and `"}`:
/// Base64 text holds nothing that JSON escapes.
pub proof fn lemma_wire_text_of_image(bytes: Seq<u8>)
    ensures
        wire_text(base64_standard(bytes)) == seq!['{', '"', 'i', 'm', 'a', 'g', 'e', '"', ':', '"']
            + base64_standard(bytes) + seq!['"', '}'],
{
    let text = base64_standard(bytes);
    lemma_base64_chars(bytes);
    assert forall|i: int| 0 <= i < text.len() implies is_plain(#[trigger] text[i]) by {
        assert(is_base64_char(text[i]));
    }
    lemma_escape_plain(text);
    assert(wire_text(text) =~= seq!['{', '"', 'i', 'm', 'a', 'g', 'e', '"', ':', '"'] + text
        + seq!['"', '}']);
}

} // verus!
