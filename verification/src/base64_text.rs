//! Base64 text in the standard alphabet, with padding.
//!
//! The encoding itself is done by the `base64` crate. What this module adds
//! is the statement of what comes back, and two facts proved from it: how
//! long the text is, and that it holds nothing a JSON string has to escape.

use base64::Engine;
use vstd::prelude::*;

verus! {

/// The character that stands for a six-bit value: `A`-`Z` for 0 to 25,
/// `a`-`z` for 26 to 51, `0`-`9` for 52 to 61, then `+` and `/`.
pub open spec fn symbol(value: int) -> char {
    if value < 26 {
        (value + 65) as char
    } else if value < 52 {
        (value + 71) as char
    } else if value < 62 {
        (value - 4) as char
    } else if value == 62 {
        '+'
    } else {
        '/'
    }
}

/// The text of `bytes`: four characters for every three bytes, the last
/// group filled up with `=` where one or two bytes are left over.
pub open spec fn base64_standard(bytes: Seq<u8>) -> Seq<char>
    decreases bytes.len(),
{
    if bytes.len() == 0 {
        Seq::empty()
    } else if bytes.len() == 1 {
        let a = bytes[0] as int;
        seq![symbol(a / 4), symbol((a % 4) * 16), '=', '=']
    } else if bytes.len() == 2 {
        let a = bytes[0] as int;
        let b = bytes[1] as int;
        seq![symbol(a / 4), symbol((a % 4) * 16 + b / 16), symbol((b % 16) * 4), '=']
    } else {
        let a = bytes[0] as int;
        let b = bytes[1] as int;
        let c = bytes[2] as int;
        seq![
            symbol(a / 4),
            symbol((a % 4) * 16 + b / 16),
            symbol((b % 16) * 4 + c / 64),
            symbol(c % 64),
        ] + base64_standard(bytes.skip(3))
    }
}

/// The number of characters that `len` bytes are written in.
pub open spec fn encoded_len(len: nat) -> nat {
    4 * ((len + 2) / 3)
}

/// A letter, a digit, `+`, `/` or the padding `=`.
pub open spec fn is_base64_char(c: char) -> bool {
    ||| 'A' <= c <= 'Z'
    ||| 'a' <= c <= 'z'
    ||| '0' <= c <= '9'
    ||| c == '+'
    ||| c == '/'
    ||| c == '='
}

/// The text of `bytes` has `encoded_len` characters.
pub proof fn lemma_base64_len(bytes: Seq<u8>)
    ensures
        base64_standard(bytes).len() == encoded_len(bytes.len()),
    decreases bytes.len(),
{
    if bytes.len() >= 3 {
        lemma_base64_len(bytes.skip(3));
    }
}

/// Every character of the text of `bytes` is a letter, a digit, `+`, `/`
/// or `=`.
pub proof fn lemma_base64_chars(bytes: Seq<u8>)
    ensures
        forall|i: int|
            0 <= i < base64_standard(bytes).len() ==> is_base64_char(
                #[trigger] base64_standard(bytes)[i],
            ),
    decreases bytes.len(),
{
    let text = base64_standard(bytes);
    assert forall|value: int| 0 <= value < 64 implies is_base64_char(#[trigger] symbol(value)) by {}
    if bytes.len() >= 3 {
        let rest = base64_standard(bytes.skip(3));
        lemma_base64_chars(bytes.skip(3));
        assert forall|i: int| 0 <= i < text.len() implies is_base64_char(#[trigger] text[i]) by {
            if i >= 4 {
                assert(text[i] == rest[i - 4]);
            }
        }
    }
}

/// Whether `len` bytes can be written as text at all: the text has to fit in
/// one allocation.
pub fn is_encodable(len: usize) -> (ok: bool)
    ensures
        ok == (encoded_len(len as nat) <= isize::MAX),
{
    let whole: usize = len / 3;
    let groups: usize = if len % 3 == 0 {
        whole
    } else {
        whole + 1
    };
    groups <= (isize::MAX as usize) / 4
}

/// `Engine::encode` of the `base64` crate, on its `STANDARD` engine: the
/// standard alphabet, padded. The contract states the whole of what it
/// returns. The call panics where the length of the text overflows or cannot
/// be allocated, so those inputs are kept out.
#[verifier::external_body]
pub(crate) fn encode_standard(bytes: &[u8]) -> (text: String)
    requires
        encoded_len(bytes@.len()) <= isize::MAX,
    ensures
        text@ == base64_standard(bytes@),
{
    base64::engine::general_purpose::STANDARD.encode(bytes)
}

} // verus!
