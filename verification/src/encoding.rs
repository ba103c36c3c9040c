//! Text encodings that the envelopes rest on: base64url, as the
//! `base64_url` crate reads and writes it, and UTF-8.

use vstd::prelude::*;
use vstd::utf8::{decode_utf8, encode_utf8, valid_utf8};

verus! {

#[verifier::external_type_specification]
#[verifier::external_body]
pub struct ExDecodeError(base64_url::base64::DecodeError);

#[verifier::external_type_specification]
#[verifier::external_body]
pub struct ExFromUtf8Error(std::string::FromUtf8Error);

/// The bytes that `base64_url::decode` reads out of `input`, or `None`
/// where it refuses the input.
pub uninterp spec fn base64url_decoded(input: Seq<u8>) -> Option<Seq<u8>>;

/// The text that `base64_url::encode` writes for `bytes`.
pub uninterp spec fn base64url_encoded(bytes: Seq<u8>) -> Seq<char>;

/// Whether `base64_url::encode` takes an input of `len` bytes: the length
/// of its output, four characters for every three bytes, has to fit the
/// machine's word.
pub open spec fn base64url_encodable(len: nat) -> bool {
    len / 3 * 4 + 3 <= usize::MAX
}

/// Whether `c` is of the URL-safe base64 alphabet: a letter, a digit, `-`
/// or `_`.
pub open spec fn is_base64url_char(c: char) -> bool {
    ||| 'A' <= c <= 'Z'
    ||| 'a' <= c <= 'z'
    ||| '0' <= c <= '9'
    ||| c == '-'
    ||| c == '_'
}

/// Whether every character of `text` is of the URL-safe base64 alphabet.
pub open spec fn is_base64url_text(text: Seq<char>) -> bool {
    forall|i: int| 0 <= i < text.len() ==> is_base64url_char(#[trigger] text[i])
}

/// Calls `base64_url::decode`, which reads the URL-safe alphabet without
/// padding. The contract names what comes back and says no more of it.
#[verifier::external_body]
pub(crate) fn decode_base64url(input: &[u8]) -> (r: Result<
    Vec<u8>,
    base64_url::base64::DecodeError,
>)
    ensures
        r matches Ok(bytes) ==> base64url_decoded(input@) == Some(bytes@),
        r is Err ==> base64url_decoded(input@) is None,
{
    base64_url::decode(input)
}

/// Calls `base64_url::encode`, which writes the URL-safe alphabet without
/// padding. It panics where the length of its output overflows, which the
/// precondition rules out. The contract names what comes back, and says
/// of it what the crate documents: the alphabet, and that decoding is the
/// inverse of encoding.
#[verifier::external_body]
pub(crate) fn encode_base64url(bytes: &[u8]) -> (r: String)
    requires
        base64url_encodable(bytes@.len()),
    ensures
        r@ == base64url_encoded(bytes@),
        is_base64url_text(r@),
        base64url_decoded(encode_utf8(r@)) == Some(bytes@),
{
    base64_url::encode(bytes)
}

/// Calls `String::from_utf8`, which takes the bytes as a text exactly if
/// they are valid UTF-8; the text then holds the characters that the
/// bytes encode.
#[verifier::external_body]
pub(crate) fn text_of_utf8(bytes: Vec<u8>) -> (r: Result<String, std::string::FromUtf8Error>)
    ensures
        r is Ok <==> valid_utf8(bytes@),
        r matches Ok(text) ==> text@ == decode_utf8(bytes@),
{
    String::from_utf8(bytes)
}

} // verus!
