//! The receiving side of a compact envelope: its segments, and what they
//! open to under the key of the recipient.

use vstd::prelude::*;
use vstd::string::{StrSliceExecFns, StringSliceAdditionalSpecFns};
use vstd::utf8::{
    decode_utf8,
    encode_utf8,
    is_ascii_chars,
    is_ascii_chars_encode_utf8,
    valid_utf8,
};
use crate::cipher::{
    KEY_LEN,
    TAG_LEN,
    a256kw_unwrap,
    a256kw_unwrapped,
    xchacha20poly1305_open,
    xchacha20poly1305_opened,
};
use crate::encoding::{base64url_decoded, decode_base64url, is_base64url_text, text_of_utf8};
use crate::error::EnvelopeError;
use super::inspect::NONCE_LEN;
use super::message::Message;

verus! {

/// The number of characters of `text` before its first dot; the length
/// of `text` where it has none.
pub open spec fn segment_len(text: Seq<char>) -> nat
    decreases text.len(),
{
    if text.len() == 0 || text[0] == '.' {
        0
    } else {
        1 + segment_len(text.drop_first())
    }
}

/// The first segment of `text`: what stands before its first dot.
pub open spec fn head_segment(text: Seq<char>) -> Seq<char> {
    text.take(segment_len(text) as int)
}

/// What follows the first dot of `text`, or `None` where it has no dot.
pub open spec fn after_head(text: Seq<char>) -> Option<Seq<char>> {
    if segment_len(text) < text.len() {
        Some(text.skip(segment_len(text) as int + 1))
    } else {
        None
    }
}

/// The five segments of a compact envelope, or `None` where `text` does
/// not hold exactly four dots.
pub open spec fn compact_segments(text: Seq<char>) -> Option<
    (Seq<char>, Seq<char>, Seq<char>, Seq<char>, Seq<char>),
> {
    match after_head(text) {
        Some(second) => match after_head(second) {
            Some(third) => match after_head(third) {
                Some(fourth) => match after_head(fourth) {
                    Some(fifth) => if after_head(fifth) is None {
                        Some(
                            (
                                head_segment(text),
                                head_segment(second),
                                head_segment(third),
                                head_segment(fourth),
                                fifth,
                            ),
                        )
                    } else {
                        None
                    },
                    None => None,
                },
                None => None,
            },
            None => None,
        },
        None => None,
    }
}

/// The bytes that a segment of an envelope decodes to.
pub open spec fn decoded_segment(segment: Seq<char>) -> Option<Seq<u8>> {
    base64url_decoded(encode_utf8(segment))
}

/// What a compact envelope opens to under the recipient's key `kek`: the
/// JSON text of its protected header, and its body.
///
/// A key of another length than 32 bytes, or one under which the content
/// key does not unwrap to 32 bytes, is refused with `KeyMaterialInvalid`;
/// an envelope that does not have five base64url segments, whose header
/// is not UTF-8 or whose tag has not 16 bytes with `HeaderParseFailure`; a
/// nonce of another length than 24 bytes with `NonceSizeMismatch`; a
/// ciphertext, header or tag that was not made under this key and nonce
/// with `IntegrityFailure`.
pub open spec fn opened_with(envelope: Seq<char>, kek: Seq<u8>) -> Result<
    (Seq<char>, Seq<u8>),
    EnvelopeError,
> {
    if kek.len() != KEY_LEN {
        Err(EnvelopeError::KeyMaterialInvalid)
    } else if !is_ascii_chars(envelope) {
        Err(EnvelopeError::HeaderParseFailure)
    } else {
        match compact_segments(envelope) {
            Some(segments) => match (
                decoded_segment(segments.0),
                decoded_segment(segments.1),
                decoded_segment(segments.2),
                decoded_segment(segments.3),
                decoded_segment(segments.4),
            ) {
                (Some(header), Some(wrapped), Some(nonce), Some(ciphertext), Some(tag)) => {
                    if !valid_utf8(header) {
                        Err(EnvelopeError::HeaderParseFailure)
                    } else if nonce.len() != NONCE_LEN {
                        Err(EnvelopeError::NonceSizeMismatch(nonce.len() as usize))
                    } else if tag.len() != TAG_LEN {
                        Err(EnvelopeError::HeaderParseFailure)
                    } else {
                        match a256kw_unwrapped(kek, wrapped) {
                            Some(cek) => if cek.len() != KEY_LEN {
                                Err(EnvelopeError::KeyMaterialInvalid)
                            } else {
                                match xchacha20poly1305_opened(
                                    cek,
                                    nonce,
                                    encode_utf8(segments.0),
                                    ciphertext,
                                    tag,
                                ) {
                                    Some(body) => Ok((decode_utf8(header), body)),
                                    None => Err(EnvelopeError::IntegrityFailure),
                                }
                            },
                            None => Err(EnvelopeError::KeyMaterialInvalid),
                        }
                    }
                },
                _ => Err(EnvelopeError::HeaderParseFailure),
            },
            None => Err(EnvelopeError::HeaderParseFailure),
        }
    }
}

/// The place where a scan for the first dot stops is the length of the
/// first segment.
pub proof fn lemma_segment_len(text: Seq<char>, at: int)
    requires
        0 <= at <= text.len(),
        forall|k: int| 0 <= k < at ==> text[k] != '.',
        at == text.len() || text[at] == '.',
    ensures
        segment_len(text) == at,
    decreases at,
{
    if at > 0 {
        let rest = text.drop_first();
        assert forall|k: int| 0 <= k < at - 1 implies rest[k] != '.' by {
            assert(rest[k] == text[k + 1]);
        }
        lemma_segment_len(rest, at - 1);
    }
}

/// A text of the URL-safe base64 alphabet holds no dot and is ASCII.
pub proof fn lemma_base64url_text_is_one_segment(text: Seq<char>)
    requires
        is_base64url_text(text),
    ensures
        segment_len(text) == text.len(),
        after_head(text) is None,
        head_segment(text) == text,
        is_ascii_chars(text),
{
    assert forall|k: int| 0 <= k < text.len() implies text[k] != '.' by {
        assert(crate::encoding::is_base64url_char(text[k]));
    }
    lemma_segment_len(text, text.len() as int);
    assert(text.take(text.len() as int) =~= text);
    assert forall|k: int| 0 <= k < text.len() implies '\0' <= #[trigger] text[k] <= '\u{7f}' by {
        assert(crate::encoding::is_base64url_char(text[k]));
    }
}

/// A segment of the URL-safe base64 alphabet, a dot and more text are cut
/// at that dot.
pub proof fn lemma_cut_at_the_dot(segment: Seq<char>, rest: Seq<char>)
    requires
        is_base64url_text(segment),
    ensures
        head_segment(segment + "."@ + rest) == segment,
        after_head(segment + "."@ + rest) == Some(rest),
{
    reveal_strlit(".");
    let text = segment + "."@ + rest;
    assert forall|k: int| 0 <= k < segment.len() implies text[k] != '.' by {
        assert(text[k] == segment[k]);
        assert(crate::encoding::is_base64url_char(segment[k]));
    }
    assert(text[segment.len() as int] == '.');
    lemma_segment_len(text, segment.len() as int);
    assert(text.take(segment.len() as int) =~= segment);
    assert(text.skip(segment.len() as int + 1) =~= rest);
}

/// Cuts an ASCII text at its first dot.
pub(crate) fn cut<'a>(text: &'a str) -> (r: (&'a str, Option<&'a str>))
    requires
        is_ascii_chars(text@),
    ensures
        r.0@ == head_segment(text@),
        is_ascii_chars(r.0@),
        match r.1 {
            Some(rest) => after_head(text@) == Some(rest@) && is_ascii_chars(rest@),
            None => after_head(text@) is None,
        },
{
    let bytes = text.as_bytes();
    proof {
        is_ascii_chars_encode_utf8(text@);
    }
    let mut i: usize = 0;
    while i < bytes.len() && bytes[i] != 46
        invariant
            i <= bytes.len(),
            bytes@ == encode_utf8(text@),
            bytes@.len() == text@.len(),
            is_ascii_chars(text@),
            forall|k: int| 0 <= k < text@.len() ==> text@[k] as u8 == bytes@[k],
            forall|k: int| 0 <= k < i ==> text@[k] != '.',
        decreases bytes.len() - i,
    {
        proof {
            assert(text@[i as int] as u8 == bytes@[i as int]);
            assert('.' as u8 == 46u8);
        }
        i += 1;
    }
    proof {
        if i < bytes.len() {
            let c = text@[i as int];
            assert(c as u8 == 46u8);
            assert('\0' <= c <= '\u{7f}');
            assert(c == '.');
        }
        lemma_segment_len(text@, i as int);
        assert(text@.take(i as int) =~= text@.subrange(0, i as int));
    }
    let head = text.substring_ascii(0, i);
    if i < bytes.len() {
        let rest = text.substring_ascii(i + 1, bytes.len());
        proof {
            assert(text@.skip(i as int + 1) =~= text@.subrange(i as int + 1, text@.len() as int));
        }
        (head, Some(rest))
    } else {
        (head, None)
    }
}

/// Decodes one segment of an envelope.
pub(crate) fn decode_segment(segment: &str) -> (r: Result<Vec<u8>, EnvelopeError>)
    ensures
        match decoded_segment(segment@) {
            Some(bytes) => r is Ok && r->Ok_0@ == bytes,
            None => r is Err && r->Err_0 == EnvelopeError::HeaderParseFailure,
        },
{
    match decode_base64url(segment.as_bytes()) {
        Ok(bytes) => Ok(bytes),
        Err(_) => Err(EnvelopeError::HeaderParseFailure),
    }
}

impl Message {
    /// Opens a compact envelope with the recipient's key `ek` and gives
    /// the JSON text of its protected header and its body.
    pub fn unseal(envelope: &str, ek: &[u8]) -> (r: Result<(String, Vec<u8>), EnvelopeError>)
        ensures
            match opened_with(envelope@, ek@) {
                Ok(opened) => r is Ok && r->Ok_0.0@ == opened.0 && r->Ok_0.1@ == opened.1,
                Err(error) => r is Err && r->Err_0 == error,
            },
    {
        if ek.len() != KEY_LEN {
            return Err(EnvelopeError::KeyMaterialInvalid);
        }
        if !envelope.is_ascii() {
            return Err(EnvelopeError::HeaderParseFailure);
        }
        let (protected, rest) = cut(envelope);
        let rest = match rest {
            Some(rest) => rest,
            None => {
                return Err(EnvelopeError::HeaderParseFailure);
            },
        };
        let (key, rest) = cut(rest);
        let rest = match rest {
            Some(rest) => rest,
            None => {
                return Err(EnvelopeError::HeaderParseFailure);
            },
        };
        let (iv, rest) = cut(rest);
        let rest = match rest {
            Some(rest) => rest,
            None => {
                return Err(EnvelopeError::HeaderParseFailure);
            },
        };
        let (sealed, rest) = cut(rest);
        let last = match rest {
            Some(rest) => rest,
            None => {
                return Err(EnvelopeError::HeaderParseFailure);
            },
        };
        let (_, more) = cut(last);
        if more.is_some() {
            return Err(EnvelopeError::HeaderParseFailure);
        }
        let header = decode_segment(protected)?;
        let wrapped = decode_segment(key)?;
        let nonce = decode_segment(iv)?;
        let ciphertext = decode_segment(sealed)?;
        let tag = decode_segment(last)?;
        let header = match text_of_utf8(header) {
            Ok(text) => text,
            Err(_) => {
                return Err(EnvelopeError::HeaderParseFailure);
            },
        };
        if nonce.len() != NONCE_LEN {
            return Err(EnvelopeError::NonceSizeMismatch(nonce.len()));
        }
        if tag.len() != TAG_LEN {
            return Err(EnvelopeError::HeaderParseFailure);
        }
        let cek = match a256kw_unwrap(ek, wrapped.as_slice()) {
            Ok(cek) => cek,
            Err(_) => {
                return Err(EnvelopeError::KeyMaterialInvalid);
            },
        };
        if cek.len() != KEY_LEN {
            return Err(EnvelopeError::KeyMaterialInvalid);
        }
        match xchacha20poly1305_open(
            cek.as_slice(),
            nonce.as_slice(),
            protected.as_bytes(),
            ciphertext,
            tag.as_slice(),
        ) {
            Ok(body) => Ok((header, body)),
            Err(_) => Err(EnvelopeError::IntegrityFailure),
        }
    }
}

} // verus!
