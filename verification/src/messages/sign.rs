//! The signer: a compact signed object over the headers and the body of a
//! message, and the nesting of that object in an encrypted envelope.
//!
//! The signed object is `protected.payload.signature`: the canonical form
//! of the headers, set up for signing, the body, and the ES256 signature
//! over the first two segments and the dot between them, each segment in
//! base64url. A signed and sealed message is the signed object sealed as
//! the body of an encrypted envelope, so that the signature never travels
//! in the clear.

use vstd::prelude::*;
use vstd::slice::slice_to_vec;
use vstd::string::{StringExecFns, StringSliceAdditionalSpecFns};
use vstd::utf8::{
    decode_utf8,
    encode_utf8,
    encode_utf8_decode_utf8,
    encode_utf8_valid_utf8,
    is_ascii_chars,
    is_ascii_chars_concat,
    valid_utf8,
};
use crate::cipher::{
    KEY_LEN,
    es256_public,
    es256_public_key,
    es256_sign,
    es256_signed,
    es256_verifies,
    es256_verify,
};
use crate::encoding::{
    base64url_encodable,
    base64url_encoded,
    encode_base64url,
    is_base64url_text,
    text_of_utf8,
};
use crate::error::EnvelopeError;
use super::canonical::header_json;
use super::message::{Message, MessageView};
use super::seal::{
    encodable_len,
    opens_to,
    protect,
    protected_segment,
    seals_to,
    text_outcome_is,
};
use super::unseal::{
    after_head,
    cut,
    decode_segment,
    decoded_segment,
    head_segment,
    lemma_base64url_text_is_one_segment,
    lemma_cut_at_the_dot,
};

verus! {

/// The compact signed object of a message under the signing key
/// `secret`.
///
/// A signing key of another length than 32 bytes, or one that the
/// signature scheme refuses, is refused with `KeyMaterialInvalid`;
/// headers that cannot be written with `HeaderSerializationFailure`; a
/// body too long to be written in base64url with `PayloadTooLarge`.
pub open spec fn signed_with(message: MessageView, secret: Seq<u8>) -> Result<
    Seq<char>,
    EnvelopeError,
> {
    if secret.len() != KEY_LEN {
        Err(EnvelopeError::KeyMaterialInvalid)
    } else {
        match protected_segment(message.jwm.signing(None, None), message.didcomm) {
            Ok(protected) => if !base64url_encodable(message.body.len()) {
                Err(EnvelopeError::PayloadTooLarge)
            } else {
                let input = protected + "."@ + base64url_encoded(message.body);
                match es256_signed(secret, encode_utf8(input)) {
                    Some(signature) => if base64url_encodable(signature.len()) {
                        Ok(input + "."@ + base64url_encoded(signature))
                    } else {
                        Err(EnvelopeError::KeyMaterialInvalid)
                    },
                    None => Err(EnvelopeError::KeyMaterialInvalid),
                }
            },
            Err(error) => Err(error),
        }
    }
}

/// The message that carries a signed object to be sealed: the headers of
/// the message that was signed, and the signed object as the body.
pub open spec fn signed_envelope(message: MessageView, signed: Seq<char>) -> MessageView {
    MessageView { body: encode_utf8(signed), ..message }
}

/// The three segments of a compact signed object, or `None` where `text`
/// does not hold exactly two dots.
pub open spec fn signed_segments(text: Seq<char>) -> Option<(Seq<char>, Seq<char>, Seq<char>)> {
    match after_head(text) {
        Some(second) => match after_head(second) {
            Some(third) => if after_head(third) is None {
                Some((head_segment(text), head_segment(second), third))
            } else {
                None
            },
            None => None,
        },
        None => None,
    }
}

/// What a compact signed object verifies to under the public key
/// `public`: the JSON text of its protected header, and its payload.
///
/// An object that does not have three base64url segments, or whose header
/// is not UTF-8, is refused with `HeaderParseFailure`; one whose signature
/// does not verify under the key with `IntegrityFailure`.
pub open spec fn verified_with(signed: Seq<char>, public: Seq<u8>) -> Result<
    (Seq<char>, Seq<u8>),
    EnvelopeError,
> {
    if !is_ascii_chars(signed) {
        Err(EnvelopeError::HeaderParseFailure)
    } else {
        match signed_segments(signed) {
            Some(segments) => match (
                decoded_segment(segments.0),
                decoded_segment(segments.1),
                decoded_segment(segments.2),
            ) {
                (Some(header), Some(payload), Some(signature)) => if !valid_utf8(header) {
                    Err(EnvelopeError::HeaderParseFailure)
                } else if es256_verifies(
                    public,
                    encode_utf8(segments.0 + "."@ + segments.1),
                    signature,
                ) {
                    Ok((decode_utf8(header), payload))
                } else {
                    Err(EnvelopeError::IntegrityFailure)
                },
                _ => Err(EnvelopeError::HeaderParseFailure),
            },
            None => Err(EnvelopeError::HeaderParseFailure),
        }
    }
}

/// What the holder of the public key recovers from the signed object of a
/// message: the canonical form of the headers under which it was signed,
/// and the body.
pub open spec fn verified(message: MessageView) -> (Seq<char>, Seq<u8>) {
    (header_json(message.jwm.signing(None, None), message.didcomm)->0, message.body)
}

/// Whether `signed` verifies, under the public key that belongs to the
/// signing key `secret`, to the body of `message` and to its headers as
/// they were signed.
pub open spec fn verifies_to(message: MessageView, secret: Seq<u8>, signed: Seq<char>) -> bool {
    &&& header_json(message.jwm.signing(None, None), message.didcomm) is Some
    &&& es256_public(secret) matches Some(public) && verified_with(signed, public) == Ok::<
        (Seq<char>, Seq<u8>),
        EnvelopeError,
    >(verified(message))
}

/// Whether `envelope` holds the signed object of `message`: it opens,
/// under the recipient's key `kek`, to a body that is the signed object,
/// and the signed object verifies under the public key of `secret` to the
/// body of `message`.
pub open spec fn holds_signed(
    message: MessageView,
    kek: Seq<u8>,
    secret: Seq<u8>,
    envelope: Seq<char>,
) -> bool {
    signed_with(message, secret) matches Ok(signed) && opens_to(
        signed_envelope(message, signed),
        kek,
        envelope,
    ) && verifies_to(message, secret, signed)
}

/// The compact form of three segments of the URL-safe base64 alphabet is
/// ASCII and is cut back into those segments.
pub proof fn lemma_signed_object_segments(
    protected: Seq<char>,
    payload: Seq<char>,
    signature: Seq<char>,
)
    requires
        is_base64url_text(protected),
        is_base64url_text(payload),
        is_base64url_text(signature),
    ensures
        signed_segments(protected + "."@ + payload + "."@ + signature) == Some(
            (protected, payload, signature),
        ),
        is_ascii_chars(protected + "."@ + payload + "."@ + signature),
{
    reveal_strlit(".");
    let dot = "."@;
    let second = payload + dot + signature;
    assert(protected + dot + payload + dot + signature =~= protected + dot + second);
    lemma_cut_at_the_dot(protected, second);
    lemma_cut_at_the_dot(payload, signature);
    lemma_base64url_text_is_one_segment(protected);
    lemma_base64url_text_is_one_segment(payload);
    lemma_base64url_text_is_one_segment(signature);
    assert(is_ascii_chars(dot));
    let e1 = protected + dot;
    let e2 = e1 + payload;
    let e3 = e2 + dot;
    let e4 = e3 + signature;
    is_ascii_chars_concat(e1, protected, dot);
    is_ascii_chars_concat(e2, e1, payload);
    is_ascii_chars_concat(e3, e2, dot);
    is_ascii_chars_concat(e4, e3, signature);
}

/// Whether `outcome` is what signing a message and sealing the signed
/// object gives: the failure of the signature where it fails, and else
/// what sealing the signed object for the recipient gives under some
/// fresh content key and nonce, or `EntropyUnavailable`.
pub open spec fn signs_and_seals_to(
    message: MessageView,
    kek: Seq<u8>,
    secret: Seq<u8>,
    outcome: Result<Seq<char>, EnvelopeError>,
) -> bool {
    match signed_with(message, secret) {
        Ok(signed) => outcome == Err::<Seq<char>, EnvelopeError>(
            EnvelopeError::EntropyUnavailable,
        ) || seals_to(signed_envelope(message, signed), seq![kek], outcome),
        Err(error) => outcome == Err::<Seq<char>, EnvelopeError>(error),
    }
}

impl Message {
    /// Signs the message with the signing key `sk` and gives the compact
    /// signed object.
    pub fn sign(&self, sk: &[u8]) -> (r: Result<String, EnvelopeError>)
        ensures
            text_outcome_is(r, signed_with(self@, sk@)),
            r matches Ok(signed) ==> verifies_to(self@, sk@, signed@),
    {
        if sk.len() != KEY_LEN {
            return Err(EnvelopeError::KeyMaterialInvalid);
        }
        let jwm = self.get_jwm_header().clone().as_es256(None, None);
        let mut out = protect(&jwm, self.get_didcomm_header())?;
        if !encodable_len(self.get_body().len()) {
            return Err(EnvelopeError::PayloadTooLarge);
        }
        let ghost protected = out@;
        let payload = encode_base64url(self.get_body().as_slice());
        out.append(".");
        out.append(payload.as_str());
        match es256_sign(sk, out.as_str().as_bytes()) {
            Ok(signature) => {
                if !encodable_len(signature.len()) {
                    return Err(EnvelopeError::KeyMaterialInvalid);
                }
                let mark = encode_base64url(signature.as_slice());
                out.append(".");
                out.append(mark.as_str());
                proof {
                    let json = verified(self@).0;
                    lemma_signed_object_segments(protected, payload@, mark@);
                    encode_utf8_valid_utf8(json);
                    encode_utf8_decode_utf8(json);
                }
                Ok(out)
            },
            Err(_) => Err(EnvelopeError::KeyMaterialInvalid),
        }
    }

    /// Signs the message with the signing key `sk`, then seals the signed
    /// object for the recipient whose key is `ek`, and gives the compact
    /// envelope.
    ///
    /// A signing key that is refused fails before anything is
    /// encrypted.
    pub fn seal_signed(self, ek: &[u8], sk: &[u8]) -> (r: Result<String, EnvelopeError>)
        ensures
            r matches Ok(envelope) ==> signs_and_seals_to(
                self@,
                ek@,
                sk@,
                Ok::<Seq<char>, EnvelopeError>(envelope@),
            ),
            r matches Ok(envelope) ==> holds_signed(self@, ek@, sk@, envelope@),
            signed_with(self@, sk@) is Ok && ek@.len() != KEY_LEN ==> r is Err && r->Err_0
                == EnvelopeError::KeyMaterialInvalid,
            r matches Err(error) ==> signs_and_seals_to(
                self@,
                ek@,
                sk@,
                Err::<Seq<char>, EnvelopeError>(error),
            ),
    {
        let signed = self.sign(sk)?;
        let (jwm, didcomm, _) = self.into_parts();
        let body = slice_to_vec(signed.as_str().as_bytes());
        Message::from_parts(jwm, didcomm, body).seal(slice_to_vec(ek))
    }

    /// The public key, in SEC1 encoding, under which what the signing key
    /// `sk` signs verifies.
    ///
    /// Fails with `KeyMaterialInvalid` where the signing key has another
    /// length than 32 bytes or is refused.
    pub fn verifying_key(sk: &[u8]) -> (r: Result<Vec<u8>, EnvelopeError>)
        ensures
            match r {
                Ok(public) => sk@.len() == KEY_LEN && es256_public(sk@) == Some(public@),
                Err(error) => error == EnvelopeError::KeyMaterialInvalid && (sk@.len() != KEY_LEN
                    || es256_public(sk@) is None),
            },
    {
        if sk.len() != KEY_LEN {
            return Err(EnvelopeError::KeyMaterialInvalid);
        }
        match es256_public_key(sk) {
            Ok(public) => Ok(public),
            Err(_) => Err(EnvelopeError::KeyMaterialInvalid),
        }
    }

    /// Verifies a compact signed object under the public key
    /// `public_key` and gives the JSON text of its protected header and
    /// its payload.
    pub fn verify(signed: &str, public_key: &[u8]) -> (r: Result<(String, Vec<u8>), EnvelopeError>)
        ensures
            match verified_with(signed@, public_key@) {
                Ok(parts) => r is Ok && r->Ok_0.0@ == parts.0 && r->Ok_0.1@ == parts.1,
                Err(error) => r is Err && r->Err_0 == error,
            },
    {
        if !signed.is_ascii() {
            return Err(EnvelopeError::HeaderParseFailure);
        }
        let (protected, rest) = cut(signed);
        let rest = match rest {
            Some(rest) => rest,
            None => {
                return Err(EnvelopeError::HeaderParseFailure);
            },
        };
        let (payload, rest) = cut(rest);
        let last = match rest {
            Some(rest) => rest,
            None => {
                return Err(EnvelopeError::HeaderParseFailure);
            },
        };
        let (_, more) = cut(last);
        if more.is_some() {
            return Err(EnvelopeError::HeaderParseFailure);
        }
        let header = decode_segment(protected)?;
        let body = decode_segment(payload)?;
        let signature = decode_segment(last)?;
        let header = match text_of_utf8(header) {
            Ok(text) => text,
            Err(_) => {
                return Err(EnvelopeError::HeaderParseFailure);
            },
        };
        let mut input = protected.to_owned();
        input.append(".");
        input.append(payload);
        match es256_verify(public_key, input.as_str().as_bytes(), signature.as_slice()) {
            Ok(()) => Ok((header, body)),
            Err(_) => Err(EnvelopeError::IntegrityFailure),
        }
    }
}

} // verus!
