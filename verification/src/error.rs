//! The error kinds that the envelope operations report.

use vstd::prelude::*;
use vstd::string::StringExecFns;
use crate::messages::canonical::{decimal, write_decimal};

verus! {

/// Why an envelope operation did not produce its result.
///
/// Every kind is recoverable and is handed to the caller as a value.
#[derive(Clone, Copy, Debug, PartialEq, Eq, Structural)]
pub enum EnvelopeError {
    /// The rotation claim was asked of a message that carries none.
    RotationDataAbsent,
    /// A serialized envelope could not be read: its bytes are not UTF-8,
    /// its header is not base64url or not JSON, or the field looked for
    /// is not in it.
    HeaderParseFailure,
    /// A nonce decoded to a length other than the fixed one; the actual
    /// length is reported.
    NonceSizeMismatch(usize),
    /// The nonce field of an envelope is present but is no string.
    NonceFormatInvalid,
    /// Key material has the wrong length or is refused by the primitive
    /// it is meant for.
    KeyMaterialInvalid,
    /// Sealing was asked for with no recipient.
    RecipientListEmpty,
    /// The headers of a message could not be written as the protected
    /// segment of an envelope.
    HeaderSerializationFailure,
    /// The system's source of randomness gave no fresh bytes.
    EntropyUnavailable,
    /// The body is longer than the cipher or the text framing can take.
    PayloadTooLarge,
    /// A ciphertext or a signature does not fit what it stands beside: it
    /// was changed, or made under another key.
    IntegrityFailure,
    /// An extension field was given a name that the protocol fixes.
    ReservedFieldName,
}

impl EnvelopeError {
    /// What the error says, in words.
    pub open spec fn text(self) -> Seq<char> {
        match self {
            EnvelopeError::RotationDataAbsent => "no rotation data in the message"@,
            EnvelopeError::HeaderParseFailure => "failed to parse the header of the envelope"@,
            EnvelopeError::NonceSizeMismatch(len) => "wrong nonce (iv) size: "@ + decimal(
                len as nat,
            ),
            EnvelopeError::NonceFormatInvalid => "wrong nonce format"@,
            EnvelopeError::KeyMaterialInvalid => "invalid key material"@,
            EnvelopeError::RecipientListEmpty => "no recipient to seal for"@,
            EnvelopeError::HeaderSerializationFailure => "failed to serialize the headers"@,
            EnvelopeError::EntropyUnavailable => "no randomness available"@,
            EnvelopeError::PayloadTooLarge => "payload too large"@,
            EnvelopeError::IntegrityFailure => "integrity check failed"@,
            EnvelopeError::ReservedFieldName => "reserved field name"@,
        }
    }

    /// What the error says, in words; a size mismatch reports the length
    /// that was found, in decimal.
    pub fn message(&self) -> (r: String)
        ensures
            r@ == self.text(),
    {
        match self {
            EnvelopeError::RotationDataAbsent => "no rotation data in the message".to_owned(),
            EnvelopeError::HeaderParseFailure => "failed to parse the header of the envelope"
                .to_owned(),
            EnvelopeError::NonceSizeMismatch(len) => {
                let mut text = "wrong nonce (iv) size: ".to_owned();
                write_decimal(&mut text, *len as u64);
                text
            },
            EnvelopeError::NonceFormatInvalid => "wrong nonce format".to_owned(),
            EnvelopeError::KeyMaterialInvalid => "invalid key material".to_owned(),
            EnvelopeError::RecipientListEmpty => "no recipient to seal for".to_owned(),
            EnvelopeError::HeaderSerializationFailure => "failed to serialize the headers"
                .to_owned(),
            EnvelopeError::EntropyUnavailable => "no randomness available".to_owned(),
            EnvelopeError::PayloadTooLarge => "payload too large".to_owned(),
            EnvelopeError::IntegrityFailure => "integrity check failed".to_owned(),
            EnvelopeError::ReservedFieldName => "reserved field name".to_owned(),
        }
    }
}

} // verus!
