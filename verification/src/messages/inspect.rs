//! The envelope inspector: reads the nonce out of a serialized envelope
//! without decrypting it.

use vstd::prelude::*;
use vstd::slice::{slice_subrange, slice_to_vec};
use vstd::string::StringSliceAdditionalSpecFns;
use vstd::utf8::{decode_utf8, encode_utf8, valid_utf8};
use crate::encoding::{base64url_decoded, decode_base64url, text_of_utf8};
use crate::error::EnvelopeError;
use crate::json::{json_member, json_parsed, json_text, member_of, parse_json};
use super::message::Message;

verus! {

/// The length of a nonce, in bytes.
pub const NONCE_LEN: usize = 24;

/// The byte that separates the segments of a compact envelope: a dot.
pub const SEGMENT_SEPARATOR: u8 = 46;

/// The place of the first separator in `received`, if there is one.
pub open spec fn header_end(received: Seq<u8>) -> Option<int> {
    received.index_of_first(SEGMENT_SEPARATOR)
}

/// The JSON text in which the fields of an envelope are looked up.
///
/// For a compact envelope, which holds a separator, it is what the segment
/// before the first separator decodes to; for a flattened envelope it is
/// the whole of what was received. `None` where what was received, or the
/// decoded segment, is not UTF-8, or the segment is not base64url.
pub open spec fn header_text(received: Seq<u8>) -> Option<Seq<char>> {
    if !valid_utf8(received) {
        None
    } else {
        match header_end(received) {
            Some(end) => match base64url_decoded(received.subrange(0, end)) {
                Some(header) => if valid_utf8(header) {
                    Some(decode_utf8(header))
                } else {
                    None
                },
                None => None,
            },
            None => Some(decode_utf8(received)),
        }
    }
}

/// What the decoded bytes of a nonce field stand for: the nonce itself if
/// they have the length of one, and else a size mismatch that reports how
/// many they are.
pub open spec fn checked_nonce(decoded: Seq<u8>) -> Result<Seq<u8>, EnvelopeError> {
    if decoded.len() == NONCE_LEN {
        Ok(decoded)
    } else {
        Err(EnvelopeError::NonceSizeMismatch(decoded.len() as usize))
    }
}

/// The nonce that a parsed header carries in its field `iv`.
pub open spec fn nonce_of_document(document: serde_json::Value) -> Result<
    Seq<u8>,
    EnvelopeError,
> {
    match json_member(document, "iv"@) {
        None => Err(EnvelopeError::HeaderParseFailure),
        Some(field) => match json_text(field) {
            None => Err(EnvelopeError::NonceFormatInvalid),
            Some(text) => match base64url_decoded(encode_utf8(text)) {
                None => Err(EnvelopeError::HeaderParseFailure),
                Some(decoded) => checked_nonce(decoded),
            },
        },
    }
}

/// The nonce of a serialized envelope.
pub open spec fn envelope_nonce(received: Seq<u8>) -> Result<Seq<u8>, EnvelopeError> {
    match header_text(received) {
        None => Err(EnvelopeError::HeaderParseFailure),
        Some(text) => match json_parsed(text) {
            None => Err(EnvelopeError::HeaderParseFailure),
            Some(document) => nonce_of_document(document),
        },
    }
}

/// Whether an outcome of the inspector is the one that the model gives.
pub open spec fn nonce_outcome_is(
    r: Result<Vec<u8>, EnvelopeError>,
    wanted: Result<Seq<u8>, EnvelopeError>,
) -> bool {
    match wanted {
        Ok(nonce) => r is Ok && r->Ok_0@ == nonce,
        Err(error) => r is Err && r->Err_0 == error,
    }
}

/// The place of the first separator in `received`, if there is one.
pub fn find_header_end(received: &[u8]) -> (r: Option<usize>)
    ensures
        match r {
            Some(end) => {
                &&& header_end(received@) == Some(end as int)
                &&& end < received@.len()
                &&& received@[end as int] == SEGMENT_SEPARATOR
                &&& forall|k: int| 0 <= k < end ==> received@[k] != SEGMENT_SEPARATOR
            },
            None => {
                &&& header_end(received@) is None
                &&& forall|k: int| 0 <= k < received@.len() ==> received@[k] != SEGMENT_SEPARATOR
            },
        },
{
    proof {
        received@.index_of_first_ensures(SEGMENT_SEPARATOR);
    }
    let mut i: usize = 0;
    while i < received.len()
        invariant
            i <= received.len(),
            forall|k: int| 0 <= k < i ==> received@[k] != SEGMENT_SEPARATOR,
        decreases received.len() - i,
    {
        if received[i] == SEGMENT_SEPARATOR {
            proof {
                assert(received@.contains(SEGMENT_SEPARATOR));
                received@.index_of_first_ensures(SEGMENT_SEPARATOR);
                let first = received@.index_of_first(SEGMENT_SEPARATOR)->0;
                if first < i {
                    assert(received@[first] != SEGMENT_SEPARATOR);
                } else if i < first {
                    assert(received@[i as int] != SEGMENT_SEPARATOR);
                }
            }
            return Some(i);
        }
        i += 1;
    }
    None
}

/// Takes the decoded bytes of a nonce field as the nonce if they have the
/// length of one, and reports their length if they have not.
pub fn check_nonce(decoded: Vec<u8>) -> (r: Result<Vec<u8>, EnvelopeError>)
    ensures
        nonce_outcome_is(r, checked_nonce(decoded@)),
        decoded@.len() == NONCE_LEN ==> r == Ok::<Vec<u8>, EnvelopeError>(decoded),
{
    if decoded.len() != NONCE_LEN {
        Err(EnvelopeError::NonceSizeMismatch(decoded.len()))
    } else {
        Ok(decoded)
    }
}

/// Reads the nonce out of the field `iv` of a parsed header.
///
/// Fails with `HeaderParseFailure` where the header has no such field or
/// the field is not base64url, with `NonceFormatInvalid` where the field
/// is no string, and with `NonceSizeMismatch` where it decodes to another
/// length than that of a nonce.
pub fn nonce_of(document: &serde_json::Value) -> (r: Result<Vec<u8>, EnvelopeError>)
    ensures
        nonce_outcome_is(r, nonce_of_document(*document)),
{
    match member_of(document, "iv") {
        None => Err(EnvelopeError::HeaderParseFailure),
        Some(field) => match field.as_str() {
            None => Err(EnvelopeError::NonceFormatInvalid),
            Some(text) => match decode_base64url(text.as_bytes()) {
                Err(_) => Err(EnvelopeError::HeaderParseFailure),
                Ok(decoded) => check_nonce(decoded),
            },
        },
    }
}

impl Message {
    /// Reads the nonce of a serialized envelope without decrypting it.
    ///
    /// In a compact envelope the nonce is looked up in the protected
    /// header, the segment before the first dot; in a flattened envelope,
    /// in the JSON object itself. The nonce is the field `iv`, base64url,
    /// and has to decode to exactly 24 bytes.
    pub fn get_iv(received: &[u8]) -> (r: Result<Vec<u8>, EnvelopeError>)
        ensures
            nonce_outcome_is(r, envelope_nonce(received@)),
    {
        let text = match text_of_utf8(slice_to_vec(received)) {
            Ok(text) => text,
            Err(_) => {
                return Err(EnvelopeError::HeaderParseFailure);
            },
        };
        let parsed = match find_header_end(received) {
            Some(end) => {
                let header = match decode_base64url(slice_subrange(received, 0, end)) {
                    Ok(header) => header,
                    Err(_) => {
                        return Err(EnvelopeError::HeaderParseFailure);
                    },
                };
                match text_of_utf8(header) {
                    Ok(header_text) => parse_json(header_text.as_str()),
                    Err(_) => {
                        return Err(EnvelopeError::HeaderParseFailure);
                    },
                }
            },
            None => parse_json(text.as_str()),
        };
        match parsed {
            Ok(document) => nonce_of(&document),
            Err(_) => Err(EnvelopeError::HeaderParseFailure),
        }
    }
}

} // verus!
