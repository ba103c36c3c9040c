//! The message: a transformation header, an identity header and a body.

use vstd::prelude::*;
use crate::error::EnvelopeError;
use super::headers::{DidcommHeader, DidcommHeaderView, JwmHeader, JwmHeaderView};
use super::prior_claims::PriorClaims;

verus! {

/// A message at some stage between plain and mediator-wrapped.
///
/// The body is opaque: the payload of the application or, after mediator
/// wrapping, an envelope that was serialized before.
#[derive(Debug, PartialEq, Eq)]
pub struct Message {
    jwm_header: JwmHeader,
    didcomm_header: DidcommHeader,
    body: Vec<u8>,
}

/// What a message holds.
pub struct MessageView {
    /// The transformation header.
    pub jwm: JwmHeaderView,
    /// The identity header.
    pub didcomm: DidcommHeaderView,
    /// The body.
    pub body: Seq<u8>,
}

impl MessageView {
    /// The message with plain headers and an empty body.
    pub open spec fn empty() -> MessageView {
        MessageView {
            jwm: JwmHeaderView::plain(),
            didcomm: DidcommHeaderView::empty(),
            body: Seq::empty(),
        }
    }

    /// This message with its transformation header set up for signing;
    /// the identity header and the body are the same.
    pub open spec fn prepared_for_signing(self) -> MessageView {
        MessageView { jwm: self.jwm.signing(None, None), ..self }
    }

    /// This message with its transformation header set up for encryption;
    /// the identity header and the body are the same.
    pub open spec fn prepared_for_encryption(self) -> MessageView {
        MessageView { jwm: self.jwm.encryption(None, None), ..self }
    }
}

/// Header composition does not compose to a dual state. Setting a message
/// up for signing and then for encryption leaves what setting it up for
/// encryption alone leaves, and the other way round: the algorithm fields
/// of the earlier step are overwritten, not merged.
pub proof fn lemma_last_composition_wins(message: MessageView)
    ensures
        message.prepared_for_signing().prepared_for_encryption()
            == message.prepared_for_encryption(),
        message.prepared_for_encryption().prepared_for_signing() == message.prepared_for_signing(),
{
}

/// Header composition is idempotent and touches the transformation header
/// alone.
pub proof fn lemma_composition_is_pure(message: MessageView)
    ensures
        message.prepared_for_signing().body == message.body,
        message.prepared_for_signing().didcomm == message.didcomm,
        message.prepared_for_encryption().body == message.body,
        message.prepared_for_encryption().didcomm == message.didcomm,
        message.prepared_for_signing().prepared_for_signing() == message.prepared_for_signing(),
        message.prepared_for_encryption().prepared_for_encryption()
            == message.prepared_for_encryption(),
        message.prepared_for_signing().jwm.kid == message.jwm.kid,
        message.prepared_for_signing().jwm.epk == message.jwm.epk,
        message.prepared_for_signing().jwm.cty == message.jwm.cty,
        message.prepared_for_signing().jwm.iv == message.jwm.iv,
        message.prepared_for_encryption().jwm.kid == message.jwm.kid,
        message.prepared_for_encryption().jwm.epk == message.jwm.epk,
        message.prepared_for_encryption().jwm.cty == message.jwm.cty,
        message.prepared_for_encryption().jwm.iv == message.jwm.iv,
{
}

impl View for Message {
    type V = MessageView;

    closed spec fn view(&self) -> MessageView {
        MessageView { jwm: self.jwm_header@, didcomm: self.didcomm_header@, body: self.body@ }
    }
}

impl Message {
    /// The empty message: plain headers, no recipient, every optional
    /// field absent, and an empty body.
    pub fn new() -> (r: Message)
        ensures
            r@ == MessageView::empty(),
    {
        Message {
            jwm_header: JwmHeader::default(),
            didcomm_header: DidcommHeader::new(),
            body: Vec::new(),
        }
    }

    /// Whether the message announces a rotation of the sender's identity:
    /// it does exactly if its identity header carries a rotation claim.
    pub fn is_rotation(&self) -> (r: bool)
        ensures
            r == (self@.didcomm.from_prior is Some),
    {
        self.didcomm_header.from_prior().is_some()
    }

    /// The rotation claim of the message, as the message carries it.
    ///
    /// Fails with `RotationDataAbsent` on a message that carries none.
    pub fn get_prior(&self) -> (r: Result<PriorClaims, EnvelopeError>)
        ensures
            match self@.didcomm.from_prior {
                Some(claims) => r is Ok && r->Ok_0@ == claims,
                None => r is Err && r->Err_0 == EnvelopeError::RotationDataAbsent,
            },
    {
        match self.didcomm_header.from_prior() {
            Some(claims) => Ok(claims.clone()),
            None => Err(EnvelopeError::RotationDataAbsent),
        }
    }

    /// The identity header.
    pub fn get_didcomm_header(&self) -> (r: &DidcommHeader)
        ensures
            r@ == self@.didcomm,
    {
        &self.didcomm_header
    }

    /// The transformation header.
    pub fn get_jwm_header(&self) -> (r: &JwmHeader)
        ensures
            r@ == self@.jwm,
    {
        &self.jwm_header
    }

    /// The body.
    pub fn get_body(&self) -> (r: &Vec<u8>)
        ensures
            r@ == self@.body,
    {
        &self.body
    }

    /// The same message with the transformation header `header`.
    pub fn with_jwm_header(self, header: JwmHeader) -> (r: Message)
        ensures
            r@ == (MessageView { jwm: header@, ..self@ }),
    {
        Message { jwm_header: header, didcomm_header: self.didcomm_header, body: self.body }
    }

    /// The same message with the identity header `header`.
    pub fn with_didcomm_header(self, header: DidcommHeader) -> (r: Message)
        ensures
            r@ == (MessageView { didcomm: header@, ..self@ }),
    {
        Message { jwm_header: self.jwm_header, didcomm_header: header, body: self.body }
    }

    /// The same message with the body `body`.
    pub fn with_body(self, body: Vec<u8>) -> (r: Message)
        ensures
            r@ == (MessageView { body: body@, ..self@ }),
    {
        Message { jwm_header: self.jwm_header, didcomm_header: self.didcomm_header, body }
    }

    /// The message taken apart: its transformation header, its identity
    /// header and its body.
    pub fn into_parts(self) -> (r: (JwmHeader, DidcommHeader, Vec<u8>))
        ensures
            r.0@ == self@.jwm,
            r.1@ == self@.didcomm,
            r.2@ == self@.body,
    {
        (self.jwm_header, self.didcomm_header, self.body)
    }

    /// The message made of a transformation header, an identity header and
    /// a body.
    pub fn from_parts(jwm_header: JwmHeader, didcomm_header: DidcommHeader, body: Vec<u8>) -> (r:
        Message)
        ensures
            r@ == (MessageView { jwm: jwm_header@, didcomm: didcomm_header@, body: body@ }),
    {
        Message { jwm_header, didcomm_header, body }
    }

    /// Sets the transformation header up for signing. Only its algorithm
    /// fields change: the identity header and the body stay as they are,
    /// and so do the other fields of the transformation header.
    pub fn as_jws(self) -> (r: Message)
        ensures
            r@ == self@.prepared_for_signing(),
            r@.body == self@.body,
            r@.didcomm == self@.didcomm,
    {
        Message {
            jwm_header: self.jwm_header.as_es256(None, None),
            didcomm_header: self.didcomm_header,
            body: self.body,
        }
    }

    /// Sets the transformation header up for encryption. Only its
    /// algorithm fields change: the identity header and the body stay as
    /// they are, and so do the other fields of the transformation header.
    pub fn as_jwe(self) -> (r: Message)
        ensures
            r@ == self@.prepared_for_encryption(),
            r@.body == self@.body,
            r@.didcomm == self@.didcomm,
    {
        Message {
            jwm_header: self.jwm_header.as_xc20p(None, None),
            didcomm_header: self.didcomm_header,
            body: self.body,
        }
    }
}

impl Clone for Message {
    fn clone(&self) -> (r: Message)
        ensures
            r@ == self@,
    {
        let body = self.body.clone();
        assert(body@ =~= self.body@);
        Message {
            jwm_header: self.jwm_header.clone(),
            didcomm_header: self.didcomm_header.clone(),
            body,
        }
    }
}

} // verus!
