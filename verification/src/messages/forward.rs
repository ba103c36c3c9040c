//! The mediator wrapper: a sealed envelope as the body of a forwarding
//! instruction for a relay.
//!
//! Wrapping is done once per hop, innermost hop first. Each layer holds
//! the whole serialized output of the layer before it and is sealed with
//! the key of its own hop, so that a mediator learns the header of its
//! hop and nothing of what lies within.

use vstd::prelude::*;
use vstd::slice::slice_to_vec;
use vstd::string::StringSliceAdditionalSpecFns;
use vstd::utf8::encode_utf8;
use crate::cipher::KEY_LEN;
use crate::error::EnvelopeError;
use super::headers::{DidcommHeader, DidcommHeaderView, JwmHeader, JwmHeaderView};
use super::message::{Message, MessageView};
use super::seal::{opens_to, seals_to};
use super::unseal::opened_with;

verus! {

/// The forwarding instruction that carries the envelope `payload` from
/// `from` to the next hops `to`: a plain transformation header, the
/// identity header of a forwarding instruction, and the bytes of the
/// envelope as the body.
pub open spec fn forwarding(
    payload: Seq<char>,
    to: Seq<Seq<char>>,
    from: Seq<char>,
    expires_time: Option<usize>,
) -> MessageView {
    MessageView {
        jwm: JwmHeaderView::plain(),
        didcomm: DidcommHeaderView::forward(to, from, expires_time),
        body: encode_utf8(payload),
    }
}

/// Whether `outcome` is what wrapping a message for a mediator gives: the
/// forwarding instruction around what sealing the message for the hop
/// gives under some fresh content key and nonce, which opens under the
/// key of the hop to the message, or the failure of that sealing.
pub open spec fn routes_to(
    message: MessageView,
    kek: Seq<u8>,
    to: Seq<Seq<char>>,
    from: Seq<char>,
    expires_time: Option<usize>,
    outcome: Result<MessageView, EnvelopeError>,
) -> bool {
    match outcome {
        Ok(wrapped) => exists|payload: Seq<char>|
            #[trigger] seals_to(message, seq![kek], Ok::<Seq<char>, EnvelopeError>(payload))
                && opens_to(message, kek, payload) && wrapped == forwarding(
                payload,
                to,
                from,
                expires_time,
            ),
        Err(error) => error == EnvelopeError::EntropyUnavailable || seals_to(
            message,
            seq![kek],
            Err::<Seq<char>, EnvelopeError>(error),
        ),
    }
}

/// Whether `first` and `second` are the envelopes of two hops of
/// wrapping, the one within the other: the outer layer holds `second`,
/// which opens under the key of the second hop to the body of the inner
/// layer; that body is `first`, which opens under the key of the first
/// hop to the body of the message.
pub open spec fn nested_in(
    message: MessageView,
    kek1: Seq<u8>,
    inner: MessageView,
    kek2: Seq<u8>,
    outer: MessageView,
    first: Seq<char>,
    second: Seq<char>,
) -> bool {
    &&& outer.body == encode_utf8(second)
    &&& opened_with(second, kek2) matches Ok(opened) && opened.1 == inner.body
    &&& inner.body == encode_utf8(first)
    &&& opened_with(first, kek1) matches Ok(opened) && opened.1 == message.body
}

/// Wrapping is strictly nested. Where a message is wrapped for one hop
/// and what comes of it is wrapped for a second hop, the body of the outer
/// layer is an envelope that opens, under the key of the second hop, to
/// the whole body of the inner layer, and that body is the envelope of the
/// first hop, which alone opens to the message: no layer is flattened
/// into another.
pub proof fn lemma_wrapping_nests(
    message: MessageView,
    kek1: Seq<u8>,
    to1: Seq<Seq<char>>,
    from1: Seq<char>,
    expires1: Option<usize>,
    inner: MessageView,
    kek2: Seq<u8>,
    to2: Seq<Seq<char>>,
    from2: Seq<char>,
    expires2: Option<usize>,
    outer: MessageView,
)
    requires
        routes_to(
            message,
            kek1,
            to1,
            from1,
            expires1,
            Ok::<MessageView, EnvelopeError>(inner),
        ),
        routes_to(inner, kek2, to2, from2, expires2, Ok::<MessageView, EnvelopeError>(outer)),
    ensures
        exists|first: Seq<char>, second: Seq<char>| #[trigger]
            nested_in(message, kek1, inner, kek2, outer, first, second),
{
    let first = choose|payload: Seq<char>|
        #[trigger] seals_to(message, seq![kek1], Ok::<Seq<char>, EnvelopeError>(payload))
            && opens_to(message, kek1, payload) && inner == forwarding(
            payload,
            to1,
            from1,
            expires1,
        );
    let second = choose|payload: Seq<char>|
        #[trigger] seals_to(inner, seq![kek2], Ok::<Seq<char>, EnvelopeError>(payload))
            && opens_to(inner, kek2, payload) && outer == forwarding(
            payload,
            to2,
            from2,
            expires2,
        );
    assert(nested_in(message, kek1, inner, kek2, outer, first, second));
}

impl Message {
    /// The forwarding instruction that carries the serialized envelope
    /// `payload` from `from` to the next hops `to`, valid until
    /// `expires_time`. The list of next hops may be empty.
    pub fn forward(
        payload: String,
        to: Vec<String>,
        from: String,
        expires_time: Option<usize>,
    ) -> (r: Message)
        ensures
            r@ == forwarding(payload@, to.deep_view(), from@, expires_time),
    {
        Message::from_parts(
            JwmHeader::default(),
            DidcommHeader::forward(to, from, expires_time),
            slice_to_vec(payload.as_str().as_bytes()),
        )
    }

    /// Wraps the serialized envelope `payload` for one mediator: makes the
    /// forwarding instruction that carries it and seals that instruction
    /// with the key `ek` of the hop.
    ///
    /// What comes back is again a serialized envelope. It opens, under
    /// the key of the hop, to the header of the forwarding instruction and
    /// to a body that is `payload`, byte for byte.
    pub fn forward_sealed(
        payload: String,
        ek: Vec<u8>,
        to: Vec<String>,
        from: String,
        expires_time: Option<usize>,
    ) -> (r: Result<String, EnvelopeError>)
        ensures
            ek@.len() != KEY_LEN ==> r is Err && r->Err_0 == EnvelopeError::KeyMaterialInvalid,
            r matches Ok(envelope) ==> seals_to(
                forwarding(payload@, to.deep_view(), from@, expires_time),
                seq![ek@],
                Ok::<Seq<char>, EnvelopeError>(envelope@),
            ) && opens_to(
                forwarding(payload@, to.deep_view(), from@, expires_time),
                ek@,
                envelope@,
            ),
            r matches Err(error) ==> error == EnvelopeError::EntropyUnavailable || seals_to(
                forwarding(payload@, to.deep_view(), from@, expires_time),
                seq![ek@],
                Err::<Seq<char>, EnvelopeError>(error),
            ),
    {
        Message::forward(payload, to, from, expires_time).seal(ek)
    }

    /// Wraps the message for one mediator: seals it with the key `ek` of
    /// the hop and gives the forwarding instruction whose body is the
    /// sealed envelope.
    ///
    /// Chained once per hop, each call wraps what the call before it
    /// gave, never the message that the first call took.
    pub fn routed_by(
        self,
        ek: Vec<u8>,
        to: Vec<String>,
        from: String,
        expires_time: Option<usize>,
    ) -> (r: Result<Message, EnvelopeError>)
        ensures
            ek@.len() != KEY_LEN ==> r is Err && r->Err_0 == EnvelopeError::KeyMaterialInvalid,
            r matches Ok(wrapped) ==> routes_to(
                self@,
                ek@,
                to.deep_view(),
                from@,
                expires_time,
                Ok::<MessageView, EnvelopeError>(wrapped@),
            ),
            r matches Err(error) ==> routes_to(
                self@,
                ek@,
                to.deep_view(),
                from@,
                expires_time,
                Err::<MessageView, EnvelopeError>(error),
            ),
    {
        let payload = self.seal(ek)?;
        Ok(Message::forward(payload, to, from, expires_time))
    }
}

} // verus!
