//! Layered message envelopes for exchanging authenticated, optionally
//! encrypted messages between self-sovereign identities.
//!
//! A [`Message`] carries a transformation header (the JOSE-style outer
//! envelope), an identity header (protocol metadata) and an opaque body.
//! It passes through stages, plain, signed, encrypted, wrapped for a
//! mediator, and the headers of each envelope record which of them were
//! applied:
//!
//! - [`Message::as_jws`] and [`Message::as_jwe`] set the transformation
//!   header up for signing or for encryption;
//! - [`Message::seal`] encrypts a message for a recipient,
//!   [`Message::seal_for`] for several, and [`Message::unseal`] opens a
//!   compact envelope;
//! - [`Message::sign`] makes the compact signed object of a message,
//!   [`Message::seal_signed`] nests it in an encrypted envelope, and
//!   [`Message::verify`] verifies it;
//! - [`Message::routed_by`] and [`Message::forward_sealed`] wrap a message
//!   or an envelope once per relay hop;
//! - [`Message::get_iv`] reads the nonce of a serialized envelope without
//!   decrypting it.
//!
//! The keys that seal and open are the 32-byte keys that sender and
//! recipient have agreed on beforehand; resolving identities, agreeing and
//! storing keys, and transport are the caller's part.
//!
//! The modules [`encoding`], [`json`] and [`cipher`] hold what the library
//! takes from other crates. Their results are named, not defined; the
//! contracts of the envelope operations are stated over those names.

pub mod cipher;
pub mod encoding;
pub mod error;
pub mod json;
pub mod messages;

pub use error::EnvelopeError;
pub use messages::headers::{DidcommHeader, EphemeralKey, ExtensionValue, JwmHeader};
pub use messages::message::Message;
pub use messages::prior_claims::PriorClaims;
pub use messages::types::{ContentType, MessageType};
