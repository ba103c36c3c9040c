//! The cipher suite of the envelopes.
//!
//! Content is encrypted with XChaCha20-Poly1305 (`chacha20poly1305`), the
//! 256-bit authenticated cipher whose nonce has 24 bytes. The content key
//! is wrapped for each recipient with AES-256 key wrap (`aes_kw`) under
//! the key that the sender has agreed with that recipient. Signatures are
//! ECDSA over P-256 with SHA-256 (`p256`). Fresh keys and nonces come from
//! the system (`getrandom`).
//!
//! What a primitive makes of its input is given a name; nothing is said
//! here of how it is computed.

use chacha20poly1305::{AeadInPlace, KeyInit};
use p256::ecdsa::signature::{Signer, Verifier};
use vstd::prelude::*;

verus! {

#[verifier::external_type_specification]
#[verifier::external_body]
pub struct ExAeadError(chacha20poly1305::Error);

#[verifier::external_type_specification]
#[verifier::external_body]
pub struct ExKeyWrapError(aes_kw::Error);

#[verifier::external_type_specification]
#[verifier::external_body]
pub struct ExSignatureError(p256::ecdsa::Error);

#[verifier::external_type_specification]
#[verifier::external_body]
pub struct ExEntropyError(getrandom::Error);

/// The length of a content key and of a key-encryption key, in bytes.
pub const KEY_LEN: usize = 32;

/// The length of an authentication tag, in bytes.
pub const TAG_LEN: usize = 16;

/// The ciphertext and the tag that XChaCha20-Poly1305 makes of `plaintext`
/// under `key` and `nonce`, with `aad` authenticated beside it; `None`
/// where the cipher refuses the plaintext.
pub uninterp spec fn xchacha20poly1305_sealed(
    key: Seq<u8>,
    nonce: Seq<u8>,
    aad: Seq<u8>,
    plaintext: Seq<u8>,
) -> Option<(Seq<u8>, Seq<u8>)>;

/// The plaintext that XChaCha20-Poly1305 recovers from `ciphertext` and
/// `tag` under `key` and `nonce`, with `aad` authenticated beside it;
/// `None` where the tag does not fit.
pub uninterp spec fn xchacha20poly1305_opened(
    key: Seq<u8>,
    nonce: Seq<u8>,
    aad: Seq<u8>,
    ciphertext: Seq<u8>,
    tag: Seq<u8>,
) -> Option<Seq<u8>>;

/// What AES-256 key wrap makes of `key` under the key-encryption key
/// `kek`; `None` where a length is refused.
pub uninterp spec fn a256kw_wrapped(kek: Seq<u8>, key: Seq<u8>) -> Option<Seq<u8>>;

/// The key that AES-256 key wrap recovers from `wrapped` under the
/// key-encryption key `kek`; `None` where a length is refused or the
/// integrity check fails.
pub uninterp spec fn a256kw_unwrapped(kek: Seq<u8>, wrapped: Seq<u8>) -> Option<Seq<u8>>;

/// The ES256 signature, 64 bytes of `r` and `s`, that the signing key
/// `secret` makes of `message`; `None` where the key is refused.
pub uninterp spec fn es256_signed(secret: Seq<u8>, message: Seq<u8>) -> Option<Seq<u8>>;

/// Calls `XChaCha20Poly1305::encrypt_in_place_detached` of
/// `chacha20poly1305`, on a cipher made by `XChaCha20Poly1305::new`.
///
/// The preconditions leave out the lengths on which the conversion of key
/// and nonce panics. The cipher works in place and returns its tag of 16
/// bytes beside. Decryption is the inverse of encryption, as the cipher
/// promises.
#[verifier::external_body]
pub(crate) fn xchacha20poly1305_seal(
    key: &[u8],
    nonce: &[u8],
    aad: &[u8],
    plaintext: Vec<u8>,
) -> (r: Result<(Vec<u8>, Vec<u8>), chacha20poly1305::Error>)
    requires
        key@.len() == KEY_LEN,
        nonce@.len() == 24,
    ensures
        r matches Ok(sealed) ==> {
            &&& xchacha20poly1305_sealed(key@, nonce@, aad@, plaintext@) == Some(
                (sealed.0@, sealed.1@),
            )
            &&& sealed.1@.len() == TAG_LEN
            &&& xchacha20poly1305_opened(key@, nonce@, aad@, sealed.0@, sealed.1@) == Some(
                plaintext@,
            )
        },
        r is Err ==> xchacha20poly1305_sealed(key@, nonce@, aad@, plaintext@) is None,
{
    let cipher = chacha20poly1305::XChaCha20Poly1305::new(chacha20poly1305::Key::from_slice(key));
    let mut buffer = plaintext;
    let nonce = chacha20poly1305::XNonce::from_slice(nonce);
    let tag = cipher.encrypt_in_place_detached(nonce, aad, &mut buffer)?;
    Ok((buffer, tag.to_vec()))
}

/// Calls `XChaCha20Poly1305::decrypt_in_place_detached` of
/// `chacha20poly1305`, on a cipher made by `XChaCha20Poly1305::new`.
///
/// The preconditions leave out the lengths on which the conversion of
/// key, nonce and tag panics. The contract names what comes back and says
/// no more of it.
#[verifier::external_body]
pub(crate) fn xchacha20poly1305_open(
    key: &[u8],
    nonce: &[u8],
    aad: &[u8],
    ciphertext: Vec<u8>,
    tag: &[u8],
) -> (r: Result<Vec<u8>, chacha20poly1305::Error>)
    requires
        key@.len() == KEY_LEN,
        nonce@.len() == 24,
        tag@.len() == TAG_LEN,
    ensures
        r matches Ok(plaintext) ==> xchacha20poly1305_opened(
            key@,
            nonce@,
            aad@,
            ciphertext@,
            tag@,
        ) == Some(plaintext@),
        r is Err ==> xchacha20poly1305_opened(key@, nonce@, aad@, ciphertext@, tag@) is None,
{
    let cipher = chacha20poly1305::XChaCha20Poly1305::new(chacha20poly1305::Key::from_slice(key));
    let mut buffer = ciphertext;
    let nonce = chacha20poly1305::XNonce::from_slice(nonce);
    let tag = chacha20poly1305::Tag::from_slice(tag);
    cipher.decrypt_in_place_detached(nonce, aad, &mut buffer, tag)?;
    Ok(buffer)
}

/// Calls `KekAes256::wrap_vec` of `aes_kw`, on a key-encryption key made
/// by `KekAes256::try_from`.
///
/// The precondition leaves out the length on which the size of the
/// output overflows. Unwrapping is the inverse of wrapping, as the key
/// wrap promises.
#[verifier::external_body]
pub(crate) fn a256kw_wrap(kek: &[u8], key: &[u8]) -> (r: Result<Vec<u8>, aes_kw::Error>)
    requires
        key@.len() + 8 <= usize::MAX,
    ensures
        r matches Ok(wrapped) ==> {
            &&& a256kw_wrapped(kek@, key@) == Some(wrapped@)
            &&& a256kw_unwrapped(kek@, wrapped@) == Some(key@)
        },
        r is Err ==> a256kw_wrapped(kek@, key@) is None,
{
    aes_kw::KekAes256::try_from(kek)?.wrap_vec(key)
}

/// Calls `KekAes256::unwrap_vec` of `aes_kw`, on a key-encryption key
/// made by `KekAes256::try_from`. The contract names what comes back and
/// says no more of it.
#[verifier::external_body]
pub(crate) fn a256kw_unwrap(kek: &[u8], wrapped: &[u8]) -> (r: Result<Vec<u8>, aes_kw::Error>)
    ensures
        r matches Ok(key) ==> a256kw_unwrapped(kek@, wrapped@) == Some(key@),
        r is Err ==> a256kw_unwrapped(kek@, wrapped@) is None,
{
    aes_kw::KekAes256::try_from(kek)?.unwrap_vec(wrapped)
}

/// The public key, in SEC1 encoding, that belongs to the signing key
/// `secret`; `None` where the key is refused.
pub uninterp spec fn es256_public(secret: Seq<u8>) -> Option<Seq<u8>>;

/// Whether `signature` is an ES256 signature of `message` that verifies
/// under the public key `public`.
pub uninterp spec fn es256_verifies(public: Seq<u8>, message: Seq<u8>, signature: Seq<u8>) -> bool;

/// Calls `Signer::try_sign` of `p256::ecdsa`, on a signing key made by
/// `SigningKey::from_slice`, and gives the signature as the bytes of `r`
/// and `s`. The signature is deterministic. A key that signs has a public
/// key, and the signature verifies under it, as the scheme promises.
#[verifier::external_body]
pub(crate) fn es256_sign(secret: &[u8], message: &[u8]) -> (r: Result<
    Vec<u8>,
    p256::ecdsa::Error,
>)
    ensures
        r matches Ok(signature) ==> {
            &&& es256_signed(secret@, message@) == Some(signature@)
            &&& es256_public(secret@) matches Some(public) && es256_verifies(
                public,
                message@,
                signature@,
            )
        },
        r is Err ==> es256_signed(secret@, message@) is None,
{
    let key = p256::ecdsa::SigningKey::from_slice(secret)?;
    let signature: p256::ecdsa::Signature = key.try_sign(message)?;
    Ok(signature.to_vec())
}

/// Calls `VerifyingKey::to_sec1_bytes` of `p256::ecdsa`, on the verifying
/// key of a signing key made by `SigningKey::from_slice`. The contract
/// names what comes back and says no more of it.
#[verifier::external_body]
pub(crate) fn es256_public_key(secret: &[u8]) -> (r: Result<Vec<u8>, p256::ecdsa::Error>)
    ensures
        r matches Ok(public) ==> es256_public(secret@) == Some(public@),
        r is Err ==> es256_public(secret@) is None,
{
    let key = p256::ecdsa::SigningKey::from_slice(secret)?;
    Ok(key.verifying_key().to_sec1_bytes().to_vec())
}

/// Calls `Verifier::verify` of `p256::ecdsa`, on a verifying key made by
/// `VerifyingKey::from_sec1_bytes` and a signature made by
/// `Signature::from_slice`. It succeeds exactly where key and signature
/// are well formed and the signature verifies; the contract names that.
#[verifier::external_body]
pub(crate) fn es256_verify(public: &[u8], message: &[u8], signature: &[u8]) -> (r: Result<
    (),
    p256::ecdsa::Error,
>)
    ensures
        r is Ok <==> es256_verifies(public@, message@, signature@),
{
    let key = p256::ecdsa::VerifyingKey::from_sec1_bytes(public)?;
    let signature = p256::ecdsa::Signature::from_slice(signature)?;
    key.verify(message, &signature)
}

/// Calls `getrandom::getrandom`, which fills the buffer with random bytes
/// of the system or fails. Nothing is known of the bytes; the buffer
/// keeps its length.
#[verifier::external_body]
pub(crate) fn fill_random(buffer: &mut Vec<u8>) -> (r: Result<(), getrandom::Error>)
    ensures
        final(buffer)@.len() == old(buffer)@.len(),
{
    getrandom::getrandom(buffer.as_mut_slice())
}

} // verus!
