//! The sealer: authenticated encryption of a message for one or more
//! recipients.
//!
//! The headers go into the protected segment in their canonical form, set
//! up for encryption and carrying the nonce. A fresh content key encrypts
//! the body, with the protected segment authenticated beside it, and is
//! itself wrapped for each recipient under the key agreed with that
//! recipient. For one recipient the envelope is the compact string
//! `protected.encrypted_key.iv.ciphertext.tag`; for more it is the
//! flattened JSON object with a list of `recipients`.

use vstd::prelude::*;
use vstd::string::{StringExecFns, StringSliceAdditionalSpecFns};
use vstd::utf8::{
    encode_utf8,
    encode_utf8_decode_utf8,
    encode_utf8_valid_utf8,
    is_ascii_chars,
    is_ascii_chars_concat,
};
use crate::cipher::{
    KEY_LEN,
    TAG_LEN,
    a256kw_unwrapped,
    a256kw_wrap,
    a256kw_wrapped,
    fill_random,
    xchacha20poly1305_opened,
    xchacha20poly1305_seal,
    xchacha20poly1305_sealed,
};
use crate::encoding::{
    base64url_encodable,
    base64url_encoded,
    encode_base64url,
    is_base64url_text,
};
use crate::error::EnvelopeError;
use super::canonical::{header_json, write_header_json};
use super::headers::{DidcommHeader, DidcommHeaderView, JwmHeader, JwmHeaderView};
use super::inspect::NONCE_LEN;
use super::message::{Message, MessageView};
use super::unseal::{
    compact_segments,
    decoded_segment,
    lemma_base64url_text_is_one_segment,
    lemma_cut_at_the_dot,
    opened_with,
};

verus! {

/// Whether an outcome with a text is the one that the model gives.
pub open spec fn text_outcome_is(
    r: Result<String, EnvelopeError>,
    wanted: Result<Seq<char>, EnvelopeError>,
) -> bool {
    match wanted {
        Ok(text) => r is Ok && r->Ok_0@ == text,
        Err(error) => r is Err && r->Err_0 == error,
    }
}

/// The transformation header under which a message is sealed: set up for
/// encryption, with the nonce in base64url.
pub open spec fn sealing_header(jwm: JwmHeaderView, nonce: Seq<u8>) -> JwmHeaderView {
    JwmHeaderView { iv: Some(base64url_encoded(nonce)), ..jwm.encryption(None, None) }
}

/// The protected segment of an envelope: the canonical form of the
/// headers in base64url.
pub open spec fn protected_segment(jwm: JwmHeaderView, didcomm: DidcommHeaderView) -> Result<
    Seq<char>,
    EnvelopeError,
> {
    match header_json(jwm, didcomm) {
        None => Err(EnvelopeError::HeaderSerializationFailure),
        Some(json) => if base64url_encodable(encode_utf8(json).len()) {
            Ok(base64url_encoded(encode_utf8(json)))
        } else {
            Err(EnvelopeError::HeaderSerializationFailure)
        },
    }
}

/// The content key wrapped for one recipient, in base64url.
pub open spec fn wrapped_key(kek: Seq<u8>, cek: Seq<u8>) -> Result<Seq<char>, EnvelopeError> {
    if kek.len() != KEY_LEN {
        Err(EnvelopeError::KeyMaterialInvalid)
    } else {
        match a256kw_wrapped(kek, cek) {
            Some(wrapped) => if base64url_encodable(wrapped.len()) {
                Ok(base64url_encoded(wrapped))
            } else {
                Err(EnvelopeError::KeyMaterialInvalid)
            },
            None => Err(EnvelopeError::KeyMaterialInvalid),
        }
    }
}

/// The content key wrapped for each recipient, in the order of the
/// recipients.
pub open spec fn wrapped_keys(keks: Seq<Seq<u8>>, cek: Seq<u8>) -> Result<
    Seq<Seq<char>>,
    EnvelopeError,
>
    decreases keks.len(),
{
    if keks.len() == 0 {
        Ok(Seq::empty())
    } else {
        match wrapped_keys(keks.drop_last(), cek) {
            Ok(before) => match wrapped_key(keks.last(), cek) {
                Ok(key) => Ok(before.push(key)),
                Err(error) => Err(error),
            },
            Err(error) => Err(error),
        }
    }
}

/// The ciphertext and the tag of a body, each in base64url. The
/// protected segment is authenticated beside the body, as the bytes of
/// its text.
pub open spec fn sealed_content(
    cek: Seq<u8>,
    nonce: Seq<u8>,
    protected: Seq<char>,
    body: Seq<u8>,
) -> Result<(Seq<char>, Seq<char>), EnvelopeError> {
    match xchacha20poly1305_sealed(cek, nonce, encode_utf8(protected), body) {
        Some((ciphertext, tag)) => if base64url_encodable(ciphertext.len())
            && base64url_encodable(tag.len()) {
            Ok((base64url_encoded(ciphertext), base64url_encoded(tag)))
        } else {
            Err(EnvelopeError::PayloadTooLarge)
        },
        None => Err(EnvelopeError::PayloadTooLarge),
    }
}

/// The compact form of an envelope: five segments with a dot between one
/// and the next.
pub open spec fn compact_envelope(
    protected: Seq<char>,
    key: Seq<char>,
    iv: Seq<char>,
    ciphertext: Seq<char>,
    tag: Seq<char>,
) -> Seq<char> {
    protected + "."@ + key + "."@ + iv + "."@ + ciphertext + "."@ + tag
}

/// The text so far followed by one object for each wrapped key, with a
/// comma between one and the next.
pub open spec fn put_recipients(so_far: Seq<char>, keys: Seq<Seq<char>>) -> Seq<char>
    decreases keys.len(),
{
    if keys.len() == 0 {
        so_far
    } else if keys.len() == 1 {
        so_far + "{\"encrypted_key\":\""@ + keys.last() + "\"}"@
    } else {
        put_recipients(so_far, keys.drop_last()) + ",{\"encrypted_key\":\""@ + keys.last()
            + "\"}"@
    }
}

/// The flattened form of an envelope: one JSON object with the members
/// `protected`, `recipients`, `iv`, `ciphertext` and `tag`.
pub open spec fn flattened_envelope(
    protected: Seq<char>,
    keys: Seq<Seq<char>>,
    iv: Seq<char>,
    ciphertext: Seq<char>,
    tag: Seq<char>,
) -> Seq<char> {
    put_recipients("{\"protected\":\""@ + protected + "\",\"recipients\":["@, keys)
        + "],\"iv\":\""@ + iv + "\",\"ciphertext\":\""@ + ciphertext + "\",\"tag\":\""@ + tag
        + "\"}"@
}

/// Whether every recipient's key has the length of a key.
pub open spec fn keys_sized(keks: Seq<Seq<u8>>) -> bool {
    forall|i: int| 0 <= i < keks.len() ==> (#[trigger] keks[i]).len() == KEY_LEN
}

/// The envelope that seals a message for the recipients whose keys are
/// `keks`, under the content key `cek` and the nonce `nonce`.
///
/// No recipient is refused with `RecipientListEmpty`; a content key or a
/// recipient's key of another length than 32 bytes, or one that the key
/// wrap refuses, with `KeyMaterialInvalid`; a nonce of another length than
/// 24 bytes with `NonceSizeMismatch`; headers that cannot be written with
/// `HeaderSerializationFailure`; a body that the cipher refuses with
/// `PayloadTooLarge`. One recipient gives the compact form, more give the
/// flattened form.
pub open spec fn sealed_with(
    message: MessageView,
    keks: Seq<Seq<u8>>,
    cek: Seq<u8>,
    nonce: Seq<u8>,
) -> Result<Seq<char>, EnvelopeError> {
    if keks.len() == 0 {
        Err(EnvelopeError::RecipientListEmpty)
    } else if !keys_sized(keks) || cek.len() != KEY_LEN {
        Err(EnvelopeError::KeyMaterialInvalid)
    } else if nonce.len() != NONCE_LEN {
        Err(EnvelopeError::NonceSizeMismatch(nonce.len() as usize))
    } else {
        match protected_segment(sealing_header(message.jwm, nonce), message.didcomm) {
            Ok(protected) => match wrapped_keys(keks, cek) {
                Ok(keys) => match sealed_content(cek, nonce, protected, message.body) {
                    Ok((ciphertext, tag)) => Ok(
                        if keks.len() == 1 {
                            compact_envelope(
                                protected,
                                keys[0],
                                base64url_encoded(nonce),
                                ciphertext,
                                tag,
                            )
                        } else {
                            flattened_envelope(
                                protected,
                                keys,
                                base64url_encoded(nonce),
                                ciphertext,
                                tag,
                            )
                        },
                    ),
                    Err(error) => Err(error),
                },
                Err(error) => Err(error),
            },
            Err(error) => Err(error),
        }
    }
}

/// Whether `outcome` is what sealing a message for the recipients gives
/// under some fresh content key and nonce.
pub open spec fn seals_to(
    message: MessageView,
    keks: Seq<Seq<u8>>,
    outcome: Result<Seq<char>, EnvelopeError>,
) -> bool {
    exists|cek: Seq<u8>, nonce: Seq<u8>|
        cek.len() == KEY_LEN && nonce.len() == NONCE_LEN && #[trigger] sealed_with(
            message,
            keks,
            cek,
            nonce,
        ) == outcome
}

/// What a recipient recovers from the envelope of a message that was
/// sealed under `nonce`: the canonical form of the headers under which it
/// was sealed, and the body.
pub open spec fn unsealed(message: MessageView, nonce: Seq<u8>) -> (Seq<char>, Seq<u8>) {
    (header_json(sealing_header(message.jwm, nonce), message.didcomm)->0, message.body)
}

/// Whether the envelope opens, under the recipient's key `kek`, to the
/// body of `message` and to its headers as they were sealed under some
/// nonce.
pub open spec fn opens_to(message: MessageView, kek: Seq<u8>, envelope: Seq<char>) -> bool {
    exists|nonce: Seq<u8>|
        nonce.len() == NONCE_LEN && header_json(
            sealing_header(message.jwm, nonce),
            message.didcomm,
        ) is Some && opened_with(envelope, kek) == Ok::<(Seq<char>, Seq<u8>), EnvelopeError>(
            #[trigger] unsealed(message, nonce),
        )
}

/// Whether `text` is a segment that decodes to `bytes`.
pub open spec fn segment_of(text: Seq<char>, bytes: Seq<u8>) -> bool {
    is_base64url_text(text) && decoded_segment(text) == Some(bytes)
}

/// Whether `text` is a segment from which the recipient with the key
/// `kek` unwraps the content key `cek`.
pub open spec fn key_segment_for(text: Seq<char>, kek: Seq<u8>, cek: Seq<u8>) -> bool {
    &&& is_base64url_text(text)
    &&& decoded_segment(text) matches Some(wrapped) && a256kw_unwrapped(kek, wrapped) == Some(
        cek,
    )
}

/// Whether `ciphertext` and `tag` are segments that open to `body` under
/// the content key and the nonce, beside the protected segment.
pub open spec fn content_segments_for(
    ciphertext: Seq<char>,
    tag: Seq<char>,
    cek: Seq<u8>,
    nonce: Seq<u8>,
    protected: Seq<char>,
    body: Seq<u8>,
) -> bool {
    &&& is_base64url_text(ciphertext)
    &&& is_base64url_text(tag)
    &&& decoded_segment(ciphertext) matches Some(sealed) && decoded_segment(tag) matches Some(
        mark,
    ) && mark.len() == TAG_LEN && xchacha20poly1305_opened(
        cek,
        nonce,
        encode_utf8(protected),
        sealed,
        mark,
    ) == Some(body)
}

/// The compact form, read from its first segment on: a segment, a dot,
/// and the compact form of the segments that follow.
pub proof fn lemma_compact_envelope_nests(
    protected: Seq<char>,
    key: Seq<char>,
    iv: Seq<char>,
    ciphertext: Seq<char>,
    tag: Seq<char>,
)
    ensures
        compact_envelope(protected, key, iv, ciphertext, tag) == protected + "."@ + (key + "."@
            + (iv + "."@ + (ciphertext + "."@ + tag))),
{
    assert(compact_envelope(protected, key, iv, ciphertext, tag) =~= protected + "."@ + (key
        + "."@ + (iv + "."@ + (ciphertext + "."@ + tag))));
}

/// The compact form of five ASCII segments is ASCII.
pub proof fn lemma_compact_envelope_is_ascii(
    protected: Seq<char>,
    key: Seq<char>,
    iv: Seq<char>,
    ciphertext: Seq<char>,
    tag: Seq<char>,
)
    requires
        is_ascii_chars(protected),
        is_ascii_chars(key),
        is_ascii_chars(iv),
        is_ascii_chars(ciphertext),
        is_ascii_chars(tag),
    ensures
        is_ascii_chars(compact_envelope(protected, key, iv, ciphertext, tag)),
{
    reveal_strlit(".");
    let dot = "."@;
    assert(is_ascii_chars(dot));
    let e1 = protected + dot;
    let e2 = e1 + key;
    let e3 = e2 + dot;
    let e4 = e3 + iv;
    let e5 = e4 + dot;
    let e6 = e5 + ciphertext;
    let e7 = e6 + dot;
    let e8 = e7 + tag;
    is_ascii_chars_concat(e1, protected, dot);
    is_ascii_chars_concat(e2, e1, key);
    is_ascii_chars_concat(e3, e2, dot);
    is_ascii_chars_concat(e4, e3, iv);
    is_ascii_chars_concat(e5, e4, dot);
    is_ascii_chars_concat(e6, e5, ciphertext);
    is_ascii_chars_concat(e7, e6, dot);
    is_ascii_chars_concat(e8, e7, tag);
}

/// The compact form of five segments of the URL-safe base64 alphabet is
/// ASCII and is cut back into those segments.
pub proof fn lemma_compact_envelope_segments(
    protected: Seq<char>,
    key: Seq<char>,
    iv: Seq<char>,
    ciphertext: Seq<char>,
    tag: Seq<char>,
)
    requires
        is_base64url_text(protected),
        is_base64url_text(key),
        is_base64url_text(iv),
        is_base64url_text(ciphertext),
        is_base64url_text(tag),
    ensures
        compact_segments(compact_envelope(protected, key, iv, ciphertext, tag)) == Some(
            (protected, key, iv, ciphertext, tag),
        ),
        is_ascii_chars(compact_envelope(protected, key, iv, ciphertext, tag)),
{
    let fourth = ciphertext + "."@ + tag;
    let third = iv + "."@ + fourth;
    let second = key + "."@ + third;
    lemma_compact_envelope_nests(protected, key, iv, ciphertext, tag);
    lemma_cut_at_the_dot(protected, second);
    lemma_cut_at_the_dot(key, third);
    lemma_cut_at_the_dot(iv, fourth);
    lemma_cut_at_the_dot(ciphertext, tag);
    lemma_base64url_text_is_one_segment(protected);
    lemma_base64url_text_is_one_segment(key);
    lemma_base64url_text_is_one_segment(iv);
    lemma_base64url_text_is_one_segment(ciphertext);
    lemma_base64url_text_is_one_segment(tag);
    lemma_compact_envelope_is_ascii(protected, key, iv, ciphertext, tag);
}

/// A compact envelope whose segments decode to what was sealed opens to
/// it.
pub proof fn lemma_compact_envelope_opens(
    protected: Seq<char>,
    key: Seq<char>,
    iv: Seq<char>,
    ciphertext: Seq<char>,
    tag: Seq<char>,
    kek: Seq<u8>,
    cek: Seq<u8>,
    nonce: Seq<u8>,
    json: Seq<char>,
    body: Seq<u8>,
)
    requires
        kek.len() == KEY_LEN,
        cek.len() == KEY_LEN,
        nonce.len() == NONCE_LEN,
        segment_of(protected, encode_utf8(json)),
        key_segment_for(key, kek, cek),
        segment_of(iv, nonce),
        content_segments_for(ciphertext, tag, cek, nonce, protected, body),
    ensures
        opened_with(compact_envelope(protected, key, iv, ciphertext, tag), kek) == Ok::<
            (Seq<char>, Seq<u8>),
            EnvelopeError,
        >((json, body)),
{
    lemma_compact_envelope_segments(protected, key, iv, ciphertext, tag);
    encode_utf8_valid_utf8(json);
    encode_utf8_decode_utf8(json);
}

/// Recipients whose beginning cannot be served cannot be served.
proof fn lemma_keys_fail_with_prefix(keks: Seq<Seq<u8>>, cek: Seq<u8>, n: int)
    requires
        0 <= n <= keks.len(),
        wrapped_keys(keks.take(n), cek) is Err,
    ensures
        wrapped_keys(keks, cek) == wrapped_keys(keks.take(n), cek),
    decreases keks.len() - n,
{
    if n < keks.len() {
        assert(keks.take(n + 1).drop_last() =~= keks.take(n));
        lemma_keys_fail_with_prefix(keks, cek, n + 1);
    } else {
        assert(keks.take(n) =~= keks);
    }
}

/// Whether `base64_url::encode` takes an input of `len` bytes.
pub fn encodable_len(len: usize) -> (r: bool)
    ensures
        r == base64url_encodable(len as nat),
{
    len / 3 <= (usize::MAX - 3) / 4
}

/// Whether every recipient's key has the length of a key.
pub fn all_keys_sized(keks: &Vec<Vec<u8>>) -> (r: bool)
    ensures
        r == keys_sized(keks.deep_view()),
{
    let mut i: usize = 0;
    while i < keks.len()
        invariant
            i <= keks.len(),
            forall|k: int| 0 <= k < i ==> (#[trigger] keks.deep_view()[k]).len() == KEY_LEN,
        decreases keks.len() - i,
    {
        assert(keks.deep_view()[i as int] =~= keks[i as int]@);
        if keks[i].len() != KEY_LEN {
            return false;
        }
        i += 1;
    }
    true
}

/// Writes the protected segment for the two headers.
pub fn protect(jwm: &JwmHeader, didcomm: &DidcommHeader) -> (r: Result<String, EnvelopeError>)
    ensures
        text_outcome_is(r, protected_segment(jwm@, didcomm@)),
        r matches Ok(protected) ==> segment_of(
            protected@,
            encode_utf8(header_json(jwm@, didcomm@)->0),
        ),
{
    let json = write_header_json(jwm, didcomm)?;
    let bytes = json.as_str().as_bytes();
    if !encodable_len(bytes.len()) {
        return Err(EnvelopeError::HeaderSerializationFailure);
    }
    Ok(encode_base64url(bytes))
}

/// Wraps the content key for one recipient.
fn wrap_for(kek: &[u8], cek: &[u8]) -> (r: Result<String, EnvelopeError>)
    requires
        cek@.len() == KEY_LEN,
    ensures
        text_outcome_is(r, wrapped_key(kek@, cek@)),
        r matches Ok(key) ==> key_segment_for(key@, kek@, cek@),
{
    if kek.len() != KEY_LEN {
        return Err(EnvelopeError::KeyMaterialInvalid);
    }
    match a256kw_wrap(kek, cek) {
        Ok(wrapped) => {
            if !encodable_len(wrapped.len()) {
                return Err(EnvelopeError::KeyMaterialInvalid);
            }
            Ok(encode_base64url(wrapped.as_slice()))
        },
        Err(_) => Err(EnvelopeError::KeyMaterialInvalid),
    }
}

/// Wraps the content key for each recipient.
fn wrap_for_all(keks: &Vec<Vec<u8>>, cek: &[u8]) -> (r: Result<Vec<String>, EnvelopeError>)
    requires
        cek@.len() == KEY_LEN,
    ensures
        match wrapped_keys(keks.deep_view(), cek@) {
            Ok(keys) => r is Ok && r->Ok_0.deep_view() == keys && r->Ok_0.len() == keks.len(),
            Err(error) => r is Err && r->Err_0 == error,
        },
        r matches Ok(keys) ==> forall|k: int|
            0 <= k < keks.len() ==> key_segment_for(#[trigger] keys[k]@, keks[k]@, cek@),
{
    let ghost all = keks.deep_view();
    let mut keys: Vec<String> = Vec::new();
    let mut i: usize = 0;
    assert(all.take(0) =~= Seq::empty());
    assert(keys.deep_view() =~= Seq::empty());
    while i < keks.len()
        invariant
            i <= keks.len(),
            cek@.len() == KEY_LEN,
            all == keks.deep_view(),
            all.len() == keks.len(),
            keys.len() == i,
            forall|k: int| 0 <= k < i ==> key_segment_for(#[trigger] keys[k]@, keks[k]@, cek@),
            wrapped_keys(all.take(i as int), cek@) == Ok::<Seq<Seq<char>>, EnvelopeError>(
                keys.deep_view(),
            ),
        decreases keks.len() - i,
    {
        let ghost before = keys.deep_view();
        let wrapped = wrap_for(keks[i].as_slice(), cek);
        proof {
            let next = all.take(i + 1);
            assert(next.drop_last() =~= all.take(i as int));
            assert(next.last() == keks[i as int]@);
        }
        match wrapped {
            Ok(key) => {
                keys.push(key);
                assert(keys.deep_view() =~= before.push(key@));
            },
            Err(error) => {
                proof {
                    lemma_keys_fail_with_prefix(all, cek@, i + 1);
                }
                return Err(error);
            },
        }
        i += 1;
    }
    assert(all.take(i as int) =~= all);
    Ok(keys)
}

/// Encrypts a body under the content key and the nonce, with the
/// protected segment authenticated beside it.
fn seal_content(cek: &[u8], nonce: &[u8], protected: &str, body: Vec<u8>) -> (r: Result<
    (String, String),
    EnvelopeError,
>)
    requires
        cek@.len() == KEY_LEN,
        nonce@.len() == NONCE_LEN,
    ensures
        match sealed_content(cek@, nonce@, protected@, body@) {
            Ok(texts) => r is Ok && r->Ok_0.0@ == texts.0 && r->Ok_0.1@ == texts.1,
            Err(error) => r is Err && r->Err_0 == error,
        },
        r matches Ok(texts) ==> content_segments_for(
            texts.0@,
            texts.1@,
            cek@,
            nonce@,
            protected@,
            body@,
        ),
{
    match xchacha20poly1305_seal(cek, nonce, protected.as_bytes(), body) {
        Ok(sealed) => {
            if !encodable_len(sealed.0.len()) || !encodable_len(sealed.1.len()) {
                return Err(EnvelopeError::PayloadTooLarge);
            }
            Ok((encode_base64url(sealed.0.as_slice()), encode_base64url(sealed.1.as_slice())))
        },
        Err(_) => Err(EnvelopeError::PayloadTooLarge),
    }
}

/// Appends one object for each wrapped key to `out`.
fn write_recipients(out: &mut String, keys: &Vec<String>)
    ensures
        final(out)@ == put_recipients(old(out)@, keys.deep_view()),
{
    let ghost start = out@;
    let ghost all = keys.deep_view();
    let mut i: usize = 0;
    assert(all.take(0) =~= Seq::empty());
    while i < keys.len()
        invariant
            i <= keys.len(),
            all == keys.deep_view(),
            all.len() == keys.len(),
            out@ == put_recipients(start, all.take(i as int)),
        decreases keys.len() - i,
    {
        proof {
            let next = all.take(i + 1);
            assert(next.drop_last() =~= all.take(i as int));
            assert(next.last() == keys[i as int]@);
        }
        if i == 0 {
            out.append("{\"encrypted_key\":\"");
        } else {
            out.append(",{\"encrypted_key\":\"");
        }
        out.append(keys[i].as_str());
        out.append("\"}");
        i += 1;
    }
    assert(all.take(i as int) =~= all);
}

/// Fresh bytes from the system's source of randomness.
///
/// Fails with `EntropyUnavailable` where the system gives none.
pub fn fresh_bytes(len: usize) -> (r: Result<Vec<u8>, EnvelopeError>)
    ensures
        r matches Ok(bytes) ==> bytes@.len() == len,
        r matches Err(error) ==> error == EnvelopeError::EntropyUnavailable,
{
    let mut bytes = vec![0u8; len];
    match fill_random(&mut bytes) {
        Ok(()) => Ok(bytes),
        Err(_) => Err(EnvelopeError::EntropyUnavailable),
    }
}

impl Message {
    /// Seals the message for the recipients whose keys are `keks`, under
    /// the content key `cek` and the nonce `nonce`.
    ///
    /// This is sealing with the fresh values given: the same arguments
    /// give the same envelope.
    pub fn seal_with(self, keks: &Vec<Vec<u8>>, cek: &[u8], nonce: &[u8]) -> (r: Result<
        String,
        EnvelopeError,
    >)
        ensures
            text_outcome_is(r, sealed_with(self@, keks.deep_view(), cek@, nonce@)),
            r matches Ok(envelope) ==> keks.len() == 1 ==> opened_with(envelope@, keks[0]@) == Ok::<
                (Seq<char>, Seq<u8>),
                EnvelopeError,
            >(unsealed(self@, nonce@)),
    {
        if keks.len() == 0 {
            return Err(EnvelopeError::RecipientListEmpty);
        }
        if !all_keys_sized(keks) || cek.len() != KEY_LEN {
            return Err(EnvelopeError::KeyMaterialInvalid);
        }
        if nonce.len() != NONCE_LEN {
            return Err(EnvelopeError::NonceSizeMismatch(nonce.len()));
        }
        let iv = encode_base64url(nonce);
        let (jwm, didcomm, body) = self.into_parts();
        let jwm = jwm.as_xc20p(None, None).with_nonce(iv.clone());
        let protected = protect(&jwm, &didcomm)?;
        let keys = wrap_for_all(keks, cek)?;
        let (ciphertext, tag) = seal_content(cek, nonce, protected.as_str(), body)?;
        if keks.len() == 1 {
            proof {
                lemma_compact_envelope_opens(
                    protected@,
                    keys[0]@,
                    iv@,
                    ciphertext@,
                    tag@,
                    keks[0]@,
                    cek@,
                    nonce@,
                    unsealed(self@, nonce@).0,
                    self@.body,
                );
            }
            let mut out = protected;
            out.append(".");
            out.append(keys[0].as_str());
            out.append(".");
            out.append(iv.as_str());
            out.append(".");
            out.append(ciphertext.as_str());
            out.append(".");
            out.append(tag.as_str());
            Ok(out)
        } else {
            let mut out = "{\"protected\":\"".to_owned();
            out.append(protected.as_str());
            out.append("\",\"recipients\":[");
            write_recipients(&mut out, &keys);
            out.append("],\"iv\":\"");
            out.append(iv.as_str());
            out.append("\",\"ciphertext\":\"");
            out.append(ciphertext.as_str());
            out.append("\",\"tag\":\"");
            out.append(tag.as_str());
            out.append("\"}");
            Ok(out)
        }
    }

    /// Seals the message for the recipients whose keys are `keks`, under
    /// a fresh content key and a fresh nonce.
    ///
    /// With no recipient it fails with `RecipientListEmpty`, and no
    /// randomness is drawn. Where the system gives no randomness it fails
    /// with `EntropyUnavailable`. Every other outcome is that of
    /// `seal_with` for the content key and the nonce that were drawn.
    pub fn seal_for(self, keks: Vec<Vec<u8>>) -> (r: Result<String, EnvelopeError>)
        ensures
            keks@.len() == 0 ==> r is Err && r->Err_0 == EnvelopeError::RecipientListEmpty,
            keks@.len() > 0 && !keys_sized(keks.deep_view()) ==> r is Err && r->Err_0
                == EnvelopeError::KeyMaterialInvalid,
            r matches Ok(envelope) ==> seals_to(
                self@,
                keks.deep_view(),
                Ok::<Seq<char>, EnvelopeError>(envelope@),
            ),
            r matches Ok(envelope) ==> keks@.len() == 1 ==> opens_to(self@, keks[0]@, envelope@),
            r matches Err(error) ==> error == EnvelopeError::EntropyUnavailable || seals_to(
                self@,
                keks.deep_view(),
                Err::<Seq<char>, EnvelopeError>(error),
            ),
    {
        if keks.len() == 0 {
            proof {
                let zeros = Seq::new(32, |i: int| 0u8);
                let more = Seq::new(24, |i: int| 0u8);
                assert(sealed_with(self@, keks.deep_view(), zeros, more) == Err::<
                    Seq<char>,
                    EnvelopeError,
                >(EnvelopeError::RecipientListEmpty));
            }
            return Err(EnvelopeError::RecipientListEmpty);
        }
        if !all_keys_sized(&keks) {
            proof {
                let zeros = Seq::new(32, |i: int| 0u8);
                let more = Seq::new(24, |i: int| 0u8);
                assert(sealed_with(self@, keks.deep_view(), zeros, more) == Err::<
                    Seq<char>,
                    EnvelopeError,
                >(EnvelopeError::KeyMaterialInvalid));
            }
            return Err(EnvelopeError::KeyMaterialInvalid);
        }
        let cek = fresh_bytes(KEY_LEN)?;
        let nonce = fresh_bytes(NONCE_LEN)?;
        let r = self.seal_with(&keks, cek.as_slice(), nonce.as_slice());
        proof {
            let wanted = sealed_with(self@, keks.deep_view(), cek@, nonce@);
            if r is Ok {
                assert(wanted == Ok::<Seq<char>, EnvelopeError>(r->Ok_0@));
                if keks@.len() == 1 {
                    assert(opened_with(r->Ok_0@, keks[0]@) == Ok::<
                        (Seq<char>, Seq<u8>),
                        EnvelopeError,
                    >(unsealed(self@, nonce@)));
                }
            } else {
                assert(wanted == Err::<Seq<char>, EnvelopeError>(r->Err_0));
            }
        }
        r
    }

    /// Seals the message for the recipient whose key is `ek` and gives the
    /// compact envelope, ready to send.
    ///
    /// The key is the 32-byte key that the sender has agreed with the
    /// recipient; a key of another length fails with
    /// `KeyMaterialInvalid`. Where the system gives no randomness it
    /// fails with `EntropyUnavailable`. Every other outcome is that of
    /// `seal_with` for this one recipient and the content key and nonce
    /// that were drawn.
    pub fn seal(self, ek: Vec<u8>) -> (r: Result<String, EnvelopeError>)
        ensures
            ek@.len() != KEY_LEN ==> r is Err && r->Err_0 == EnvelopeError::KeyMaterialInvalid,
            r matches Ok(envelope) ==> seals_to(
                self@,
                seq![ek@],
                Ok::<Seq<char>, EnvelopeError>(envelope@),
            ),
            r matches Ok(envelope) ==> opens_to(self@, ek@, envelope@),
            r matches Err(error) ==> error == EnvelopeError::EntropyUnavailable || seals_to(
                self@,
                seq![ek@],
                Err::<Seq<char>, EnvelopeError>(error),
            ),
    {
        let mut keks: Vec<Vec<u8>> = Vec::new();
        keks.push(ek);
        assert(keks.deep_view()[0] =~= ek@);
        assert(keks.deep_view() =~= seq![ek@]);
        self.seal_for(keks)
    }
}

} // verus!
