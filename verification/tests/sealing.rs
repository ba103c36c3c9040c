use chacha20poly1305::aead::{Aead, KeyInit, Payload};
use chacha20poly1305::{XChaCha20Poly1305, XNonce};
use didcomm_rs::{ContentType, DidcommHeader, EnvelopeError, Message};
use p256::ecdsa::signature::Verifier;
use p256::ecdsa::{Signature, SigningKey, VerifyingKey};

fn sample() -> Message {
    let header = DidcommHeader::new()
        .with_id("msg-1".to_string())
        .with_type(ContentType::MediaJson)
        .with_to(vec!["did:example:bob".to_string()])
        .with_from("did:example:alice".to_string())
        .with_created_time(1516269022);
    Message::new().with_didcomm_header(header).with_body(b"{\"hello\":\"world\"}".to_vec())
}

fn kek(seed: u8) -> Vec<u8> {
    (0..32u8).map(|i| i.wrapping_mul(7).wrapping_add(seed)).collect()
}

/// Opens a compact envelope with the outside crates alone.
fn open_compact(envelope: &str, kek: &[u8]) -> (String, Vec<u8>) {
    let segments: Vec<&str> = envelope.split('.').collect();
    assert_eq!(segments.len(), 5);
    let header = String::from_utf8(base64_url::decode(segments[0]).unwrap()).unwrap();
    let wrapped = base64_url::decode(segments[1]).unwrap();
    let nonce = base64_url::decode(segments[2]).unwrap();
    let mut sealed = base64_url::decode(segments[3]).unwrap();
    sealed.extend_from_slice(&base64_url::decode(segments[4]).unwrap());
    let cek = aes_kw::KekAes256::try_from(kek).unwrap().unwrap_vec(&wrapped).unwrap();
    let cipher = XChaCha20Poly1305::new_from_slice(&cek).unwrap();
    let body = cipher
        .decrypt(XNonce::from_slice(&nonce), Payload { msg: &sealed, aad: segments[0].as_bytes() })
        .unwrap();
    (header, body)
}

const SEALED_HEADER: &str = "{\"typ\":\"application/didcomm-encrypted+json\",\"enc\":\"XC20P\",\"alg\":\"ECDH-ES+A256KW\",\"iv\":\"AAECAwQFBgcICQoLDA0ODxAREhMUFRYX\",\"id\":\"msg-1\",\"type\":\"application/json\",\"to\":[\"did:example:bob\"],\"from\":\"did:example:alice\",\"created_time\":1516269022}";

#[test]
fn sealed_envelope_opens_to_the_body_and_the_headers() {
    let nonce: Vec<u8> = (0..24u8).collect();
    let cek = vec![9u8; 32];
    let envelope = sample().seal_with(&vec![kek(1)], &cek, &nonce).unwrap();
    let (header, body) = open_compact(&envelope, &kek(1));
    assert_eq!(body, b"{\"hello\":\"world\"}".to_vec());
    assert_eq!(header, SEALED_HEADER);
    assert_eq!(Message::get_iv(envelope.as_bytes()), Ok(nonce));
}

#[test]
fn sealing_with_the_same_values_gives_the_same_envelope() {
    let nonce = vec![3u8; 24];
    let cek = vec![4u8; 32];
    let first = sample().seal_with(&vec![kek(1)], &cek, &nonce).unwrap();
    let second = sample().seal_with(&vec![kek(1)], &cek, &nonce).unwrap();
    assert_eq!(first, second);
    let other = sample().seal_with(&vec![kek(1)], &cek, &vec![5u8; 24]).unwrap();
    assert_ne!(first, other);
}

#[test]
fn seal_draws_a_fresh_nonce_of_24_bytes() {
    let first = sample().seal(kek(1)).unwrap();
    let second = sample().seal(kek(1)).unwrap();
    assert_ne!(first, second);
    assert_eq!(Message::get_iv(first.as_bytes()).unwrap().len(), 24);
    let (_, body) = open_compact(&first, &kek(1));
    assert_eq!(body, b"{\"hello\":\"world\"}".to_vec());
    let (_, body) = open_compact(&second, &kek(1));
    assert_eq!(body, b"{\"hello\":\"world\"}".to_vec());
}

#[test]
fn sealing_refuses_bad_key_material() {
    assert_eq!(sample().seal(Vec::new()), Err(EnvelopeError::KeyMaterialInvalid));
    assert_eq!(sample().seal(vec![1u8; 31]), Err(EnvelopeError::KeyMaterialInvalid));
    assert_eq!(sample().seal(vec![1u8; 33]), Err(EnvelopeError::KeyMaterialInvalid));
    let nonce = vec![0u8; 24];
    assert_eq!(
        sample().seal_with(&vec![kek(1)], &vec![0u8; 16], &nonce),
        Err(EnvelopeError::KeyMaterialInvalid)
    );
    assert_eq!(
        sample().seal_with(&vec![kek(1), vec![0u8; 8]], &vec![0u8; 32], &nonce),
        Err(EnvelopeError::KeyMaterialInvalid)
    );
}

#[test]
fn a_bad_key_is_refused_before_anything_else() {
    // a header that cannot go wrong, and one recipient's key too short
    assert_eq!(
        sample().seal_for(vec![kek(1), vec![1u8; 31], kek(3)]),
        Err(EnvelopeError::KeyMaterialInvalid)
    );
    assert_eq!(
        sample().routed_by(vec![1u8; 3], Vec::new(), "did:example:alice".to_string(), None),
        Err(EnvelopeError::KeyMaterialInvalid)
    );
}

#[test]
fn sealing_refuses_an_empty_recipient_list() {
    assert_eq!(sample().seal_for(Vec::new()), Err(EnvelopeError::RecipientListEmpty));
    assert_eq!(
        sample().seal_with(&Vec::new(), &vec![0u8; 32], &vec![0u8; 24]),
        Err(EnvelopeError::RecipientListEmpty)
    );
}

#[test]
fn sealing_refuses_a_nonce_of_another_length() {
    assert_eq!(
        sample().seal_with(&vec![kek(1)], &vec![0u8; 32], &vec![0u8; 12]),
        Err(EnvelopeError::NonceSizeMismatch(12))
    );
}

#[test]
fn several_recipients_get_the_flattened_form() {
    let nonce: Vec<u8> = (0..24u8).collect();
    let cek = vec![9u8; 32];
    let envelope = sample().seal_with(&vec![kek(1), kek(2), kek(3)], &cek, &nonce).unwrap();
    let parsed: serde_json::Value = serde_json::from_str(&envelope).unwrap();
    let protected = parsed.get("protected").unwrap().as_str().unwrap();
    assert_eq!(String::from_utf8(base64_url::decode(protected).unwrap()).unwrap(), SEALED_HEADER);
    let recipients = parsed.get("recipients").unwrap().as_array().unwrap();
    assert_eq!(recipients.len(), 3);
    for (i, recipient) in recipients.iter().enumerate() {
        let wrapped = base64_url::decode(recipient.get("encrypted_key").unwrap().as_str().unwrap())
            .unwrap();
        let key = aes_kw::KekAes256::try_from(kek(i as u8 + 1).as_slice())
            .unwrap()
            .unwrap_vec(&wrapped)
            .unwrap();
        assert_eq!(key, cek);
    }
    assert_eq!(parsed.get("iv").unwrap().as_str().unwrap(), base64_url::encode(&nonce));
    let mut sealed =
        base64_url::decode(parsed.get("ciphertext").unwrap().as_str().unwrap()).unwrap();
    sealed.extend_from_slice(
        &base64_url::decode(parsed.get("tag").unwrap().as_str().unwrap()).unwrap(),
    );
    let body = XChaCha20Poly1305::new_from_slice(&cek)
        .unwrap()
        .decrypt(XNonce::from_slice(&nonce), Payload { msg: &sealed, aad: protected.as_bytes() })
        .unwrap();
    assert_eq!(body, b"{\"hello\":\"world\"}".to_vec());
    assert_eq!(Message::get_iv(envelope.as_bytes()), Ok(nonce));
    let expected_start = format!("{{\"protected\":\"{}\",\"recipients\":[{{\"encrypted_key\":\"", protected);
    assert!(envelope.starts_with(&expected_start));
    assert!(envelope.ends_with("\"}"));
}

#[test]
fn seal_for_one_recipient_is_compact_and_for_two_is_flattened() {
    let one = sample().seal_for(vec![kek(1)]).unwrap();
    assert_eq!(one.split('.').count(), 5);
    let two = sample().seal_for(vec![kek(1), kek(2)]).unwrap();
    assert!(two.starts_with("{\"protected\":\""));
}

#[test]
fn signed_object_verifies_and_carries_the_body() {
    let sk = [7u8; 32];
    let signed = sample().sign(&sk).unwrap();
    let segments: Vec<&str> = signed.split('.').collect();
    assert_eq!(segments.len(), 3);
    let header = String::from_utf8(base64_url::decode(segments[0]).unwrap()).unwrap();
    assert_eq!(
        header,
        "{\"typ\":\"application/didcomm-signed+json\",\"alg\":\"ES256\",\"id\":\"msg-1\",\"type\":\"application/json\",\"to\":[\"did:example:bob\"],\"from\":\"did:example:alice\",\"created_time\":1516269022}"
    );
    assert_eq!(base64_url::decode(segments[1]).unwrap(), b"{\"hello\":\"world\"}".to_vec());
    let signature = Signature::from_slice(&base64_url::decode(segments[2]).unwrap()).unwrap();
    let key = VerifyingKey::from(&SigningKey::from_slice(&sk).unwrap());
    let input = format!("{}.{}", segments[0], segments[1]);
    assert!(key.verify(input.as_bytes(), &signature).is_ok());
    assert!(key.verify(b"something else", &signature).is_err());
    assert_eq!(sample().sign(&sk).unwrap(), signed);
}

#[test]
fn signing_refuses_bad_key_material() {
    assert_eq!(sample().sign(&[1u8; 31]), Err(EnvelopeError::KeyMaterialInvalid));
    assert_eq!(sample().sign(&[]), Err(EnvelopeError::KeyMaterialInvalid));
    // zero is no scalar of the curve
    assert_eq!(sample().sign(&[0u8; 32]), Err(EnvelopeError::KeyMaterialInvalid));
    assert_eq!(sample().sign(&[0xffu8; 32]), Err(EnvelopeError::KeyMaterialInvalid));
    assert_eq!(
        sample().seal_signed(&kek(1), &[0u8; 32]),
        Err(EnvelopeError::KeyMaterialInvalid)
    );
    assert_eq!(
        sample().seal_signed(&[1u8; 5], &[7u8; 32]),
        Err(EnvelopeError::KeyMaterialInvalid)
    );
}

#[test]
fn signed_and_sealed_envelope_holds_the_signed_object() {
    let sk = [7u8; 32];
    let envelope = sample().seal_signed(&kek(1), &sk).unwrap();
    let (header, body) = open_compact(&envelope, &kek(1));
    assert!(header.starts_with("{\"typ\":\"application/didcomm-encrypted+json\",\"enc\":\"XC20P\""));
    let signed = String::from_utf8(body).unwrap();
    assert_eq!(signed, sample().sign(&sk).unwrap());
    let segments: Vec<&str> = signed.split('.').collect();
    assert_eq!(base64_url::decode(segments[1]).unwrap(), b"{\"hello\":\"world\"}".to_vec());
    let signature = Signature::from_slice(&base64_url::decode(segments[2]).unwrap()).unwrap();
    let key = VerifyingKey::from(&SigningKey::from_slice(&sk).unwrap());
    assert!(key.verify(format!("{}.{}", segments[0], segments[1]).as_bytes(), &signature).is_ok());
}

#[test]
fn mediator_wrapping_nests_one_hop_in_the_next() {
    let inner = sample()
        .routed_by(kek(1), vec!["did:example:bob".to_string()], "did:example:alice".to_string(), Some(100))
        .unwrap();
    assert_eq!(inner.get_didcomm_header().m_type(), Some(ContentType::Forward));
    assert_eq!(inner.get_didcomm_header().to(), &vec!["did:example:bob".to_string()]);
    assert_eq!(inner.get_didcomm_header().from(), &Some("did:example:alice".to_string()));
    assert_eq!(inner.get_didcomm_header().expires_time(), Some(100));
    let inner_body = inner.get_body().clone();
    let (_, innermost) = open_compact(std::str::from_utf8(&inner_body).unwrap(), &kek(1));
    assert_eq!(innermost, b"{\"hello\":\"world\"}".to_vec());

    let outer = inner
        .routed_by(kek(2), Vec::new(), "did:example:mediator".to_string(), None)
        .unwrap();
    assert_eq!(outer.get_didcomm_header().to(), &Vec::<String>::new());
    assert_eq!(outer.get_didcomm_header().expires_time(), None);
    let (header, unwrapped) = open_compact(std::str::from_utf8(outer.get_body()).unwrap(), &kek(2));
    // what the outer layer holds is the whole of the inner layer
    assert_eq!(unwrapped, inner_body);
    assert!(header.contains("\"type\":\"https://didcomm.org/routing/2.0/forward\""));
    assert!(header.contains("\"to\":[\"did:example:bob\"]"));
    assert!(header.contains("\"expires_time\":100"));
}

#[test]
fn forwarding_instruction_holds_the_bytes_of_the_envelope() {
    let wrapped = Message::forward("a.b.c.d.e".to_string(), Vec::new(), "did:example:alice".to_string(), None);
    assert_eq!(wrapped.get_body(), &b"a.b.c.d.e".to_vec());
    assert_eq!(wrapped.get_didcomm_header().m_type(), Some(ContentType::Forward));
    assert_eq!(wrapped.get_jwm_header(), Message::new().get_jwm_header());
}

#[test]
fn lengths_that_base64url_can_take() {
    let limit = (usize::MAX - 3) / 4;
    assert!(didcomm_rs::messages::seal::encodable_len(0));
    assert!(didcomm_rs::messages::seal::encodable_len(3 * limit));
    assert!(didcomm_rs::messages::seal::encodable_len(3 * limit + 2));
    assert!(!didcomm_rs::messages::seal::encodable_len(3 * limit + 3));
    assert!(!didcomm_rs::messages::seal::encodable_len(usize::MAX));
}

#[test]
fn keys_are_sized_when_each_has_32_bytes() {
    assert!(didcomm_rs::messages::seal::all_keys_sized(&Vec::new()));
    assert!(didcomm_rs::messages::seal::all_keys_sized(&vec![kek(1), kek(2)]));
    assert!(!didcomm_rs::messages::seal::all_keys_sized(&vec![kek(1), vec![0u8; 33]]));
    assert!(!didcomm_rs::messages::seal::all_keys_sized(&vec![Vec::new()]));
}

#[test]
fn fresh_bytes_have_the_length_asked_for() {
    assert_eq!(didcomm_rs::messages::seal::fresh_bytes(0).unwrap().len(), 0);
    assert_eq!(didcomm_rs::messages::seal::fresh_bytes(24).unwrap().len(), 24);
    let a = didcomm_rs::messages::seal::fresh_bytes(32).unwrap();
    let b = didcomm_rs::messages::seal::fresh_bytes(32).unwrap();
    assert_ne!(a, b);
}

#[test]
fn protected_segment_is_the_header_in_base64url() {
    let m = sample();
    let protected =
        didcomm_rs::messages::seal::protect(m.get_jwm_header(), m.get_didcomm_header()).unwrap();
    assert_eq!(protected, base64_url::encode(&m.header_json().unwrap()));
}
