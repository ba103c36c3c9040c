use didcomm_rs::messages::canonical::write_decimal;
use didcomm_rs::{
    ContentType, DidcommHeader, EnvelopeError, EphemeralKey, ExtensionValue, JwmHeader, Message,
    MessageType, PriorClaims,
};

fn claims() -> PriorClaims {
    PriorClaims::new("did:example:old".to_string(), "did:example:new".to_string(), 1516269022)
}

#[test]
fn new_message_is_empty() {
    let m = Message::new();
    assert!(m.get_body().is_empty());
    assert_eq!(m.get_jwm_header(), &JwmHeader::default());
    assert_eq!(m.get_didcomm_header(), &DidcommHeader::new());
    let jwm = m.get_jwm_header();
    assert_eq!(jwm.typ(), MessageType::DidcommRaw);
    assert_eq!(jwm.enc(), &None);
    assert_eq!(jwm.kid(), &None);
    assert_eq!(jwm.epk(), &None);
    assert_eq!(jwm.alg(), &None);
    assert_eq!(jwm.cty(), None);
    assert_eq!(jwm.iv(), &None);
    let didcomm = m.get_didcomm_header();
    assert_eq!(didcomm.id(), "");
    assert_eq!(didcomm.m_type(), None);
    assert!(didcomm.to().is_empty());
    assert_eq!(didcomm.from(), &None);
    assert_eq!(didcomm.created_time(), None);
    assert_eq!(didcomm.expires_time(), None);
    assert_eq!(didcomm.thid(), &None);
    assert_eq!(didcomm.pthid(), &None);
    assert_eq!(didcomm.from_prior(), &None);
    assert!(didcomm.extensions().is_empty());
}

#[test]
fn rotation_is_told_by_the_claim_alone() {
    let plain = Message::new();
    assert!(!plain.is_rotation());
    assert_eq!(plain.get_prior(), Err(EnvelopeError::RotationDataAbsent));

    let header = DidcommHeader::new().with_prior(claims().with_claim_id("c-1".to_string()));
    let rotated = Message::new().with_didcomm_header(header);
    assert!(rotated.is_rotation());
    let prior = rotated.get_prior().unwrap();
    assert_eq!(prior, claims().with_claim_id("c-1".to_string()));
    assert_eq!(prior.prior(), "did:example:old");
    assert_eq!(prior.current(), "did:example:new");
    assert_eq!(prior.issued_at(), 1516269022);
    assert_eq!(prior.claim_id(), &Some("c-1".to_string()));

    // no other field implies a rotation
    let busy = DidcommHeader::new()
        .with_id("1".to_string())
        .with_from("did:example:new".to_string())
        .with_thread("t".to_string())
        .with_parent_thread("p".to_string())
        .with_expires_time(5);
    assert!(!Message::new().with_didcomm_header(busy).is_rotation());
}

#[test]
fn header_composition_leaves_identity_header_and_body() {
    let header = DidcommHeader::new().with_id("7".to_string()).with_prior(claims());
    let jwm = JwmHeader::default()
        .as_xc20p(Some("key-1".to_string()), None)
        .with_content_type(ContentType::MediaPdf)
        .with_nonce("AAAA".to_string());
    let m = Message::new().with_jwm_header(jwm).with_didcomm_header(header).with_body(vec![1, 2, 3]);
    let signed = m.clone().as_jws();
    assert_eq!(signed.get_body(), m.get_body());
    assert_eq!(signed.get_didcomm_header(), m.get_didcomm_header());
    assert_eq!(signed.get_jwm_header().typ(), MessageType::DidcommJws);
    assert_eq!(signed.get_jwm_header().alg(), &Some("ES256".to_string()));
    assert_eq!(signed.get_jwm_header().enc(), &None);
    assert_eq!(signed.get_jwm_header().kid(), &Some("key-1".to_string()));
    assert_eq!(signed.get_jwm_header().cty(), Some(ContentType::MediaPdf));
    assert_eq!(signed.get_jwm_header().iv(), &Some("AAAA".to_string()));

    let sealed = m.clone().as_jwe();
    assert_eq!(sealed.get_body(), m.get_body());
    assert_eq!(sealed.get_didcomm_header(), m.get_didcomm_header());
    assert_eq!(sealed.get_jwm_header().typ(), MessageType::DidcommJwe);
    assert_eq!(sealed.get_jwm_header().alg(), &Some("ECDH-ES+A256KW".to_string()));
    assert_eq!(sealed.get_jwm_header().enc(), &Some("XC20P".to_string()));
    assert_eq!(sealed.get_jwm_header().kid(), &Some("key-1".to_string()));
}

#[test]
fn the_last_composition_wins() {
    let m = Message::new().with_body(vec![9]);
    assert_eq!(m.clone().as_jws().as_jwe(), m.clone().as_jwe());
    assert_eq!(m.clone().as_jwe().as_jws(), m.clone().as_jws());
    assert_eq!(m.clone().as_jws().as_jws(), m.clone().as_jws());
    assert_eq!(m.clone().as_jwe().as_jws().get_jwm_header().enc(), &None);
}

#[test]
fn overrides_replace_and_absent_ones_keep() {
    let key = EphemeralKey::new("EC".to_string(), "P-256".to_string(), "xx".to_string())
        .with_y("yy".to_string());
    let first = JwmHeader::default().as_es256(Some("k1".to_string()), Some(key.clone()));
    assert_eq!(first.kid(), &Some("k1".to_string()));
    assert_eq!(first.epk(), &Some(key.clone()));
    let kept = first.clone().as_xc20p(None, None);
    assert_eq!(kept.kid(), &Some("k1".to_string()));
    assert_eq!(kept.epk(), &Some(key.clone()));
    let replaced = first.as_xc20p(Some("k2".to_string()), None);
    assert_eq!(replaced.kid(), &Some("k2".to_string()));
    assert_eq!(replaced.epk(), &Some(key.clone()));
    assert_eq!(key.kty(), "EC");
    assert_eq!(key.crv(), "P-256");
    assert_eq!(key.x(), "xx");
    assert_eq!(key.y(), &Some("yy".to_string()));
}

#[test]
fn message_parts_come_apart_and_together() {
    let m = Message::new().with_body(vec![4, 5]).as_jwe();
    let (jwm, didcomm, body) = m.clone().into_parts();
    assert_eq!(body, vec![4, 5]);
    assert_eq!(Message::from_parts(jwm, didcomm, body), m);
}

#[test]
fn forward_header_is_a_forwarding_instruction() {
    let header = DidcommHeader::forward(
        vec!["did:a".to_string(), "did:b".to_string()],
        "did:c".to_string(),
        Some(42),
    );
    assert_eq!(header.m_type(), Some(ContentType::Forward));
    assert_eq!(header.to(), &vec!["did:a".to_string(), "did:b".to_string()]);
    assert_eq!(header.from(), &Some("did:c".to_string()));
    assert_eq!(header.expires_time(), Some(42));
    assert_eq!(header.created_time(), None);
    assert_eq!(header.id(), "");
}

#[test]
fn extension_fields_keep_their_order() {
    let header = DidcommHeader::new()
        .with_extension("b".to_string(), ExtensionValue::Number(1))
        .unwrap()
        .with_extension("a".to_string(), ExtensionValue::Flag(true))
        .unwrap()
        .with_extension("b".to_string(), ExtensionValue::Text("two".to_string()))
        .unwrap()
        .with_extension("c".to_string(), ExtensionValue::Null)
        .unwrap();
    assert_eq!(
        header.extensions(),
        &vec![
            ("b".to_string(), ExtensionValue::Text("two".to_string())),
            ("a".to_string(), ExtensionValue::Flag(true)),
            ("c".to_string(), ExtensionValue::Null),
        ]
    );
}

#[test]
fn extension_fields_cannot_take_a_reserved_name() {
    for name in [
        "typ", "enc", "kid", "epk", "alg", "cty", "iv", "id", "type", "to", "from",
        "created_time", "expires_time", "thid", "pthid", "from_prior",
    ] {
        assert_eq!(
            DidcommHeader::new().with_extension(name.to_string(), ExtensionValue::Null),
            Err(EnvelopeError::ReservedFieldName)
        );
    }
    assert!(DidcommHeader::new().with_extension("Id".to_string(), ExtensionValue::Null).is_ok());
    assert!(DidcommHeader::new().with_extension("".to_string(), ExtensionValue::Null).is_ok());
}

#[test]
fn tags_are_the_literal_media_types() {
    assert_eq!(MessageType::DidcommJwe.as_str(), "application/didcomm-encrypted+json");
    assert_eq!(MessageType::DidcommJws.as_str(), "application/didcomm-signed+json");
    assert_eq!(MessageType::DidcommRaw.as_str(), "application/didcomm-plain+json");
    assert_eq!(ContentType::Forward.as_str(), "https://didcomm.org/routing/2.0/forward");
    assert_eq!(ContentType::MediaPdf.as_str(), "application/pdf");
    assert_eq!(ContentType::MediaOpenXml.as_str(), "application/vnd.openxmlformats-");
    assert_eq!(ContentType::MediaJson.as_str(), "application/json");
    assert_eq!(ContentType::MediaJsonLd.as_str(), "application/ld+json");
    assert_eq!(ContentType::ZipArchive.as_str(), "application/zip");
    assert_eq!(ContentType::BinaryData.as_str(), "application/octet-stream");
}

#[test]
fn tags_are_read_back_exactly() {
    for t in [MessageType::DidcommJwe, MessageType::DidcommJws, MessageType::DidcommRaw] {
        assert_eq!(MessageType::from_tag(t.as_str()), Some(t));
    }
    for t in [
        ContentType::Forward,
        ContentType::MediaPdf,
        ContentType::MediaOpenXml,
        ContentType::MediaJson,
        ContentType::MediaJsonLd,
        ContentType::ZipArchive,
        ContentType::BinaryData,
    ] {
        assert_eq!(ContentType::from_tag(t.as_str()), Some(t));
    }
    assert_eq!(MessageType::from_tag("Application/didcomm-plain+json"), None);
    assert_eq!(MessageType::from_tag("application/didcomm-plain+json "), None);
    assert_eq!(MessageType::from_tag(""), None);
    assert_eq!(ContentType::from_tag("application/PDF"), None);
    assert_eq!(ContentType::from_tag("application/pd"), None);
    assert_eq!(ContentType::from_tag("application/zi\u{70}"), Some(ContentType::ZipArchive));
}

#[test]
fn errors_say_what_happened() {
    assert_eq!(EnvelopeError::NonceSizeMismatch(16).message(), "wrong nonce (iv) size: 16");
    assert_eq!(EnvelopeError::NonceSizeMismatch(0).message(), "wrong nonce (iv) size: 0");
    assert_eq!(EnvelopeError::NonceFormatInvalid.message(), "wrong nonce format");
    assert_eq!(EnvelopeError::RotationDataAbsent.message(), "no rotation data in the message");
    let all = [
        EnvelopeError::RotationDataAbsent,
        EnvelopeError::HeaderParseFailure,
        EnvelopeError::NonceSizeMismatch(1),
        EnvelopeError::NonceFormatInvalid,
        EnvelopeError::KeyMaterialInvalid,
        EnvelopeError::RecipientListEmpty,
        EnvelopeError::HeaderSerializationFailure,
        EnvelopeError::EntropyUnavailable,
        EnvelopeError::PayloadTooLarge,
        EnvelopeError::IntegrityFailure,
        EnvelopeError::ReservedFieldName,
    ];
    for (i, a) in all.iter().enumerate() {
        for (j, b) in all.iter().enumerate() {
            assert_eq!(a.message() == b.message(), i == j);
        }
    }
}

#[test]
fn decimal_numerals_have_no_leading_zeros() {
    let cases: [(u64, &str); 7] = [
        (0, "0"),
        (7, "7"),
        (10, "10"),
        (109, "109"),
        (1516269022, "1516269022"),
        (9999999999, "9999999999"),
        (u64::MAX, "18446744073709551615"),
    ];
    for (n, text) in cases {
        let mut out = String::from("n=");
        write_decimal(&mut out, n);
        assert_eq!(out, format!("n={}", text));
    }
}
