use didcomm_rs::{
    ContentType, DidcommHeader, EphemeralKey, ExtensionValue, JwmHeader, Message, PriorClaims,
};

fn full() -> Message {
    let key = EphemeralKey::new("EC".to_string(), "P-256".to_string(), "-Nh7".to_string())
        .with_y("9tLx".to_string());
    let jwm = JwmHeader::default()
        .as_xc20p(Some("key-1".to_string()), Some(key))
        .with_content_type(ContentType::MediaJson)
        .with_nonce("u5kI".to_string());
    let claims =
        PriorClaims::new("did:example:old".to_string(), "did:example:new".to_string(), 12)
            .with_claim_id("c-1".to_string());
    let didcomm = DidcommHeader::new()
        .with_id("id-1".to_string())
        .with_type(ContentType::Forward)
        .with_to(vec!["did:a".to_string(), "did:b".to_string()])
        .with_from("did:c".to_string())
        .with_created_time(1)
        .with_expires_time(20)
        .with_thread("t-1".to_string())
        .with_parent_thread("p-1".to_string())
        .with_prior(claims)
        .with_extension("x-note".to_string(), ExtensionValue::Text("hi".to_string()))
        .unwrap()
        .with_extension("x-count".to_string(), ExtensionValue::Number(3))
        .unwrap()
        .with_extension("x-flag".to_string(), ExtensionValue::Flag(false))
        .unwrap()
        .with_extension("x-none".to_string(), ExtensionValue::Null)
        .unwrap();
    Message::new().with_jwm_header(jwm).with_didcomm_header(didcomm).with_body(vec![1, 2, 3])
}

#[test]
fn headers_are_written_in_the_fixed_order() {
    let expected = [
        "{\"typ\":\"application/didcomm-encrypted+json\"",
        ",\"enc\":\"XC20P\"",
        ",\"kid\":\"key-1\"",
        ",\"epk\":{\"kty\":\"EC\",\"crv\":\"P-256\",\"x\":\"-Nh7\",\"y\":\"9tLx\"}",
        ",\"alg\":\"ECDH-ES+A256KW\"",
        ",\"cty\":\"application/json\"",
        ",\"iv\":\"u5kI\"",
        ",\"id\":\"id-1\"",
        ",\"type\":\"https://didcomm.org/routing/2.0/forward\"",
        ",\"to\":[\"did:a\",\"did:b\"]",
        ",\"from\":\"did:c\"",
        ",\"created_time\":1",
        ",\"expires_time\":20",
        ",\"thid\":\"t-1\"",
        ",\"pthid\":\"p-1\"",
        ",\"from_prior\":{\"iss\":\"did:example:old\",\"sub\":\"did:example:new\",\"iat\":12,\"jti\":\"c-1\"}",
        ",\"x-note\":\"hi\"",
        ",\"x-count\":3",
        ",\"x-flag\":false",
        ",\"x-none\":null",
        "}",
    ]
    .join("");
    assert_eq!(full().header_json().unwrap(), expected);
}

#[test]
fn empty_message_has_the_smallest_header() {
    assert_eq!(
        Message::new().header_json().unwrap(),
        "{\"typ\":\"application/didcomm-plain+json\",\"id\":\"\",\"to\":[]}"
    );
}

#[test]
fn texts_are_written_as_json_string_literals() {
    let didcomm = DidcommHeader::new()
        .with_id("a\"b\\c\nd\u{1}é".to_string())
        .with_to(vec!["tab\there".to_string()])
        .with_extension("k\"ey".to_string(), ExtensionValue::Text("</v>".to_string()))
        .unwrap();
    let json = Message::new().with_didcomm_header(didcomm).header_json().unwrap();
    assert_eq!(
        json,
        "{\"typ\":\"application/didcomm-plain+json\",\"id\":\"a\\\"b\\\\c\\nd\\u0001é\",\"to\":[\"tab\\there\"],\"k\\\"ey\":\"</v>\"}"
    );
}

#[test]
fn header_json_reads_back_to_the_same_fields() {
    let m = full();
    let parsed: serde_json::Value = serde_json::from_str(&m.header_json().unwrap()).unwrap();
    let text = |name: &str| parsed.get(name).and_then(|v| v.as_str()).map(|s| s.to_string());
    let jwm = m.get_jwm_header();
    let didcomm = m.get_didcomm_header();
    assert_eq!(text("typ"), Some(jwm.typ().as_str().to_string()));
    assert_eq!(&text("enc"), jwm.enc());
    assert_eq!(&text("kid"), jwm.kid());
    assert_eq!(&text("alg"), jwm.alg());
    assert_eq!(text("cty"), jwm.cty().map(|c| c.as_str().to_string()));
    assert_eq!(&text("iv"), jwm.iv());
    let epk = parsed.get("epk").unwrap();
    let key = jwm.epk().as_ref().unwrap();
    assert_eq!(epk.get("kty").unwrap().as_str().unwrap(), key.kty());
    assert_eq!(epk.get("crv").unwrap().as_str().unwrap(), key.crv());
    assert_eq!(epk.get("x").unwrap().as_str().unwrap(), key.x());
    assert_eq!(epk.get("y").unwrap().as_str().map(|s| s.to_string()), key.y().clone());
    assert_eq!(text("id").unwrap(), *didcomm.id());
    assert_eq!(text("type"), didcomm.m_type().map(|c| c.as_str().to_string()));
    let to: Vec<String> = parsed
        .get("to")
        .unwrap()
        .as_array()
        .unwrap()
        .iter()
        .map(|v| v.as_str().unwrap().to_string())
        .collect();
    assert_eq!(&to, didcomm.to());
    assert_eq!(&text("from"), didcomm.from());
    assert_eq!(
        parsed.get("created_time").unwrap().as_u64().map(|n| n as usize),
        didcomm.created_time()
    );
    assert_eq!(
        parsed.get("expires_time").unwrap().as_u64().map(|n| n as usize),
        didcomm.expires_time()
    );
    assert_eq!(&text("thid"), didcomm.thid());
    assert_eq!(&text("pthid"), didcomm.pthid());
    let prior = parsed.get("from_prior").unwrap();
    let claims = m.get_prior().unwrap();
    assert_eq!(prior.get("iss").unwrap().as_str().unwrap(), claims.prior());
    assert_eq!(prior.get("sub").unwrap().as_str().unwrap(), claims.current());
    assert_eq!(prior.get("iat").unwrap().as_u64().unwrap() as usize, claims.issued_at());
    assert_eq!(prior.get("jti").unwrap().as_str().map(|s| s.to_string()), claims.claim_id().clone());
    assert_eq!(parsed.get("x-note").unwrap().as_str(), Some("hi"));
    assert_eq!(parsed.get("x-count").unwrap().as_u64(), Some(3));
    assert_eq!(parsed.get("x-flag").unwrap().as_bool(), Some(false));
    assert!(parsed.get("x-none").unwrap().is_null());
    assert_eq!(parsed.as_object().unwrap().len(), 20);
}

#[test]
fn header_json_of_awkward_texts_reads_back() {
    let id = "quote\" slash\\ newline\n nul\u{0} emoji\u{1F600} sep\u{2028}";
    let didcomm = DidcommHeader::new().with_id(id.to_string());
    let json = Message::new().with_didcomm_header(didcomm).header_json().unwrap();
    let parsed: serde_json::Value = serde_json::from_str(&json).unwrap();
    assert_eq!(parsed.get("id").unwrap().as_str().unwrap(), id);
}
