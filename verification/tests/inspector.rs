use didcomm_rs::messages::inspect::{check_nonce, find_header_end, nonce_of};
use didcomm_rs::{EnvelopeError, JwmHeader, Message};

const FLATTENED: &str = r#" { "protected": "eyJ0eXAiOiJKV00iLCJlbmMiOiJBMjU2R0NNIiwia2lkIjoiUEdvWHpzME5XYVJfbWVLZ1RaTGJFdURvU1ZUYUZ1eXJiV0k3VjlkcGpDZyIsImFsZyI6IkVDREgtRVMrQTI1NktXIiwiZXBrIjp7Imt0eSI6IkVDIiwiY3J2IjoiUC0yNTYiLCJ4IjoiLU5oN1NoUkJfeGFDQlpSZElpVkN1bDNTb1IwWXc0VEdFUXFxR2lqMXZKcyIsInkiOiI5dEx4ODFQTWZRa3JPdzh5dUkyWXdJMG83TXROemFDR2ZDQmJaQlc1WXJNIn19",
                "recipients": [
                  {
                    "encrypted_key": "J1Fs9JaDjOT_5481ORQWfEZmHy7OjE3pTNKccnK7hlqjxbPalQWWLg"
                  }
                ],
                "iv": "u5kIzo0m_d2PjI4mu5kIzo0m_d2PjI4m",
                "ciphertext": "qGuFFoHy7HBmkf2BaY6eREwzEjn6O_FnRoXj2H-DAXo1PgQdfON-_1QbxtnT8e8z_M6Gown7s8fLtYNmIHAuixqFQnSA4fdMcMSi02z1MYEn2JC-1EkVbWr4TqQgFP1EyymB6XjCWDiwTYd2xpKoUshu8WW601HLSgFIRUG3-cK_ZSdFaoWosIgAH5EQ2ayJkRB_7dXuo9Bi1MK6TYGZKezc6rpCK_VRSnLXhFwa1C3T0QBes",
                "tag": "doeAoagwJe9BwKayfcduiw"
            }"#;

const NONCE: [u8; 24] = [
    0xbb, 0x99, 0x08, 0xce, 0x8d, 0x26, 0xfd, 0xdd, 0x8f, 0x8c, 0x8e, 0x26, 0xbb, 0x99, 0x08, 0xce,
    0x8d, 0x26, 0xfd, 0xdd, 0x8f, 0x8c, 0x8e, 0x26,
];

#[test]
fn iv_from_json_test() -> Result<(), EnvelopeError> {
    // Arrange
    let _h = JwmHeader::default();
    // Example JWM from RFC: https://tools.ietf.org/html/draft-looker-jwm-01#section-2.3
    let raw_json = FLATTENED;
    // Act
    let iv = Message::get_iv(raw_json.as_bytes())?;
    println!("{:?}", iv);
    // Assert
    Ok(())
}

#[test]
fn iv_of_flattened_envelope_is_the_decoded_field() {
    let iv = Message::get_iv(FLATTENED.as_bytes());
    assert_eq!(iv, Ok(NONCE.to_vec()));
    assert_eq!(iv.unwrap().len(), 24);
}

#[test]
fn iv_of_sixteen_bytes_is_a_size_mismatch() {
    let short = base64_url::encode(&NONCE[..16]);
    let raw = FLATTENED.replace("u5kIzo0m_d2PjI4mu5kIzo0m_d2PjI4m", &short);
    assert_eq!(Message::get_iv(raw.as_bytes()), Err(EnvelopeError::NonceSizeMismatch(16)));
}

#[test]
fn iv_of_compact_envelope_is_read_from_the_protected_header() {
    let header = r#"{"typ":"JWM","enc":"A256GCM","iv":"u5kIzo0m_d2PjI4mu5kIzo0m_d2PjI4m"}"#;
    let compact = format!("{}.{}", base64_url::encode(header), "J1Fs9JaD.u5kI.qGuFFoHy.doeAoagw");
    let from_compact = Message::get_iv(compact.as_bytes());
    assert_eq!(from_compact, Ok(NONCE.to_vec()));
    assert_eq!(from_compact, Message::get_iv(FLATTENED.as_bytes()));
}

#[test]
fn iv_missing_is_a_header_parse_failure() {
    let raw = r#"{"protected":"e30","ciphertext":"AA","tag":"AA"}"#;
    assert_eq!(Message::get_iv(raw.as_bytes()), Err(EnvelopeError::HeaderParseFailure));
}

#[test]
fn iv_that_is_no_string_is_a_format_error() {
    let raw = r#"{"iv":24}"#;
    assert_eq!(Message::get_iv(raw.as_bytes()), Err(EnvelopeError::NonceFormatInvalid));
    let raw = r#"{"iv":["u5kIzo0m_d2PjI4mu5kIzo0m_d2PjI4m"]}"#;
    assert_eq!(Message::get_iv(raw.as_bytes()), Err(EnvelopeError::NonceFormatInvalid));
}

#[test]
fn iv_that_is_not_base64url_is_a_header_parse_failure() {
    let raw = r#"{"iv":"u5kIzo0m/d2PjI4mu5kIzo0m+d2PjI4m"}"#;
    assert_eq!(Message::get_iv(raw.as_bytes()), Err(EnvelopeError::HeaderParseFailure));
    let padded = r#"{"iv":"u5kIzo0m_d2PjI4mu5kIzg=="}"#;
    assert_eq!(Message::get_iv(padded.as_bytes()), Err(EnvelopeError::HeaderParseFailure));
}

#[test]
fn envelope_that_is_no_json_is_a_header_parse_failure() {
    assert_eq!(Message::get_iv(b"not json"), Err(EnvelopeError::HeaderParseFailure));
    assert_eq!(Message::get_iv(b""), Err(EnvelopeError::HeaderParseFailure));
    assert_eq!(Message::get_iv(&[0xff, 0xfe]), Err(EnvelopeError::HeaderParseFailure));
}

#[test]
fn compact_envelope_with_a_bad_header_is_a_header_parse_failure() {
    // the header segment is not base64url
    assert_eq!(Message::get_iv(b"{}.rest"), Err(EnvelopeError::HeaderParseFailure));
    // the header segment decodes to bytes that are not UTF-8
    let not_text = format!("{}.rest", base64_url::encode(&[0xffu8, 0xfe, 0xfd]));
    assert_eq!(Message::get_iv(not_text.as_bytes()), Err(EnvelopeError::HeaderParseFailure));
    // the header segment decodes to text that is not JSON
    let not_json = format!("{}.rest", base64_url::encode("iv"));
    assert_eq!(Message::get_iv(not_json.as_bytes()), Err(EnvelopeError::HeaderParseFailure));
    // what follows the first dot is not UTF-8
    let mut bytes = format!("{}.", base64_url::encode(r#"{"iv":"u5kIzo0m_d2PjI4mu5kIzo0m_d2PjI4m"}"#))
        .into_bytes();
    bytes.push(0xff);
    assert_eq!(Message::get_iv(&bytes), Err(EnvelopeError::HeaderParseFailure));
}

#[test]
fn only_the_segment_before_the_first_dot_is_the_header() {
    let header = base64_url::encode(r#"{"iv":"u5kIzo0m_d2PjI4mu5kIzo0m_d2PjI4m"}"#);
    let other = base64_url::encode(r#"{"iv":"AAAA"}"#);
    let compact = format!("{}.{}.{}", header, other, other);
    assert_eq!(Message::get_iv(compact.as_bytes()), Ok(NONCE.to_vec()));
    assert_eq!(find_header_end(compact.as_bytes()), Some(header.len()));
    assert_eq!(find_header_end(b"no separator"), None);
    assert_eq!(find_header_end(b".x."), Some(0));
}

#[test]
fn nonce_of_another_length_reports_its_length() {
    assert_eq!(check_nonce(vec![7u8; 24]), Ok(vec![7u8; 24]));
    assert_eq!(check_nonce(vec![7u8; 23]), Err(EnvelopeError::NonceSizeMismatch(23)));
    assert_eq!(check_nonce(vec![7u8; 25]), Err(EnvelopeError::NonceSizeMismatch(25)));
    assert_eq!(check_nonce(Vec::new()), Err(EnvelopeError::NonceSizeMismatch(0)));
}

#[test]
fn nonce_of_a_parsed_header_is_its_decoded_iv() {
    let parse = |text: &str| serde_json::from_str::<serde_json::Value>(text).unwrap();
    assert_eq!(nonce_of(&parse(r#"{"iv":"u5kIzo0m_d2PjI4mu5kIzo0m_d2PjI4m"}"#)), Ok(NONCE.to_vec()));
    assert_eq!(nonce_of(&parse(r#"{"iv":"AAAA"}"#)), Err(EnvelopeError::NonceSizeMismatch(3)));
    assert_eq!(nonce_of(&parse(r#"{"iv":""}"#)), Err(EnvelopeError::NonceSizeMismatch(0)));
    assert_eq!(nonce_of(&parse(r#"{"iv":null}"#)), Err(EnvelopeError::NonceFormatInvalid));
    assert_eq!(nonce_of(&parse(r#"{"iv":{"iv":"AAAA"}}"#)), Err(EnvelopeError::NonceFormatInvalid));
    assert_eq!(nonce_of(&parse(r#"{"IV":"AAAA"}"#)), Err(EnvelopeError::HeaderParseFailure));
    assert_eq!(nonce_of(&parse(r#"{"iv":"A"}"#)), Err(EnvelopeError::HeaderParseFailure));
    // a document that is no object has no member
    assert_eq!(nonce_of(&parse(r#"["iv"]"#)), Err(EnvelopeError::HeaderParseFailure));
    assert_eq!(nonce_of(&parse(r#""iv""#)), Err(EnvelopeError::HeaderParseFailure));
}
