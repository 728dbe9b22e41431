use cherry_stun::address::STUNSocketAddr;
use cherry_stun::attributes::{STUNAttributeType, STUNAttributesContent, STUNAuthType};
use cherry_stun::body::STUNBody;
use cherry_stun::context::STUNContext;
use cherry_stun::error::STUNErrorType;
use cherry_stun::header::{STUNMessageClass, STUNMessageMethod};
use cherry_stun::message::STUN;
use cherry_stun::stun_serde::{STUNDecode, STUNEncode};

const RFC5769_LONG_TERM_TID: [u8; 12] = [0x78, 0xad, 0x34, 0x33, 0xc6, 0xad, 0x72, 0xc0, 0x29, 0xda, 0x41, 0x2e];

const STUN_REQUEST_BODY_LONG_TERM_AUTH_BIN: [u8; 96] = [
    0x00, 0x06, 0x00, 0x12, 0xe3, 0x83, 0x9e, 0xe3, 0x83, 0x88, 0xe3, 0x83, 0xaa, 0xe3, 0x83, 0x83, 0xe3,
    0x82, 0xaf, 0xe3, 0x82, 0xb9, 0x00, 0x00, 0x00, 0x15, 0x00, 0x1c, 0x66, 0x2f, 0x2f, 0x34, 0x39, 0x39,
    0x6b, 0x39, 0x35, 0x34, 0x64, 0x36, 0x4f, 0x4c, 0x33, 0x34, 0x6f, 0x4c, 0x39, 0x46, 0x53, 0x54, 0x76,
    0x79, 0x36, 0x34, 0x73, 0x41, 0x00, 0x14, 0x00, 0x0b, 0x65, 0x78, 0x61, 0x6d, 0x70, 0x6c, 0x65, 0x2e,
    0x6f, 0x72, 0x67, 0x00, 0x00, 0x08, 0x00, 0x14, 0xf6, 0x70, 0x24, 0x65, 0x6d, 0xd6, 0x4a, 0x3e, 0x02,
    0xb8, 0xe0, 0x71, 0x2e, 0x85, 0xc9, 0xa2, 0x8c, 0xa8, 0x96, 0x66,
];

const TEST_TRANSACTION_ID: [u8; 12] = [0xb7, 0xe7, 0xa7, 0x01, 0xbc, 0x34, 0xd6, 0x86, 0xfa, 0x87, 0xdf, 0xae];

const USERNAME: &str = "\u{30de}\u{30c8}\u{30ea}\u{30c3}\u{30af}\u{30b9}";
const PASSWORD: &str = "The\u{00AD}M\u{00AA}tr\u{2168}";
const NONCE: &str = "f//499k954d6OL34oL9FSTvy64sA";

fn rfc5769_long_term_message() -> Vec<u8> {
    let mut v = vec![0x00, 0x01, 0x00, 0x60, 0x21, 0x12, 0xa4, 0x42];
    v.extend_from_slice(&RFC5769_LONG_TERM_TID);
    v.extend_from_slice(&STUN_REQUEST_BODY_LONG_TERM_AUTH_BIN);
    v
}

fn ipv6_test_address() -> STUNSocketAddr {
    STUNSocketAddr::V6 {
        ip: [0x20, 0x01, 0x0d, 0xb8, 0x12, 0x34, 0x56, 0x78, 0x00, 0x11, 0x22, 0x33, 0x44, 0x55, 0x66, 0x77],
        port: 32853,
    }
}

fn response_body() -> STUNBody {
    let mut body = STUNBody::new();
    body.add_new_attribute(
        STUNAttributesContent::MappedAddress { address: STUNSocketAddr::V4 { ip: [192, 0, 2, 1], port: 32853 } },
        STUNAttributeType::MappedAddress,
        0,
    );
    body.add_new_attribute(
        STUNAttributesContent::XORMappedAddress { address: ipv6_test_address() },
        STUNAttributeType::XORMappedAddress,
        0,
    );
    body.add_new_attribute(STUNAttributesContent::Username { username: None }, STUNAttributeType::Username, 0);
    body.add_new_attribute(STUNAttributesContent::Realm { realm: None }, STUNAttributeType::Realm, 0);
    body.add_new_attribute(
        STUNAttributesContent::Nonce { nonce: Some(String::from(NONCE)) },
        STUNAttributeType::Nonce,
        0,
    );
    body.add_new_attribute(
        STUNAttributesContent::MessageIntegrity { auth_type: STUNAuthType::LongTerm },
        STUNAttributeType::MessageIntegrity,
        0,
    );
    body
}

fn full_context() -> STUNContext {
    let mut c = STUNContext::new();
    c.password = Some(PASSWORD.to_string());
    c.username = Some(USERNAME.to_string());
    c.realm = Some("example.org".to_string());
    c
}

#[test]
fn long_term_integrity_matches_rfc5769() {
    let mut m = STUN::new_default(STUNMessageClass::Request, STUNMessageMethod::Binding, Some(RFC5769_LONG_TERM_TID));
    m.body.add_new_attribute(STUNAttributesContent::new_username(USERNAME.to_string()), STUNAttributeType::Username, 0);
    m.body.add_new_attribute(STUNAttributesContent::new_nonce(Some(NONCE.to_string())), STUNAttributeType::Nonce, 0);
    m.body.add_new_attribute(STUNAttributesContent::new_realm("example.org".to_string()), STUNAttributeType::Realm, 0);
    m.body.add_new_attribute(
        STUNAttributesContent::MessageIntegrity { auth_type: STUNAuthType::LongTerm },
        STUNAttributeType::MessageIntegrity,
        0,
    );
    let mut ctx = STUNContext::new();
    ctx.password = Some(PASSWORD.to_string());
    ctx.username = Some(USERNAME.to_string());
    ctx.realm = Some("example.org".to_string());
    let mut out: Vec<u8> = Vec::new();
    m.encode(&mut out, Some(&ctx)).unwrap();
    assert_eq!(out, rfc5769_long_term_message());
}

#[test]
fn long_term_integrity_rfc5769_decodes_with_password_only() {
    let bytes = rfc5769_long_term_message();
    let mut c = STUNContext::new();
    c.password = Some(PASSWORD.to_string());
    let mut ctx = Some(c);
    let m = STUN::decode_message(&bytes, &mut ctx).unwrap();
    assert_eq!(m.header.message_length, 0x60);
    assert_eq!(m.body.attributes.len(), 4);
    assert_eq!(m.body.attributes[0].value, STUNAttributesContent::Username { username: Some(USERNAME.to_string()) });
    assert_eq!(m.body.attributes[1].value, STUNAttributesContent::Nonce { nonce: Some(NONCE.to_string()) });
    assert_eq!(m.body.attributes[2].value, STUNAttributesContent::Realm { realm: Some("example.org".to_string()) });
    assert_eq!(m.body.attributes[3].value, STUNAttributesContent::MessageIntegrity { auth_type: STUNAuthType::LongTerm });
    let c = ctx.unwrap();
    assert_eq!(c.username, Some(USERNAME.to_string()));
    assert_eq!(c.realm, Some("example.org".to_string()));
    assert_eq!(c.nonce, Some(NONCE.to_string()));
}

#[test]
fn integrity_mismatch_on_wrong_password() {
    let bytes = rfc5769_long_term_message();
    let mut c = STUNContext::new();
    c.password = Some("wrong".to_string());
    let e = STUN::decode_message(&bytes, &mut Some(c)).unwrap_err();
    assert_eq!(e.error_type, STUNErrorType::MessageIntegrityMismatch);
}

#[test]
fn integrity_without_context_is_mismatch() {
    let bytes = rfc5769_long_term_message();
    let e = STUN::decode_message(&bytes, &mut None).unwrap_err();
    assert_eq!(e.error_type, STUNErrorType::MessageIntegrityMismatch);
    let e = STUN::decode_message(&bytes, &mut Some(STUNContext::new())).unwrap_err();
    assert_eq!(e.error_type, STUNErrorType::MessageIntegrityMismatch);
}

#[test]
fn integrity_mismatch_on_tampered_byte() {
    let mut bytes = rfc5769_long_term_message();
    bytes[30] ^= 1;
    let mut c = STUNContext::new();
    c.password = Some(PASSWORD.to_string());
    let e = STUN::decode_message(&bytes, &mut Some(c)).unwrap_err();
    assert_eq!(e.error_type, STUNErrorType::MessageIntegrityMismatch);
}

#[test]
fn stun_body_encode_success_test() {
    let mut out: Vec<u8> = Vec::new();
    let header = cherry_stun::header::STUNHeader::new(STUNMessageClass::ResponseSuccess, STUNMessageMethod::Binding, Some(TEST_TRANSACTION_ID));
    header.encode_header(&mut out);
    let body = response_body();
    let ctx = full_context();
    body.encode(&mut out, Some(&ctx)).unwrap();
    // 20 header + 12 + 24 + 24 + 16 + 32 + 24 bytes of records
    assert_eq!(out.len(), 20 + 12 + 24 + 24 + 16 + 32 + 24);
    assert_eq!(&out[2..4], &[0x00, 0x84]);
    assert_eq!(&out[20..32], &[0x00, 0x01, 0x00, 0x08, 0x00, 0x01, 0x80, 0x55, 0xc0, 0x00, 0x02, 0x01]);
    assert_eq!(&out[32..36], &[0x00, 0x20, 0x00, 0x14]);
    assert_eq!(&out[56..60], &[0x00, 0x06, 0x00, 0x12]);
    assert_eq!(&out[80..84], &[0x00, 0x14, 0x00, 0x0b]);
    assert_eq!(&out[96..100], &[0x00, 0x15, 0x00, 0x1c]);
    assert_eq!(&out[128..132], &[0x00, 0x08, 0x00, 0x14]);
}

#[test]
fn stun_body_decode_success_test() -> Result<(), String> {
    let mut bytes: Vec<u8> = Vec::new();
    let header = cherry_stun::header::STUNHeader::new(STUNMessageClass::ResponseSuccess, STUNMessageMethod::Binding, Some(TEST_TRANSACTION_ID));
    header.encode_header(&mut bytes);
    response_body().encode(&mut bytes, Some(&full_context())).unwrap();

    let mut test_encode_context = STUNContext::new();
    test_encode_context.password = Some(PASSWORD.to_string());
    let mut option_encode_context = Some(test_encode_context);
    let mut position: usize = 20;
    match STUNBody::decode(&bytes, &mut position, &mut option_encode_context) {
        Ok(resp) => {
            assert_eq!(resp.attributes.len(), 6);
            assert_eq!(resp.attributes[0].length, 8);
            assert_eq!(resp.attributes[0].attribute_type, STUNAttributeType::MappedAddress);
            assert_eq!(
                resp.attributes[0].value,
                STUNAttributesContent::MappedAddress { address: STUNSocketAddr::V4 { ip: [192, 0, 2, 1], port: 32853 } }
            );
            assert_eq!(resp.attributes[1].length, 20);
            assert_eq!(resp.attributes[1].attribute_type, STUNAttributeType::XORMappedAddress);
            assert_eq!(resp.attributes[1].value, STUNAttributesContent::XORMappedAddress { address: ipv6_test_address() });
            assert_eq!(resp.attributes[2].length, 18);
            assert_eq!(resp.attributes[2].attribute_type, STUNAttributeType::Username);
            assert_eq!(resp.attributes[2].value, STUNAttributesContent::Username { username: Some(USERNAME.to_string()) });
            assert_eq!(resp.attributes[3].length, 11);
            assert_eq!(resp.attributes[3].attribute_type, STUNAttributeType::Realm);
            assert_eq!(resp.attributes[3].value, STUNAttributesContent::Realm { realm: Some("example.org".to_string()) });
            assert_eq!(resp.attributes[4].length, 28);
            assert_eq!(resp.attributes[4].attribute_type, STUNAttributeType::Nonce);
            assert_eq!(resp.attributes[4].value, STUNAttributesContent::Nonce { nonce: Some(NONCE.to_string()) });
            assert_eq!(resp.attributes[5].attribute_type, STUNAttributeType::MessageIntegrity);
            assert_eq!(position, bytes.len());
            Ok(())
        }
        Err(e) => Err(String::from("Unexpected failure on decoding stun body") + e.message.as_str()),
    }
}

#[test]
fn stun_body_encode_failure_test() {
    let mut test_vec: Vec<u8> = Vec::new();
    let mut test_body = STUNBody::new();
    test_body.add_new_attribute(
        STUNAttributesContent::XORMappedAddress { address: ipv6_test_address() },
        STUNAttributeType::XORMappedAddress,
        0,
    );
    let e = test_body.encode(&mut test_vec, None).unwrap_err();
    assert_eq!(e.error_type, STUNErrorType::ReadError);
    let mut mapped_first = STUNBody::new();
    mapped_first.add_new_attribute(
        STUNAttributesContent::MappedAddress { address: STUNSocketAddr::V4 { ip: [192, 0, 2, 1], port: 32853 } },
        STUNAttributeType::MappedAddress,
        0,
    );
    let e = mapped_first.encode(&mut Vec::new(), None).unwrap_err();
    assert_eq!(e.error_type, STUNErrorType::InvalidMessageBinLength);
}

#[test]
fn message_round_trip_fills_context_strings() {
    let mut m = STUN::new_default(STUNMessageClass::Indication, STUNMessageMethod::Binding, Some(TEST_TRANSACTION_ID));
    m.body.add_new_attribute(
        STUNAttributesContent::OtherAddress { address: STUNSocketAddr::V4 { ip: [10, 0, 0, 2], port: 3479 } },
        STUNAttributeType::OtherAddress,
        0,
    );
    m.body.add_new_attribute(STUNAttributesContent::Nonce { nonce: None }, STUNAttributeType::Nonce, 0);
    m.body.add_new_attribute(STUNAttributesContent::Software { software: "x".to_string() }, STUNAttributeType::Software, 0);
    let mut c = STUNContext::new();
    c.nonce = Some("abc".to_string());
    let mut out: Vec<u8> = Vec::new();
    m.encode(&mut out, Some(&c)).unwrap();
    let mut position: usize = 0;
    let back = STUN::decode(&out, &mut position, &mut None).unwrap();
    assert_eq!(back.header.message_class, STUNMessageClass::Indication);
    assert_eq!(back.header.transaction_id, TEST_TRANSACTION_ID);
    assert_eq!(back.header.message_length as usize, out.len() - 20);
    assert_eq!(back.body.attributes.len(), 3);
    assert_eq!(back.body.attributes[0].value, m.body.attributes[0].value);
    assert_eq!(back.body.attributes[1].value, STUNAttributesContent::Nonce { nonce: Some("abc".to_string()) });
    assert_eq!(back.body.attributes[2].value, m.body.attributes[2].value);
}

#[test]
fn record_sizes_are_padded() {
    for n in 0..9usize {
        let mut m = STUN::new_default(STUNMessageClass::Request, STUNMessageMethod::Binding, Some(TEST_TRANSACTION_ID));
        m.body.add_new_attribute(STUNAttributesContent::Software { software: "a".repeat(n) }, STUNAttributeType::Software, 0);
        let mut out: Vec<u8> = Vec::new();
        m.encode(&mut out, None).unwrap();
        assert_eq!(out.len() - 20, 4 + ((n + 3) / 4) * 4);
        assert_eq!(out[22] as usize, 0);
        assert_eq!(out[23] as usize, n);
    }
}

#[test]
fn unknown_optional_attribute_is_skipped() {
    let mut bytes = vec![0x01, 0x01, 0x00, 0x14, 0x21, 0x12, 0xa4, 0x42];
    bytes.extend_from_slice(&TEST_TRANSACTION_ID);
    bytes.extend_from_slice(&[0x80, 0x28, 0x00, 0x04, 0xde, 0xad, 0xbe, 0xef]);
    bytes.extend_from_slice(&[0x00, 0x01, 0x00, 0x08, 0x00, 0x01, 0x80, 0x55, 0xc0, 0x00, 0x02, 0x01]);
    let m = STUN::decode_message(&bytes, &mut None).unwrap();
    assert_eq!(m.body.attributes.len(), 1);
    assert_eq!(m.body.attributes[0].attribute_type, STUNAttributeType::MappedAddress);
}

#[test]
fn truncated_record_header_is_read_error() {
    let mut bytes = vec![0x01, 0x01, 0x00, 0x04, 0x21, 0x12, 0xa4, 0x42];
    bytes.extend_from_slice(&TEST_TRANSACTION_ID);
    bytes.extend_from_slice(&[0x00, 0x01, 0x00]);
    let e = STUN::decode_message(&bytes, &mut None).unwrap_err();
    assert_eq!(e.error_type, STUNErrorType::ReadError);
}

#[test]
fn empty_body_decodes_to_no_attributes() {
    let mut bytes = vec![0x00, 0x01, 0x00, 0x00, 0x21, 0x12, 0xa4, 0x42];
    bytes.extend_from_slice(&TEST_TRANSACTION_ID);
    let m = STUN::decode_message(&bytes, &mut None).unwrap();
    assert_eq!(m.body.attributes.len(), 0);
    assert_eq!(m.header.message_method, STUNMessageMethod::Binding);
}

#[test]
fn length_field_helpers() {
    let mut buf = vec![0u8; 24];
    STUNBody::write_current_message_length_to_header(&mut buf).unwrap();
    assert_eq!(&buf[2..4], &[0, 4]);
    STUNBody::add_pseudo_message_length_to_header(&mut buf, 24).unwrap();
    assert_eq!(&buf[2..4], &[0, 28]);
    STUNBody::add_pseudo_message_length_from_current_pos_to_header(&mut buf, 24).unwrap();
    assert_eq!(&buf[2..4], &[0, 28]);
    let e = STUNBody::write_current_message_length_to_header(&mut vec![0u8; 10]).unwrap_err();
    assert_eq!(e.error_type, STUNErrorType::InvalidMessageBinLength);
    let mut rec: Vec<u8> = Vec::new();
    STUNBody::write_attribute_header_to_body_encode(&[1, 2, 3], &mut rec, STUNAttributeType::Software).unwrap();
    assert_eq!(rec, vec![0x80, 0x22, 0x00, 0x03]);
}

const STUN_RESPONSE_BODY_FAIL_TEST: [u8; 12] = [
    0x23, 0x01, 0x00, 0x08, 0x00, 0x01, 0xa1, 0x47, 0xe1, 0x12, 0xa6, 0x43,
];

#[test]
fn stun_body_decode_failure_test() -> Result<(), String> {
    let mut position: usize = 0;
    match STUNBody::decode(&STUN_RESPONSE_BODY_FAIL_TEST, &mut position, &mut None) {
        Ok(_) => Err(String::from("Expected failure on wrong method type while decoding header")),
        Err(e) => {
            if e.error_type == STUNErrorType::InvalidOrUnsupportedAttribute {
                Ok(())
            } else {
                Err("Wrong error type, received.".to_string())
            }
        }
    }
}

#[test]
fn unknown_attribute_policy_by_range() {
    let mut optional = vec![0x01, 0x01, 0x00, 0x08, 0x21, 0x12, 0xa4, 0x42];
    optional.extend_from_slice(&TEST_TRANSACTION_ID);
    optional.extend_from_slice(&[0x80, 0x99, 0x00, 0x03, 0x01, 0x02, 0x03, 0x00]);
    assert_eq!(STUN::decode_message(&optional, &mut None).unwrap().body.attributes.len(), 0);
    let mut required = optional.clone();
    required[20] = 0x00;
    let e = STUN::decode_message(&required, &mut None).unwrap_err();
    assert_eq!(e.error_type, STUNErrorType::InvalidOrUnsupportedAttribute);
}

#[test]
fn message_with_integrity_round_trips_under_same_context() {
    let mut m = STUN::new_default(STUNMessageClass::ResponseSuccess, STUNMessageMethod::Binding, Some(TEST_TRANSACTION_ID));
    m.body = response_body();
    let ctx = full_context();
    let mut out: Vec<u8> = Vec::new();
    m.encode_message(&mut out, Some(&ctx)).unwrap();
    let back = STUN::decode_message(&out, &mut Some(ctx.clone())).unwrap();
    assert_eq!(back.header.transaction_id, TEST_TRANSACTION_ID);
    assert_eq!(back.header.message_class, STUNMessageClass::ResponseSuccess);
    assert_eq!(back.header.message_length as usize, out.len() - 20);
    assert_eq!(back.body.attributes.len(), 6);
    assert_eq!(back.body.attributes[0].value, m.body.attributes[0].value);
    assert_eq!(back.body.attributes[1].value, m.body.attributes[1].value);
    assert_eq!(back.body.attributes[2].value, STUNAttributesContent::Username { username: Some(USERNAME.to_string()) });
    assert_eq!(back.body.attributes[3].value, STUNAttributesContent::Realm { realm: Some("example.org".to_string()) });
    assert_eq!(back.body.attributes[4].value, m.body.attributes[4].value);
    assert_eq!(back.body.attributes[5].value, m.body.attributes[5].value);
}

#[test]
fn short_term_integrity_round_trips() {
    let mut m = STUN::new_default(STUNMessageClass::Request, STUNMessageMethod::Binding, Some(TEST_TRANSACTION_ID));
    m.body.add_new_attribute(STUNAttributesContent::new_username("bob".to_string()), STUNAttributeType::Username, 0);
    m.body.add_new_attribute(
        STUNAttributesContent::MessageIntegrity { auth_type: STUNAuthType::ShortTerm },
        STUNAttributeType::MessageIntegrity,
        0,
    );
    let mut ctx = STUNContext::new();
    ctx.password = Some("secret".to_string());
    let mut out: Vec<u8> = Vec::new();
    m.encode_message(&mut out, Some(&ctx)).unwrap();
    let back = STUN::decode_message(&out, &mut Some(ctx)).unwrap();
    assert_eq!(back.body.attributes[1].value, STUNAttributesContent::MessageIntegrity { auth_type: STUNAuthType::ShortTerm });
}

fn hex(s: &str) -> Vec<u8> {
    let digits: Vec<u8> = s.bytes().filter(|c| !c.is_ascii_whitespace()).collect();
    digits
        .chunks(2)
        .map(|p| u8::from_str_radix(std::str::from_utf8(p).unwrap(), 16).unwrap())
        .collect()
}

#[test]
fn long_term_response_encodes_byte_for_byte() {
    let mut out: Vec<u8> = Vec::new();
    let header = cherry_stun::header::STUNHeader::new(STUNMessageClass::ResponseSuccess, STUNMessageMethod::Binding, Some(TEST_TRANSACTION_ID));
    header.encode(&mut out, None).unwrap();
    response_body().encode(&mut out, Some(&full_context())).unwrap();

    let mut expected = hex(
        "01010084 2112a442 b7e7a701bc34d686fa87dfae
         00010008 00018055 c0000201
         00200014 0002a147 0113a9fa a5d3f179 bc25f4b5 bed2b9d9
         00060012 e3839ee3 8388e383 aae38383 e382afe3 82b90000
         0014000b 6578616d 706c652e 6f726700
         0015001c",
    );
    expected.extend_from_slice(NONCE.as_bytes());
    expected.extend_from_slice(&[0x00, 0x08, 0x00, 0x14]);
    assert_eq!(expected.len(), 132);
    let key = md5::compute("\u{30de}\u{30c8}\u{30ea}\u{30c3}\u{30af}\u{30b9}:example.org:TheMatrIX".as_bytes()).0;
    let mac = hmac_sha1::hmac_sha1(&key, &expected[..128]);
    expected.extend_from_slice(&mac);
    assert_eq!(out, expected);
}

#[test]
fn empty_body_resets_length_field() {
    let mut header = cherry_stun::header::STUNHeader::new(STUNMessageClass::Request, STUNMessageMethod::Binding, Some(TEST_TRANSACTION_ID));
    header.increment_message_length(88);
    let m = STUN::new(header, STUNBody::new());
    let mut out: Vec<u8> = Vec::new();
    m.encode(&mut out, None).unwrap();
    assert_eq!(out.len(), 20);
    assert_eq!(&out[2..4], &[0, 0]);
    let mut position: usize = 0;
    let back = STUN::decode(&out, &mut position, &mut None).unwrap();
    assert_eq!(back.header.message_length, 0);
    assert_eq!(position, 20);
}

#[test]
fn software_is_limited_to_763_bytes() {
    let mut m = STUN::new_default(STUNMessageClass::Request, STUNMessageMethod::Binding, Some(TEST_TRANSACTION_ID));
    m.body.add_new_attribute(STUNAttributesContent::Software { software: "a".repeat(763) }, STUNAttributeType::Software, 0);
    let mut out: Vec<u8> = Vec::new();
    m.encode(&mut out, None).unwrap();
    assert_eq!(out.len(), 20 + 4 + 764);
    let mut long = STUN::new_default(STUNMessageClass::Request, STUNMessageMethod::Binding, Some(TEST_TRANSACTION_ID));
    long.body.add_new_attribute(STUNAttributesContent::Software { software: "a".repeat(764) }, STUNAttributeType::Software, 0);
    let e = long.encode(&mut Vec::new(), None).unwrap_err();
    assert_eq!(e.error_type, STUNErrorType::WriteError);
    let e = STUNAttributesContent::decode_software(&[0u8; 800], 0, 764).unwrap_err();
    assert_eq!(e.error_type, STUNErrorType::AttributeStructureMismatch);
}
