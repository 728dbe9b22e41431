use cherry_stun::address::STUN_5389_MAGIC_NUMBER_U32;
use cherry_stun::error::STUNErrorType;
use cherry_stun::header::{STUNHeader, STUNMessageClass, STUNMessageMethod};
use cherry_stun::stun_serde::{STUNDecode, STUNEncode};

const EXAMPLE_STUN_REQUEST_TRANSACTION_ID: [u8; 12] = [
    0xb7, 0xe7, 0xa7, 0x01, 0xbc, 0x34, 0xd6, 0x86, 0xfa, 0x87, 0xdf, 0xae,
];

const STUN_REQUEST_BINDING_HEADER_BINARY: [u8; 20] = [
    0x00, 0x01, 0x00, 0x58, 0x21, 0x12, 0xa4, 0x42, 0xb7, 0xe7, 0xa7, 0x01, 0xbc, 0x34, 0xd6, 0x86, 0xfa,
    0x87, 0xdf, 0xae,
];

const STUN_INDICATION_BINDING_HEADER_BINARY: [u8; 20] = [
    0x00, 0x11, 0x00, 0x58, 0x21, 0x12, 0xa4, 0x42, 0xb7, 0xe7, 0xa7, 0x01, 0xbc, 0x34, 0xd6, 0x86, 0xfa,
    0x87, 0xdf, 0xae,
];

const STUN_SUCCESS_BINDING_RESPONSE_HEADER_BINARY: [u8; 20] = [
    0x01, 0x01, 0x00, 0x58, 0x21, 0x12, 0xa4, 0x42, 0xb7, 0xe7, 0xa7, 0x01, 0xbc, 0x34, 0xd6, 0x86, 0xfa,
    0x87, 0xdf, 0xae,
];

const STUN_ERROR_BINDING_RESPONSE_HEADER_BINARY: [u8; 20] = [
    0x01, 0x11, 0x00, 0x58, 0x21, 0x12, 0xa4, 0x42, 0xb7, 0xe7, 0xa7, 0x01, 0xbc, 0x34, 0xd6, 0x86, 0xfa,
    0x87, 0xdf, 0xae,
];

const STUN_INCORRECT_METHOD_HEADER_BINARY: [u8; 20] = [
    0x01, 0x02, 0x00, 0x58, 0x21, 0x12, 0xa4, 0x42, 0xb7, 0xe7, 0xa7, 0x01, 0xbc, 0x34, 0xd6, 0x86, 0xfa,
    0x87, 0xdf, 0xae,
];

const STUN_INCORRECT_MAGIC_NUMBER_HEADER_BINARY: [u8; 20] = [
    0x00, 0x01, 0x00, 0x58, 0x21, 0x12, 0xa4, 0x43, 0xb7, 0xe7, 0xa7, 0x01, 0xbc, 0x34, 0xd6, 0x86, 0xfa,
    0x87, 0xdf, 0xae,
];

const STUN_SMALLER_HEADER_BINARY: [u8; 19] = [
    0x00, 0x01, 0x00, 0x58, 0x21, 0x12, 0xa4, 0x42, 0xb7, 0xe7, 0xa7, 0x01, 0xbc, 0x34, 0xd6, 0x86, 0xfa,
    0x87, 0xdf,
];

fn encoded(class: STUNMessageClass) -> Vec<u8> {
    let mut header = STUNHeader::new(class, STUNMessageMethod::Binding, Some(EXAMPLE_STUN_REQUEST_TRANSACTION_ID));
    header.increment_message_length(88);
    let mut bin: Vec<u8> = Vec::new();
    header.encode(&mut bin, None).unwrap();
    bin
}

#[test]
fn test_stun_header_decode() {
    assert_eq!(encoded(STUNMessageClass::Indication), STUN_INDICATION_BINDING_HEADER_BINARY.to_vec());
    assert_eq!(encoded(STUNMessageClass::Request), STUN_REQUEST_BINDING_HEADER_BINARY.to_vec());
    assert_eq!(encoded(STUNMessageClass::ResponseSuccess), STUN_SUCCESS_BINDING_RESPONSE_HEADER_BINARY.to_vec());
    assert_eq!(encoded(STUNMessageClass::ResponseError), STUN_ERROR_BINDING_RESPONSE_HEADER_BINARY.to_vec());
}

#[test]
fn stun_header_decode_wrong_class() -> Result<(), String> {
    match STUNHeader::decode_header(&STUN_INCORRECT_METHOD_HEADER_BINARY) {
        Ok(_) => Err(String::from("Expected failure on wrong method type while decoding header")),
        Err(e) => {
            if e.error_type == STUNErrorType::InvalidMethodError {
                Ok(())
            } else {
                Err("Wrong error type, received.".to_string())
            }
        }
    }
}

#[test]
fn stun_header_decode_wrong_magic_number() -> Result<(), String> {
    match STUNHeader::decode_header(&STUN_INCORRECT_MAGIC_NUMBER_HEADER_BINARY) {
        Ok(_) => Err(String::from("Expected failure on wrong magic number type decoding header")),
        Err(e) => {
            if e.error_type == STUNErrorType::MagicCookieMismatchError {
                Ok(())
            } else {
                Err("Wrong error type, received.".to_string())
            }
        }
    }
}

#[test]
fn stun_header_decode_smaller_header() -> Result<(), String> {
    match STUNHeader::decode_header(&STUN_SMALLER_HEADER_BINARY) {
        Ok(_) => Err(String::from("Expected failure on wrong magic number type decoding header")),
        Err(e) => {
            if e.error_type == STUNErrorType::WrongSizeError {
                Ok(())
            } else {
                println!("{:?}", e);
                Err("Wrong error type, received.".to_string())
            }
        }
    }
}

#[test]
fn stun_header_decode_binding_request() {
    let mut position: usize = 0;
    match STUNHeader::decode(&STUN_REQUEST_BINDING_HEADER_BINARY, &mut position, &mut None) {
        Ok(header_obj) => {
            let mut expected = STUNHeader::new(
                STUNMessageClass::Request,
                STUNMessageMethod::Binding,
                Some(EXAMPLE_STUN_REQUEST_TRANSACTION_ID),
            );
            expected.increment_message_length(88);
            assert_eq!(header_obj, expected);
            assert_eq!(position, 20);
        }
        Err(e) => {
            println!("{:?}", e);
            panic!("received error, expected success on decoding header");
        }
    }
}

#[test]
fn testing_stun_header_new_method() {
    let random_id_header = STUNHeader::new(STUNMessageClass::Request, STUNMessageMethod::Binding, None);
    assert!(
        random_id_header.message_class == STUNMessageClass::Request
            && random_id_header.message_method == STUNMessageMethod::Binding
            && random_id_header.message_length == 0
            && random_id_header.magic_number == STUN_5389_MAGIC_NUMBER_U32
    );

    let id: [u8; 12] = rand::random();
    let mut known_id_header = STUNHeader::new(STUNMessageClass::Request, STUNMessageMethod::Binding, Some(id));
    known_id_header.increment_message_length(0b0100);
    assert!(
        known_id_header.message_class == STUNMessageClass::Request
            && known_id_header.message_method == STUNMessageMethod::Binding
            && known_id_header.message_length == 4
            && known_id_header.magic_number == STUN_5389_MAGIC_NUMBER_U32
            && known_id_header.transaction_id == id
    );
}

#[test]
fn header_encode_rfc5769_prefix() {
    let mut header = STUNHeader::new(STUNMessageClass::Request, STUNMessageMethod::Binding, Some(EXAMPLE_STUN_REQUEST_TRANSACTION_ID));
    header.increment_message_length(0x58);
    let mut bin: Vec<u8> = Vec::new();
    header.encode_header(&mut bin);
    assert_eq!(
        bin,
        vec![
            0x00, 0x01, 0x00, 0x58, 0x21, 0x12, 0xA4, 0x42, 0xb7, 0xe7, 0xa7, 0x01, 0xbc, 0x34, 0xd6, 0x86, 0xfa,
            0x87, 0xdf, 0xae
        ]
    );
}

#[test]
fn header_decode_unknown_method() {
    let mut bin = STUN_REQUEST_BINDING_HEADER_BINARY.to_vec();
    bin[1] = 0x03;
    let e = STUNHeader::decode_header(&bin).unwrap_err();
    assert_eq!(e.error_type, STUNErrorType::InvalidMethodError);
}

#[test]
fn header_decode_empty_input_is_wrong_size() {
    let e = STUNHeader::decode_header(&[]).unwrap_err();
    assert_eq!(e.error_type, STUNErrorType::WrongSizeError);
}

#[test]
fn random_transaction_ids_differ() {
    let a = STUNHeader::new(STUNMessageClass::Request, STUNMessageMethod::Binding, None);
    let b = STUNHeader::new(STUNMessageClass::Request, STUNMessageMethod::Binding, None);
    assert_ne!(a.transaction_id, b.transaction_id);
}
