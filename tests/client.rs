use cherry_stun::address::STUNSocketAddr;
use cherry_stun::attributes::{STUNAttributeType, STUNAttributesContent};
use cherry_stun::client::{
    find_other_address, find_xor_mapped_address, hole_punching_verdict, mapping_after_test_three,
    mapping_after_test_two, nat_test_one, nat_test_two_server, server_reflexive_address, ReceiveOutcome,
    STUNNatMappingType, StunClient,
};
use cherry_stun::error::STUNErrorType;
use cherry_stun::header::{STUNMessageClass, STUNMessageMethod};
use cherry_stun::message::STUN;

const PRIMARY: STUNSocketAddr = STUNSocketAddr::V4 { ip: [198, 51, 100, 1], port: 3478 };
const OTHER: STUNSocketAddr = STUNSocketAddr::V4 { ip: [198, 51, 100, 2], port: 3479 };
const REFLEX: STUNSocketAddr = STUNSocketAddr::V4 { ip: [203, 0, 113, 7], port: 40000 };

/// A server that answers every binding request with the same reflexive
/// address and its other address.
fn simulated_answer(tid: [u8; 12]) -> Vec<u8> {
    let mut m = STUN::new_default(STUNMessageClass::ResponseSuccess, STUNMessageMethod::Binding, Some(tid));
    m.body.add_new_attribute(STUNAttributesContent::XORMappedAddress { address: REFLEX }, STUNAttributeType::XORMappedAddress, 0);
    m.body.add_new_attribute(STUNAttributesContent::OtherAddress { address: OTHER }, STUNAttributeType::OtherAddress, 0);
    let mut out: Vec<u8> = Vec::new();
    m.encode_message(&mut out, None).unwrap();
    out
}

fn exchange(server: STUNSocketAddr) -> STUN {
    let client = StunClient::new(server);
    let request = client.binding_request(None);
    let tid = request.header.transaction_id;
    let answer = simulated_answer(tid);
    match client.handle_datagram(tid, &server, &answer, &mut None) {
        ReceiveOutcome::Accept(m) => m,
        other => panic!("unexpected outcome {:?}", other),
    }
}

#[test]
fn nat_discovery_endpoint_independent() {
    let first = exchange(PRIMARY);
    let (other, reflex_one) = nat_test_one(&first).unwrap();
    assert_eq!(other, OTHER);
    assert_eq!(reflex_one, Some(REFLEX));
    let second_server = nat_test_two_server(&other, &PRIMARY);
    assert_eq!(second_server, STUNSocketAddr::V4 { ip: [198, 51, 100, 2], port: 3478 });
    let second = exchange(second_server);
    let reflex_two = find_xor_mapped_address(&second);
    assert_eq!(mapping_after_test_two(&reflex_one, &reflex_two), Some(STUNNatMappingType::EndpointIndependent));
    assert!(hole_punching_verdict(STUNNatMappingType::EndpointIndependent).is_ok());
}

#[test]
fn nat_discovery_dependent_mappings() {
    let a = Some(REFLEX);
    let b = Some(STUNSocketAddr::V4 { ip: [203, 0, 113, 7], port: 40001 });
    let c = Some(STUNSocketAddr::V4 { ip: [203, 0, 113, 7], port: 40002 });
    assert_eq!(mapping_after_test_two(&a, &b), None);
    assert_eq!(mapping_after_test_three(&b, &b), STUNNatMappingType::AddressDependant);
    assert_eq!(mapping_after_test_three(&b, &c), STUNNatMappingType::PortDependant);
    let e = hole_punching_verdict(STUNNatMappingType::PortDependant).unwrap_err();
    assert_eq!(e.error_type, STUNErrorType::UnsupportedNATType);
}

#[test]
fn nat_test_one_needs_other_address() {
    let m = STUN::new_default(STUNMessageClass::ResponseSuccess, STUNMessageMethod::Binding, Some([1u8; 12]));
    let e = nat_test_one(&m).unwrap_err();
    assert_eq!(e.error_type, STUNErrorType::DidNotFindExpectedAttribute);
    assert_eq!(find_other_address(&m), None);
    let e = server_reflexive_address(&m).unwrap_err();
    assert_eq!(e.error_type, STUNErrorType::DidNotFindExpectedAttribute);
}

#[test]
fn server_reflexive_prefers_first_mapped_attribute() {
    let mut m = STUN::new_default(STUNMessageClass::ResponseSuccess, STUNMessageMethod::Binding, Some([1u8; 12]));
    m.body.add_new_attribute(STUNAttributesContent::OtherAddress { address: OTHER }, STUNAttributeType::OtherAddress, 0);
    m.body.add_new_attribute(STUNAttributesContent::MappedAddress { address: PRIMARY }, STUNAttributeType::MappedAddress, 0);
    m.body.add_new_attribute(STUNAttributesContent::XORMappedAddress { address: REFLEX }, STUNAttributeType::XORMappedAddress, 0);
    assert_eq!(server_reflexive_address(&m).unwrap(), PRIMARY);
    assert_eq!(find_xor_mapped_address(&m), Some(REFLEX));
}

#[test]
fn datagrams_from_elsewhere_or_other_transactions_are_ignored() {
    let client = StunClient::new(PRIMARY);
    let tid = [7u8; 12];
    let answer = simulated_answer(tid);
    assert!(matches!(client.handle_datagram(tid, &OTHER, &answer, &mut None), ReceiveOutcome::Ignore));
    assert!(matches!(client.handle_datagram([8u8; 12], &PRIMARY, &answer, &mut None), ReceiveOutcome::Ignore));
    match client.handle_datagram(tid, &PRIMARY, &answer[..10], &mut None) {
        ReceiveOutcome::Fail(e) => assert_eq!(e.error_type, STUNErrorType::WrongSizeError),
        other => panic!("unexpected outcome {:?}", other),
    }
}

#[test]
fn retry_wait_is_cut_to_deadline() {
    let mut client = StunClient::new(PRIMARY);
    assert_eq!(client.timeout, 10_000);
    assert_eq!(client.retry_interval, 1_000);
    assert_eq!(client.retry_wait(0, 10_000), Some(1_000));
    assert_eq!(client.retry_wait(9_700, 10_000), Some(300));
    assert_eq!(client.retry_wait(10_000, 10_000), None);
    client.set_retry_interval(50);
    client.set_timeout(200);
    assert_eq!(client.retry_wait(0, 200), Some(50));
    assert_eq!(client.timeout, 200);
}

#[test]
fn binding_request_carries_software() {
    let mut client = StunClient::new(PRIMARY);
    let m = client.binding_request(Some([3u8; 12]));
    assert_eq!(m.header.message_class, STUNMessageClass::Request);
    assert_eq!(m.body.attributes.len(), 1);
    assert_eq!(m.body.attributes[0].value, STUNAttributesContent::Software { software: "SimpleRustStunClient".to_string() });
    client.set_software(None);
    assert_eq!(client.binding_request(Some([3u8; 12])).body.attributes.len(), 0);
}
