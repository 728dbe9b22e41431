use cherry_stun::add;
use cherry_stun::broker::{
    classify_request, room_name_or_default, BrokerRequest, CeXError, CeXErrorType, CeXStep, Error, Ping,
    SDPAnswerResponse, SDPOfferResponse,
};
use cherry_stun::context::STUNContext;
use cherry_stun::error::{STUNError, STUNErrorType, STUNStep};
use cherry_stun::two_vector_are_identical;

#[test]
fn it_works() {
    let result = add(2, 2);
    assert_eq!(result, 4);
}

#[test]
fn vectors_compare_by_content() {
    assert!(two_vector_are_identical(vec![1, 2, 3], vec![1, 2, 3]));
    assert!(!two_vector_are_identical(vec![1, 2, 3], vec![1, 2, 4]));
    assert!(!two_vector_are_identical(vec![1, 2, 3], vec![1, 2]));
    assert!(two_vector_are_identical(vec![], vec![]));
}

#[test]
fn stun_error_accessors() {
    let mut e = STUNError::new(STUNStep::STUNDecode, STUNErrorType::ReadError, "m".to_string());
    e.set_stun_error_step(STUNStep::STUNNetwork);
    e.get_stun_error_type(STUNErrorType::NetworkTimeoutError);
    e.get_stun_error_message("n".to_string());
    assert_eq!(STUNError::set_stun_error_type(e.clone()), STUNErrorType::NetworkTimeoutError);
    assert_eq!(STUNError::get_stun_error_step(e.clone()), STUNStep::STUNNetwork);
    assert_eq!(STUNError::set_stun_error_message(e), "n");
}

#[test]
fn new_context_is_empty() {
    let c = STUNContext::new();
    assert!(c.username.is_none() && c.password.is_none() && c.nonce.is_none() && c.realm.is_none());
}

#[test]
fn broker_error_reply() {
    let stack = CeXError::new(CeXStep::CeXRedis, CeXErrorType::ConnectError, "down".to_string());
    let mut e = Error::new(500, "failed".to_string(), Some(stack));
    assert_eq!(e.status, "false");
    e.set_error_code(404);
    e.set_error_message("missing".to_string());
    assert_eq!(Error::get_error_code(Error::new(1, String::new(), None)), 1);
    assert_eq!(e.code, 404);
    assert_eq!(Error::get_error_message(Error::new(1, "x".to_string(), None)), "x");
    let s = Error::get_error_stack(e).unwrap();
    assert_eq!(s.error_type, CeXErrorType::ConnectError);
    let mut c = CeXError::new(CeXStep::CeXRedis, CeXErrorType::ReadError, "a".to_string());
    c.get_cex_error_type(CeXErrorType::WriteError);
    c.get_cex_error_message("b".to_string());
    c.set_cex_error_step(CeXStep::CeXRequestProcessing);
    assert_eq!(CeXError::get_cex_error_step(c.clone()), CeXStep::CeXRequestProcessing);
    assert_eq!(CeXError::set_stun_error_type(c.clone()), CeXErrorType::WriteError);
    assert_eq!(CeXError::set_cex_error_message(c), "b");
}

#[test]
fn broker_sdp_relay() {
    let offer = SDPOfferResponse::send_offer("a".to_string(), "b".to_string(), vec![1, 2]);
    assert_eq!(offer.message_type, "sdpOffer");
    let relayed = offer.send_offer_from_self("c".to_string());
    assert_eq!(relayed.from, "c");
    assert_eq!(relayed.to, "b");
    assert_eq!(relayed.offer, vec![1, 2]);
    let answer = SDPAnswerResponse {
        message_type: String::new(),
        from: String::new(),
        to: "a".to_string(),
        answer: vec![9],
    };
    let relayed = answer.send_answer_from_self("b".to_string());
    assert_eq!(relayed.message_type, "sdpAnswer");
    assert_eq!(relayed.from, "b");
    assert_eq!(relayed.answer, vec![9]);
}

#[test]
fn ping_reply() {
    let mut p = Ping::new("id1".to_string(), "01/01/2024 00:00:00".to_string());
    assert_eq!(p.message, "pong");
    p.set_ping_id("id2".to_string());
    p.get_ping_time("t".to_string());
    p.get_ping_message("m".to_string());
    assert_eq!(Ping::get_ping_id(p.clone()), "id2");
    assert_eq!(Ping::set_ping_time(p.clone()), "t");
    assert_eq!(Ping::set_ping_message(p), "m");
}

#[test]
fn broker_dispatch_by_message_type() {
    assert_eq!(classify_request(Some("createRoom")).unwrap(), BrokerRequest::CreateRoom);
    assert_eq!(classify_request(Some("joinRoom")).unwrap(), BrokerRequest::JoinRoom);
    assert_eq!(classify_request(Some("sdpOffer")).unwrap(), BrokerRequest::SdpOffer);
    assert_eq!(classify_request(Some("sdpAnswer")).unwrap(), BrokerRequest::SdpAnswer);
    assert_eq!(classify_request(Some("ping")).unwrap(), BrokerRequest::Ping);
    assert_eq!(classify_request(Some("other")).unwrap(), BrokerRequest::Unknown);
    let e = classify_request(None).unwrap_err();
    assert_eq!(e.code, 100);
    assert_eq!(room_name_or_default(None), "Just another room");
    assert_eq!(room_name_or_default(Some("r".to_string())), "r");
}
