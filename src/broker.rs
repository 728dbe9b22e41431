use vstd::prelude::*;

verus! {

/// The stage of the signaling broker at which an error arose.
#[derive(Debug, Clone, Copy, PartialEq, Eq, Structural)]
pub enum CeXStep {
    CeXRedis,
    CeXRequestProcessing,
}

/// What went wrong in the signaling broker.
#[derive(Debug, Clone, Copy, PartialEq, Eq, Structural)]
pub enum CeXErrorType {
    ReadError,
    WriteError,
    ConnectError,
    SerDeError,
}

/// An error of the signaling broker: step, kind and message.
#[derive(Debug, Clone)]
pub struct CeXError {
    pub step: CeXStep,
    pub error_type: CeXErrorType,
    pub message: String,
}

impl CeXError {
    pub fn new(step: CeXStep, err_type: CeXErrorType, message: String) -> (r: Self)
        ensures
            r.step == step,
            r.error_type == err_type,
            r.message == message,
    {
        CeXError { step, error_type: err_type, message }
    }

    pub fn get_cex_error_step(s: Self) -> (r: CeXStep)
        ensures
            r == s.step,
    {
        s.step
    }

    pub fn set_cex_error_step(&mut self, step: CeXStep)
        ensures
            final(self).step == step,
            final(self).error_type == old(self).error_type,
            final(self).message == old(self).message,
    {
        self.step = step;
    }

    /// Takes the message out of the error.
    pub fn set_cex_error_message(s: Self) -> (r: String)
        ensures
            r == s.message,
    {
        s.message
    }

    /// Replaces the message of the error.
    pub fn get_cex_error_message(&mut self, message: String)
        ensures
            final(self).message == message,
            final(self).step == old(self).step,
            final(self).error_type == old(self).error_type,
    {
        self.message = message;
    }

    /// Takes the kind out of the error.
    pub fn set_stun_error_type(s: Self) -> (r: CeXErrorType)
        ensures
            r == s.error_type,
    {
        s.error_type
    }

    /// Replaces the kind of the error.
    pub fn get_cex_error_type(&mut self, error_type: CeXErrorType)
        ensures
            final(self).error_type == error_type,
            final(self).step == old(self).step,
            final(self).message == old(self).message,
    {
        self.error_type = error_type;
    }
}

/// The error reply of the broker: always with status "false".
#[derive(Debug, Clone)]
pub struct Error {
    pub status: String,
    pub code: u16,
    pub message: String,
    pub stack: Option<CeXError>,
}

impl Error {
    pub fn new(code: u16, message: String, stack: Option<CeXError>) -> (r: Self)
        ensures
            r.status@ == "false"@,
            r.code == code,
            r.message == message,
            r.stack == stack,
    {
        Error { status: "false".to_owned(), code, message, stack }
    }

    pub fn get_error_code(s: Self) -> (r: u16)
        ensures
            r == s.code,
    {
        s.code
    }

    pub fn set_error_code(&mut self, code: u16)
        ensures
            final(self).code == code,
            final(self).status == old(self).status,
            final(self).message == old(self).message,
            final(self).stack == old(self).stack,
    {
        self.code = code;
    }

    pub fn get_error_message(s: Self) -> (r: String)
        ensures
            r == s.message,
    {
        s.message
    }

    pub fn set_error_message(&mut self, message: String)
        ensures
            final(self).message == message,
            final(self).status == old(self).status,
            final(self).code == old(self).code,
            final(self).stack == old(self).stack,
    {
        self.message = message;
    }

    pub fn get_error_stack(s: Self) -> (r: Option<CeXError>)
        ensures
            r == s.stack,
    {
        s.stack
    }
}

/// The reply to a ping: the caller's id, the time it was answered and "pong".
#[derive(Debug, Clone)]
pub struct Ping {
    pub id: String,
    pub time: String,
    pub message: String,
}

impl Ping {
    /// A reply stamped with `time`, read from the clock by the caller.
    pub fn new(id: String, time: String) -> (r: Self)
        ensures
            r.id == id,
            r.time == time,
            r.message@ == "pong"@,
    {
        Ping { id, time, message: "pong".to_owned() }
    }

    pub fn get_ping_id(s: Self) -> (r: String)
        ensures
            r == s.id,
    {
        s.id
    }

    pub fn set_ping_id(&mut self, id: String)
        ensures
            final(self).id == id,
            final(self).time == old(self).time,
            final(self).message == old(self).message,
    {
        self.id = id;
    }

    /// Takes the time out of the reply.
    pub fn set_ping_time(s: Self) -> (r: String)
        ensures
            r == s.time,
    {
        s.time
    }

    /// Replaces the time of the reply.
    pub fn get_ping_time(&mut self, time: String)
        ensures
            final(self).time == time,
            final(self).id == old(self).id,
            final(self).message == old(self).message,
    {
        self.time = time;
    }

    /// Takes the message out of the reply.
    pub fn set_ping_message(s: Self) -> (r: String)
        ensures
            r == s.message,
    {
        s.message
    }

    /// Replaces the message of the reply.
    pub fn get_ping_message(&mut self, message: String)
        ensures
            final(self).message == message,
            final(self).id == old(self).id,
            final(self).time == old(self).time,
    {
        self.message = message;
    }
}

/// A room: the clients in it, its name and its id.
#[derive(Debug, Clone)]
pub struct Room {
    pub clients: Vec<String>,
    pub room_name: String,
    pub room_id: String,
}

/// The reply to the creation of a room.
#[derive(Debug, Clone)]
pub struct RoomCreateResponse {
    pub message_type: String,
    pub status: String,
    pub room_id: String,
}

/// A request to join a room.
#[derive(Debug, Clone)]
pub struct RoomJoinRequest {
    pub room_id: String,
}

/// The reply to joining a room: the users in it.
#[derive(Debug, Clone)]
pub struct RoomJoinResponse {
    pub message_type: String,
    pub status: String,
    pub room_id: String,
    pub users: Vec<String>,
}

/// An SDP offer relayed from one client to another.
#[derive(Debug, Clone)]
pub struct SDPOfferResponse {
    pub message_type: String,
    pub from: String,
    pub to: String,
    pub offer: Vec<u8>,
}

/// An SDP answer relayed from one client to another.
#[derive(Debug, Clone)]
pub struct SDPAnswerResponse {
    pub message_type: String,
    pub from: String,
    pub to: String,
    pub answer: Vec<u8>,
}

impl SDPAnswerResponse {
    /// The answer as sent on by the client `id`.
    pub fn send_answer_from_self(self, id: String) -> (r: Self)
        ensures
            r.message_type@ == "sdpAnswer"@,
            r.from == id,
            r.to == self.to,
            r.answer == self.answer,
    {
        SDPAnswerResponse { message_type: "sdpAnswer".to_owned(), from: id, to: self.to, answer: self.answer }
    }
}

impl SDPOfferResponse {
    /// An offer from `id` to `to`.
    pub fn send_offer(id: String, to: String, offer: Vec<u8>) -> (r: Self)
        ensures
            r.message_type@ == "sdpOffer"@,
            r.from == id,
            r.to == to,
            r.offer == offer,
    {
        SDPOfferResponse { message_type: "sdpOffer".to_owned(), from: id, to, offer }
    }

    /// The offer as sent on by the client `id`.
    pub fn send_offer_from_self(self, id: String) -> (r: Self)
        ensures
            r.message_type@ == "sdpOffer"@,
            r.from == id,
            r.to == self.to,
            r.offer == self.offer,
    {
        SDPOfferResponse { message_type: "sdpOffer".to_owned(), from: id, to: self.to, offer: self.offer }
    }
}

/// The kinds of ICE candidates.
#[derive(Debug, Clone, Copy, PartialEq, Eq, Structural)]
pub enum CandidateType {
    Host,
    ServerReflexive,
    PeerReflexive,
    Relayed,
}

/// The requests a client sends over the signaling socket, by their
/// `message_type`.
#[derive(Debug, Clone, Copy, PartialEq, Eq, Structural)]
pub enum BrokerRequest {
    CreateRoom,
    JoinRoom,
    SdpOffer,
    SdpAnswer,
    Ping,
    Unknown,
}

/// The request a `message_type` names.
pub open spec fn request_of(t: Seq<char>) -> BrokerRequest {
    if t == "createRoom"@ {
        BrokerRequest::CreateRoom
    } else if t == "joinRoom"@ {
        BrokerRequest::JoinRoom
    } else if t == "sdpOffer"@ {
        BrokerRequest::SdpOffer
    } else if t == "sdpAnswer"@ {
        BrokerRequest::SdpAnswer
    } else if t == "ping"@ {
        BrokerRequest::Ping
    } else {
        BrokerRequest::Unknown
    }
}

/// Whether two strings hold the same characters.
fn same_text(a: &str, b: &str) -> (r: bool)
    ensures
        r == (a@ == b@),
{
    let x = a.as_bytes();
    let y = b.as_bytes();
    proof {
        vstd::utf8::encode_utf8_decode_utf8(a@);
        vstd::utf8::encode_utf8_decode_utf8(b@);
    }
    crate::bytes::same_bytes(x, y)
}

/// Which handler a request goes to; a request without a `message_type`
/// gets the error reply with code 100.
pub fn classify_request(message_type: Option<&str>) -> (r: Result<BrokerRequest, Error>)
    ensures
        match message_type {
            Some(t) => r == Ok::<BrokerRequest, Error>(request_of(t@)),
            None => r matches Err(e) && e.code == 100 && e.stack is None,
        },
{
    match message_type {
        Some(t) => {
            if same_text(t, "createRoom") {
                Ok(BrokerRequest::CreateRoom)
            } else if same_text(t, "joinRoom") {
                Ok(BrokerRequest::JoinRoom)
            } else if same_text(t, "sdpOffer") {
                Ok(BrokerRequest::SdpOffer)
            } else if same_text(t, "sdpAnswer") {
                Ok(BrokerRequest::SdpAnswer)
            } else if same_text(t, "ping") {
                Ok(BrokerRequest::Ping)
            } else {
                Ok(BrokerRequest::Unknown)
            }
        },
        None => Err(Error::new(100, "type is a compulsory field in requests".to_owned(), None)),
    }
}

/// The name of a new room: the one asked for, else "Just another room".
pub fn room_name_or_default(room_name: Option<String>) -> (r: String)
    ensures
        room_name is Some ==> r == room_name->Some_0,
        room_name is None ==> r@ == "Just another room"@,
{
    match room_name {
        Some(n) => n,
        None => "Just another room".to_owned(),
    }
}

} // verus!
